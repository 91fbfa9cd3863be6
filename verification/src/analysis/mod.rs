//! Heuristics that look for signs of a cell-site simulator, and the
//! bookkeeping around them.

pub mod mcc_mnc;
pub mod analyzer;
pub mod attach_reject_storm;
pub mod auth_anomaly;
pub mod cell_info;
pub mod imsi_paging;
pub mod information_element;
pub mod type0_sms;
