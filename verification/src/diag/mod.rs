//! Qualcomm DIAG log packet decoding.

pub mod diaglog;
