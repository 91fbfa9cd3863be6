//! Bodies of DIAG log packets.

pub mod ml1;
