//! Detection heuristics and report bookkeeping for cellular IMSI-catcher
//! analysis.

use vstd::prelude::*;

pub mod analysis;
pub mod daemon;
pub mod diag;
pub mod text;

verus! {

/// The analysis report schema version.
pub const REPORT_VERSION: u32 = 4;

} // verus!
