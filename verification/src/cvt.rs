//! Input selectors for the VESA Coordinated Video Timings (CVT) standard
//! version 2.0.
//!
//! The CVT computation itself works on fractional frequencies and lives
//! with the presentation layer; the decode model only fixes the
//! reduced-blanking vocabulary.

use vstd::prelude::*;

verus! {

/// Which reduced-blanking variant a CVT request uses.
#[derive(Debug, Clone, Copy, PartialEq, Eq)]
pub enum ReducedBlankingVersion {
    NONE,
    V1,
    V2,
    V3,
}

} // verus!
