//! Input selectors for the VESA Generalized Timing Formula (GTF) version
//! 1.1.
//!
//! The GTF computation itself works on fractional frequencies and lives
//! with the presentation layer; the decode model only fixes the parameter
//! vocabulary.

use vstd::prelude::*;

verus! {

/// Which frequency parameter a GTF request specifies.
#[derive(Debug, Clone, Copy, PartialEq, Eq)]
pub enum IpParam {
    /// Vertical frame frequency (Hz).
    VFrameRate,
    /// Horizontal frequency (kHz).
    HFreq,
    /// Pixel clock rate (MHz).
    HPixels,
}

} // verus!
