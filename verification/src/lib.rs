//! Decoder for EDID display-identification blobs and their extension blocks.
//!
//! An EDID blob is a 128-byte base block optionally followed by 128-byte
//! extension blocks (CTA-861, DisplayID, and others).  [`info::Info::parse_edid`]
//! validates the buffer and decodes it once into an immutable object graph;
//! the modules below hold the typed model for each layer of the format.

pub mod bytes;
pub mod cta;
pub mod cvt;
pub mod displayid;
pub mod displayid2;
pub mod dmt;
pub mod edid;
pub mod gtf;
pub mod info;
pub mod iter;
