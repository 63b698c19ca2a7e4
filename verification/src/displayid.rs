//! Decoder for VESA DisplayID version 1.3 sections carried as EDID
//! extension blocks.
//!
//! A DisplayID section is a small header (version, payload size, product
//! type, extension count) followed by its own tag-length data blocks and a
//! section checksum.

use vstd::prelude::*;

use crate::bytes::{bit, le16, le24, le32, spec_bit, spec_le16, spec_le24, spec_le32};

verus! {

/// Product type identifier, defined in section 2.3.
#[derive(Debug, Clone, Copy, PartialEq, Eq)]
pub enum ProductType {
    Extension,
    Test,
    DisplayPanel,
    StandaloneDisplay,
    TvReceiver,
    Repeater,
    DirectDrive,
}

/// DisplayID data block tag.
#[derive(Debug, Clone, Copy, PartialEq, Eq)]
pub enum DataBlockTag {
    ProductId,
    DisplayParams,
    ColorCharact,
    TypeITiming,
    TypeIITiming,
    TypeIIITiming,
    TypIVTiming,
    VesaTiming,
    CeaTiming,
    TimingRangeLimits,
    ProductSerial,
    AsciiString,
    DisplayDeviceData,
    InterfacePowerSeq,
    TransferCharact,
    DisplayInterface,
    StereoDisplayInterface,
    TypeVTiming,
    TiledDisplayTopo,
    TypeVITiming,
}

/// Display parameters feature support flags, defined in section 4.2.3.
#[derive(Debug, Clone, Copy, PartialEq, Eq)]
pub struct DisplayParamsFeatures {
    pub audio: bool,
    pub separate_audio_inputs: bool,
    pub audio_input_override: bool,
    pub power_management: bool,
    pub fixed_timing: bool,
    pub fixed_pixel_format: bool,
    pub ai: bool,
    pub deinterlacing: bool,
}

/// Display parameters data block, defined in section 4.2.
///
/// Image sizes are in 0.1 mm units; the gamma byte uses the same
/// "value times one hundred minus one hundred" storage and 0xFF absent
/// sentinel as the EDID base block; the aspect ratio byte stores the ratio
/// times one hundred minus one hundred as well.
#[derive(Debug, Clone, Copy, PartialEq, Eq)]
pub struct DisplayParams {
    pub horiz_image_tenths_mm: i32,
    pub vert_image_tenths_mm: i32,
    pub horiz_pixels: i32,
    pub vert_pixels: i32,
    pub features: Option<DisplayParamsFeatures>,
    pub gamma_hundredths: Option<u16>,
    pub aspect_ratio_hundredths: u16,
    pub bits_per_color_overall: i32,
    pub bits_per_color_native: i32,
}

#[derive(Debug, Clone, Copy, PartialEq, Eq)]
pub enum TypeITimingStereo3d {
    Never,
    Always,
    User,
}

#[derive(Debug, Clone, Copy, PartialEq, Eq)]
#[allow(non_camel_case_types)]
pub enum TypeITimingAspectRatio {
    _1_1,
    _5_4,
    _4_3,
    _15_9,
    _16_9,
    _16_10,
    _64_27,
    _256_135,
    Undefined,
}

#[derive(Debug, Clone, Copy, PartialEq, Eq)]
pub enum TypeITimingSyncPolarity {
    Negative,
    Positive,
}

/// Type I timing, defined in section 4.4.1; the same 20-byte layout also
/// carries type II and type VII timings.
#[derive(Debug, Clone, Copy, PartialEq, Eq)]
pub struct TypeITiming {
    pub pixel_clock_khz: i64,
    pub preferred: bool,
    pub stereo_3d: TypeITimingStereo3d,
    pub interlaced: bool,
    pub aspect_ratio: TypeITimingAspectRatio,
    pub horiz_active: i32,
    pub vert_active: i32,
    pub horiz_blank: i32,
    pub vert_blank: i32,
    pub horiz_offset: i32,
    pub vert_offset: i32,
    pub horiz_sync_width: i32,
    pub vert_sync_width: i32,
    pub horiz_sync_polarity: TypeITimingSyncPolarity,
    pub vert_sync_polarity: TypeITimingSyncPolarity,
}

/// The 20-byte timing layout shared by types I, II and VII.
#[allow(dead_code)]
pub type TypeIIIVIITiming = TypeITiming;

/// Behavior when more than one tile and fewer than all tiles receive an
/// image.
#[derive(Debug, Clone, Copy, PartialEq, Eq)]
pub enum TiledTopoMissingRecvBehavior {
    Undef,
    TileOnly,
}

/// Behavior of a tile that is the only one receiving an image.
#[derive(Debug, Clone, Copy, PartialEq, Eq)]
pub enum TiledTopoSingleRecvBehavior {
    Undef,
    TileOnly,
    Scaled,
    Cloned,
}

/// Tiled display capabilities.
#[derive(Debug, Clone, Copy, PartialEq, Eq)]
pub struct TiledTopoCaps {
    pub single_enclosure: bool,
    pub missing_recv_behavior: TiledTopoMissingRecvBehavior,
    pub single_recv_behavior: TiledTopoSingleRecvBehavior,
}

/// Tiled display bezel information, in tenths of pixels.
#[derive(Debug, Clone, Copy, PartialEq, Eq)]
pub struct TiledTopoBezel {
    pub top_tenths_px: i32,
    pub bottom_tenths_px: i32,
    pub right_tenths_px: i32,
    pub left_tenths_px: i32,
}

/// Tiled display topology, defined in section 4.14.
///
/// Tile locations are the raw 1-based coordinates; presentation layers
/// conventionally display them 0-based.  The vendor is three packed 5-bit
/// letters, the scheme the EDID manufacturer code uses.
#[derive(Debug, Clone, Copy, PartialEq, Eq)]
pub struct TiledTopo {
    pub caps: Option<TiledTopoCaps>,
    pub total_horiz_tiles: i32,
    pub total_vert_tiles: i32,
    pub horiz_tile_location: i32,
    pub vert_tile_location: i32,
    pub horiz_tile_pixels: i32,
    pub vert_tile_lines: i32,
    pub bezel: Option<TiledTopoBezel>,
    pub vendor_id: [char; 3],
    pub product_code: u16,
    pub serial_number: u32,
}

// ---------------------------------------------------------------------------
// Payload decoders.
// ---------------------------------------------------------------------------

pub open spec fn spec_product_type(v: u8) -> Option<ProductType> {
    if v == 0 {
        Some(ProductType::Extension)
    } else if v == 1 {
        Some(ProductType::Test)
    } else if v == 2 {
        Some(ProductType::DisplayPanel)
    } else if v == 3 {
        Some(ProductType::StandaloneDisplay)
    } else if v == 4 {
        Some(ProductType::TvReceiver)
    } else if v == 5 {
        Some(ProductType::Repeater)
    } else if v == 6 {
        Some(ProductType::DirectDrive)
    } else {
        None
    }
}

fn decode_product_type(v: u8) -> (r: Option<ProductType>)
    ensures
        r == spec_product_type(v),
{
    if v == 0 {
        Some(ProductType::Extension)
    } else if v == 1 {
        Some(ProductType::Test)
    } else if v == 2 {
        Some(ProductType::DisplayPanel)
    } else if v == 3 {
        Some(ProductType::StandaloneDisplay)
    } else if v == 4 {
        Some(ProductType::TvReceiver)
    } else if v == 5 {
        Some(ProductType::Repeater)
    } else if v == 6 {
        Some(ProductType::DirectDrive)
    } else {
        None
    }
}

pub open spec fn spec_display_params(d: Seq<u8>, p: int) -> DisplayParams
    recommends
        0 <= p,
        p + 12 <= d.len(),
{
    DisplayParams {
        horiz_image_tenths_mm: spec_le16(d[p], d[p + 1]) as i32,
        vert_image_tenths_mm: spec_le16(d[p + 2], d[p + 3]) as i32,
        horiz_pixels: spec_le16(d[p + 4], d[p + 5]) as i32,
        vert_pixels: spec_le16(d[p + 6], d[p + 7]) as i32,
        features: Some(
            DisplayParamsFeatures {
                audio: spec_bit(d[p + 8], 7),
                separate_audio_inputs: spec_bit(d[p + 8], 6),
                audio_input_override: spec_bit(d[p + 8], 5),
                power_management: spec_bit(d[p + 8], 4),
                fixed_timing: spec_bit(d[p + 8], 3),
                fixed_pixel_format: spec_bit(d[p + 8], 2),
                ai: spec_bit(d[p + 8], 1),
                deinterlacing: spec_bit(d[p + 8], 0),
            },
        ),
        gamma_hundredths: if d[p + 9] == 0xFF {
            None
        } else {
            Some((d[p + 9] + 100) as u16)
        },
        aspect_ratio_hundredths: (d[p + 10] + 100) as u16,
        bits_per_color_overall: (d[p + 11] / 16 + 1) as i32,
        bits_per_color_native: (d[p + 11] % 16 + 1) as i32,
    }
}

fn decode_display_params(d: &[u8], p: usize) -> (r: DisplayParams)
    requires
        p + 12 <= d@.len(),
    ensures
        r == spec_display_params(d@, p as int),
{
    let _n: usize = d.len();
    DisplayParams {
        horiz_image_tenths_mm: le16(d[p], d[p + 1]) as i32,
        vert_image_tenths_mm: le16(d[p + 2], d[p + 3]) as i32,
        horiz_pixels: le16(d[p + 4], d[p + 5]) as i32,
        vert_pixels: le16(d[p + 6], d[p + 7]) as i32,
        features: Some(
            DisplayParamsFeatures {
                audio: bit(d[p + 8], 7),
                separate_audio_inputs: bit(d[p + 8], 6),
                audio_input_override: bit(d[p + 8], 5),
                power_management: bit(d[p + 8], 4),
                fixed_timing: bit(d[p + 8], 3),
                fixed_pixel_format: bit(d[p + 8], 2),
                ai: bit(d[p + 8], 1),
                deinterlacing: bit(d[p + 8], 0),
            },
        ),
        gamma_hundredths: if d[p + 9] == 0xFF {
            None
        } else {
            Some(d[p + 9] as u16 + 100)
        },
        aspect_ratio_hundredths: d[p + 10] as u16 + 100,
        bits_per_color_overall: (d[p + 11] / 16) as i32 + 1,
        bits_per_color_native: (d[p + 11] % 16) as i32 + 1,
    }
}

pub open spec fn spec_type_i_aspect(v: u8) -> TypeITimingAspectRatio
    recommends
        v < 16,
{
    if v == 0 {
        TypeITimingAspectRatio::_1_1
    } else if v == 1 {
        TypeITimingAspectRatio::_5_4
    } else if v == 2 {
        TypeITimingAspectRatio::_4_3
    } else if v == 3 {
        TypeITimingAspectRatio::_15_9
    } else if v == 4 {
        TypeITimingAspectRatio::_16_9
    } else if v == 5 {
        TypeITimingAspectRatio::_16_10
    } else if v == 6 {
        TypeITimingAspectRatio::_64_27
    } else if v == 7 {
        TypeITimingAspectRatio::_256_135
    } else {
        TypeITimingAspectRatio::Undefined
    }
}

pub open spec fn spec_type_i_polarity(set: bool) -> TypeITimingSyncPolarity {
    if set {
        TypeITimingSyncPolarity::Positive
    } else {
        TypeITimingSyncPolarity::Negative
    }
}

/// One 20-byte type I timing: a 3-byte pixel clock in 10 kHz steps and
/// seven two-byte fields, all stored minus one; the sync-offset words carry
/// the sync polarity in their top bit.
pub open spec fn spec_type_i_timing(d: Seq<u8>, p: int) -> TypeITiming
    recommends
        0 <= p,
        p + 20 <= d.len(),
{
    let flags = d[p + 3];
    TypeITiming {
        pixel_clock_khz: ((spec_le24(d[p], d[p + 1], d[p + 2]) + 1) * 10) as i64,
        preferred: spec_bit(flags, 7),
        stereo_3d: if (flags / 32) % 4 == 1 {
            TypeITimingStereo3d::Always
        } else if (flags / 32) % 4 == 2 {
            TypeITimingStereo3d::User
        } else {
            TypeITimingStereo3d::Never
        },
        interlaced: spec_bit(flags, 4),
        aspect_ratio: spec_type_i_aspect(flags % 16),
        horiz_active: (spec_le16(d[p + 4], d[p + 5]) + 1) as i32,
        vert_active: (spec_le16(d[p + 12], d[p + 13]) + 1) as i32,
        horiz_blank: (spec_le16(d[p + 6], d[p + 7]) + 1) as i32,
        vert_blank: (spec_le16(d[p + 14], d[p + 15]) + 1) as i32,
        horiz_offset: (spec_le16(d[p + 8], d[p + 9]) % 0x8000 + 1) as i32,
        vert_offset: (spec_le16(d[p + 16], d[p + 17]) % 0x8000 + 1) as i32,
        horiz_sync_width: (spec_le16(d[p + 10], d[p + 11]) + 1) as i32,
        vert_sync_width: (spec_le16(d[p + 18], d[p + 19]) + 1) as i32,
        horiz_sync_polarity: spec_type_i_polarity(spec_bit(d[p + 9], 7)),
        vert_sync_polarity: spec_type_i_polarity(spec_bit(d[p + 17], 7)),
    }
}

pub(crate) fn decode_type_i_timing(d: &[u8], p: usize) -> (r: TypeITiming)
    requires
        p + 20 <= d@.len(),
    ensures
        r == spec_type_i_timing(d@, p as int),
{
    let _n: usize = d.len();
    let flags = d[p + 3];
    let stereo_sel = (flags / 32) % 4;
    let ar = flags % 16;
    TypeITiming {
        pixel_clock_khz: (le24(d[p], d[p + 1], d[p + 2]) as i64 + 1) * 10,
        preferred: bit(flags, 7),
        stereo_3d: if stereo_sel == 1 {
            TypeITimingStereo3d::Always
        } else if stereo_sel == 2 {
            TypeITimingStereo3d::User
        } else {
            TypeITimingStereo3d::Never
        },
        interlaced: bit(flags, 4),
        aspect_ratio: if ar == 0 {
            TypeITimingAspectRatio::_1_1
        } else if ar == 1 {
            TypeITimingAspectRatio::_5_4
        } else if ar == 2 {
            TypeITimingAspectRatio::_4_3
        } else if ar == 3 {
            TypeITimingAspectRatio::_15_9
        } else if ar == 4 {
            TypeITimingAspectRatio::_16_9
        } else if ar == 5 {
            TypeITimingAspectRatio::_16_10
        } else if ar == 6 {
            TypeITimingAspectRatio::_64_27
        } else if ar == 7 {
            TypeITimingAspectRatio::_256_135
        } else {
            TypeITimingAspectRatio::Undefined
        },
        horiz_active: le16(d[p + 4], d[p + 5]) as i32 + 1,
        vert_active: le16(d[p + 12], d[p + 13]) as i32 + 1,
        horiz_blank: le16(d[p + 6], d[p + 7]) as i32 + 1,
        vert_blank: le16(d[p + 14], d[p + 15]) as i32 + 1,
        horiz_offset: (le16(d[p + 8], d[p + 9]) % 0x8000) as i32 + 1,
        vert_offset: (le16(d[p + 16], d[p + 17]) % 0x8000) as i32 + 1,
        horiz_sync_width: le16(d[p + 10], d[p + 11]) as i32 + 1,
        vert_sync_width: le16(d[p + 18], d[p + 19]) as i32 + 1,
        horiz_sync_polarity: if bit(d[p + 9], 7) {
            TypeITimingSyncPolarity::Positive
        } else {
            TypeITimingSyncPolarity::Negative
        },
        vert_sync_polarity: if bit(d[p + 17], 7) {
            TypeITimingSyncPolarity::Positive
        } else {
            TypeITimingSyncPolarity::Negative
        },
    }
}

/// The consecutive complete 20-byte timings of a type I timing block.
pub open spec fn spec_type_i_timings(d: Seq<u8>, p: int, end: int) -> Seq<TypeITiming>
    recommends
        0 <= p,
        end <= d.len(),
    decreases end - p,
{
    if p + 20 > end {
        Seq::empty()
    } else {
        seq![spec_type_i_timing(d, p)] + spec_type_i_timings(d, p + 20, end)
    }
}

fn decode_type_i_timings(d: &[u8], p: usize, end: usize) -> (r: Vec<TypeITiming>)
    requires
        p <= end <= d@.len(),
    ensures
        r@ == spec_type_i_timings(d@, p as int, end as int),
{
    let _n: usize = d.len();
    let mut out: Vec<TypeITiming> = Vec::new();
    let mut q: usize = p;
    while q < end && end - q >= 20
        invariant
            p <= q <= end <= d@.len(),
            d@.len() <= usize::MAX,
            spec_type_i_timings(d@, p as int, end as int) == out@ + spec_type_i_timings(
                d@,
                q as int,
                end as int,
            ),
        decreases end - q,
    {
        out.push(decode_type_i_timing(d, q));
        q = q + 20;
    }
    proof {
        assert(spec_type_i_timings(d@, q as int, end as int) =~= Seq::<TypeITiming>::empty());
        assert(out@ + Seq::<TypeITiming>::empty() =~= out@);
    }
    out
}

/// The tiled display topology payload (22 bytes).
pub open spec fn spec_tiled_topo(d: Seq<u8>, p: int) -> TiledTopo
    recommends
        0 <= p,
        p + 22 <= d.len(),
{
    let caps = d[p];
    let density = d[p + 8];
    TiledTopo {
        caps: Some(
            TiledTopoCaps {
                single_enclosure: spec_bit(caps, 7),
                missing_recv_behavior: if (caps / 4) % 4 == 0 {
                    TiledTopoMissingRecvBehavior::Undef
                } else {
                    TiledTopoMissingRecvBehavior::TileOnly
                },
                single_recv_behavior: if caps % 4 == 1 {
                    TiledTopoSingleRecvBehavior::TileOnly
                } else if caps % 4 == 2 {
                    TiledTopoSingleRecvBehavior::Scaled
                } else if caps % 4 == 3 {
                    TiledTopoSingleRecvBehavior::Cloned
                } else {
                    TiledTopoSingleRecvBehavior::Undef
                },
            },
        ),
        total_horiz_tiles: ((d[p + 3] / 64) * 16 + d[p + 1] / 16 + 1) as i32,
        total_vert_tiles: (((d[p + 3] / 16) % 4) * 16 + d[p + 1] % 16 + 1) as i32,
        horiz_tile_location: (((d[p + 3] / 4) % 4) * 16 + d[p + 2] / 16 + 1) as i32,
        vert_tile_location: ((d[p + 3] % 4) * 16 + d[p + 2] % 16 + 1) as i32,
        horiz_tile_pixels: (spec_le16(d[p + 4], d[p + 5]) + 1) as i32,
        vert_tile_lines: (spec_le16(d[p + 6], d[p + 7]) + 1) as i32,
        bezel: if density == 0 {
            None
        } else {
            Some(
                TiledTopoBezel {
                    top_tenths_px: (d[p + 9] * density) as i32,
                    bottom_tenths_px: (d[p + 10] * density) as i32,
                    right_tenths_px: (d[p + 11] * density) as i32,
                    left_tenths_px: (d[p + 12] * density) as i32,
                },
            )
        },
        vendor_id: [
            (64 + (d[p + 13] / 4) % 32) as char,
            (64 + ((d[p + 13] % 4) * 8 + d[p + 14] / 32)) as char,
            (64 + d[p + 14] % 32) as char,
        ],
        product_code: spec_le16(d[p + 16], d[p + 17]),
        serial_number: spec_le32(d[p + 18], d[p + 19], d[p + 20], d[p + 21]),
    }
}

fn mul_u8(a: u8, b: u8) -> (r: i32)
    ensures
        r == a as int * b as int,
{
    proof {
        assert(a as int * b as int <= 255 * 255) by (nonlinear_arith)
            requires
                a <= 255,
                b <= 255,
        ;
        assert(a as int * b as int >= 0) by (nonlinear_arith);
    }
    a as i32 * b as i32
}

fn decode_tiled_topo(d: &[u8], p: usize) -> (r: TiledTopo)
    requires
        p + 22 <= d@.len(),
    ensures
        r == spec_tiled_topo(d@, p as int),
{
    let _n: usize = d.len();
    let caps = d[p];
    let density = d[p + 8];
    let mrb = (caps / 4) % 4;
    let srb = caps % 4;
    TiledTopo {
        caps: Some(
            TiledTopoCaps {
                single_enclosure: bit(caps, 7),
                missing_recv_behavior: if mrb == 0 {
                    TiledTopoMissingRecvBehavior::Undef
                } else {
                    TiledTopoMissingRecvBehavior::TileOnly
                },
                single_recv_behavior: if srb == 1 {
                    TiledTopoSingleRecvBehavior::TileOnly
                } else if srb == 2 {
                    TiledTopoSingleRecvBehavior::Scaled
                } else if srb == 3 {
                    TiledTopoSingleRecvBehavior::Cloned
                } else {
                    TiledTopoSingleRecvBehavior::Undef
                },
            },
        ),
        total_horiz_tiles: (d[p + 3] / 64) as i32 * 16 + (d[p + 1] / 16) as i32 + 1,
        total_vert_tiles: ((d[p + 3] / 16) % 4) as i32 * 16 + (d[p + 1] % 16) as i32 + 1,
        horiz_tile_location: ((d[p + 3] / 4) % 4) as i32 * 16 + (d[p + 2] / 16) as i32 + 1,
        vert_tile_location: (d[p + 3] % 4) as i32 * 16 + (d[p + 2] % 16) as i32 + 1,
        horiz_tile_pixels: le16(d[p + 4], d[p + 5]) as i32 + 1,
        vert_tile_lines: le16(d[p + 6], d[p + 7]) as i32 + 1,
        bezel: if density == 0 {
            None
        } else {
            Some(
                TiledTopoBezel {
                    top_tenths_px: mul_u8(d[p + 9], density),
                    bottom_tenths_px: mul_u8(d[p + 10], density),
                    right_tenths_px: mul_u8(d[p + 11], density),
                    left_tenths_px: mul_u8(d[p + 12], density),
                },
            )
        },
        vendor_id: [
            (64 + (d[p + 13] / 4) % 32) as char,
            (64 + ((d[p + 13] % 4) * 8 + d[p + 14] / 32)) as char,
            (64 + d[p + 14] % 32) as char,
        ],
        product_code: le16(d[p + 16], d[p + 17]),
        serial_number: le32(d[p + 18], d[p + 19], d[p + 20], d[p + 21]),
    }
}

// ---------------------------------------------------------------------------
// Data block records and the section walk.
// ---------------------------------------------------------------------------

/// Ghost model of a DisplayID data block.
pub struct DidBlockModel {
    pub tag: DataBlockTag,
    pub display_params: Option<DisplayParams>,
    pub type_i_timings: Option<Seq<TypeITiming>>,
    pub tiled_topo: Option<TiledTopo>,
}

/// A DisplayID data block.  Exactly the payload matching the tag is
/// decoded; blocks this decoder does not interpret keep only their tag.
#[derive(Debug, Clone, PartialEq, Eq)]
pub struct DataBlockRef {
    tag: DataBlockTag,
    display_params: Option<DisplayParams>,
    type_i_timings: Option<Vec<TypeITiming>>,
    tiled_topo: Option<TiledTopo>,
}

impl DataBlockRef {
    pub closed spec fn model(&self) -> DidBlockModel {
        DidBlockModel {
            tag: self.tag,
            display_params: self.display_params,
            type_i_timings: match self.type_i_timings {
                Some(ref v) => Some(v@),
                None => None,
            },
            tiled_topo: self.tiled_topo,
        }
    }

    /// Tag of this data block.
    pub fn tag(&self) -> (r: DataBlockTag)
        ensures
            r == self.model().tag,
    {
        self.tag
    }

    /// The display parameters; `None` unless the tag is `DisplayParams`.
    pub fn display_params(&self) -> (r: Option<DisplayParams>)
        ensures
            r == self.model().display_params,
    {
        self.display_params
    }

    /// The type I timings; `None` unless the tag is `TypeITiming`.
    pub fn type_i_timings(&self) -> (r: Option<&Vec<TypeITiming>>)
        ensures
            r is Some <==> self.model().type_i_timings is Some,
            r is Some ==> r->0@ == self.model().type_i_timings->0,
    {
        match &self.type_i_timings {
            Some(v) => Some(v),
            None => None,
        }
    }

    /// The tiled display topology; `None` unless the tag is
    /// `TiledDisplayTopo`.
    pub fn tiled_topo(&self) -> (r: Option<TiledTopo>)
        ensures
            r == self.model().tiled_topo,
    {
        self.tiled_topo
    }
}

pub open spec fn spec_did_tag(t: u8) -> Option<DataBlockTag> {
    if t == 0x00 { Some(DataBlockTag::ProductId) } else if t == 0x01 { Some(DataBlockTag::DisplayParams) }
    else if t == 0x02 { Some(DataBlockTag::ColorCharact) } else if t == 0x03 { Some(DataBlockTag::TypeITiming) }
    else if t == 0x04 { Some(DataBlockTag::TypeIITiming) } else if t == 0x05 { Some(DataBlockTag::TypeIIITiming) }
    else if t == 0x06 { Some(DataBlockTag::TypIVTiming) } else if t == 0x07 { Some(DataBlockTag::VesaTiming) }
    else if t == 0x08 { Some(DataBlockTag::CeaTiming) } else if t == 0x09 { Some(DataBlockTag::TimingRangeLimits) }
    else if t == 0x0A { Some(DataBlockTag::ProductSerial) } else if t == 0x0B { Some(DataBlockTag::AsciiString) }
    else if t == 0x0C { Some(DataBlockTag::DisplayDeviceData) } else if t == 0x0D { Some(DataBlockTag::InterfacePowerSeq) }
    else if t == 0x0E { Some(DataBlockTag::TransferCharact) } else if t == 0x0F { Some(DataBlockTag::DisplayInterface) }
    else if t == 0x10 { Some(DataBlockTag::StereoDisplayInterface) } else if t == 0x11 { Some(DataBlockTag::TypeVTiming) }
    else if t == 0x12 { Some(DataBlockTag::TiledDisplayTopo) } else if t == 0x13 { Some(DataBlockTag::TypeVITiming) }
    else { None }
}

fn decode_did_tag(t: u8) -> (r: Option<DataBlockTag>)
    ensures
        r == spec_did_tag(t),
{
    if t == 0x00 { Some(DataBlockTag::ProductId) } else if t == 0x01 { Some(DataBlockTag::DisplayParams) }
    else if t == 0x02 { Some(DataBlockTag::ColorCharact) } else if t == 0x03 { Some(DataBlockTag::TypeITiming) }
    else if t == 0x04 { Some(DataBlockTag::TypeIITiming) } else if t == 0x05 { Some(DataBlockTag::TypeIIITiming) }
    else if t == 0x06 { Some(DataBlockTag::TypIVTiming) } else if t == 0x07 { Some(DataBlockTag::VesaTiming) }
    else if t == 0x08 { Some(DataBlockTag::CeaTiming) } else if t == 0x09 { Some(DataBlockTag::TimingRangeLimits) }
    else if t == 0x0A { Some(DataBlockTag::ProductSerial) } else if t == 0x0B { Some(DataBlockTag::AsciiString) }
    else if t == 0x0C { Some(DataBlockTag::DisplayDeviceData) } else if t == 0x0D { Some(DataBlockTag::InterfacePowerSeq) }
    else if t == 0x0E { Some(DataBlockTag::TransferCharact) } else if t == 0x0F { Some(DataBlockTag::DisplayInterface) }
    else if t == 0x10 { Some(DataBlockTag::StereoDisplayInterface) } else if t == 0x11 { Some(DataBlockTag::TypeVTiming) }
    else if t == 0x12 { Some(DataBlockTag::TiledDisplayTopo) } else if t == 0x13 { Some(DataBlockTag::TypeVITiming) }
    else { None }
}

/// The data block with its header (tag, block revision, payload length) at
/// `p`; the caller guarantees that the whole block lies inside the buffer.
pub open spec fn spec_did_block(d: Seq<u8>, p: int) -> Option<DidBlockModel>
    recommends
        0 <= p,
        p + 3 + d[p + 2] <= d.len(),
{
    let len = d[p + 2] as int;
    let body = p + 3;
    match spec_did_tag(d[p]) {
        None => None,
        Some(tag) => Some(
            DidBlockModel {
                tag,
                display_params: if tag is DisplayParams && len >= 12 {
                    Some(spec_display_params(d, body))
                } else {
                    None
                },
                type_i_timings: if tag is TypeITiming {
                    Some(spec_type_i_timings(d, body, body + len))
                } else {
                    None
                },
                tiled_topo: if tag is TiledDisplayTopo && len >= 22 {
                    Some(spec_tiled_topo(d, body))
                } else {
                    None
                },
            },
        ),
    }
}

fn decode_did_block(d: &[u8], p: usize) -> (r: Option<DataBlockRef>)
    requires
        p + 3 <= d@.len(),
        p + 3 + d@[p as int + 2] <= d@.len(),
    ensures
        r is Some <==> spec_did_block(d@, p as int) is Some,
        r is Some ==> r->0.model() == spec_did_block(d@, p as int)->0,
{
    let _n: usize = d.len();
    let len = d[p + 2] as usize;
    let body = p + 3;
    match decode_did_tag(d[p]) {
        None => None,
        Some(tag) => {
            Some(
                DataBlockRef {
                    tag,
                    display_params: if matches!(tag, DataBlockTag::DisplayParams) && len >= 12 {
                        Some(decode_display_params(d, body))
                    } else {
                        None
                    },
                    type_i_timings: if matches!(tag, DataBlockTag::TypeITiming) {
                        Some(decode_type_i_timings(d, body, body + len))
                    } else {
                        None
                    },
                    tiled_topo: if matches!(tag, DataBlockTag::TiledDisplayTopo) && len >= 22 {
                        Some(decode_tiled_topo(d, body))
                    } else {
                        None
                    },
                },
            )
        },
    }
}

pub open spec fn spec_did_block_models(s: Seq<DataBlockRef>) -> Seq<DidBlockModel> {
    s.map_values(|b: DataBlockRef| b.model())
}

/// The recognized data blocks between `p` and `end`; an all-zero header or
/// a block running past `end` ends the walk.
pub open spec fn spec_did_blocks(d: Seq<u8>, p: int, end: int) -> Seq<DidBlockModel>
    recommends
        0 <= p,
        end <= d.len(),
    decreases end - p,
{
    if p + 3 > end {
        Seq::empty()
    } else if d[p] == 0 && d[p + 1] == 0 && d[p + 2] == 0 {
        Seq::empty()
    } else {
        let len = d[p + 2] as int;
        if p + 3 + len > end {
            Seq::empty()
        } else {
            let rest = spec_did_blocks(d, p + 3 + len, end);
            match spec_did_block(d, p) {
                Some(m) => seq![m] + rest,
                None => rest,
            }
        }
    }
}

fn decode_did_blocks(d: &[u8], p: usize, end: usize) -> (r: Vec<DataBlockRef>)
    requires
        p <= end <= d@.len(),
    ensures
        spec_did_block_models(r@) == spec_did_blocks(d@, p as int, end as int),
{
    let _n: usize = d.len();
    let mut out: Vec<DataBlockRef> = Vec::new();
    let mut q: usize = p;
    let mut stop = false;
    proof {
        assert(spec_did_block_models(out@) =~= Seq::<DidBlockModel>::empty());
    }
    while !stop && q < end && end - q >= 3
        invariant
            p <= q <= end <= d@.len(),
            d@.len() <= usize::MAX,
            !stop ==> spec_did_blocks(d@, p as int, end as int) == spec_did_block_models(out@)
                + spec_did_blocks(d@, q as int, end as int),
            stop ==> spec_did_block_models(out@) == spec_did_blocks(d@, p as int, end as int),
        decreases end - q, !stop as int,
    {
        let len = d[q + 2] as usize;
        if d[q] == 0 && d[q + 1] == 0 && d[q + 2] == 0 {
            proof {
                assert(spec_did_block_models(out@) + Seq::<DidBlockModel>::empty()
                    =~= spec_did_block_models(out@));
            }
            stop = true;
        } else if len + 3 > end - q {
            proof {
                assert(spec_did_block_models(out@) + Seq::<DidBlockModel>::empty()
                    =~= spec_did_block_models(out@));
            }
            stop = true;
        } else {
            match decode_did_block(d, q) {
                Some(b) => {
                    proof {
                        assert(spec_did_block_models(out@.push(b)) =~= spec_did_block_models(
                            out@,
                        ).push(b.model()));
                    }
                    out.push(b);
                },
                None => {},
            }
            q = q + 3 + len;
        }
    }
    proof {
        if !stop {
            assert(spec_did_block_models(out@) + Seq::<DidBlockModel>::empty()
                =~= spec_did_block_models(out@));
        }
    }
    out
}

// ---------------------------------------------------------------------------
// The DisplayID section inside an EDID extension block.
// ---------------------------------------------------------------------------

/// Ghost model of a decoded DisplayID section.
pub struct DisplayIdModel {
    pub version: i32,
    pub revision: i32,
    pub product_type: ProductType,
    pub data_blocks: Seq<DidBlockModel>,
}

/// A decoded DisplayID (version 1) section.
#[derive(Debug, Clone, PartialEq, Eq)]
pub struct DisplayId {
    pub(crate) version: i32,
    pub(crate) revision: i32,
    pub(crate) product_type: ProductType,
    pub(crate) data_blocks: Vec<DataBlockRef>,
}

impl DisplayId {
    pub closed spec fn model(&self) -> DisplayIdModel {
        DisplayIdModel {
            version: self.version,
            revision: self.revision,
            product_type: self.product_type,
            data_blocks: spec_did_block_models(self.data_blocks@),
        }
    }

    /// Get a DisplayID extension block.
    ///
    /// Returns `None` if the extension block tag is not
    /// [`DisplayId`](crate::edid::ExtensionTag::DisplayId) or the section
    /// is not DisplayID version 1.
    pub fn from_extension(ext: &crate::edid::ExtensionRef) -> (r: Option<&DisplayId>)
        ensures
            r is Some <==> ext.model().displayid is Some,
            r is Some ==> r->0.model() == ext.model().displayid->0,
    {
        ext.displayid_contents()
    }

    /// The DisplayID version.
    pub fn version(&self) -> (r: i32)
        ensures
            r == self.model().version,
    {
        self.version
    }

    /// The DisplayID revision.
    pub fn revision(&self) -> (r: i32)
        ensures
            r == self.model().revision,
    {
        self.revision
    }

    /// The DisplayID product type.
    pub fn product_type(&self) -> (r: ProductType)
        ensures
            r == self.model().product_type,
    {
        self.product_type
    }

    /// The recognized data blocks of the section, in order.
    pub fn data_blocks(&self) -> (r: &Vec<DataBlockRef>)
        ensures
            r@.len() == self.model().data_blocks.len(),
            forall|i: int|
                0 <= i < r@.len() ==> #[trigger] r@[i].model() == self.model().data_blocks[i],
    {
        proof {
            assert(forall|i: int|
                0 <= i < self.data_blocks@.len() ==> #[trigger] self.data_blocks@[i].model()
                    == spec_did_block_models(self.data_blocks@)[i]);
        }
        &self.data_blocks
    }
}

/// The decoded model of the DisplayID section in the extension block at
/// `off`, or `None` when the section is not DisplayID version 1 or carries
/// an unknown product type.
pub open spec fn spec_displayid(d: Seq<u8>, off: int) -> Option<DisplayIdModel>
    recommends
        0 <= off,
        off + 128 <= d.len(),
{
    let ver = d[off + 1];
    if ver / 16 != 1 {
        None
    } else {
        match spec_product_type(d[off + 3]) {
            None => None,
            Some(pt) => {
                let size = d[off + 2] as int;
                let end = if off + 5 + size <= off + 127 {
                    off + 5 + size
                } else {
                    off + 127
                };
                Some(
                    DisplayIdModel {
                        version: (ver / 16) as i32,
                        revision: (ver % 16) as i32,
                        product_type: pt,
                        data_blocks: spec_did_blocks(d, off + 5, end),
                    },
                )
            },
        }
    }
}

pub(crate) fn decode_displayid(d: &[u8], off: usize) -> (r: Option<DisplayId>)
    requires
        off + 128 <= d@.len(),
    ensures
        r is Some <==> spec_displayid(d@, off as int) is Some,
        r is Some ==> r->0.model() == spec_displayid(d@, off as int)->0,
{
    let _n: usize = d.len();
    let ver = d[off + 1];
    if ver / 16 != 1 {
        None
    } else {
        match decode_product_type(d[off + 3]) {
            None => None,
            Some(pt) => {
                let size = d[off + 2] as usize;
                let end = if 5 + size <= 127 {
                    off + 5 + size
                } else {
                    off + 127
                };
                Some(
                    DisplayId {
                        version: (ver / 16) as i32,
                        revision: (ver % 16) as i32,
                        product_type: pt,
                        data_blocks: decode_did_blocks(d, off + 5, end),
                    },
                )
            },
        }
    }
}

} // verus!
