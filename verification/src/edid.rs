//! Decoder for the 128-byte EDID base block (VESA E-EDID standard,
//! release A revision 2) and the list of extension blocks that follows it.
//!
//! Every field is decoded once, at parse time, into the plain typed model
//! below; sentinel raw values become `None` here and are never surfaced.

use vstd::prelude::*;

use crate::bytes::{bit, le16, le32, spec_bit, spec_le16, spec_le32};

verus! {

/// EDID vendor & product identification (base block bytes 8..18).
///
/// The manufacturer code is three 5-bit letters packed into two bytes; the
/// serial number uses 0 as its absent sentinel; the week byte value 0xFF is a
/// marker that turns the year byte into a model year instead of a
/// manufacture year.
#[derive(Debug, Clone, Copy, PartialEq, Eq)]
pub struct VendorProduct {
    pub manufacturer: [char; 3],
    pub product: u16,
    pub serial: Option<u32>,
    pub manufacture_week: i32,
    pub manufacture_year: i32,
    pub model_year: Option<i32>,
}

/// EDID analog signal level standard (byte 20 bits 6..5).
#[derive(Debug, Clone, Copy, PartialEq, Eq)]
pub enum VideoInputAnalogSignalLevelStandard {
    Level0,
    Level1,
    Level2,
    Level3,
}

/// EDID analog video setup (byte 20 bit 4).
#[derive(Debug, Clone, Copy, PartialEq, Eq)]
pub enum VideoInputAnalogVideoSetup {
    BlankLevelEqBlack,
    BlankToBlackSetupPedestal,
}

/// EDID analog video input basic information, defined in section 3.6.1.
#[derive(Debug, Clone, Copy, PartialEq, Eq)]
pub struct VideoInputAnalog {
    pub signal_level_std: VideoInputAnalogSignalLevelStandard,
    pub video_setup: VideoInputAnalogVideoSetup,
    pub sync_separate: bool,
    pub sync_composite: bool,
    pub sync_on_green: bool,
    pub sync_serrations: bool,
}

/// Digital video input interface standard (byte 20 bits 3..0, EDID 1.4).
#[derive(Debug, Clone, Copy, PartialEq, Eq)]
pub enum VideoInputDigitalInterface {
    Undefined,
    DVI,
    HDMIA,
    HDMIB,
    MDDI,
    DisplayPort,
}

/// EDID digital video input basic information, defined in section 3.6.1.
///
/// The color bit depth uses raw value 0 (and the reserved value 7) as its
/// absent sentinel.  The DFP 1.x flag only exists before EDID 1.4.
#[derive(Debug, Clone, Copy, PartialEq, Eq)]
pub struct VideoInputDigital {
    pub dfp1: bool,
    pub color_bit_depth: Option<i32>,
    pub interface: VideoInputDigitalInterface,
}

/// Screen size or aspect ratio (bytes 21..23), a tagged variant.
///
/// A landscape ratio stores the ratio times one hundred; a portrait ratio
/// stores the reciprocal times one hundred, exactly as the format encodes
/// them (raw byte + 99 in both cases).
#[derive(Debug, Clone, Copy, PartialEq, Eq)]
pub enum ScreenSize {
    Undefined,
    Size { width_cm: u8, height_cm: u8 },
    LandscapeAspectRatio { ratio_hundredths: u16 },
    PortraitAspectRatio { inverse_ratio_hundredths: u16 },
}

/// Supported legacy Display Power Management Signaling states (byte 24).
#[derive(Debug, Clone, Copy, PartialEq, Eq)]
pub struct Dpms {
    pub standby: bool,
    pub suspend: bool,
    pub off: bool,
}

/// Display color type (byte 24 bits 4..3, analog displays).
#[derive(Debug, Clone, Copy, PartialEq, Eq)]
pub enum DisplayColorType {
    Monochrome,
    RGB,
    NonRGB,
    Undefined,
}

/// Basic color encoding formats (byte 24 bits 4..3, digital EDID 1.4).
#[derive(Debug, Clone, Copy, PartialEq, Eq)]
pub struct ColorEncodingFormats {
    pub rgb444: bool,
    pub ycrcb444: bool,
    pub ycrcb422: bool,
}

/// Miscellaneous basic features (byte 24 bits 2..0).
///
/// The interpretation is revision-dependent: EDID 1.4 always has a preferred
/// timing and redefines the two low bits, earlier revisions use them for
/// GTF support and preferred-timing presence.
#[derive(Debug, Clone, Copy, PartialEq, Eq)]
pub struct MiscFeatures {
    /// First detailed timing is the preferred timing.
    ///
    /// Always set for EDID 1.4 and later.
    pub has_preferred_timing: bool,
    /// GTF using the default parameters is supported.
    ///
    /// Never set for EDID 1.4 and later.
    pub default_gtf: bool,
    /// sRGB standard default color space is the primary color space.
    pub srgb_is_primary: bool,
    /// Preferred timing mode includes native pixel format and rate.
    ///
    /// Never set for EDID 1.3 and earlier.
    pub preferred_timing_is_native: bool,
    /// GTF or CVT generated timings within the display's range limits are
    /// accepted.
    ///
    /// Never set for EDID 1.3 and earlier.
    pub continuous_freq: bool,
}

/// EDID display chromaticity coordinates, defined in section 3.7.
///
/// Each coordinate is the raw 10-bit binary fraction: the CIE coordinate is
/// the stored value divided by 1024.
#[derive(Debug, Clone, Copy, PartialEq, Eq)]
pub struct ChromaticityCoords {
    pub red_x: u16,
    pub red_y: u16,
    pub green_x: u16,
    pub green_y: u16,
    pub blue_x: u16,
    pub blue_y: u16,
    pub white_x: u16,
    pub white_y: u16,
}

/// Established timings I and II (bytes 35..38), a fixed named bitmap.
#[derive(Debug, Clone, Copy, PartialEq, Eq)]
pub struct EstablishedTimings {
    pub has_720x400_70hz: bool,
    pub has_720x400_88hz: bool,
    pub has_640x480_60hz: bool,
    pub has_640x480_67hz: bool,
    pub has_640x480_72hz: bool,
    pub has_640x480_75hz: bool,
    pub has_800x600_56hz: bool,
    pub has_800x600_60hz: bool,
    pub has_800x600_72hz: bool,
    pub has_800x600_75hz: bool,
    pub has_832x624_75hz: bool,
    pub has_1024x768_87hz_interlaced: bool,
    pub has_1024x768_60hz: bool,
    pub has_1024x768_70hz: bool,
    pub has_1024x768_75hz: bool,
    pub has_1280x1024_75hz: bool,
    pub has_1152x870_75hz: bool,
}

/// Aspect ratio of an EDID standard timing (2 bits).
#[derive(Debug, Clone, Copy, PartialEq, Eq)]
#[allow(non_camel_case_types)]
pub enum StandardTimingAspectRatio {
    _16_10,
    _4_3,
    _5_4,
    _16_9,
}

/// EDID standard timing, defined in section 3.9.
#[derive(Debug, Clone, Copy, PartialEq, Eq)]
pub struct StandardTiming {
    pub horiz_video: i32,
    pub aspect_ratio: StandardTimingAspectRatio,
    pub refresh_rate_hz: i32,
}

// ---------------------------------------------------------------------------
// Spec-level decode of the scalar base-block fields.
// ---------------------------------------------------------------------------

/// Letter `k` (0..3) of the packed manufacturer code: each letter is a 5-bit
/// value added to '@', so 1 maps to 'A' and 26 to 'Z'.
pub open spec fn spec_manufacturer_char(d: Seq<u8>, k: int) -> char
    recommends
        d.len() >= 128,
        0 <= k < 3,
{
    if k == 0 {
        (64 + (d[8] / 4) % 32) as char
    } else if k == 1 {
        (64 + ((d[8] % 4) * 8 + d[9] / 32)) as char
    } else {
        (64 + d[9] % 32) as char
    }
}

pub open spec fn spec_serial(d: Seq<u8>) -> Option<u32>
    recommends
        d.len() >= 128,
{
    let raw = spec_le32(d[12], d[13], d[14], d[15]);
    if raw == 0 {
        None
    } else {
        Some(raw)
    }
}

/// Week byte 0xFF is the marker that redirects the year byte to mean a
/// model year.
pub open spec fn spec_model_year(d: Seq<u8>) -> Option<i32>
    recommends
        d.len() >= 128,
{
    if d[16] == 0xFF {
        Some((1990 + d[17]) as i32)
    } else {
        None
    }
}

pub open spec fn spec_manufacture_week(d: Seq<u8>) -> i32
    recommends
        d.len() >= 128,
{
    if d[16] == 0xFF {
        0
    } else {
        d[16] as i32
    }
}

pub open spec fn spec_manufacture_year(d: Seq<u8>) -> i32
    recommends
        d.len() >= 128,
{
    if d[16] == 0xFF {
        0
    } else {
        (1990 + d[17]) as i32
    }
}

pub open spec fn spec_is_digital(d: Seq<u8>) -> bool
    recommends
        d.len() >= 128,
{
    spec_bit(d[20], 7)
}

pub open spec fn spec_analog_signal_level(v: u8) -> VideoInputAnalogSignalLevelStandard
    recommends
        v < 4,
{
    if v == 0 {
        VideoInputAnalogSignalLevelStandard::Level0
    } else if v == 1 {
        VideoInputAnalogSignalLevelStandard::Level1
    } else if v == 2 {
        VideoInputAnalogSignalLevelStandard::Level2
    } else {
        VideoInputAnalogSignalLevelStandard::Level3
    }
}

pub open spec fn spec_video_input_analog(d: Seq<u8>) -> Option<VideoInputAnalog>
    recommends
        d.len() >= 128,
{
    if spec_is_digital(d) {
        None
    } else {
        Some(
            VideoInputAnalog {
                signal_level_std: spec_analog_signal_level((d[20] / 32) % 4),
                video_setup: if spec_bit(d[20], 4) {
                    VideoInputAnalogVideoSetup::BlankToBlackSetupPedestal
                } else {
                    VideoInputAnalogVideoSetup::BlankLevelEqBlack
                },
                sync_separate: spec_bit(d[20], 3),
                sync_composite: spec_bit(d[20], 2),
                sync_on_green: spec_bit(d[20], 1),
                sync_serrations: spec_bit(d[20], 0),
            },
        )
    }
}

/// Color bit depth code (byte 20 bits 6..4, EDID 1.4): 0 is the absent
/// sentinel, 7 is reserved, 1..6 mean 6..16 bits in steps of two.
pub open spec fn spec_color_bit_depth(v: u8) -> Option<i32>
    recommends
        v < 8,
{
    if v == 0 || v == 7 {
        None
    } else {
        Some((4 + 2 * v) as i32)
    }
}

pub open spec fn spec_digital_interface(v: u8) -> VideoInputDigitalInterface
    recommends
        v < 16,
{
    if v == 1 {
        VideoInputDigitalInterface::DVI
    } else if v == 2 {
        VideoInputDigitalInterface::HDMIA
    } else if v == 3 {
        VideoInputDigitalInterface::HDMIB
    } else if v == 4 {
        VideoInputDigitalInterface::MDDI
    } else if v == 5 {
        VideoInputDigitalInterface::DisplayPort
    } else {
        VideoInputDigitalInterface::Undefined
    }
}

pub open spec fn spec_video_input_digital(d: Seq<u8>) -> Option<VideoInputDigital>
    recommends
        d.len() >= 128,
{
    if !spec_is_digital(d) {
        None
    } else if d[19] >= 4 {
        Some(
            VideoInputDigital {
                dfp1: false,
                color_bit_depth: spec_color_bit_depth((d[20] / 16) % 8),
                interface: spec_digital_interface(d[20] % 16),
            },
        )
    } else {
        Some(
            VideoInputDigital {
                dfp1: spec_bit(d[20], 0),
                color_bit_depth: None,
                interface: VideoInputDigitalInterface::Undefined,
            },
        )
    }
}

/// Screen size bytes: both zero means undefined; one zero byte selects an
/// aspect-ratio reading (EDID 1.4); otherwise centimetres.
pub open spec fn spec_screen_size(d: Seq<u8>) -> ScreenSize
    recommends
        d.len() >= 128,
{
    if d[21] != 0 && d[22] != 0 {
        ScreenSize::Size { width_cm: d[21], height_cm: d[22] }
    } else if d[19] >= 4 && d[21] != 0 {
        ScreenSize::LandscapeAspectRatio { ratio_hundredths: (d[21] + 99) as u16 }
    } else if d[19] >= 4 && d[22] != 0 {
        ScreenSize::PortraitAspectRatio { inverse_ratio_hundredths: (d[22] + 99) as u16 }
    } else {
        ScreenSize::Undefined
    }
}

/// Basic gamma byte: 0xFF is the "defined elsewhere" sentinel; any other
/// value stores gamma times one hundred minus one hundred.
pub open spec fn spec_basic_gamma(d: Seq<u8>) -> Option<u16>
    recommends
        d.len() >= 128,
{
    if d[23] == 0xFF {
        None
    } else {
        Some((d[23] + 100) as u16)
    }
}

pub open spec fn spec_dpms(d: Seq<u8>) -> Dpms
    recommends
        d.len() >= 128,
{
    Dpms { standby: spec_bit(d[24], 7), suspend: spec_bit(d[24], 6), off: spec_bit(d[24], 5) }
}

pub open spec fn spec_color_type_bits(v: u8) -> DisplayColorType
    recommends
        v < 4,
{
    if v == 0 {
        DisplayColorType::Monochrome
    } else if v == 1 {
        DisplayColorType::RGB
    } else if v == 2 {
        DisplayColorType::NonRGB
    } else {
        DisplayColorType::Undefined
    }
}

/// Display color type: digital EDID 1.4 displays repurpose the bits, so the
/// type is always reported as undefined there.
pub open spec fn spec_display_color_type(d: Seq<u8>) -> DisplayColorType
    recommends
        d.len() >= 128,
{
    if spec_is_digital(d) && d[19] >= 4 {
        DisplayColorType::Undefined
    } else {
        spec_color_type_bits((d[24] / 8) % 4)
    }
}

/// Color encoding formats exist only for digital EDID 1.4 displays; RGB
/// 4:4:4 is always supported there.
pub open spec fn spec_color_encoding_formats(d: Seq<u8>) -> Option<ColorEncodingFormats>
    recommends
        d.len() >= 128,
{
    if spec_is_digital(d) && d[19] >= 4 {
        Some(
            ColorEncodingFormats {
                rgb444: true,
                ycrcb444: spec_bit(d[24], 3),
                ycrcb422: spec_bit(d[24], 4),
            },
        )
    } else {
        None
    }
}

pub open spec fn spec_misc_features(d: Seq<u8>) -> MiscFeatures
    recommends
        d.len() >= 128,
{
    if d[19] >= 4 {
        MiscFeatures {
            has_preferred_timing: true,
            default_gtf: false,
            srgb_is_primary: spec_bit(d[24], 2),
            preferred_timing_is_native: spec_bit(d[24], 1),
            continuous_freq: spec_bit(d[24], 0),
        }
    } else {
        MiscFeatures {
            has_preferred_timing: spec_bit(d[24], 1),
            default_gtf: spec_bit(d[24], 0),
            srgb_is_primary: spec_bit(d[24], 2),
            preferred_timing_is_native: false,
            continuous_freq: false,
        }
    }
}

/// A 10-bit chromaticity coordinate: 8 high bits from `hi`, 2 low bits taken
/// from `lo` at bit position `at` (and `at + 1`).
pub open spec fn spec_chroma_coord(hi: u8, lo: u8, at: u8) -> u16
    recommends
        at < 8,
        at % 2 == 0,
{
    (hi * 4 + (lo as u32 / crate::bytes::pow2_u32(at)) % 4) as u16
}

pub open spec fn spec_chromaticity_coords(d: Seq<u8>) -> ChromaticityCoords
    recommends
        d.len() >= 128,
{
    ChromaticityCoords {
        red_x: spec_chroma_coord(d[27], d[25], 6),
        red_y: spec_chroma_coord(d[28], d[25], 4),
        green_x: spec_chroma_coord(d[29], d[25], 2),
        green_y: spec_chroma_coord(d[30], d[25], 0),
        blue_x: spec_chroma_coord(d[31], d[26], 6),
        blue_y: spec_chroma_coord(d[32], d[26], 4),
        white_x: spec_chroma_coord(d[33], d[26], 2),
        white_y: spec_chroma_coord(d[34], d[26], 0),
    }
}

pub open spec fn spec_established_timings(d: Seq<u8>) -> EstablishedTimings
    recommends
        d.len() >= 128,
{
    EstablishedTimings {
        has_720x400_70hz: spec_bit(d[35], 7),
        has_720x400_88hz: spec_bit(d[35], 6),
        has_640x480_60hz: spec_bit(d[35], 5),
        has_640x480_67hz: spec_bit(d[35], 4),
        has_640x480_72hz: spec_bit(d[35], 3),
        has_640x480_75hz: spec_bit(d[35], 2),
        has_800x600_56hz: spec_bit(d[35], 1),
        has_800x600_60hz: spec_bit(d[35], 0),
        has_800x600_72hz: spec_bit(d[36], 7),
        has_800x600_75hz: spec_bit(d[36], 6),
        has_832x624_75hz: spec_bit(d[36], 5),
        has_1024x768_87hz_interlaced: spec_bit(d[36], 4),
        has_1024x768_60hz: spec_bit(d[36], 3),
        has_1024x768_70hz: spec_bit(d[36], 2),
        has_1024x768_75hz: spec_bit(d[36], 1),
        has_1280x1024_75hz: spec_bit(d[36], 0),
        has_1152x870_75hz: spec_bit(d[37], 7),
    }
}

pub open spec fn spec_standard_timing_aspect(v: u8) -> StandardTimingAspectRatio
    recommends
        v < 4,
{
    if v == 0 {
        StandardTimingAspectRatio::_16_10
    } else if v == 1 {
        StandardTimingAspectRatio::_4_3
    } else if v == 2 {
        StandardTimingAspectRatio::_5_4
    } else {
        StandardTimingAspectRatio::_16_9
    }
}

/// One standard-timing slot; the byte pair (0x01, 0x01) is the unused-slot
/// sentinel and decodes to nothing.
pub open spec fn spec_standard_timing_slot(b1: u8, b2: u8) -> Option<StandardTiming> {
    if b1 == 0x01 && b2 == 0x01 {
        None
    } else {
        Some(
            StandardTiming {
                horiz_video: ((b1 + 31) * 8) as i32,
                aspect_ratio: spec_standard_timing_aspect(b2 / 64),
                refresh_rate_hz: (b2 % 64 + 60) as i32,
            },
        )
    }
}

/// The used slots among the eight standard-timing pairs at bytes
/// 38..54, in order.
pub open spec fn spec_standard_timings_prefix(d: Seq<u8>, n: int) -> Seq<StandardTiming>
    recommends
        d.len() >= 128,
        0 <= n <= 8,
    decreases n,
{
    if n <= 0 {
        Seq::empty()
    } else {
        let rest = spec_standard_timings_prefix(d, n - 1);
        match spec_standard_timing_slot(d[38 + 2 * (n - 1)], d[39 + 2 * (n - 1)]) {
            Some(t) => rest.push(t),
            None => rest,
        }
    }
}

pub open spec fn spec_standard_timings(d: Seq<u8>) -> Seq<StandardTiming>
    recommends
        d.len() >= 128,
{
    spec_standard_timings_prefix(d, 8)
}

// ---------------------------------------------------------------------------
// Executable decoders for the scalar base-block fields.
// ---------------------------------------------------------------------------

pub(crate) fn decode_vendor_product(d: &[u8]) -> (r: VendorProduct)
    requires
        d@.len() >= 128,
    ensures
        r.manufacturer@ =~= seq![
            spec_manufacturer_char(d@, 0),
            spec_manufacturer_char(d@, 1),
            spec_manufacturer_char(d@, 2),
        ],
        r.product == spec_le16(d@[10], d@[11]),
        r.serial == spec_serial(d@),
        r.manufacture_week == spec_manufacture_week(d@),
        r.manufacture_year == spec_manufacture_year(d@),
        r.model_year == spec_model_year(d@),
{
    let c0 = (64 + (d[8] / 4) % 32) as char;
    let c1 = (64 + ((d[8] % 4) * 8 + d[9] / 32)) as char;
    let c2 = (64 + d[9] % 32) as char;
    let raw_serial = le32(d[12], d[13], d[14], d[15]);
    let (week, year, model_year): (i32, i32, Option<i32>) = if d[16] == 0xFF {
        (0, 0, Some(1990 + d[17] as i32))
    } else {
        (d[16] as i32, 1990 + d[17] as i32, None)
    };
    VendorProduct {
        manufacturer: [c0, c1, c2],
        product: le16(d[10], d[11]),
        serial: if raw_serial == 0 {
            None
        } else {
            Some(raw_serial)
        },
        manufacture_week: week,
        manufacture_year: year,
        model_year,
    }
}

pub(crate) fn decode_video_input_analog(d: &[u8]) -> (r: Option<VideoInputAnalog>)
    requires
        d@.len() >= 128,
    ensures
        r == spec_video_input_analog(d@),
{
    if bit(d[20], 7) {
        None
    } else {
        let level = (d[20] / 32) % 4;
        Some(
            VideoInputAnalog {
                signal_level_std: if level == 0 {
                    VideoInputAnalogSignalLevelStandard::Level0
                } else if level == 1 {
                    VideoInputAnalogSignalLevelStandard::Level1
                } else if level == 2 {
                    VideoInputAnalogSignalLevelStandard::Level2
                } else {
                    VideoInputAnalogSignalLevelStandard::Level3
                },
                video_setup: if bit(d[20], 4) {
                    VideoInputAnalogVideoSetup::BlankToBlackSetupPedestal
                } else {
                    VideoInputAnalogVideoSetup::BlankLevelEqBlack
                },
                sync_separate: bit(d[20], 3),
                sync_composite: bit(d[20], 2),
                sync_on_green: bit(d[20], 1),
                sync_serrations: bit(d[20], 0),
            },
        )
    }
}

pub(crate) fn decode_video_input_digital(d: &[u8]) -> (r: Option<VideoInputDigital>)
    requires
        d@.len() >= 128,
    ensures
        r == spec_video_input_digital(d@),
{
    if !bit(d[20], 7) {
        None
    } else if d[19] >= 4 {
        let depth_code = (d[20] / 16) % 8;
        let iface = d[20] % 16;
        Some(
            VideoInputDigital {
                dfp1: false,
                color_bit_depth: if depth_code == 0 || depth_code == 7 {
                    None
                } else {
                    Some(4 + 2 * depth_code as i32)
                },
                interface: if iface == 1 {
                    VideoInputDigitalInterface::DVI
                } else if iface == 2 {
                    VideoInputDigitalInterface::HDMIA
                } else if iface == 3 {
                    VideoInputDigitalInterface::HDMIB
                } else if iface == 4 {
                    VideoInputDigitalInterface::MDDI
                } else if iface == 5 {
                    VideoInputDigitalInterface::DisplayPort
                } else {
                    VideoInputDigitalInterface::Undefined
                },
            },
        )
    } else {
        Some(
            VideoInputDigital {
                dfp1: bit(d[20], 0),
                color_bit_depth: None,
                interface: VideoInputDigitalInterface::Undefined,
            },
        )
    }
}

pub(crate) fn decode_screen_size(d: &[u8]) -> (r: ScreenSize)
    requires
        d@.len() >= 128,
    ensures
        r == spec_screen_size(d@),
{
    if d[21] != 0 && d[22] != 0 {
        ScreenSize::Size { width_cm: d[21], height_cm: d[22] }
    } else if d[19] >= 4 && d[21] != 0 {
        ScreenSize::LandscapeAspectRatio { ratio_hundredths: d[21] as u16 + 99 }
    } else if d[19] >= 4 && d[22] != 0 {
        ScreenSize::PortraitAspectRatio { inverse_ratio_hundredths: d[22] as u16 + 99 }
    } else {
        ScreenSize::Undefined
    }
}

pub(crate) fn decode_basic_gamma(d: &[u8]) -> (r: Option<u16>)
    requires
        d@.len() >= 128,
    ensures
        r == spec_basic_gamma(d@),
{
    if d[23] == 0xFF {
        None
    } else {
        Some(d[23] as u16 + 100)
    }
}

pub(crate) fn decode_dpms(d: &[u8]) -> (r: Dpms)
    requires
        d@.len() >= 128,
    ensures
        r == spec_dpms(d@),
{
    Dpms { standby: bit(d[24], 7), suspend: bit(d[24], 6), off: bit(d[24], 5) }
}

pub(crate) fn decode_display_color_type(d: &[u8]) -> (r: DisplayColorType)
    requires
        d@.len() >= 128,
    ensures
        r == spec_display_color_type(d@),
{
    if bit(d[20], 7) && d[19] >= 4 {
        DisplayColorType::Undefined
    } else {
        let v = (d[24] / 8) % 4;
        if v == 0 {
            DisplayColorType::Monochrome
        } else if v == 1 {
            DisplayColorType::RGB
        } else if v == 2 {
            DisplayColorType::NonRGB
        } else {
            DisplayColorType::Undefined
        }
    }
}

pub(crate) fn decode_color_encoding_formats(d: &[u8]) -> (r: Option<ColorEncodingFormats>)
    requires
        d@.len() >= 128,
    ensures
        r == spec_color_encoding_formats(d@),
{
    if bit(d[20], 7) && d[19] >= 4 {
        Some(
            ColorEncodingFormats {
                rgb444: true,
                ycrcb444: bit(d[24], 3),
                ycrcb422: bit(d[24], 4),
            },
        )
    } else {
        None
    }
}

pub(crate) fn decode_misc_features(d: &[u8]) -> (r: MiscFeatures)
    requires
        d@.len() >= 128,
    ensures
        r == spec_misc_features(d@),
{
    if d[19] >= 4 {
        MiscFeatures {
            has_preferred_timing: true,
            default_gtf: false,
            srgb_is_primary: bit(d[24], 2),
            preferred_timing_is_native: bit(d[24], 1),
            continuous_freq: bit(d[24], 0),
        }
    } else {
        MiscFeatures {
            has_preferred_timing: bit(d[24], 1),
            default_gtf: bit(d[24], 0),
            srgb_is_primary: bit(d[24], 2),
            preferred_timing_is_native: false,
            continuous_freq: false,
        }
    }
}

fn chroma_coord(hi: u8, lo: u8, at: u8) -> (r: u16)
    requires
        at < 8,
        at % 2 == 0,
    ensures
        r == spec_chroma_coord(hi, lo, at),
{
    let p: u32 = if at == 0 {
        1
    } else if at == 2 {
        4
    } else if at == 4 {
        16
    } else {
        64
    };
    hi as u16 * 4 + ((lo as u32 / p) % 4) as u16
}

pub(crate) fn decode_chromaticity_coords(d: &[u8]) -> (r: ChromaticityCoords)
    requires
        d@.len() >= 128,
    ensures
        r == spec_chromaticity_coords(d@),
{
    ChromaticityCoords {
        red_x: chroma_coord(d[27], d[25], 6),
        red_y: chroma_coord(d[28], d[25], 4),
        green_x: chroma_coord(d[29], d[25], 2),
        green_y: chroma_coord(d[30], d[25], 0),
        blue_x: chroma_coord(d[31], d[26], 6),
        blue_y: chroma_coord(d[32], d[26], 4),
        white_x: chroma_coord(d[33], d[26], 2),
        white_y: chroma_coord(d[34], d[26], 0),
    }
}

pub(crate) fn decode_established_timings(d: &[u8]) -> (r: EstablishedTimings)
    requires
        d@.len() >= 128,
    ensures
        r == spec_established_timings(d@),
{
    EstablishedTimings {
        has_720x400_70hz: bit(d[35], 7),
        has_720x400_88hz: bit(d[35], 6),
        has_640x480_60hz: bit(d[35], 5),
        has_640x480_67hz: bit(d[35], 4),
        has_640x480_72hz: bit(d[35], 3),
        has_640x480_75hz: bit(d[35], 2),
        has_800x600_56hz: bit(d[35], 1),
        has_800x600_60hz: bit(d[35], 0),
        has_800x600_72hz: bit(d[36], 7),
        has_800x600_75hz: bit(d[36], 6),
        has_832x624_75hz: bit(d[36], 5),
        has_1024x768_87hz_interlaced: bit(d[36], 4),
        has_1024x768_60hz: bit(d[36], 3),
        has_1024x768_70hz: bit(d[36], 2),
        has_1024x768_75hz: bit(d[36], 1),
        has_1280x1024_75hz: bit(d[36], 0),
        has_1152x870_75hz: bit(d[37], 7),
    }
}

fn decode_standard_timing_slot(b1: u8, b2: u8) -> (r: Option<StandardTiming>)
    ensures
        r == spec_standard_timing_slot(b1, b2),
{
    if b1 == 0x01 && b2 == 0x01 {
        None
    } else {
        let v = b2 / 64;
        Some(
            StandardTiming {
                horiz_video: (b1 as i32 + 31) * 8,
                aspect_ratio: if v == 0 {
                    StandardTimingAspectRatio::_16_10
                } else if v == 1 {
                    StandardTimingAspectRatio::_4_3
                } else if v == 2 {
                    StandardTimingAspectRatio::_5_4
                } else {
                    StandardTimingAspectRatio::_16_9
                },
                refresh_rate_hz: b2 as i32 % 64 + 60,
            },
        )
    }
}

pub(crate) fn decode_standard_timings(d: &[u8]) -> (r: Vec<StandardTiming>)
    requires
        d@.len() >= 128,
    ensures
        r@ == spec_standard_timings(d@),
{
    let mut out: Vec<StandardTiming> = Vec::new();
    let mut i: usize = 0;
    while i < 8
        invariant
            0 <= i <= 8,
            d@.len() >= 128,
            out@ == spec_standard_timings_prefix(d@, i as int),
        decreases 8 - i,
    {
        match decode_standard_timing_slot(d[38 + 2 * i], d[39 + 2 * i]) {
            Some(t) => out.push(t),
            None => {},
        }
        i = i + 1;
    }
    out
}

impl StandardTiming {
    /// Vertical addressable line count, derived from the horizontal pixel
    /// count through the aspect ratio.
    pub fn vert_video(&self) -> (r: i32)
        requires
            0 <= self.horiz_video <= 0x10000,
        ensures
            r == spec_standard_timing_vert_video(*self),
    {
        match self.aspect_ratio {
            StandardTimingAspectRatio::_16_10 => self.horiz_video * 10 / 16,
            StandardTimingAspectRatio::_4_3 => self.horiz_video * 3 / 4,
            StandardTimingAspectRatio::_5_4 => self.horiz_video * 4 / 5,
            StandardTimingAspectRatio::_16_9 => self.horiz_video * 9 / 16,
        }
    }
}

pub open spec fn spec_standard_timing_vert_video(t: StandardTiming) -> int {
    match t.aspect_ratio {
        StandardTimingAspectRatio::_16_10 => t.horiz_video * 10 / 16,
        StandardTimingAspectRatio::_4_3 => t.horiz_video * 3 / 4,
        StandardTimingAspectRatio::_5_4 => t.horiz_video * 4 / 5,
        StandardTimingAspectRatio::_16_9 => t.horiz_video * 9 / 16,
    }
}

} // verus!

use crate::bytes::ascii_string;

verus! {

// ---------------------------------------------------------------------------
// Detailed timing definitions (18-byte records, section 3.10.2).
// ---------------------------------------------------------------------------

/// Stereo viewing support of a detailed timing.
#[derive(Debug, Clone, Copy, PartialEq, Eq)]
pub enum DetailedTimingDefStereo {
    NONE,
    FieldSeqRight,
    FieldSeqLeft,
    TwoWayInterleavedRight,
    TwoWayInterleavedLeft,
    FourWayInterleaved,
    SideBySideInterleaved,
}

/// Signal definitions for EDID detailed timings (flags byte bits 4..3).
#[derive(Debug, Clone, Copy, PartialEq, Eq)]
pub enum DetailedTimingDefSignalType {
    AnalogComposite,
    BipolarAnalogComposite,
    DigitalComposite,
    DigitalSeparate,
}

/// Sync pulse polarity for digital detailed timings.
#[derive(Debug, Clone, Copy, PartialEq, Eq)]
pub enum DetailedTimingDefSyncPolarity {
    Negative,
    Positive,
}

/// Flags for analog composite signals.
#[derive(Debug, Clone, Copy, PartialEq, Eq)]
pub struct DetailedTimingAnalogComposite {
    pub sync_serrations: bool,
    pub sync_on_green: bool,
}

/// Flags for bipolar analog composite signals.
#[derive(Debug, Clone, Copy, PartialEq, Eq)]
pub struct DetailedTimingBipolarAnalogComposite {
    pub sync_serrations: bool,
    pub sync_on_green: bool,
}

/// Flags for digital composite signals.
#[derive(Debug, Clone, Copy, PartialEq, Eq)]
pub struct DetailedTimingDigitalComposite {
    pub sync_serrations: bool,
    pub sync_horiz_polarity: DetailedTimingDefSyncPolarity,
}

/// Flags for digital separate signals.
#[derive(Debug, Clone, Copy, PartialEq, Eq)]
pub struct DetailedTimingDigitalSeparate {
    pub sync_vert_polarity: DetailedTimingDefSyncPolarity,
    pub sync_horiz_polarity: DetailedTimingDefSyncPolarity,
}

/// EDID detailed timing definition, defined in section 3.10.2.
///
/// Exactly one of the four signal-specific flag fields is present, selected
/// by `signal_type`.  The borders use raw 0 as their absent sentinel.
#[derive(Debug, Clone, Copy, PartialEq, Eq)]
pub struct DetailedTimingDef {
    pub pixel_clock_hz: i32,
    pub horiz_video: i32,
    pub vert_video: i32,
    pub horiz_blank: i32,
    pub vert_blank: i32,
    pub horiz_front_porch: i32,
    pub vert_front_porch: i32,
    pub horiz_sync_pulse: i32,
    pub vert_sync_pulse: i32,
    pub horiz_image_mm: i32,
    pub vert_image_mm: i32,
    pub horiz_border: Option<i32>,
    pub vert_border: Option<i32>,
    pub interlaced: bool,
    pub stereo: DetailedTimingDefStereo,
    pub signal_type: DetailedTimingDefSignalType,
    pub analog_composite: Option<DetailedTimingAnalogComposite>,
    pub bipolar_analog_composite: Option<DetailedTimingBipolarAnalogComposite>,
    pub digital_composite: Option<DetailedTimingDigitalComposite>,
    pub digital_separate: Option<DetailedTimingDigitalSeparate>,
}

/// An 18-byte slot holds a detailed timing exactly when its leading
/// little-endian pixel-clock word is non-zero.
pub open spec fn spec_is_detailed_timing(d: Seq<u8>, off: int) -> bool
    recommends
        off + 18 <= d.len(),
{
    spec_le16(d[off], d[off + 1]) != 0
}

pub open spec fn spec_dtd_stereo(f: u8) -> DetailedTimingDefStereo {
    let s = (f / 32) % 4;
    if s == 0 {
        DetailedTimingDefStereo::NONE
    } else if s == 1 {
        if f % 2 == 0 {
            DetailedTimingDefStereo::FieldSeqRight
        } else {
            DetailedTimingDefStereo::TwoWayInterleavedRight
        }
    } else if s == 2 {
        if f % 2 == 0 {
            DetailedTimingDefStereo::FieldSeqLeft
        } else {
            DetailedTimingDefStereo::TwoWayInterleavedLeft
        }
    } else {
        if f % 2 == 0 {
            DetailedTimingDefStereo::FourWayInterleaved
        } else {
            DetailedTimingDefStereo::SideBySideInterleaved
        }
    }
}

pub open spec fn spec_dtd_polarity(set: bool) -> DetailedTimingDefSyncPolarity {
    if set {
        DetailedTimingDefSyncPolarity::Positive
    } else {
        DetailedTimingDefSyncPolarity::Negative
    }
}

pub open spec fn spec_detailed_timing(d: Seq<u8>, off: int) -> DetailedTimingDef
    recommends
        off + 18 <= d.len(),
        spec_is_detailed_timing(d, off),
{
    let f = d[off + 17];
    let st = (f / 8) % 4;
    DetailedTimingDef {
        pixel_clock_hz: (spec_le16(d[off], d[off + 1]) * 10000) as i32,
        horiz_video: (d[off + 2] + (d[off + 4] / 16) * 256) as i32,
        vert_video: (d[off + 5] + (d[off + 7] / 16) * 256) as i32,
        horiz_blank: (d[off + 3] + (d[off + 4] % 16) * 256) as i32,
        vert_blank: (d[off + 6] + (d[off + 7] % 16) * 256) as i32,
        horiz_front_porch: (d[off + 8] + (d[off + 11] / 64) * 256) as i32,
        vert_front_porch: (d[off + 10] / 16 + ((d[off + 11] / 4) % 4) * 16) as i32,
        horiz_sync_pulse: (d[off + 9] + ((d[off + 11] / 16) % 4) * 256) as i32,
        vert_sync_pulse: (d[off + 10] % 16 + (d[off + 11] % 4) * 16) as i32,
        horiz_image_mm: (d[off + 12] + (d[off + 14] / 16) * 256) as i32,
        vert_image_mm: (d[off + 13] + (d[off + 14] % 16) * 256) as i32,
        horiz_border: if d[off + 15] == 0 {
            None
        } else {
            Some(d[off + 15] as i32)
        },
        vert_border: if d[off + 16] == 0 {
            None
        } else {
            Some(d[off + 16] as i32)
        },
        interlaced: spec_bit(f, 7),
        stereo: spec_dtd_stereo(f),
        signal_type: if st == 0 {
            DetailedTimingDefSignalType::AnalogComposite
        } else if st == 1 {
            DetailedTimingDefSignalType::BipolarAnalogComposite
        } else if st == 2 {
            DetailedTimingDefSignalType::DigitalComposite
        } else {
            DetailedTimingDefSignalType::DigitalSeparate
        },
        analog_composite: if st == 0 {
            Some(
                DetailedTimingAnalogComposite {
                    sync_serrations: spec_bit(f, 2),
                    sync_on_green: !spec_bit(f, 1),
                },
            )
        } else {
            None
        },
        bipolar_analog_composite: if st == 1 {
            Some(
                DetailedTimingBipolarAnalogComposite {
                    sync_serrations: spec_bit(f, 2),
                    sync_on_green: !spec_bit(f, 1),
                },
            )
        } else {
            None
        },
        digital_composite: if st == 2 {
            Some(
                DetailedTimingDigitalComposite {
                    sync_serrations: spec_bit(f, 2),
                    sync_horiz_polarity: spec_dtd_polarity(spec_bit(f, 1)),
                },
            )
        } else {
            None
        },
        digital_separate: if st == 3 {
            Some(
                DetailedTimingDigitalSeparate {
                    sync_vert_polarity: spec_dtd_polarity(spec_bit(f, 2)),
                    sync_horiz_polarity: spec_dtd_polarity(spec_bit(f, 1)),
                },
            )
        } else {
            None
        },
    }
}

pub(crate) fn decode_detailed_timing(d: &[u8], off: usize) -> (r: DetailedTimingDef)
    requires
        off + 18 <= d@.len(),
        spec_is_detailed_timing(d@, off as int),
    ensures
        r == spec_detailed_timing(d@, off as int),
{
    let _n: usize = d.len();
    let f = d[off + 17];
    let st = (f / 8) % 4;
    let stereo_sel = (f / 32) % 4;
    DetailedTimingDef {
        pixel_clock_hz: le16(d[off], d[off + 1]) as i32 * 10000,
        horiz_video: d[off + 2] as i32 + (d[off + 4] / 16) as i32 * 256,
        vert_video: d[off + 5] as i32 + (d[off + 7] / 16) as i32 * 256,
        horiz_blank: d[off + 3] as i32 + (d[off + 4] % 16) as i32 * 256,
        vert_blank: d[off + 6] as i32 + (d[off + 7] % 16) as i32 * 256,
        horiz_front_porch: d[off + 8] as i32 + (d[off + 11] / 64) as i32 * 256,
        vert_front_porch: (d[off + 10] / 16) as i32 + ((d[off + 11] / 4) % 4) as i32 * 16,
        horiz_sync_pulse: d[off + 9] as i32 + ((d[off + 11] / 16) % 4) as i32 * 256,
        vert_sync_pulse: (d[off + 10] % 16) as i32 + (d[off + 11] % 4) as i32 * 16,
        horiz_image_mm: d[off + 12] as i32 + (d[off + 14] / 16) as i32 * 256,
        vert_image_mm: d[off + 13] as i32 + (d[off + 14] % 16) as i32 * 256,
        horiz_border: if d[off + 15] == 0 {
            None
        } else {
            Some(d[off + 15] as i32)
        },
        vert_border: if d[off + 16] == 0 {
            None
        } else {
            Some(d[off + 16] as i32)
        },
        interlaced: bit(f, 7),
        stereo: if stereo_sel == 0 {
            DetailedTimingDefStereo::NONE
        } else if stereo_sel == 1 {
            if f % 2 == 0 {
                DetailedTimingDefStereo::FieldSeqRight
            } else {
                DetailedTimingDefStereo::TwoWayInterleavedRight
            }
        } else if stereo_sel == 2 {
            if f % 2 == 0 {
                DetailedTimingDefStereo::FieldSeqLeft
            } else {
                DetailedTimingDefStereo::TwoWayInterleavedLeft
            }
        } else {
            if f % 2 == 0 {
                DetailedTimingDefStereo::FourWayInterleaved
            } else {
                DetailedTimingDefStereo::SideBySideInterleaved
            }
        },
        signal_type: if st == 0 {
            DetailedTimingDefSignalType::AnalogComposite
        } else if st == 1 {
            DetailedTimingDefSignalType::BipolarAnalogComposite
        } else if st == 2 {
            DetailedTimingDefSignalType::DigitalComposite
        } else {
            DetailedTimingDefSignalType::DigitalSeparate
        },
        analog_composite: if st == 0 {
            Some(
                DetailedTimingAnalogComposite {
                    sync_serrations: bit(f, 2),
                    sync_on_green: !bit(f, 1),
                },
            )
        } else {
            None
        },
        bipolar_analog_composite: if st == 1 {
            Some(
                DetailedTimingBipolarAnalogComposite {
                    sync_serrations: bit(f, 2),
                    sync_on_green: !bit(f, 1),
                },
            )
        } else {
            None
        },
        digital_composite: if st == 2 {
            Some(
                DetailedTimingDigitalComposite {
                    sync_serrations: bit(f, 2),
                    sync_horiz_polarity: if bit(f, 1) {
                        DetailedTimingDefSyncPolarity::Positive
                    } else {
                        DetailedTimingDefSyncPolarity::Negative
                    },
                },
            )
        } else {
            None
        },
        digital_separate: if st == 3 {
            Some(
                DetailedTimingDigitalSeparate {
                    sync_vert_polarity: if bit(f, 2) {
                        DetailedTimingDefSyncPolarity::Positive
                    } else {
                        DetailedTimingDefSyncPolarity::Negative
                    },
                    sync_horiz_polarity: if bit(f, 1) {
                        DetailedTimingDefSyncPolarity::Positive
                    } else {
                        DetailedTimingDefSyncPolarity::Negative
                    },
                },
            )
        } else {
            None
        },
    }
}

} // verus!

verus! {

// ---------------------------------------------------------------------------
// Display descriptors (18-byte records with a zero pixel-clock marker,
// section 3.10.3).
// ---------------------------------------------------------------------------

/// EDID display descriptor tag, defined in section 3.10.3.
#[derive(Debug, Clone, Copy, PartialEq, Eq)]
pub enum DisplayDescriptorTag {
    ProductSerial,
    DataString,
    RangeLimits,
    ProductName,
    ColorPoint,
    StdTimingIds,
    DcmData,
    CvtTimingCodes,
    EstablishedTimingsIII,
    Dummy,
}

/// EDID display range limits type.
///
/// Before EDID 1.4 a bare range-limits descriptor is reported as "default
/// GTF" for historical reasons; the CVT entry was introduced in EDID 1.4.
#[derive(Debug, Clone, Copy, PartialEq, Eq)]
pub enum DisplayRangeLimitsType {
    Bare,
    DefaultGtf,
    SecondaryGtf,
    Cvt,
}

/// Secondary GTF curve parameters.
///
/// The start frequency is stored in 2 kHz steps and C and J in half units;
/// the raw doubled values are kept here.
#[derive(Debug, Clone, Copy, PartialEq, Eq)]
pub struct DisplayRangeLimitsSecondaryGtf {
    pub start_freq_hz: i32,
    pub c_times_2: u8,
    pub m: u16,
    pub k: u8,
    pub j_times_2: u8,
}

/// Set of CVT aspect ratios.
#[derive(Debug, Clone, Copy, PartialEq, Eq)]
pub struct CvtAspectRatio {
    pub four_three: bool,
    pub sixteen_nine: bool,
    pub sixteen_ten: bool,
    pub five_four: bool,
    pub fifteen_nine: bool,
}

/// Set of supported CVT scaling modes.
#[derive(Debug, Clone, Copy, PartialEq, Eq)]
pub struct CvtScaling {
    pub horiz_shrink: bool,
    pub horiz_stretch: bool,
    pub vert_shrink: bool,
    pub vert_stretch: bool,
}

/// CVT support details of a display range limits descriptor (EDID 1.4).
#[derive(Debug, Clone, Copy, PartialEq, Eq)]
pub struct DisplayRangeLimitsCvt {
    pub version: i32,
    pub revision: i32,
    /// Maximum active pixels per line; raw 0 means no limit.
    pub max_horiz_px: Option<i32>,
    pub supported_aspect_ratio: CvtAspectRatio,
    /// The single preferred ratio, represented as a set with one flag set.
    pub preferred_aspect_ratio: CvtAspectRatio,
    pub standard_blanking: bool,
    pub reduced_blanking: bool,
    pub supported_scaling: CvtScaling,
    pub preferred_vert_refresh_hz: i32,
}

/// EDID display range limits, defined in section 3.10.3.3.1.
///
/// Vertical rates are in Hz and horizontal rates in multiples of 1 kHz,
/// already including the EDID 1.4 +255 offsets.  The maximum pixel clock
/// uses raw 0 as its absent sentinel and is reduced by the CVT additional
/// precision when a CVT sub-descriptor is present.
#[derive(Debug, Clone, Copy, PartialEq, Eq)]
pub struct DisplayRangeLimits {
    pub min_vert_rate_hz: i32,
    pub max_vert_rate_hz: i32,
    pub min_horiz_rate_hz: i32,
    pub max_horiz_rate_hz: i32,
    pub max_pixel_clock_hz: Option<i64>,
    pub type_: DisplayRangeLimitsType,
    pub secondary_gtf: Option<DisplayRangeLimitsSecondaryGtf>,
    pub cvt: Option<DisplayRangeLimitsCvt>,
}

/// EDID color point, defined in section 3.10.3.5.
///
/// White coordinates are raw 10-bit fractions (divide by 1024); the gamma
/// byte follows the basic-gamma convention.
#[derive(Debug, Clone, Copy, PartialEq, Eq)]
pub struct ColorPoint {
    pub index: i32,
    pub white_x: u16,
    pub white_y: u16,
    pub gamma: Option<u16>,
}

/// EDID display Color Management Data, defined in section 3.10.3.7.
///
/// Coefficients of `L = a3 * v^3 + a2 * v^2` per channel, kept as the raw
/// little-endian words in one-hundredth units.
#[derive(Debug, Clone, Copy, PartialEq, Eq)]
pub struct ColorManagementData {
    pub version: i32,
    pub red_a3: u16,
    pub red_a2: u16,
    pub green_a3: u16,
    pub green_a2: u16,
    pub blue_a3: u16,
    pub blue_a2: u16,
}

/// Aspect ratio of an EDID CVT timing code.
#[derive(Debug, Clone, Copy, PartialEq, Eq)]
#[allow(non_camel_case_types)]
pub enum CvtTimingCodeAspectRatio {
    _4_3,
    _16_9,
    _16_10,
    _15_9,
}

/// Preferred vertical rate of an EDID CVT timing code.
#[derive(Debug, Clone, Copy, PartialEq, Eq)]
#[allow(non_camel_case_types)]
pub enum CvtTimingCodePreferredVrate {
    _50HZ,
    _60HZ,
    _75HZ,
    _85HZ,
}

/// EDID CVT timing code, defined in section 3.10.3.8.
#[derive(Debug, Clone, Copy, PartialEq, Eq)]
pub struct CvtTimingCode {
    pub addressable_lines_per_field: i32,
    pub aspect_ratio: CvtTimingCodeAspectRatio,
    pub supports_50hz_sb: bool,
    pub supports_60hz_sb: bool,
    pub supports_75hz_sb: bool,
    pub supports_85hz_sb: bool,
    pub supports_60hz_rb: bool,
    pub preferred_vertical_rate: CvtTimingCodePreferredVrate,
}

// ---------------------------------------------------------------------------
// Descriptor text: up to 13 bytes, cut at the first non-printable byte and
// stripped of trailing spaces.
// ---------------------------------------------------------------------------

/// Index of the first non-printable byte among the 13 text bytes at `off`,
/// scanning from position `i`; 13 when all are printable.
pub open spec fn spec_text_cut(d: Seq<u8>, off: int, i: int) -> int
    recommends
        off + 18 <= d.len(),
        0 <= i <= 13,
    decreases 13 - i,
{
    if i >= 13 {
        13
    } else if d[off + 5 + i] < 32 || d[off + 5 + i] >= 127 {
        i
    } else {
        spec_text_cut(d, off, i + 1)
    }
}

/// Length after stripping trailing spaces from the first `n` text bytes.
pub open spec fn spec_text_strip(d: Seq<u8>, off: int, n: int) -> int
    recommends
        off + 18 <= d.len(),
        0 <= n <= 13,
    decreases n,
{
    if n > 0 && d[off + 5 + n - 1] == 32 {
        spec_text_strip(d, off, n - 1)
    } else {
        n
    }
}

/// The decoded text of a string-bearing display descriptor.
pub open spec fn spec_descriptor_text(d: Seq<u8>, off: int) -> Seq<char>
    recommends
        off + 18 <= d.len(),
{
    Seq::new(
        spec_text_strip(d, off, spec_text_cut(d, off, 0)) as nat,
        |i: int| d[off + 5 + i] as char,
    )
}

proof fn lemma_text_cut_bounds(d: Seq<u8>, off: int, i: int)
    requires
        0 <= i <= 13,
    ensures
        i <= spec_text_cut(d, off, i) <= 13,
    decreases 13 - i,
{
    if i < 13 && !(d[off + 5 + i] < 32 || d[off + 5 + i] >= 127) {
        lemma_text_cut_bounds(d, off, i + 1);
    }
}

/// Printable bytes survive the cut, so every kept byte is below 128.
proof fn lemma_text_cut_printable(d: Seq<u8>, off: int, i: int)
    requires
        0 <= i <= 13,
        off + 18 <= d.len(),
    ensures
        forall|j: int|
            i <= j < spec_text_cut(d, off, i) ==> 32 <= #[trigger] d[off + 5 + j] < 127,
    decreases 13 - i,
{
    if i < 13 && !(d[off + 5 + i] < 32 || d[off + 5 + i] >= 127) {
        lemma_text_cut_printable(d, off, i + 1);
    }
}

fn decode_descriptor_text(d: &[u8], off: usize) -> (r: String)
    requires
        off + 18 <= d@.len(),
    ensures
        r@ == spec_descriptor_text(d@, off as int),
{
    let _n: usize = d.len();
    proof {
        lemma_text_cut_bounds(d@, off as int, 0);
        lemma_text_cut_printable(d@, off as int, 0);
    }
    let mut i: usize = 0;
    while i < 13 && 32 <= d[off + 5 + i] && d[off + 5 + i] < 127
        invariant
            0 <= i <= 13,
            off + 18 <= d@.len(),
            d@.len() <= usize::MAX,
            spec_text_cut(d@, off as int, 0) == spec_text_cut(d@, off as int, i as int),
        decreases 13 - i,
    {
        i = i + 1;
    }
    let cut: usize = i;
    assert(cut == spec_text_cut(d@, off as int, 0));
    let mut len: usize = cut;
    while len > 0 && d[off + 5 + len - 1] == 32
        invariant
            0 <= len <= cut <= 13,
            off + 18 <= d@.len(),
            d@.len() <= usize::MAX,
            spec_text_strip(d@, off as int, cut as int) == spec_text_strip(
                d@,
                off as int,
                len as int,
            ),
        decreases len,
    {
        len = len - 1;
    }
    assert(len == spec_text_strip(d@, off as int, cut as int));
    let mut bytes: Vec<u8> = Vec::new();
    let mut j: usize = 0;
    while j < len
        invariant
            0 <= j <= len,
            len <= cut <= 13,
            cut == spec_text_cut(d@, off as int, 0),
            off + 18 <= d@.len(),
            d@.len() <= usize::MAX,
            bytes@.len() == j,
            forall|k: int| 0 <= k < j ==> bytes@[k] == d@[off + 5 + k],
            forall|k: int| 0 <= k < j ==> bytes@[k] < 128,
        decreases len - j,
    {
        proof {
            lemma_text_cut_printable(d@, off as int, 0);
        }
        bytes.push(d[off + 5 + j]);
        j = j + 1;
    }
    let s = ascii_string(&bytes);
    proof {
        assert(s@ =~= spec_descriptor_text(d@, off as int));
    }
    s
}

} // verus!

verus! {

// ---------------------------------------------------------------------------
// Descriptor payload decoders.
// ---------------------------------------------------------------------------

/// Offset applied by the EDID 1.4 rate-offset flags: bit pattern 11 adds
/// 255 to both bounds, 10 only to the maximum.
pub open spec fn spec_rate_offset(flags: u8, max: bool) -> int {
    if flags == 3 {
        255
    } else if flags == 2 && max {
        255
    } else {
        0
    }
}

pub open spec fn spec_range_limits_type(d: Seq<u8>, off: int) -> DisplayRangeLimitsType
    recommends
        d.len() >= 128,
        off + 18 <= d.len(),
{
    if d[off + 10] == 0x00 {
        DisplayRangeLimitsType::DefaultGtf
    } else if d[off + 10] == 0x02 {
        DisplayRangeLimitsType::SecondaryGtf
    } else if d[off + 10] == 0x04 && d[19] >= 4 {
        DisplayRangeLimitsType::Cvt
    } else if d[19] < 4 {
        // Pre-1.4 bare range limits are reported as default GTF.
        DisplayRangeLimitsType::DefaultGtf
    } else {
        DisplayRangeLimitsType::Bare
    }
}

pub open spec fn spec_secondary_gtf(d: Seq<u8>, off: int) -> DisplayRangeLimitsSecondaryGtf
    recommends
        off + 18 <= d.len(),
{
    DisplayRangeLimitsSecondaryGtf {
        start_freq_hz: (d[off + 12] * 2000) as i32,
        c_times_2: d[off + 13],
        m: spec_le16(d[off + 14], d[off + 15]),
        k: d[off + 16],
        j_times_2: d[off + 17],
    }
}

pub open spec fn spec_cvt_aspect_set(b: u8) -> CvtAspectRatio {
    CvtAspectRatio {
        four_three: spec_bit(b, 7),
        sixteen_nine: spec_bit(b, 6),
        sixteen_ten: spec_bit(b, 5),
        five_four: spec_bit(b, 4),
        fifteen_nine: spec_bit(b, 3),
    }
}

/// The preferred aspect ratio is a 3-bit selector; it is represented as a
/// ratio set with exactly the selected flag raised.
pub open spec fn spec_cvt_preferred_aspect(v: u8) -> CvtAspectRatio
    recommends
        v < 8,
{
    CvtAspectRatio {
        four_three: v == 0,
        sixteen_nine: v == 1,
        sixteen_ten: v == 2,
        five_four: v == 3,
        fifteen_nine: v == 4,
    }
}

pub open spec fn spec_range_limits_cvt(d: Seq<u8>, off: int) -> DisplayRangeLimitsCvt
    recommends
        off + 18 <= d.len(),
{
    let px = (d[off + 12] % 4) * 256 + d[off + 13];
    DisplayRangeLimitsCvt {
        version: (d[off + 11] / 16) as i32,
        revision: (d[off + 11] % 16) as i32,
        max_horiz_px: if px == 0 {
            None
        } else {
            Some((px * 8) as i32)
        },
        supported_aspect_ratio: spec_cvt_aspect_set(d[off + 14]),
        preferred_aspect_ratio: spec_cvt_preferred_aspect(d[off + 15] / 32),
        standard_blanking: spec_bit(d[off + 15], 4),
        reduced_blanking: spec_bit(d[off + 15], 3),
        supported_scaling: CvtScaling {
            horiz_shrink: spec_bit(d[off + 16], 7),
            horiz_stretch: spec_bit(d[off + 16], 6),
            vert_shrink: spec_bit(d[off + 16], 5),
            vert_stretch: spec_bit(d[off + 16], 4),
        },
        preferred_vert_refresh_hz: d[off + 17] as i32,
    }
}

pub open spec fn spec_range_limits(d: Seq<u8>, off: int) -> DisplayRangeLimits
    recommends
        d.len() >= 128,
        off + 18 <= d.len(),
{
    let ty = spec_range_limits_type(d, off);
    let voff = (d[off + 4] / 4) % 4;
    let hoff = d[off + 4] % 4;
    DisplayRangeLimits {
        min_vert_rate_hz: (d[off + 5] + spec_rate_offset(voff, false)) as i32,
        max_vert_rate_hz: (d[off + 6] + spec_rate_offset(voff, true)) as i32,
        min_horiz_rate_hz: ((d[off + 7] + spec_rate_offset(hoff, false)) * 1000) as i32,
        max_horiz_rate_hz: ((d[off + 8] + spec_rate_offset(hoff, true)) * 1000) as i32,
        max_pixel_clock_hz: if d[off + 9] == 0 {
            None
        } else if ty is Cvt {
            Some((d[off + 9] * 10000000 - (d[off + 12] / 4) * 250000) as i64)
        } else {
            Some((d[off + 9] * 10000000) as i64)
        },
        type_: ty,
        secondary_gtf: if ty is SecondaryGtf {
            Some(spec_secondary_gtf(d, off))
        } else {
            None
        },
        cvt: if ty is Cvt {
            Some(spec_range_limits_cvt(d, off))
        } else {
            None
        },
    }
}

fn decode_range_limits(d: &[u8], off: usize) -> (r: DisplayRangeLimits)
    requires
        d@.len() >= 128,
        off + 18 <= d@.len(),
    ensures
        r == spec_range_limits(d@, off as int),
{
    let _n: usize = d.len();
    let ty = if d[off + 10] == 0x00 {
        DisplayRangeLimitsType::DefaultGtf
    } else if d[off + 10] == 0x02 {
        DisplayRangeLimitsType::SecondaryGtf
    } else if d[off + 10] == 0x04 && d[19] >= 4 {
        DisplayRangeLimitsType::Cvt
    } else if d[19] < 4 {
        DisplayRangeLimitsType::DefaultGtf
    } else {
        DisplayRangeLimitsType::Bare
    };
    let voff = (d[off + 4] / 4) % 4;
    let hoff = d[off + 4] % 4;
    let vmin_add: i32 = if voff == 3 { 255 } else { 0 };
    let vmax_add: i32 = if voff >= 2 { 255 } else { 0 };
    let hmin_add: i32 = if hoff == 3 { 255 } else { 0 };
    let hmax_add: i32 = if hoff >= 2 { 255 } else { 0 };
    DisplayRangeLimits {
        min_vert_rate_hz: d[off + 5] as i32 + vmin_add,
        max_vert_rate_hz: d[off + 6] as i32 + vmax_add,
        min_horiz_rate_hz: (d[off + 7] as i32 + hmin_add) * 1000,
        max_horiz_rate_hz: (d[off + 8] as i32 + hmax_add) * 1000,
        max_pixel_clock_hz: if d[off + 9] == 0 {
            None
        } else if matches!(ty, DisplayRangeLimitsType::Cvt) {
            Some(d[off + 9] as i64 * 10000000 - (d[off + 12] / 4) as i64 * 250000)
        } else {
            Some(d[off + 9] as i64 * 10000000)
        },
        type_: ty,
        secondary_gtf: if matches!(ty, DisplayRangeLimitsType::SecondaryGtf) {
            Some(
                DisplayRangeLimitsSecondaryGtf {
                    start_freq_hz: d[off + 12] as i32 * 2000,
                    c_times_2: d[off + 13],
                    m: le16(d[off + 14], d[off + 15]),
                    k: d[off + 16],
                    j_times_2: d[off + 17],
                },
            )
        } else {
            None
        },
        cvt: if matches!(ty, DisplayRangeLimitsType::Cvt) {
            let px = (d[off + 12] % 4) as u16 * 256 + d[off + 13] as u16;
            let pref = d[off + 15] / 32;
            Some(
                DisplayRangeLimitsCvt {
                    version: (d[off + 11] / 16) as i32,
                    revision: (d[off + 11] % 16) as i32,
                    max_horiz_px: if px == 0 {
                        None
                    } else {
                        Some(px as i32 * 8)
                    },
                    supported_aspect_ratio: CvtAspectRatio {
                        four_three: bit(d[off + 14], 7),
                        sixteen_nine: bit(d[off + 14], 6),
                        sixteen_ten: bit(d[off + 14], 5),
                        five_four: bit(d[off + 14], 4),
                        fifteen_nine: bit(d[off + 14], 3),
                    },
                    preferred_aspect_ratio: CvtAspectRatio {
                        four_three: pref == 0,
                        sixteen_nine: pref == 1,
                        sixteen_ten: pref == 2,
                        five_four: pref == 3,
                        fifteen_nine: pref == 4,
                    },
                    standard_blanking: bit(d[off + 15], 4),
                    reduced_blanking: bit(d[off + 15], 3),
                    supported_scaling: CvtScaling {
                        horiz_shrink: bit(d[off + 16], 7),
                        horiz_stretch: bit(d[off + 16], 6),
                        vert_shrink: bit(d[off + 16], 5),
                        vert_stretch: bit(d[off + 16], 4),
                    },
                    preferred_vert_refresh_hz: d[off + 17] as i32,
                },
            )
        } else {
            None
        },
    }
}

/// One 5-byte color point; index 0 marks an unused slot.
pub open spec fn spec_color_point(d: Seq<u8>, p: int) -> Option<ColorPoint>
    recommends
        p + 5 <= d.len(),
{
    if d[p] == 0 {
        None
    } else {
        Some(
            ColorPoint {
                index: d[p] as i32,
                white_x: (d[p + 2] * 4 + (d[p + 1] / 4) % 4) as u16,
                white_y: (d[p + 3] * 4 + d[p + 1] % 4) as u16,
                gamma: if d[p + 4] == 0xFF {
                    None
                } else {
                    Some((d[p + 4] + 100) as u16)
                },
            },
        )
    }
}

/// The color points of a color-point descriptor: two slots at bytes 5 and 10.
pub open spec fn spec_color_points(d: Seq<u8>, off: int) -> Seq<ColorPoint>
    recommends
        off + 18 <= d.len(),
{
    let first: Seq<ColorPoint> = match spec_color_point(d, off + 5) {
        Some(c) => seq![c],
        None => Seq::empty(),
    };
    match spec_color_point(d, off + 10) {
        Some(c) => first.push(c),
        None => first,
    }
}

fn decode_color_point(d: &[u8], p: usize) -> (r: Option<ColorPoint>)
    requires
        p + 5 <= d@.len(),
    ensures
        r == spec_color_point(d@, p as int),
{
    let _n: usize = d.len();
    if d[p] == 0 {
        None
    } else {
        Some(
            ColorPoint {
                index: d[p] as i32,
                white_x: d[p + 2] as u16 * 4 + ((d[p + 1] / 4) % 4) as u16,
                white_y: d[p + 3] as u16 * 4 + (d[p + 1] % 4) as u16,
                gamma: if d[p + 4] == 0xFF {
                    None
                } else {
                    Some(d[p + 4] as u16 + 100)
                },
            },
        )
    }
}

fn decode_color_points(d: &[u8], off: usize) -> (r: Vec<ColorPoint>)
    requires
        off + 18 <= d@.len(),
    ensures
        r@ == spec_color_points(d@, off as int),
{
    let _n: usize = d.len();
    let mut out: Vec<ColorPoint> = Vec::new();
    match decode_color_point(d, off + 5) {
        Some(c) => out.push(c),
        None => {},
    }
    match decode_color_point(d, off + 10) {
        Some(c) => out.push(c),
        None => {},
    }
    assert(out@ =~= spec_color_points(d@, off as int));
    out
}

pub open spec fn spec_dcm_data(d: Seq<u8>, off: int) -> ColorManagementData
    recommends
        off + 18 <= d.len(),
{
    ColorManagementData {
        version: d[off + 5] as i32,
        red_a3: spec_le16(d[off + 6], d[off + 7]),
        red_a2: spec_le16(d[off + 8], d[off + 9]),
        green_a3: spec_le16(d[off + 10], d[off + 11]),
        green_a2: spec_le16(d[off + 12], d[off + 13]),
        blue_a3: spec_le16(d[off + 14], d[off + 15]),
        blue_a2: spec_le16(d[off + 16], d[off + 17]),
    }
}

fn decode_dcm_data(d: &[u8], off: usize) -> (r: ColorManagementData)
    requires
        off + 18 <= d@.len(),
    ensures
        r == spec_dcm_data(d@, off as int),
{
    let _n: usize = d.len();
    ColorManagementData {
        version: d[off + 5] as i32,
        red_a3: le16(d[off + 6], d[off + 7]),
        red_a2: le16(d[off + 8], d[off + 9]),
        green_a3: le16(d[off + 10], d[off + 11]),
        green_a2: le16(d[off + 12], d[off + 13]),
        blue_a3: le16(d[off + 14], d[off + 15]),
        blue_a2: le16(d[off + 16], d[off + 17]),
    }
}

/// One 3-byte CVT timing code; an all-zero triple marks an unused slot.
pub open spec fn spec_cvt_timing_code(d: Seq<u8>, p: int) -> Option<CvtTimingCode>
    recommends
        p + 3 <= d.len(),
{
    if d[p] == 0 && d[p + 1] == 0 && d[p + 2] == 0 {
        None
    } else {
        let lines = ((d[p + 1] / 16) * 256 + d[p]) + 1;
        let ar = (d[p + 1] / 4) % 4;
        let vr = (d[p + 2] / 32) % 4;
        Some(
            CvtTimingCode {
                addressable_lines_per_field: (lines * 2) as i32,
                aspect_ratio: if ar == 0 {
                    CvtTimingCodeAspectRatio::_4_3
                } else if ar == 1 {
                    CvtTimingCodeAspectRatio::_16_9
                } else if ar == 2 {
                    CvtTimingCodeAspectRatio::_16_10
                } else {
                    CvtTimingCodeAspectRatio::_15_9
                },
                supports_50hz_sb: spec_bit(d[p + 2], 4),
                supports_60hz_sb: spec_bit(d[p + 2], 3),
                supports_75hz_sb: spec_bit(d[p + 2], 2),
                supports_85hz_sb: spec_bit(d[p + 2], 1),
                supports_60hz_rb: spec_bit(d[p + 2], 0),
                preferred_vertical_rate: if vr == 0 {
                    CvtTimingCodePreferredVrate::_50HZ
                } else if vr == 1 {
                    CvtTimingCodePreferredVrate::_60HZ
                } else if vr == 2 {
                    CvtTimingCodePreferredVrate::_75HZ
                } else {
                    CvtTimingCodePreferredVrate::_85HZ
                },
            },
        )
    }
}

/// The used slots among the four 3-byte CVT codes at bytes 5..17, in order.
pub open spec fn spec_cvt_timing_codes_prefix(d: Seq<u8>, off: int, n: int) -> Seq<CvtTimingCode>
    recommends
        off + 18 <= d.len(),
        0 <= n <= 4,
    decreases n,
{
    if n <= 0 {
        Seq::empty()
    } else {
        let rest = spec_cvt_timing_codes_prefix(d, off, n - 1);
        match spec_cvt_timing_code(d, off + 5 + 3 * (n - 1)) {
            Some(c) => rest.push(c),
            None => rest,
        }
    }
}

pub open spec fn spec_cvt_timing_codes(d: Seq<u8>, off: int) -> Seq<CvtTimingCode>
    recommends
        off + 18 <= d.len(),
{
    spec_cvt_timing_codes_prefix(d, off, 4)
}

fn decode_cvt_timing_code(d: &[u8], p: usize) -> (r: Option<CvtTimingCode>)
    requires
        p + 3 <= d@.len(),
    ensures
        r == spec_cvt_timing_code(d@, p as int),
{
    let _n: usize = d.len();
    if d[p] == 0 && d[p + 1] == 0 && d[p + 2] == 0 {
        None
    } else {
        let lines: i32 = (d[p + 1] / 16) as i32 * 256 + d[p] as i32 + 1;
        let ar = (d[p + 1] / 4) % 4;
        let vr = (d[p + 2] / 32) % 4;
        Some(
            CvtTimingCode {
                addressable_lines_per_field: lines * 2,
                aspect_ratio: if ar == 0 {
                    CvtTimingCodeAspectRatio::_4_3
                } else if ar == 1 {
                    CvtTimingCodeAspectRatio::_16_9
                } else if ar == 2 {
                    CvtTimingCodeAspectRatio::_16_10
                } else {
                    CvtTimingCodeAspectRatio::_15_9
                },
                supports_50hz_sb: bit(d[p + 2], 4),
                supports_60hz_sb: bit(d[p + 2], 3),
                supports_75hz_sb: bit(d[p + 2], 2),
                supports_85hz_sb: bit(d[p + 2], 1),
                supports_60hz_rb: bit(d[p + 2], 0),
                preferred_vertical_rate: if vr == 0 {
                    CvtTimingCodePreferredVrate::_50HZ
                } else if vr == 1 {
                    CvtTimingCodePreferredVrate::_60HZ
                } else if vr == 2 {
                    CvtTimingCodePreferredVrate::_75HZ
                } else {
                    CvtTimingCodePreferredVrate::_85HZ
                },
            },
        )
    }
}

fn decode_cvt_timing_codes(d: &[u8], off: usize) -> (r: Vec<CvtTimingCode>)
    requires
        off + 18 <= d@.len(),
    ensures
        r@ == spec_cvt_timing_codes(d@, off as int),
{
    let _n: usize = d.len();
    let mut out: Vec<CvtTimingCode> = Vec::new();
    let mut i: usize = 0;
    while i < 4
        invariant
            0 <= i <= 4,
            off + 18 <= d@.len(),
            d@.len() <= usize::MAX,
            out@ == spec_cvt_timing_codes_prefix(d@, off as int, i as int),
        decreases 4 - i,
    {
        match decode_cvt_timing_code(d, off + 5 + 3 * i) {
            Some(c) => out.push(c),
            None => {},
        }
        i = i + 1;
    }
    out
}

/// The used slots among the six standard-timing pairs at descriptor bytes
/// 5..17, in order.
pub open spec fn spec_descriptor_std_timings_prefix(d: Seq<u8>, off: int, n: int) -> Seq<
    StandardTiming,
>
    recommends
        off + 18 <= d.len(),
        0 <= n <= 6,
    decreases n,
{
    if n <= 0 {
        Seq::empty()
    } else {
        let rest = spec_descriptor_std_timings_prefix(d, off, n - 1);
        match spec_standard_timing_slot(d[off + 5 + 2 * (n - 1)], d[off + 6 + 2 * (n - 1)]) {
            Some(t) => rest.push(t),
            None => rest,
        }
    }
}

pub open spec fn spec_descriptor_std_timings(d: Seq<u8>, off: int) -> Seq<StandardTiming>
    recommends
        off + 18 <= d.len(),
{
    spec_descriptor_std_timings_prefix(d, off, 6)
}

fn decode_descriptor_std_timings(d: &[u8], off: usize) -> (r: Vec<StandardTiming>)
    requires
        off + 18 <= d@.len(),
    ensures
        r@ == spec_descriptor_std_timings(d@, off as int),
{
    let _n: usize = d.len();
    let mut out: Vec<StandardTiming> = Vec::new();
    let mut i: usize = 0;
    while i < 6
        invariant
            0 <= i <= 6,
            off + 18 <= d@.len(),
            d@.len() <= usize::MAX,
            out@ == spec_descriptor_std_timings_prefix(d@, off as int, i as int),
        decreases 6 - i,
    {
        match decode_standard_timing_slot(d[off + 5 + 2 * i], d[off + 6 + 2 * i]) {
            Some(t) => out.push(t),
            None => {},
        }
        i = i + 1;
    }
    out
}

/// The six established-timings-III bitmap bytes (descriptor bytes 6..12).
pub open spec fn spec_est_iii_bitmap(d: Seq<u8>, off: int) -> Seq<u8>
    recommends
        off + 18 <= d.len(),
{
    Seq::new(6, |i: int| d[off + 6 + i])
}

fn decode_est_iii_bitmap(d: &[u8], off: usize) -> (r: Vec<u8>)
    requires
        off + 18 <= d@.len(),
    ensures
        r@ == spec_est_iii_bitmap(d@, off as int),
{
    let _n: usize = d.len();
    let mut out: Vec<u8> = Vec::new();
    let mut i: usize = 0;
    while i < 6
        invariant
            0 <= i <= 6,
            off + 18 <= d@.len(),
            d@.len() <= usize::MAX,
            out@.len() == i,
            forall|k: int| 0 <= k < i ==> out@[k] == d@[off + 6 + k],
        decreases 6 - i,
    {
        out.push(d[off + 6 + i]);
        i = i + 1;
    }
    assert(out@ =~= spec_est_iii_bitmap(d@, off as int));
    out
}

} // verus!

verus! {

// ---------------------------------------------------------------------------
// Display descriptor records and the walk over the four 18-byte slots.
// ---------------------------------------------------------------------------

/// Ghost model of a decoded display descriptor.
pub struct DisplayDescriptorModel {
    pub tag: DisplayDescriptorTag,
    pub text: Option<Seq<char>>,
    pub range_limits: Option<DisplayRangeLimits>,
    pub std_timings: Option<Seq<StandardTiming>>,
    pub color_points: Option<Seq<ColorPoint>>,
    pub est_iii: Option<Seq<u8>>,
    pub dcm: Option<ColorManagementData>,
    pub cvt_codes: Option<Seq<CvtTimingCode>>,
}

/// EDID display descriptor: an 18-byte record whose zero pixel-clock word
/// distinguishes it from a detailed timing, dispatched on its tag byte.
///
/// Exactly the payload matching the tag is present; every tag-mismatched
/// accessor answers `None`.
#[derive(Debug, Clone, PartialEq, Eq)]
pub struct DisplayDescriptorRef {
    tag: DisplayDescriptorTag,
    text: Option<String>,
    range_limits: Option<DisplayRangeLimits>,
    std_timings: Option<Vec<StandardTiming>>,
    color_points: Option<Vec<ColorPoint>>,
    est_iii: Option<Vec<u8>>,
    dcm: Option<ColorManagementData>,
    cvt_codes: Option<Vec<CvtTimingCode>>,
}

impl DisplayDescriptorRef {
    pub closed spec fn model(&self) -> DisplayDescriptorModel {
        DisplayDescriptorModel {
            tag: self.tag,
            text: match self.text {
                Some(ref s) => Some(s@),
                None => None,
            },
            range_limits: self.range_limits,
            std_timings: match self.std_timings {
                Some(ref v) => Some(v@),
                None => None,
            },
            color_points: match self.color_points {
                Some(ref v) => Some(v@),
                None => None,
            },
            est_iii: match self.est_iii {
                Some(ref v) => Some(v@),
                None => None,
            },
            dcm: self.dcm,
            cvt_codes: match self.cvt_codes {
                Some(ref v) => Some(v@),
                None => None,
            },
        }
    }

    /// Tag of this display descriptor.
    pub fn tag(&self) -> (r: DisplayDescriptorTag)
        ensures
            r == self.model().tag,
    {
        self.tag
    }

    /// Text of a product serial, data string or product name descriptor;
    /// `None` for every other tag.
    pub fn string(&self) -> (r: Option<String>)
        ensures
            r is Some <==> self.model().text is Some,
            r is Some ==> r->0@ == self.model().text->0,
    {
        match &self.text {
            Some(s) => Some(s.clone()),
            None => None,
        }
    }

    /// Contents of a display range limits descriptor; `None` for every
    /// other tag.
    pub fn range_limits(&self) -> (r: Option<DisplayRangeLimits>)
        ensures
            r == self.model().range_limits,
    {
        self.range_limits
    }

    /// Standard timing list of a standard timing identifiers descriptor;
    /// `None` for every other tag.
    pub fn standard_timings(&self) -> (r: Option<&Vec<StandardTiming>>)
        ensures
            r is Some <==> self.model().std_timings is Some,
            r is Some ==> r->0@ == self.model().std_timings->0,
    {
        match &self.std_timings {
            Some(v) => Some(v),
            None => None,
        }
    }

    /// Color point list of a color point descriptor; `None` for every other
    /// tag.
    pub fn color_points(&self) -> (r: Option<&Vec<ColorPoint>>)
        ensures
            r is Some <==> self.model().color_points is Some,
            r is Some ==> r->0@ == self.model().color_points->0,
    {
        match &self.color_points {
            Some(v) => Some(v),
            None => None,
        }
    }

    /// Raw six-byte bitmap of an established timings III descriptor;
    /// `None` for every other tag.
    pub fn established_timings_iii_bitmap(&self) -> (r: Option<&Vec<u8>>)
        ensures
            r is Some <==> self.model().est_iii is Some,
            r is Some ==> r->0@ == self.model().est_iii->0,
    {
        match &self.est_iii {
            Some(v) => Some(v),
            None => None,
        }
    }

    /// The DMT timings whose bits are raised in an established timings III
    /// descriptor, in bitmap order, restricted to the entries the DMT table
    /// records; `None` for every other tag.
    pub fn established_timings_iii(&self) -> (r: Option<Vec<crate::dmt::Timing>>)
        ensures
            r is Some <==> self.model().est_iii is Some,
            r is Some ==> r->0@ == spec_est_iii_timings(self.model().est_iii->0),
    {
        match &self.est_iii {
            Some(bitmap) => Some(est_iii_timings(bitmap)),
            None => None,
        }
    }

    /// Contents of a color management data descriptor; `None` for every
    /// other tag.
    pub fn color_management_data(&self) -> (r: Option<ColorManagementData>)
        ensures
            r == self.model().dcm,
    {
        self.dcm
    }

    /// CVT timing code list of a CVT timing codes descriptor, highest
    /// priority first; `None` for every other tag.
    pub fn cvt_timing_codes(&self) -> (r: Option<&Vec<CvtTimingCode>>)
        ensures
            r is Some <==> self.model().cvt_codes is Some,
            r is Some ==> r->0@ == self.model().cvt_codes->0,
    {
        match &self.cvt_codes {
            Some(v) => Some(v),
            None => None,
        }
    }
}

/// The DMT timings selected by the raised bits of one bitmap byte,
/// most-significant bit first, for bits 7 down to `b`.
pub open spec fn spec_est_iii_byte_timings(byte: u8, k: int, b: int) -> Seq<crate::dmt::Timing>
    recommends
        0 <= k < 6,
        0 <= b < 8,
    decreases b,
{
    let here: Seq<crate::dmt::Timing> = if spec_bit(byte, b as u8) {
        match crate::dmt::spec_timing_by_dmt_id(crate::dmt::spec_est_iii_dmt_id(k, b)) {
            Some(t) => seq![t],
            None => Seq::empty(),
        }
    } else {
        Seq::empty()
    };
    if b <= 0 {
        here
    } else {
        here + spec_est_iii_byte_timings(byte, k, b - 1)
    }
}

/// All DMT timings selected by the first `n` bitmap bytes.
pub open spec fn spec_est_iii_timings_prefix(bitmap: Seq<u8>, n: int) -> Seq<crate::dmt::Timing>
    recommends
        bitmap.len() == 6,
        0 <= n <= 6,
    decreases n,
{
    if n <= 0 {
        Seq::empty()
    } else {
        let byte: u8 = if n - 1 < bitmap.len() {
            bitmap[n - 1]
        } else {
            0
        };
        spec_est_iii_timings_prefix(bitmap, n - 1) + spec_est_iii_byte_timings(byte, n - 1, 7)
    }
}

pub open spec fn spec_est_iii_timings(bitmap: Seq<u8>) -> Seq<crate::dmt::Timing>
    recommends
        bitmap.len() == 6,
{
    spec_est_iii_timings_prefix(bitmap, 6)
}

fn est_iii_timings(bitmap: &Vec<u8>) -> (r: Vec<crate::dmt::Timing>)
    ensures
        r@ == spec_est_iii_timings(bitmap@),
{
    let mut out: Vec<crate::dmt::Timing> = Vec::new();
    let mut k: usize = 0;
    let n = bitmap.len();
    while k < 6
        invariant
            0 <= k <= 6,
            n == bitmap@.len(),
            out@ == spec_est_iii_timings_prefix(bitmap@, k as int),
        decreases 6 - k,
    {
        let byte: u8 = if k < n {
            bitmap[k]
        } else {
            0
        };
        let mut b: i32 = 7;
        while b >= 0
            invariant
                -1 <= b <= 7,
                0 <= k < 6,
                n == bitmap@.len(),
                k < n ==> byte == bitmap@[k as int],
                out@ == spec_est_iii_timings_prefix(bitmap@, k as int) + (if b == 7 {
                    Seq::<crate::dmt::Timing>::empty()
                } else {
                    spec_est_iii_byte_timings_from(byte, k as int, b + 1)
                }),
            decreases b + 1,
        {
            if bit(byte, b as u8) {
                match crate::dmt::timing_by_dmt_id(crate::dmt::est_iii_dmt_id(k, b as u8)) {
                    Some(t) => out.push(t),
                    None => {},
                }
            }
            proof {
                lemma_est_iii_from_unfold(byte, k as int, b as int);
            }
            b = b - 1;
        }
        proof {
            lemma_est_iii_from_eq(byte, k as int);
            assert(out@ =~= spec_est_iii_timings_prefix(bitmap@, k as int + 1));
        }
        k = k + 1;
    }
    out
}

/// The timings selected by bits `b` down to 0, top-down order.
pub open spec fn spec_est_iii_byte_timings_from(byte: u8, k: int, b: int) -> Seq<
    crate::dmt::Timing,
>
    recommends
        0 <= k < 6,
        0 <= b <= 8,
    decreases 8 - b,
{
    if b >= 8 {
        Seq::empty()
    } else {
        let here: Seq<crate::dmt::Timing> = if spec_bit(byte, b as u8) {
            match crate::dmt::spec_timing_by_dmt_id(crate::dmt::spec_est_iii_dmt_id(k, b)) {
                Some(t) => seq![t],
                None => Seq::empty(),
            }
        } else {
            Seq::empty()
        };
        spec_est_iii_byte_timings_from(byte, k, b + 1) + here
    }
}

proof fn lemma_est_iii_from_unfold(byte: u8, k: int, b: int)
    requires
        0 <= b <= 7,
    ensures
        spec_est_iii_byte_timings_from(byte, k, b) == spec_est_iii_byte_timings_from(
            byte,
            k,
            b + 1,
        ) + (if spec_bit(byte, b as u8) {
            match crate::dmt::spec_timing_by_dmt_id(crate::dmt::spec_est_iii_dmt_id(k, b)) {
                Some(t) => seq![t],
                None => Seq::<crate::dmt::Timing>::empty(),
            }
        } else {
            Seq::<crate::dmt::Timing>::empty()
        }),
{
}

/// Walking a byte top-down or assembling it bottom-up selects the same
/// timings.
proof fn lemma_est_iii_from_eq(byte: u8, k: int)
    ensures
        spec_est_iii_byte_timings_from(byte, k, 0) =~= spec_est_iii_byte_timings(byte, k, 7),
{
    lemma_est_iii_split(byte, k, 7);
}

proof fn lemma_est_iii_split(byte: u8, k: int, b: int)
    requires
        0 <= b <= 7,
    ensures
        spec_est_iii_byte_timings_from(byte, k, 0) =~= spec_est_iii_byte_timings_from(
            byte,
            k,
            b + 1,
        ) + spec_est_iii_byte_timings(byte, k, b),
    decreases b,
{
    if b == 0 {
        lemma_est_iii_from_unfold(byte, k, 0);
        assert(spec_est_iii_byte_timings_from(byte, k, 0) =~= spec_est_iii_byte_timings_from(
            byte,
            k,
            1,
        ) + spec_est_iii_byte_timings(byte, k, 0));
    } else {
        lemma_est_iii_split(byte, k, b - 1);
        lemma_est_iii_from_unfold(byte, k, b);
    }
}

impl StandardTiming {
    /// The DMT timing matching this standard timing's 2-byte code, when the
    /// DMT table records one.
    pub fn dmt(&self) -> (r: Option<crate::dmt::Timing>)
        ensures
            r == crate::dmt::spec_timing_by_std_id(spec_standard_timing_std_id(*self)),
    {
        crate::dmt::timing_by_std_id(self.std_id())
    }

    /// The 2-byte EDID standard-timing code this record decodes from.
    pub fn std_id(&self) -> (r: u16)
        ensures
            r == spec_standard_timing_std_id(*self),
    {
        if self.horiz_video < 248 || self.horiz_video > 2288 || self.refresh_rate_hz < 60
            || self.refresh_rate_hz > 123 {
            return 0;
        }
        let b1: u16 = (self.horiz_video / 8 - 31) as u16;
        let ar: u16 = match self.aspect_ratio {
            StandardTimingAspectRatio::_16_10 => 0,
            StandardTimingAspectRatio::_4_3 => 1,
            StandardTimingAspectRatio::_5_4 => 2,
            StandardTimingAspectRatio::_16_9 => 3,
        };
        let b2: u16 = ar * 64 + (self.refresh_rate_hz - 60) as u16;
        b1 * 256 + b2
    }
}

/// The 2-byte standard-timing code a decoded record re-encodes to; 0 when
/// the values lie outside the encodable range.
pub open spec fn spec_standard_timing_std_id(t: StandardTiming) -> u16 {
    if t.horiz_video < 248 || t.horiz_video > 2288 || t.refresh_rate_hz < 60
        || t.refresh_rate_hz > 123 {
        0
    } else {
        let ar: int = match t.aspect_ratio {
            StandardTimingAspectRatio::_16_10 => 0,
            StandardTimingAspectRatio::_4_3 => 1,
            StandardTimingAspectRatio::_5_4 => 2,
            StandardTimingAspectRatio::_16_9 => 3,
        };
        ((t.horiz_video / 8 - 31) * 256 + ar * 64 + t.refresh_rate_hz - 60) as u16
    }
}

} // verus!

verus! {

pub open spec fn spec_descriptor_tag(t: u8) -> Option<DisplayDescriptorTag> {
    if t == 0xFF {
        Some(DisplayDescriptorTag::ProductSerial)
    } else if t == 0xFE {
        Some(DisplayDescriptorTag::DataString)
    } else if t == 0xFD {
        Some(DisplayDescriptorTag::RangeLimits)
    } else if t == 0xFC {
        Some(DisplayDescriptorTag::ProductName)
    } else if t == 0xFB {
        Some(DisplayDescriptorTag::ColorPoint)
    } else if t == 0xFA {
        Some(DisplayDescriptorTag::StdTimingIds)
    } else if t == 0xF9 {
        Some(DisplayDescriptorTag::DcmData)
    } else if t == 0xF8 {
        Some(DisplayDescriptorTag::CvtTimingCodes)
    } else if t == 0xF7 {
        Some(DisplayDescriptorTag::EstablishedTimingsIII)
    } else if t == 0x10 {
        Some(DisplayDescriptorTag::Dummy)
    } else {
        None
    }
}

pub open spec fn spec_descriptor_has_text(tag: DisplayDescriptorTag) -> bool {
    tag is ProductSerial || tag is DataString || tag is ProductName
}

/// The model of the display descriptor in the 18-byte slot at `off`, or
/// `None` when the slot holds a detailed timing or an unrecognized tag.
pub open spec fn spec_display_descriptor(d: Seq<u8>, off: int) -> Option<DisplayDescriptorModel>
    recommends
        d.len() >= 128,
        off + 18 <= d.len(),
{
    if spec_is_detailed_timing(d, off) {
        None
    } else {
        match spec_descriptor_tag(d[off + 3]) {
            None => None,
            Some(tag) => Some(
                DisplayDescriptorModel {
                    tag,
                    text: if spec_descriptor_has_text(tag) {
                        Some(spec_descriptor_text(d, off))
                    } else {
                        None
                    },
                    range_limits: if tag is RangeLimits {
                        Some(spec_range_limits(d, off))
                    } else {
                        None
                    },
                    std_timings: if tag is StdTimingIds {
                        Some(spec_descriptor_std_timings(d, off))
                    } else {
                        None
                    },
                    color_points: if tag is ColorPoint {
                        Some(spec_color_points(d, off))
                    } else {
                        None
                    },
                    est_iii: if tag is EstablishedTimingsIII {
                        Some(spec_est_iii_bitmap(d, off))
                    } else {
                        None
                    },
                    dcm: if tag is DcmData {
                        Some(spec_dcm_data(d, off))
                    } else {
                        None
                    },
                    cvt_codes: if tag is CvtTimingCodes {
                        Some(spec_cvt_timing_codes(d, off))
                    } else {
                        None
                    },
                },
            ),
        }
    }
}

fn decode_display_descriptor(d: &[u8], off: usize) -> (r: Option<DisplayDescriptorRef>)
    requires
        d@.len() >= 128,
        off + 18 <= d@.len(),
        !spec_is_detailed_timing(d@, off as int),
    ensures
        r is Some <==> spec_display_descriptor(d@, off as int) is Some,
        r is Some ==> r->0.model() == spec_display_descriptor(d@, off as int)->0,
{
    let _n: usize = d.len();
    let t = d[off + 3];
    let tag = if t == 0xFF {
        Some(DisplayDescriptorTag::ProductSerial)
    } else if t == 0xFE {
        Some(DisplayDescriptorTag::DataString)
    } else if t == 0xFD {
        Some(DisplayDescriptorTag::RangeLimits)
    } else if t == 0xFC {
        Some(DisplayDescriptorTag::ProductName)
    } else if t == 0xFB {
        Some(DisplayDescriptorTag::ColorPoint)
    } else if t == 0xFA {
        Some(DisplayDescriptorTag::StdTimingIds)
    } else if t == 0xF9 {
        Some(DisplayDescriptorTag::DcmData)
    } else if t == 0xF8 {
        Some(DisplayDescriptorTag::CvtTimingCodes)
    } else if t == 0xF7 {
        Some(DisplayDescriptorTag::EstablishedTimingsIII)
    } else if t == 0x10 {
        Some(DisplayDescriptorTag::Dummy)
    } else {
        None
    };
    match tag {
        None => None,
        Some(tag) => {
            let has_text = matches!(
                tag,
                DisplayDescriptorTag::ProductSerial | DisplayDescriptorTag::DataString
                    | DisplayDescriptorTag::ProductName
            );
            Some(
                DisplayDescriptorRef {
                    tag,
                    text: if has_text {
                        Some(decode_descriptor_text(d, off))
                    } else {
                        None
                    },
                    range_limits: if matches!(tag, DisplayDescriptorTag::RangeLimits) {
                        Some(decode_range_limits(d, off))
                    } else {
                        None
                    },
                    std_timings: if matches!(tag, DisplayDescriptorTag::StdTimingIds) {
                        Some(decode_descriptor_std_timings(d, off))
                    } else {
                        None
                    },
                    color_points: if matches!(tag, DisplayDescriptorTag::ColorPoint) {
                        Some(decode_color_points(d, off))
                    } else {
                        None
                    },
                    est_iii: if matches!(tag, DisplayDescriptorTag::EstablishedTimingsIII) {
                        Some(decode_est_iii_bitmap(d, off))
                    } else {
                        None
                    },
                    dcm: if matches!(tag, DisplayDescriptorTag::DcmData) {
                        Some(decode_dcm_data(d, off))
                    } else {
                        None
                    },
                    cvt_codes: if matches!(tag, DisplayDescriptorTag::CvtTimingCodes) {
                        Some(decode_cvt_timing_codes(d, off))
                    } else {
                        None
                    },
                },
            )
        },
    }
}

// ---------------------------------------------------------------------------
// The four 18-byte slots at bytes 54..126: detailed timings and display
// descriptors in order of appearance.
// ---------------------------------------------------------------------------

pub open spec fn spec_slot_off(i: int) -> int {
    54 + 18 * i
}

pub open spec fn spec_detailed_timings_prefix(d: Seq<u8>, n: int) -> Seq<DetailedTimingDef>
    recommends
        d.len() >= 128,
        0 <= n <= 4,
    decreases n,
{
    if n <= 0 {
        Seq::empty()
    } else {
        let rest = spec_detailed_timings_prefix(d, n - 1);
        if spec_is_detailed_timing(d, spec_slot_off(n - 1)) {
            rest.push(spec_detailed_timing(d, spec_slot_off(n - 1)))
        } else {
            rest
        }
    }
}

/// The detailed timing definitions of the base block, in order.
pub open spec fn spec_detailed_timings(d: Seq<u8>) -> Seq<DetailedTimingDef>
    recommends
        d.len() >= 128,
{
    spec_detailed_timings_prefix(d, 4)
}

pub open spec fn spec_display_descriptors_prefix(d: Seq<u8>, n: int) -> Seq<DisplayDescriptorModel>
    recommends
        d.len() >= 128,
        0 <= n <= 4,
    decreases n,
{
    if n <= 0 {
        Seq::empty()
    } else {
        let rest = spec_display_descriptors_prefix(d, n - 1);
        match spec_display_descriptor(d, spec_slot_off(n - 1)) {
            Some(m) => rest.push(m),
            None => rest,
        }
    }
}

/// The display descriptors of the base block, in order.
pub open spec fn spec_display_descriptors(d: Seq<u8>) -> Seq<DisplayDescriptorModel>
    recommends
        d.len() >= 128,
{
    spec_display_descriptors_prefix(d, 4)
}

pub(crate) fn decode_slots(d: &[u8]) -> (r: (Vec<DetailedTimingDef>, Vec<DisplayDescriptorRef>))
    requires
        d@.len() >= 128,
    ensures
        r.0@ == spec_detailed_timings(d@),
        r.1@.len() == spec_display_descriptors(d@).len(),
        forall|i: int|
            0 <= i < r.1@.len() ==> #[trigger] r.1@[i].model() == spec_display_descriptors(d@)[i],
{
    let _n: usize = d.len();
    let mut dtds: Vec<DetailedTimingDef> = Vec::new();
    let mut descs: Vec<DisplayDescriptorRef> = Vec::new();
    let mut i: usize = 0;
    while i < 4
        invariant
            0 <= i <= 4,
            d@.len() >= 128,
            d@.len() <= usize::MAX,
            dtds@ == spec_detailed_timings_prefix(d@, i as int),
            descs@.len() == spec_display_descriptors_prefix(d@, i as int).len(),
            forall|j: int|
                0 <= j < descs@.len() ==> #[trigger] descs@[j].model()
                    == spec_display_descriptors_prefix(d@, i as int)[j],
        decreases 4 - i,
    {
        let off: usize = 54 + 18 * i;
        if le16(d[off], d[off + 1]) != 0 {
            dtds.push(decode_detailed_timing(d, off));
        } else {
            match decode_display_descriptor(d, off) {
                Some(desc) => descs.push(desc),
                None => {},
            }
        }
        i = i + 1;
    }
    (dtds, descs)
}

} // verus!

verus! {

// ---------------------------------------------------------------------------
// Extension blocks.
// ---------------------------------------------------------------------------

/// EDID extension block tags, defined in section 2.2.4.
///
/// An unrecognized tag is preserved with its raw byte, never dropped.
#[derive(Debug, Clone, Copy, PartialEq, Eq)]
pub enum ExtensionTag {
    CEA,
    VTB,
    DI,
    LS,
    DPVL,
    BlockMap,
    Vendor,
    DisplayId,
    Unknown(u8),
}

/// Ghost model of a decoded extension block.
pub struct ExtensionModel {
    pub tag: ExtensionTag,
    pub cta: Option<crate::cta::CtaModel>,
    pub displayid: Option<crate::displayid::DisplayIdModel>,
    pub displayid2: Option<crate::displayid2::DisplayId2Model>,
}

/// A decoded EDID extension block, tagged by its first byte.  Unknown tags
/// are preserved, never dropped.  The format-specific views are reached
/// through [`crate::cta::CTA::from_extension`],
/// [`crate::displayid::DisplayId::from_extension`] and
/// [`crate::displayid2::DisplayId2::from_extension`].
#[derive(Debug, Clone, PartialEq, Eq)]
pub struct ExtensionRef {
    tag: ExtensionTag,
    cta: Option<crate::cta::CTA>,
    displayid: Option<crate::displayid::DisplayId>,
    displayid2: Option<crate::displayid2::DisplayId2>,
}

impl ExtensionRef {
    pub closed spec fn model(&self) -> ExtensionModel {
        ExtensionModel {
            tag: self.tag,
            cta: match self.cta {
                Some(ref c) => Some(c.model()),
                None => None,
            },
            displayid: match self.displayid {
                Some(ref x) => Some(x.model()),
                None => None,
            },
            displayid2: match self.displayid2 {
                Some(ref x) => Some(x.model()),
                None => None,
            },
        }
    }

    /// Tag of this extension block.
    pub fn tag(&self) -> (r: ExtensionTag)
        ensures
            r == self.model().tag,
    {
        self.tag
    }

    pub(crate) fn cta_contents(&self) -> (r: Option<&crate::cta::CTA>)
        ensures
            r is Some <==> self.model().cta is Some,
            r is Some ==> r->0.model() == self.model().cta->0,
    {
        match &self.cta {
            Some(c) => Some(c),
            None => None,
        }
    }

    pub(crate) fn displayid_contents(&self) -> (r: Option<&crate::displayid::DisplayId>)
        ensures
            r is Some <==> self.model().displayid is Some,
            r is Some ==> r->0.model() == self.model().displayid->0,
    {
        match &self.displayid {
            Some(x) => Some(x),
            None => None,
        }
    }

    pub(crate) fn displayid2_contents(&self) -> (r: Option<&crate::displayid2::DisplayId2>)
        ensures
            r is Some <==> self.model().displayid2 is Some,
            r is Some ==> r->0.model() == self.model().displayid2->0,
    {
        match &self.displayid2 {
            Some(x) => Some(x),
            None => None,
        }
    }
}

pub open spec fn spec_extension_tag(t: u8) -> ExtensionTag {
    if t == 0x02 {
        ExtensionTag::CEA
    } else if t == 0x10 {
        ExtensionTag::VTB
    } else if t == 0x40 {
        ExtensionTag::DI
    } else if t == 0x50 {
        ExtensionTag::LS
    } else if t == 0x60 {
        ExtensionTag::DPVL
    } else if t == 0xF0 {
        ExtensionTag::BlockMap
    } else if t == 0xFF {
        ExtensionTag::Vendor
    } else if t == 0x70 {
        ExtensionTag::DisplayId
    } else {
        ExtensionTag::Unknown(t)
    }
}

/// The model of the 128-byte extension block at `off`.
pub open spec fn spec_extension(d: Seq<u8>, off: int) -> ExtensionModel
    recommends
        0 <= off,
        off + 128 <= d.len(),
{
    let tag = spec_extension_tag(d[off]);
    ExtensionModel {
        tag,
        cta: if tag is CEA {
            Some(crate::cta::spec_cta(d, off))
        } else {
            None
        },
        displayid: if tag is DisplayId {
            crate::displayid::spec_displayid(d, off)
        } else {
            None
        },
        displayid2: if tag is DisplayId {
            crate::displayid2::spec_displayid2(d, off)
        } else {
            None
        },
    }
}

fn decode_extension(d: &[u8], off: usize) -> (r: ExtensionRef)
    requires
        off + 128 <= d@.len(),
    ensures
        r.model() == spec_extension(d@, off as int),
{
    let _n: usize = d.len();
    let t = d[off];
    let tag = if t == 0x02 {
        ExtensionTag::CEA
    } else if t == 0x10 {
        ExtensionTag::VTB
    } else if t == 0x40 {
        ExtensionTag::DI
    } else if t == 0x50 {
        ExtensionTag::LS
    } else if t == 0x60 {
        ExtensionTag::DPVL
    } else if t == 0xF0 {
        ExtensionTag::BlockMap
    } else if t == 0xFF {
        ExtensionTag::Vendor
    } else if t == 0x70 {
        ExtensionTag::DisplayId
    } else {
        ExtensionTag::Unknown(t)
    };
    let is_cea = matches!(tag, ExtensionTag::CEA);
    let is_did = matches!(tag, ExtensionTag::DisplayId);
    ExtensionRef {
        tag,
        cta: if is_cea {
            Some(crate::cta::decode_cta(d, off))
        } else {
            None
        },
        displayid: if is_did {
            crate::displayid::decode_displayid(d, off)
        } else {
            None
        },
        displayid2: if is_did {
            crate::displayid2::decode_displayid2(d, off)
        } else {
            None
        },
    }
}

/// The models of the first `n` extension blocks following the base block.
pub open spec fn spec_extensions_prefix(d: Seq<u8>, n: int) -> Seq<ExtensionModel>
    recommends
        0 <= n,
        128 + n * 128 <= d.len(),
    decreases n,
{
    if n <= 0 {
        Seq::empty()
    } else {
        spec_extensions_prefix(d, n - 1).push(spec_extension(d, 128 * n))
    }
}

/// The number of whole 128-byte extension blocks the buffer holds.
pub open spec fn spec_ext_count(d: Seq<u8>) -> int
    recommends
        d.len() >= 128,
{
    (d.len() - 128) as int / 128
}

/// The models of all extension blocks present in the buffer.
pub open spec fn spec_extensions(d: Seq<u8>) -> Seq<ExtensionModel>
    recommends
        d.len() >= 128,
{
    spec_extensions_prefix(d, spec_ext_count(d))
}

pub(crate) fn decode_extensions(d: &[u8]) -> (r: Vec<ExtensionRef>)
    requires
        d@.len() >= 128,
    ensures
        r@.len() == spec_extensions(d@).len(),
        forall|i: int|
            0 <= i < r@.len() ==> #[trigger] r@[i].model() == spec_extensions(d@)[i],
{
    let n = d.len();
    let count = (n - 128) / 128;
    let mut out: Vec<ExtensionRef> = Vec::new();
    let mut i: usize = 0;
    while i < count
        invariant
            0 <= i <= count,
            count == spec_ext_count(d@),
            d@.len() >= 128,
            d@.len() <= usize::MAX,
            out@.len() == i,
            forall|j: int|
                0 <= j < i ==> #[trigger] out@[j].model() == spec_extensions_prefix(
                    d@,
                    count as int,
                )[j],
        decreases count - i,
    {
        proof {
            lemma_extensions_prefix_index(d@, count as int, i as int);
            assert(128 * (i + 1) + 128 <= d@.len()) by {
                assert(count == (d@.len() - 128) as int / 128);
                assert(i + 1 <= count);
                assert(128 * (i + 1) <= 128 * count) by (nonlinear_arith)
                    requires
                        i + 1 <= count,
                ;
                assert(128 * count <= d@.len() - 128) by (nonlinear_arith)
                    requires
                        count == (d@.len() - 128) as int / 128,
                        d@.len() >= 128,
                ;
            }
        }
        let off: usize = 128 * (i + 1);
        let e = decode_extension(d, off);
        out.push(e);
        i = i + 1;
    }
    proof {
        assert(spec_extensions(d@).len() == count) by {
            lemma_extensions_prefix_len(d@, count as int);
        }
    }
    out
}

proof fn lemma_extensions_prefix_len(d: Seq<u8>, n: int)
    requires
        0 <= n,
    ensures
        spec_extensions_prefix(d, n).len() == n,
    decreases n,
{
    if n > 0 {
        lemma_extensions_prefix_len(d, n - 1);
    }
}

proof fn lemma_extensions_prefix_index(d: Seq<u8>, n: int, i: int)
    requires
        0 <= i < n,
    ensures
        spec_extensions_prefix(d, n).len() == n,
        spec_extensions_prefix(d, n)[i] == spec_extension(d, 128 * (i + 1)),
    decreases n,
{
    lemma_extensions_prefix_len(d, n);
    if i < n - 1 {
        lemma_extensions_prefix_index(d, n - 1, i);
    }
}

// ---------------------------------------------------------------------------
// The decoded base block.
// ---------------------------------------------------------------------------

/// Ghost model of a decoded EDID.
pub struct EdidModel {
    pub version: u8,
    pub revision: u8,
    pub vendor_product: VendorProduct,
    pub video_input_analog: Option<VideoInputAnalog>,
    pub video_input_digital: Option<VideoInputDigital>,
    pub screen_size: ScreenSize,
    pub basic_gamma: Option<u16>,
    pub dpms: Dpms,
    pub display_color_type: DisplayColorType,
    pub color_encoding_formats: Option<ColorEncodingFormats>,
    pub misc_features: MiscFeatures,
    pub chromaticity_coords: ChromaticityCoords,
    pub established_timings: EstablishedTimings,
    pub standard_timings: Seq<StandardTiming>,
    pub detailed_timing_defs: Seq<DetailedTimingDef>,
    pub display_descriptors: Seq<DisplayDescriptorModel>,
    pub extensions: Seq<ExtensionModel>,
}

/// A fully decoded EDID: the base block and its extension blocks.
#[derive(Debug, Clone, PartialEq, Eq)]
pub struct Edid {
    version: u8,
    revision: u8,
    vendor_product: VendorProduct,
    video_input_analog: Option<VideoInputAnalog>,
    video_input_digital: Option<VideoInputDigital>,
    screen_size: ScreenSize,
    basic_gamma: Option<u16>,
    dpms: Dpms,
    display_color_type: DisplayColorType,
    color_encoding_formats: Option<ColorEncodingFormats>,
    misc_features: MiscFeatures,
    chromaticity_coords: ChromaticityCoords,
    established_timings: EstablishedTimings,
    standard_timings: Vec<StandardTiming>,
    detailed_timing_defs: Vec<DetailedTimingDef>,
    display_descriptors: Vec<DisplayDescriptorRef>,
    extensions: Vec<ExtensionRef>,
}

impl Edid {
    pub closed spec fn model(&self) -> EdidModel {
        EdidModel {
            version: self.version,
            revision: self.revision,
            vendor_product: self.vendor_product,
            video_input_analog: self.video_input_analog,
            video_input_digital: self.video_input_digital,
            screen_size: self.screen_size,
            basic_gamma: self.basic_gamma,
            dpms: self.dpms,
            display_color_type: self.display_color_type,
            color_encoding_formats: self.color_encoding_formats,
            misc_features: self.misc_features,
            chromaticity_coords: self.chromaticity_coords,
            established_timings: self.established_timings,
            standard_timings: self.standard_timings@,
            detailed_timing_defs: self.detailed_timing_defs@,
            display_descriptors: self.display_descriptors@.map_values(
                |x: DisplayDescriptorRef| x.model(),
            ),
            extensions: self.extensions@.map_values(|x: ExtensionRef| x.model()),
        }
    }

    /// The EDID version.
    pub fn version(&self) -> (r: i32)
        ensures
            r == self.model().version as i32,
    {
        self.version as i32
    }

    /// The EDID revision.
    pub fn revision(&self) -> (r: i32)
        ensures
            r == self.model().revision as i32,
    {
        self.revision as i32
    }

    /// The vendor and product identification.
    pub fn vendor_product(&self) -> (r: VendorProduct)
        ensures
            r == self.model().vendor_product,
    {
        self.vendor_product
    }

    /// The analog video input information; `None` for digital displays.
    pub fn video_input_analog(&self) -> (r: Option<VideoInputAnalog>)
        ensures
            r == self.model().video_input_analog,
    {
        self.video_input_analog
    }

    /// The digital video input information; `None` for analog displays.
    pub fn video_input_digital(&self) -> (r: Option<VideoInputDigital>)
        ensures
            r == self.model().video_input_digital,
    {
        self.video_input_digital
    }

    /// The screen size or aspect ratio.
    pub fn screen_size(&self) -> (r: ScreenSize)
        ensures
            r == self.model().screen_size,
    {
        self.screen_size
    }

    /// The display transfer characteristic ("gamma") times one hundred;
    /// `None` when it is stored in an extension block.
    pub fn basic_gamma(&self) -> (r: Option<u16>)
        ensures
            r == self.model().basic_gamma,
    {
        self.basic_gamma
    }

    /// The supported legacy DPMS states.
    pub fn dpms(&self) -> (r: Dpms)
        ensures
            r == self.model().dpms,
    {
        self.dpms
    }

    /// The display color type; always undefined for digital EDID 1.4
    /// displays.
    pub fn display_color_type(&self) -> (r: DisplayColorType)
        ensures
            r == self.model().display_color_type,
    {
        self.display_color_type
    }

    /// The supported color encoding formats; `None` for analog displays
    /// and before EDID 1.4.
    pub fn color_encoding_formats(&self) -> (r: Option<ColorEncodingFormats>)
        ensures
            r == self.model().color_encoding_formats,
    {
        self.color_encoding_formats
    }

    /// The miscellaneous basic features.
    pub fn misc_features(&self) -> (r: MiscFeatures)
        ensures
            r == self.model().misc_features,
    {
        self.misc_features
    }

    /// The chromaticity coordinates (raw 10-bit fractions).
    pub fn chromaticity_coords(&self) -> (r: ChromaticityCoords)
        ensures
            r == self.model().chromaticity_coords,
    {
        self.chromaticity_coords
    }

    /// Established timings I and II.
    pub fn established_timings(&self) -> (r: EstablishedTimings)
        ensures
            r == self.model().established_timings,
    {
        self.established_timings
    }

    /// The standard timings, unused slots skipped.
    pub fn standard_timings(&self) -> (r: &Vec<StandardTiming>)
        ensures
            r@ == self.model().standard_timings,
    {
        &self.standard_timings
    }

    /// The detailed timing definitions of the base block, in order.
    pub fn detailed_timing_defs(&self) -> (r: &Vec<DetailedTimingDef>)
        ensures
            r@ == self.model().detailed_timing_defs,
    {
        &self.detailed_timing_defs
    }

    /// The display descriptors of the base block, in order.
    pub fn display_descriptors(&self) -> (r: &Vec<DisplayDescriptorRef>)
        ensures
            r@.len() == self.model().display_descriptors.len(),
            forall|i: int|
                0 <= i < r@.len() ==> #[trigger] r@[i].model()
                    == self.model().display_descriptors[i],
    {
        &self.display_descriptors
    }

    /// The extension blocks, one per 128-byte chunk after the base block,
    /// unknown tags preserved.
    pub fn extensions(&self) -> (r: &Vec<ExtensionRef>)
        ensures
            r@.len() == self.model().extensions.len(),
            forall|i: int|
                0 <= i < r@.len() ==> #[trigger] r@[i].model() == self.model().extensions[i],
    {
        &self.extensions
    }
}

/// What `decode_edid` guarantees of its result against the buffer: every
/// model field except the manufacturer array equals the corresponding
/// field-level decode, and the manufacturer letters match element-wise.
pub open spec fn spec_edid_matches(m: EdidModel, d: Seq<u8>) -> bool
    recommends
        d.len() >= 128,
{
    &&& m.version == d[18]
    &&& m.revision == d[19]
    &&& m.vendor_product.manufacturer@ =~= seq![
        spec_manufacturer_char(d, 0),
        spec_manufacturer_char(d, 1),
        spec_manufacturer_char(d, 2),
    ]
    &&& m.vendor_product.product == spec_le16(d[10], d[11])
    &&& m.vendor_product.serial == spec_serial(d)
    &&& m.vendor_product.manufacture_week == spec_manufacture_week(d)
    &&& m.vendor_product.manufacture_year == spec_manufacture_year(d)
    &&& m.vendor_product.model_year == spec_model_year(d)
    &&& m.video_input_analog == spec_video_input_analog(d)
    &&& m.video_input_digital == spec_video_input_digital(d)
    &&& m.screen_size == spec_screen_size(d)
    &&& m.basic_gamma == spec_basic_gamma(d)
    &&& m.dpms == spec_dpms(d)
    &&& m.display_color_type == spec_display_color_type(d)
    &&& m.color_encoding_formats == spec_color_encoding_formats(d)
    &&& m.misc_features == spec_misc_features(d)
    &&& m.chromaticity_coords == spec_chromaticity_coords(d)
    &&& m.established_timings == spec_established_timings(d)
    &&& m.standard_timings == spec_standard_timings(d)
    &&& m.detailed_timing_defs == spec_detailed_timings(d)
    &&& m.display_descriptors == spec_display_descriptors(d)
    &&& m.extensions == spec_extensions(d)
}

pub(crate) fn decode_edid(d: &[u8]) -> (r: Edid)
    requires
        d@.len() >= 128,
    ensures
        spec_edid_matches(r.model(), d@),
{
    let _n: usize = d.len();
    let (dtds, descs) = decode_slots(d);
    let r = Edid {
        version: d[18],
        revision: d[19],
        vendor_product: decode_vendor_product(d),
        video_input_analog: decode_video_input_analog(d),
        video_input_digital: decode_video_input_digital(d),
        screen_size: decode_screen_size(d),
        basic_gamma: decode_basic_gamma(d),
        dpms: decode_dpms(d),
        display_color_type: decode_display_color_type(d),
        color_encoding_formats: decode_color_encoding_formats(d),
        misc_features: decode_misc_features(d),
        chromaticity_coords: decode_chromaticity_coords(d),
        established_timings: decode_established_timings(d),
        standard_timings: decode_standard_timings(d),
        detailed_timing_defs: dtds,
        display_descriptors: descs,
        extensions: decode_extensions(d),
    };
    proof {
        assert(r.model().display_descriptors =~= spec_display_descriptors(d@));
        assert(r.model().extensions =~= spec_extensions(d@));
    }
    r
}

} // verus!

verus! {

impl Edid {
    /// Decode an EDID from a raw byte buffer; `None` when the buffer
    /// cannot hold a base block.  [`crate::info::Info::parse_edid`] wraps
    /// this with magic and checksum validation.
    pub fn from_ptr(d: &[u8]) -> (r: Option<Edid>)
        ensures
            r is Some <==> d@.len() >= 128,
            r is Some ==> spec_edid_matches(r->0.model(), d@),
    {
        if d.len() < 128 {
            None
        } else {
            Some(decode_edid(d))
        }
    }
}

impl ExtensionRef {
    /// The extension record itself: the format-specific views of the
    /// `cta`, `displayid` and `displayid2` modules borrow from it.
    pub fn as_ptr(&self) -> (r: &ExtensionRef)
        ensures
            r == self,
    {
        self
    }
}

} // verus!

verus! {

/// Sentinel boundaries of the optional base-block fields: a raw encoding
/// equal to the documented sentinel decodes to absent, and any adjacent
/// raw value decodes to a present value under the documented formula.
pub proof fn lemma_sentinel_boundaries(d: Seq<u8>)
    requires
        d.len() >= 128,
    ensures
        d[23] == 0xFF <==> spec_basic_gamma(d) is None,
        d[23] != 0xFF ==> spec_basic_gamma(d) == Some((d[23] + 100) as u16),
        spec_le32(d[12], d[13], d[14], d[15]) == 0 <==> spec_serial(d) is None,
        spec_serial(d) is Some ==> spec_serial(d)->0 == spec_le32(d[12], d[13], d[14], d[15]),
        d[16] == 0xFF <==> spec_model_year(d) is Some,
        d[16] == 0xFF ==> spec_model_year(d) == Some((1990 + d[17]) as i32),
        d[16] != 0xFF ==> spec_manufacture_week(d) == d[16] as i32 && spec_manufacture_year(d)
            == (1990 + d[17]) as i32,
{
}

} // verus!
