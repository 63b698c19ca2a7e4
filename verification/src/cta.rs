//! Decoder for CTA-861 extension blocks (ANSI/CTA-861-H).
//!
//! A CTA extension block carries a tag-length-encoded sequence of data
//! blocks (audio, video, colorimetry, HDR metadata and more) followed by
//! detailed timing descriptors.  Unrecognized data blocks are skipped, never
//! reported as errors, so newer blobs still decode; recognized blocks whose
//! payload layout this decoder does not model keep their place in the list
//! with their tag alone.

use vstd::prelude::*;

use crate::bytes::{bit, spec_bit};
use crate::bytes::spec_le16;
use crate::edid::DetailedTimingDef;

verus! {

/// CTA video format picture aspect ratio.
#[derive(Debug, Clone, Copy, PartialEq, Eq)]
#[allow(non_camel_case_types)]
pub enum VideoFormatPictureAspectRatio {
    _4_3,
    _16_9,
    _64_27,
    _256_135,
}

/// CTA video format sync pulse polarity.
#[derive(Debug, Clone, Copy, PartialEq, Eq)]
pub enum VideoFormatSyncPolarity {
    Negative,
    Positive,
}

/// A CTA-861 video format, defined in section 4.
#[derive(Debug, Clone, Copy, PartialEq, Eq)]
pub struct VideoFormat {
    pub vic: u8,
    pub h_active: i32,
    pub v_active: i32,
    pub h_front: i32,
    pub v_front: i32,
    pub h_sync: i32,
    pub v_sync: i32,
    pub h_back: i32,
    pub v_back: i32,
    pub h_sync_polarity: VideoFormatSyncPolarity,
    pub v_sync_polarity: VideoFormatSyncPolarity,
    pub pixel_clock_hz: i64,
    pub interlaced: bool,
    pub picture_aspect_ratio: VideoFormatPictureAspectRatio,
}

/// Miscellaneous CTA flags (byte 3 of the extension), defined in section
/// 7.3.3.  For CTA revision 1 all fields are zero.
#[derive(Debug, Clone, Copy, PartialEq, Eq)]
pub struct Flags {
    pub it_underscan: bool,
    pub basic_audio: bool,
    pub ycc444: bool,
    pub ycc422: bool,
    pub native_dtds: i32,
}

/// CTA data block tag.
#[derive(Debug, Clone, Copy, PartialEq, Eq)]
pub enum DataBlockTag {
    Audio,
    Video,
    SpeakerAlloc,
    VesaDisplayTransferCharacteristic,
    VideoFormat,
    VideoCap,
    VesaDisplayDevice,
    Colorimetry,
    HdrStaticMetadata,
    HdrDynamicMetadata,
    NativeVideoResolution,
    VideoFormatPref,
    Ycbcr420,
    Ycbcr420CapMap,
    HdmiAudio,
    RoomConfig,
    SpeakerLocation,
    Infoframe,
    DisplayidVideoTimingVii,
    DisplayidVideoTimingViii,
    DisplayidVideoTimingX,
    HdmiEdidExtOverride,
    HdmiSinkCap,
}

/// Audio formats, defined in tables 37 and 39.
#[derive(Debug, Clone, Copy, PartialEq, Eq)]
#[allow(non_camel_case_types)]
pub enum AudioFormat {
    LPCM,
    AC3,
    MPEG1,
    MP3,
    MPEG2,
    AAC_LC,
    DTS,
    ATRAC,
    ONE_BIT_AUDIO,
    ENHANCED_AC3,
    DTS_HD,
    MAT,
    DST,
    WMA_PRO,
    MPEG4_HE_AAC,
    MPEG4_HE_AAC_V2,
    MPEG4_AAC_LC,
    DRA,
    MPEG4_HE_AAC_MPEG_SURROUND,
    MPEG4_AAC_LC_MPEG_SURROUND,
    MPEGH_3D,
    AC4,
    LPCM_3D,
}

/// Sample rates a short audio descriptor advertises.
#[derive(Debug, Clone, Copy, PartialEq, Eq)]
pub struct SadSampleRates {
    pub has_192_khz: bool,
    pub has_176_4_khz: bool,
    pub has_96_khz: bool,
    pub has_88_2_khz: bool,
    pub has_48_khz: bool,
    pub has_44_1_khz: bool,
    pub has_32_khz: bool,
}

/// MPEG-H 3D audio level.
#[derive(Debug, Clone, Copy, PartialEq, Eq)]
#[allow(non_camel_case_types)]
pub enum SadMpegh3dLevel {
    Unspecified,
    _1,
    _2,
    _3,
    _4,
    _5,
}

#[derive(Debug, Clone, Copy, PartialEq, Eq)]
pub struct SadMpegh3d {
    pub level: SadMpegh3dLevel,
    pub low_complexity_profile: bool,
    pub baseline_profile: bool,
}

#[derive(Debug, Clone, Copy, PartialEq, Eq)]
pub struct SadMpegAac {
    pub has_frame_length_960: bool,
    pub has_frame_length_1024: bool,
}

#[derive(Debug, Clone, Copy, PartialEq, Eq)]
pub enum SadMpegSurroundSignaling {
    Implicit,
    ImplicitAndExplicit,
}

#[derive(Debug, Clone, Copy, PartialEq, Eq)]
pub struct SadMpegSurround {
    pub signaling: SadMpegSurroundSignaling,
}

#[derive(Debug, Clone, Copy, PartialEq, Eq)]
pub struct SadMpegAacLe {
    pub supports_multichannel_sound: bool,
}

#[derive(Debug, Clone, Copy, PartialEq, Eq)]
pub struct SadLpcm {
    pub has_sample_size_24_bits: bool,
    pub has_sample_size_20_bits: bool,
    pub has_sample_size_16_bits: bool,
}

#[derive(Debug, Clone, Copy, PartialEq, Eq)]
#[allow(non_snake_case)]
pub struct SadEnhancedAc3 {
    pub supports_joint_object_coding: bool,
    pub supports_joint_object_coding_ACMOD28: bool,
}

#[derive(Debug, Clone, Copy, PartialEq, Eq)]
pub struct SadMat {
    pub supports_object_audio_and_channel_based: bool,
    pub requires_hash_calculation: bool,
}

#[derive(Debug, Clone, Copy, PartialEq, Eq)]
pub struct SadWmaPro {
    pub profile: i32,
}

/// A CTA short audio descriptor (SAD), defined in section 7.5.2.
///
/// The maximum channel count is stored with a +1 offset (raw value N means
/// N + 1 channels); raw 0 in the decoded field marks formats that do not
/// carry a channel count, surfaced as `None`.  Exactly the format-specific
/// field matching `format` is present.
#[derive(Debug, Clone, Copy, PartialEq, Eq)]
pub struct Sad {
    pub format: AudioFormat,
    pub max_channels: Option<i32>,
    pub supported_sample_rates: Option<SadSampleRates>,
    pub max_bitrate_kbs: Option<i32>,
    pub lpcm: Option<SadLpcm>,
    pub mpegh_3d: Option<SadMpegh3d>,
    pub mpeg_aac: Option<SadMpegAac>,
    pub mpeg_surround: Option<SadMpegSurround>,
    pub mpeg_aac_le: Option<SadMpegAacLe>,
    pub enhanced_ac3: Option<SadEnhancedAc3>,
    pub mat: Option<SadMat>,
    pub wma_pro: Option<SadWmaPro>,
}

/// Audio data block: the list of short audio descriptors.
#[derive(Debug, Clone, PartialEq, Eq)]
pub struct AudioBlock {
    sads: Vec<Sad>,
}

impl AudioBlock {
    pub closed spec fn model(&self) -> Seq<Sad> {
        self.sads@
    }

    /// The short audio descriptors of this block, in order.
    pub fn sads(&self) -> (r: &Vec<Sad>)
        ensures
            r@ == self.model(),
    {
        &self.sads
    }
}

// ---------------------------------------------------------------------------
// SAD decoding.
// ---------------------------------------------------------------------------

/// The audio format of a SAD: the 4-bit code of its first byte, or the
/// 5-bit extended code of its third byte when the first reads 15.
pub open spec fn spec_sad_format(b0: u8, b2: u8) -> Option<AudioFormat> {
    let fc = (b0 / 8) % 16;
    if fc == 1 {
        Some(AudioFormat::LPCM)
    } else if fc == 2 {
        Some(AudioFormat::AC3)
    } else if fc == 3 {
        Some(AudioFormat::MPEG1)
    } else if fc == 4 {
        Some(AudioFormat::MP3)
    } else if fc == 5 {
        Some(AudioFormat::MPEG2)
    } else if fc == 6 {
        Some(AudioFormat::AAC_LC)
    } else if fc == 7 {
        Some(AudioFormat::DTS)
    } else if fc == 8 {
        Some(AudioFormat::ATRAC)
    } else if fc == 9 {
        Some(AudioFormat::ONE_BIT_AUDIO)
    } else if fc == 10 {
        Some(AudioFormat::ENHANCED_AC3)
    } else if fc == 11 {
        Some(AudioFormat::DTS_HD)
    } else if fc == 12 {
        Some(AudioFormat::MAT)
    } else if fc == 13 {
        Some(AudioFormat::DST)
    } else if fc == 14 {
        Some(AudioFormat::WMA_PRO)
    } else if fc == 15 {
        let ec = (b2 / 8) % 32;
        if ec == 4 {
            Some(AudioFormat::MPEG4_HE_AAC)
        } else if ec == 5 {
            Some(AudioFormat::MPEG4_HE_AAC_V2)
        } else if ec == 6 {
            Some(AudioFormat::MPEG4_AAC_LC)
        } else if ec == 7 {
            Some(AudioFormat::DRA)
        } else if ec == 8 {
            Some(AudioFormat::MPEG4_HE_AAC_MPEG_SURROUND)
        } else if ec == 10 {
            Some(AudioFormat::MPEG4_AAC_LC_MPEG_SURROUND)
        } else if ec == 11 {
            Some(AudioFormat::MPEGH_3D)
        } else if ec == 12 {
            Some(AudioFormat::AC4)
        } else if ec == 13 {
            Some(AudioFormat::LPCM_3D)
        } else {
            None
        }
    } else {
        None
    }
}

pub open spec fn spec_sad_sample_rates(b1: u8) -> SadSampleRates {
    SadSampleRates {
        has_192_khz: spec_bit(b1, 6),
        has_176_4_khz: spec_bit(b1, 5),
        has_96_khz: spec_bit(b1, 4),
        has_88_2_khz: spec_bit(b1, 3),
        has_48_khz: spec_bit(b1, 2),
        has_44_1_khz: spec_bit(b1, 1),
        has_32_khz: spec_bit(b1, 0),
    }
}

/// Maximum channel count of a SAD, with the +1 offset applied.  The LPCM 3D
/// format splits its count over three bytes; MPEG-H 3D and AC-4 carry none.
pub open spec fn spec_sad_max_channels(fmt: AudioFormat, b0: u8, b1: u8, b2: u8) -> Option<i32> {
    if fmt is MPEGH_3D || fmt is AC4 {
        None
    } else if fmt is LPCM_3D {
        Some(
            (b0 % 8 + (if spec_bit(b1, 7) {
                8int
            } else {
                0int
            }) + (if spec_bit(b2, 7) {
                16int
            } else {
                0int
            }) + 1) as i32,
        )
    } else {
        Some((b0 % 8 + 1) as i32)
    }
}

pub open spec fn spec_sad_mpegh_3d_level(v: u8) -> SadMpegh3dLevel
    recommends
        v < 8,
{
    if v == 1 {
        SadMpegh3dLevel::_1
    } else if v == 2 {
        SadMpegh3dLevel::_2
    } else if v == 3 {
        SadMpegh3dLevel::_3
    } else if v == 4 {
        SadMpegh3dLevel::_4
    } else if v == 5 {
        SadMpegh3dLevel::_5
    } else {
        SadMpegh3dLevel::Unspecified
    }
}

/// Whether a format stores a maximum bitrate (in 8 kb/s units) in its third
/// byte.
pub open spec fn spec_sad_has_bitrate(fmt: AudioFormat) -> bool {
    fmt is AC3 || fmt is MPEG1 || fmt is MP3 || fmt is MPEG2 || fmt is AAC_LC || fmt is DTS
        || fmt is ATRAC
}

pub open spec fn spec_sad(b0: u8, b1: u8, b2: u8) -> Option<Sad> {
    match spec_sad_format(b0, b2) {
        None => None,
        Some(fmt) => Some(
            Sad {
                format: fmt,
                max_channels: spec_sad_max_channels(fmt, b0, b1, b2),
                supported_sample_rates: Some(spec_sad_sample_rates(b1)),
                max_bitrate_kbs: if spec_sad_has_bitrate(fmt) {
                    Some((b2 * 8) as i32)
                } else {
                    None
                },
                lpcm: if fmt is LPCM || fmt is LPCM_3D {
                    Some(
                        SadLpcm {
                            has_sample_size_24_bits: spec_bit(b2, 2),
                            has_sample_size_20_bits: spec_bit(b2, 1),
                            has_sample_size_16_bits: spec_bit(b2, 0),
                        },
                    )
                } else {
                    None
                },
                mpegh_3d: if fmt is MPEGH_3D {
                    Some(
                        SadMpegh3d {
                            level: spec_sad_mpegh_3d_level(b2 % 8),
                            low_complexity_profile: spec_bit(b1, 4),
                            baseline_profile: spec_bit(b1, 3),
                        },
                    )
                } else {
                    None
                },
                mpeg_aac: if fmt is MPEG4_HE_AAC || fmt is MPEG4_HE_AAC_V2 || fmt is MPEG4_AAC_LC {
                    Some(
                        SadMpegAac {
                            has_frame_length_960: spec_bit(b2, 1),
                            has_frame_length_1024: spec_bit(b2, 0),
                        },
                    )
                } else {
                    None
                },
                mpeg_surround: if fmt is MPEG4_HE_AAC_MPEG_SURROUND
                    || fmt is MPEG4_AAC_LC_MPEG_SURROUND {
                    Some(
                        SadMpegSurround {
                            signaling: if spec_bit(b2, 0) {
                                SadMpegSurroundSignaling::ImplicitAndExplicit
                            } else {
                                SadMpegSurroundSignaling::Implicit
                            },
                        },
                    )
                } else {
                    None
                },
                mpeg_aac_le: if fmt is MPEG4_AAC_LC {
                    Some(SadMpegAacLe { supports_multichannel_sound: spec_bit(b2, 2) })
                } else {
                    None
                },
                enhanced_ac3: if fmt is ENHANCED_AC3 {
                    Some(
                        SadEnhancedAc3 {
                            supports_joint_object_coding: spec_bit(b2, 0),
                            supports_joint_object_coding_ACMOD28: spec_bit(b2, 1),
                        },
                    )
                } else {
                    None
                },
                mat: if fmt is MAT {
                    Some(
                        SadMat {
                            supports_object_audio_and_channel_based: spec_bit(b2, 0),
                            requires_hash_calculation: spec_bit(b2, 1),
                        },
                    )
                } else {
                    None
                },
                wma_pro: if fmt is WMA_PRO {
                    Some(SadWmaPro { profile: (b2 % 8) as i32 })
                } else {
                    None
                },
            },
        ),
    }
}

fn decode_sad_format(b0: u8, b2: u8) -> (r: Option<AudioFormat>)
    ensures
        r == spec_sad_format(b0, b2),
{
    let fc = (b0 / 8) % 16;
    if fc == 1 {
        Some(AudioFormat::LPCM)
    } else if fc == 2 {
        Some(AudioFormat::AC3)
    } else if fc == 3 {
        Some(AudioFormat::MPEG1)
    } else if fc == 4 {
        Some(AudioFormat::MP3)
    } else if fc == 5 {
        Some(AudioFormat::MPEG2)
    } else if fc == 6 {
        Some(AudioFormat::AAC_LC)
    } else if fc == 7 {
        Some(AudioFormat::DTS)
    } else if fc == 8 {
        Some(AudioFormat::ATRAC)
    } else if fc == 9 {
        Some(AudioFormat::ONE_BIT_AUDIO)
    } else if fc == 10 {
        Some(AudioFormat::ENHANCED_AC3)
    } else if fc == 11 {
        Some(AudioFormat::DTS_HD)
    } else if fc == 12 {
        Some(AudioFormat::MAT)
    } else if fc == 13 {
        Some(AudioFormat::DST)
    } else if fc == 14 {
        Some(AudioFormat::WMA_PRO)
    } else if fc == 15 {
        let ec = (b2 / 8) % 32;
        if ec == 4 {
            Some(AudioFormat::MPEG4_HE_AAC)
        } else if ec == 5 {
            Some(AudioFormat::MPEG4_HE_AAC_V2)
        } else if ec == 6 {
            Some(AudioFormat::MPEG4_AAC_LC)
        } else if ec == 7 {
            Some(AudioFormat::DRA)
        } else if ec == 8 {
            Some(AudioFormat::MPEG4_HE_AAC_MPEG_SURROUND)
        } else if ec == 10 {
            Some(AudioFormat::MPEG4_AAC_LC_MPEG_SURROUND)
        } else if ec == 11 {
            Some(AudioFormat::MPEGH_3D)
        } else if ec == 12 {
            Some(AudioFormat::AC4)
        } else if ec == 13 {
            Some(AudioFormat::LPCM_3D)
        } else {
            None
        }
    } else {
        None
    }
}

pub(crate) fn decode_sad(b0: u8, b1: u8, b2: u8) -> (r: Option<Sad>)
    ensures
        r == spec_sad(b0, b1, b2),
{
    match decode_sad_format(b0, b2) {
        None => None,
        Some(fmt) => {
            let is_lpcm3d = matches!(fmt, AudioFormat::LPCM_3D);
            let max_channels: Option<i32> = if matches!(
                fmt,
                AudioFormat::MPEGH_3D | AudioFormat::AC4,
            ) {
                None
            } else if is_lpcm3d {
                let hi: i32 = if bit(b1, 7) {
                    8
                } else {
                    0
                };
                let hi2: i32 = if bit(b2, 7) {
                    16
                } else {
                    0
                };
                Some((b0 % 8) as i32 + hi + hi2 + 1)
            } else {
                Some((b0 % 8) as i32 + 1)
            };
            Some(
                Sad {
                    format: fmt,
                    max_channels,
                    supported_sample_rates: Some(
                        SadSampleRates {
                            has_192_khz: bit(b1, 6),
                            has_176_4_khz: bit(b1, 5),
                            has_96_khz: bit(b1, 4),
                            has_88_2_khz: bit(b1, 3),
                            has_48_khz: bit(b1, 2),
                            has_44_1_khz: bit(b1, 1),
                            has_32_khz: bit(b1, 0),
                        },
                    ),
                    max_bitrate_kbs: if matches!(
                        fmt,
                        AudioFormat::AC3 | AudioFormat::MPEG1 | AudioFormat::MP3
                            | AudioFormat::MPEG2 | AudioFormat::AAC_LC | AudioFormat::DTS
                            | AudioFormat::ATRAC,
                    ) {
                        Some(b2 as i32 * 8)
                    } else {
                        None
                    },
                    lpcm: if matches!(fmt, AudioFormat::LPCM | AudioFormat::LPCM_3D) {
                        Some(
                            SadLpcm {
                                has_sample_size_24_bits: bit(b2, 2),
                                has_sample_size_20_bits: bit(b2, 1),
                                has_sample_size_16_bits: bit(b2, 0),
                            },
                        )
                    } else {
                        None
                    },
                    mpegh_3d: if matches!(fmt, AudioFormat::MPEGH_3D) {
                        let lv = b2 % 8;
                        Some(
                            SadMpegh3d {
                                level: if lv == 1 {
                                    SadMpegh3dLevel::_1
                                } else if lv == 2 {
                                    SadMpegh3dLevel::_2
                                } else if lv == 3 {
                                    SadMpegh3dLevel::_3
                                } else if lv == 4 {
                                    SadMpegh3dLevel::_4
                                } else if lv == 5 {
                                    SadMpegh3dLevel::_5
                                } else {
                                    SadMpegh3dLevel::Unspecified
                                },
                                low_complexity_profile: bit(b1, 4),
                                baseline_profile: bit(b1, 3),
                            },
                        )
                    } else {
                        None
                    },
                    mpeg_aac: if matches!(
                        fmt,
                        AudioFormat::MPEG4_HE_AAC | AudioFormat::MPEG4_HE_AAC_V2
                            | AudioFormat::MPEG4_AAC_LC,
                    ) {
                        Some(
                            SadMpegAac {
                                has_frame_length_960: bit(b2, 1),
                                has_frame_length_1024: bit(b2, 0),
                            },
                        )
                    } else {
                        None
                    },
                    mpeg_surround: if matches!(
                        fmt,
                        AudioFormat::MPEG4_HE_AAC_MPEG_SURROUND
                            | AudioFormat::MPEG4_AAC_LC_MPEG_SURROUND,
                    ) {
                        Some(
                            SadMpegSurround {
                                signaling: if bit(b2, 0) {
                                    SadMpegSurroundSignaling::ImplicitAndExplicit
                                } else {
                                    SadMpegSurroundSignaling::Implicit
                                },
                            },
                        )
                    } else {
                        None
                    },
                    mpeg_aac_le: if matches!(fmt, AudioFormat::MPEG4_AAC_LC) {
                        Some(SadMpegAacLe { supports_multichannel_sound: bit(b2, 2) })
                    } else {
                        None
                    },
                    enhanced_ac3: if matches!(fmt, AudioFormat::ENHANCED_AC3) {
                        Some(
                            SadEnhancedAc3 {
                                supports_joint_object_coding: bit(b2, 0),
                                supports_joint_object_coding_ACMOD28: bit(b2, 1),
                            },
                        )
                    } else {
                        None
                    },
                    mat: if matches!(fmt, AudioFormat::MAT) {
                        Some(
                            SadMat {
                                supports_object_audio_and_channel_based: bit(b2, 0),
                                requires_hash_calculation: bit(b2, 1),
                            },
                        )
                    } else {
                        None
                    },
                    wma_pro: if matches!(fmt, AudioFormat::WMA_PRO) {
                        Some(SadWmaPro { profile: (b2 % 8) as i32 })
                    } else {
                        None
                    },
                },
            )
        },
    }
}

} // verus!

verus! {

// ---------------------------------------------------------------------------
// Speaker allocation, video capability, colorimetry.
// ---------------------------------------------------------------------------

/// Which speakers are present (CTA-861-H figure 6; three bitmap bytes).
#[derive(Debug, Clone, Copy, PartialEq, Eq)]
pub struct SpeakerAllocation {
    pub flw_frw: bool,
    pub flc_frc: bool,
    pub bc: bool,
    pub bl_br: bool,
    pub fc: bool,
    pub lfe1: bool,
    pub fl_fr: bool,
    pub tpsil_tpsir: bool,
    pub sil_sir: bool,
    pub tpbc: bool,
    pub lfe2: bool,
    pub ls_rs: bool,
    pub tpfc: bool,
    pub tpc: bool,
    pub tpfl_tpfr: bool,
    pub btfl_btfr: bool,
    pub btfc: bool,
    pub tpbl_tpbr: bool,
}

/// Speaker allocation data block (SADB), defined in section 7.5.3.
#[derive(Debug, Clone, Copy, PartialEq, Eq)]
pub struct SpeakerAllocBlock {
    pub speakers: SpeakerAllocation,
}

pub open spec fn spec_speaker_allocation(b0: u8, b1: u8, b2: u8) -> SpeakerAllocation {
    SpeakerAllocation {
        flw_frw: spec_bit(b0, 7),
        flc_frc: spec_bit(b0, 5),
        bc: spec_bit(b0, 4),
        bl_br: spec_bit(b0, 3),
        fc: spec_bit(b0, 2),
        lfe1: spec_bit(b0, 1),
        fl_fr: spec_bit(b0, 0),
        tpsil_tpsir: spec_bit(b1, 7),
        sil_sir: spec_bit(b1, 6),
        tpbc: spec_bit(b1, 5),
        lfe2: spec_bit(b1, 4),
        ls_rs: spec_bit(b1, 3),
        tpfc: spec_bit(b1, 2),
        tpc: spec_bit(b1, 1),
        tpfl_tpfr: spec_bit(b1, 0),
        btfl_btfr: spec_bit(b2, 2),
        btfc: spec_bit(b2, 1),
        tpbl_tpbr: spec_bit(b2, 0),
    }
}

pub(crate) fn decode_speaker_allocation(b0: u8, b1: u8, b2: u8) -> (r: SpeakerAllocation)
    ensures
        r == spec_speaker_allocation(b0, b1, b2),
{
    SpeakerAllocation {
        flw_frw: bit(b0, 7),
        flc_frc: bit(b0, 5),
        bc: bit(b0, 4),
        bl_br: bit(b0, 3),
        fc: bit(b0, 2),
        lfe1: bit(b0, 1),
        fl_fr: bit(b0, 0),
        tpsil_tpsir: bit(b1, 7),
        sil_sir: bit(b1, 6),
        tpbc: bit(b1, 5),
        lfe2: bit(b1, 4),
        ls_rs: bit(b1, 3),
        tpfc: bit(b1, 2),
        tpc: bit(b1, 1),
        tpfl_tpfr: bit(b1, 0),
        btfl_btfr: bit(b2, 2),
        btfc: bit(b2, 1),
        tpbl_tpbr: bit(b2, 0),
    }
}

/// Over- and underscan capability.
#[derive(Debug, Clone, Copy, PartialEq, Eq)]
pub enum VideoCapOverUnderscan {
    UnknownOverUnderscan,
    AlwaysOverscan,
    AlwaysUnderscan,
    BothOverUnderscan,
}

/// Video capability data block (VCDB), defined in section 7.5.6.
#[derive(Debug, Clone, Copy, PartialEq, Eq)]
pub struct VideoCapBlock {
    pub selectable_ycc_quantization_range: bool,
    pub selectable_rgb_quantization_range: bool,
    pub pt_over_underscan: VideoCapOverUnderscan,
    pub it_over_underscan: VideoCapOverUnderscan,
    pub ce_over_underscan: VideoCapOverUnderscan,
}

pub open spec fn spec_over_underscan(v: u8) -> VideoCapOverUnderscan
    recommends
        v < 4,
{
    if v == 1 {
        VideoCapOverUnderscan::AlwaysOverscan
    } else if v == 2 {
        VideoCapOverUnderscan::AlwaysUnderscan
    } else if v == 3 {
        VideoCapOverUnderscan::BothOverUnderscan
    } else {
        VideoCapOverUnderscan::UnknownOverUnderscan
    }
}

pub open spec fn spec_video_cap(b: u8) -> VideoCapBlock {
    VideoCapBlock {
        selectable_ycc_quantization_range: spec_bit(b, 7),
        selectable_rgb_quantization_range: spec_bit(b, 6),
        pt_over_underscan: spec_over_underscan((b / 16) % 4),
        it_over_underscan: spec_over_underscan((b / 4) % 4),
        ce_over_underscan: spec_over_underscan(b % 4),
    }
}

fn decode_over_underscan(v: u8) -> (r: VideoCapOverUnderscan)
    requires
        v < 4,
    ensures
        r == spec_over_underscan(v),
{
    if v == 1 {
        VideoCapOverUnderscan::AlwaysOverscan
    } else if v == 2 {
        VideoCapOverUnderscan::AlwaysUnderscan
    } else if v == 3 {
        VideoCapOverUnderscan::BothOverUnderscan
    } else {
        VideoCapOverUnderscan::UnknownOverUnderscan
    }
}

pub(crate) fn decode_video_cap(b: u8) -> (r: VideoCapBlock)
    ensures
        r == spec_video_cap(b),
{
    VideoCapBlock {
        selectable_ycc_quantization_range: bit(b, 7),
        selectable_rgb_quantization_range: bit(b, 6),
        pt_over_underscan: decode_over_underscan((b / 16) % 4),
        it_over_underscan: decode_over_underscan((b / 4) % 4),
        ce_over_underscan: decode_over_underscan(b % 4),
    }
}

/// CTA colorimetry data block, defined in section 7.5.5.
#[derive(Debug, Clone, Copy, PartialEq, Eq)]
pub struct ColorimetryBlock {
    pub xvycc_601: bool,
    pub xvycc_709: bool,
    pub sycc_601: bool,
    pub opycc_601: bool,
    pub oprgb: bool,
    pub bt2020_cycc: bool,
    pub bt2020_ycc: bool,
    pub bt2020_rgb: bool,
    pub st2113_rgb: bool,
    pub ictcp: bool,
}

pub open spec fn spec_colorimetry(b0: u8, b1: u8) -> ColorimetryBlock {
    ColorimetryBlock {
        xvycc_601: spec_bit(b0, 0),
        xvycc_709: spec_bit(b0, 1),
        sycc_601: spec_bit(b0, 2),
        opycc_601: spec_bit(b0, 3),
        oprgb: spec_bit(b0, 4),
        bt2020_cycc: spec_bit(b0, 5),
        bt2020_ycc: spec_bit(b0, 6),
        bt2020_rgb: spec_bit(b0, 7),
        st2113_rgb: spec_bit(b1, 7),
        ictcp: spec_bit(b1, 6),
    }
}

pub(crate) fn decode_colorimetry(b0: u8, b1: u8) -> (r: ColorimetryBlock)
    ensures
        r == spec_colorimetry(b0, b1),
{
    ColorimetryBlock {
        xvycc_601: bit(b0, 0),
        xvycc_709: bit(b0, 1),
        sycc_601: bit(b0, 2),
        opycc_601: bit(b0, 3),
        oprgb: bit(b0, 4),
        bt2020_cycc: bit(b0, 5),
        bt2020_ycc: bit(b0, 6),
        bt2020_rgb: bit(b0, 7),
        st2113_rgb: bit(b1, 7),
        ictcp: bit(b1, 6),
    }
}

// ---------------------------------------------------------------------------
// HDR static metadata and the luminance code transforms.
// ---------------------------------------------------------------------------

/// Supported electro-optical transfer functions.
#[derive(Debug, Clone, Copy, PartialEq, Eq)]
pub struct HdrStaticMetadataEotfs {
    pub traditional_sdr: bool,
    pub traditional_hdr: bool,
    pub pq: bool,
    pub hlg: bool,
}

/// Supported static metadata descriptors.
#[derive(Debug, Clone, Copy, PartialEq, Eq)]
pub struct HdrStaticMetadataDescriptors {
    pub type1: bool,
}

/// CTA HDR static metadata block, defined in section 7.5.13.
///
/// Luminances are in units of 0.000001 cd/m², decoded from the coded bytes;
/// coded 0 is the absent sentinel for each.
#[derive(Debug, Clone, Copy, PartialEq, Eq)]
pub struct HdrStaticMetadataBlock {
    pub desired_content_max_luminance: Option<u64>,
    pub desired_content_max_frame_avg_luminance: Option<u64>,
    pub desired_content_min_luminance: Option<u64>,
    pub eotfs: Option<HdrStaticMetadataEotfs>,
    pub descriptors: Option<HdrStaticMetadataDescriptors>,
}

/// 50 * 2^(k/32) cd/m² in units of 0.000001 cd/m², for `k` in 0..32
/// (fixed-point evaluation of the fractional power, rounded down).
pub open spec fn spec_lum_frac(k: int) -> u64
    recommends
        0 <= k < 32,
{
    if k == 0 { 50000000 } else if k == 1 { 51094818 } else if k == 2 { 52214050 } else if k == 3 { 53356933 } else if k == 4 { 54525756 } else if k == 5 { 55718994 } else if k == 6 { 56939697 } else if k == 7 { 58186340 } else if k == 8 { 59460449 } else if k == 9 { 60762023 } else if k == 10 { 62092590 } else if k == 11 { 63452911 } else if k == 12 { 64842224 } else if k == 13 { 66262054 } else if k == 14 { 67712402 } else if k == 15 { 69195556 } else if k == 16 { 70710754 } else if k == 17 { 72258758 } else if k == 18 { 73841094 } else if k == 19 { 75458526 } else if k == 20 { 77110290 } else if k == 21 { 78798675 } else if k == 22 { 80524444 } else if k == 23 { 82287597 } else if k == 24 { 84089660 } else if k == 25 { 85930633 } else if k == 26 { 87812805 } else if k == 27 { 89735412 } else if k == 28 { 91700744 } else if k == 29 { 93708038 } else if k == 30 { 95760345 } else { 97856903 }
}

pub open spec fn spec_pow2(e: int) -> u64
    recommends
        0 <= e < 8,
{
    if e == 0 { 1 } else if e == 1 { 2 } else if e == 2 { 4 } else if e == 3 { 8 }
    else if e == 4 { 16 } else if e == 5 { 32 } else if e == 6 { 64 } else { 128 }
}

/// Decoded maximum (or maximum frame-average) luminance of a nonzero coded
/// byte, in 0.000001 cd/m²: 50 * 2^(code / 32) cd/m², evaluated in fixed
/// point.
pub open spec fn spec_decode_max_luminance(c: u8) -> u64
    recommends
        c >= 1,
{
    (spec_lum_frac(c as int % 32) * spec_pow2(c as int / 32)) as u64
}

/// Decoded minimum luminance: max * (code / 255)² / 100, in the same units,
/// given the decoded maximum.
pub open spec fn spec_decode_min_luminance(c: u8, max: u64) -> u64
    recommends
        c >= 1,
{
    (max * (c as u64) * (c as u64) / 6502500) as u64
}

fn lum_frac(k: u8) -> (r: u64)
    requires
        k < 32,
    ensures
        r == spec_lum_frac(k as int),
{
    let t: [u64; 32] = [
        50000000, 51094818, 52214050, 53356933, 54525756, 55718994, 56939697, 58186340, 59460449, 60762023, 62092590, 63452911, 64842224, 66262054, 67712402, 69195556, 70710754, 72258758, 73841094, 75458526, 77110290, 78798675, 80524444, 82287597, 84089660, 85930633, 87812805, 89735412, 91700744, 93708038, 95760345, 97856903,
    ];
    let r = t[k as usize];
    proof {
        assert(t@[k as int] == spec_lum_frac(k as int));
    }
    r
}

/// Decode a nonzero maximum-luminance code.
pub fn decode_max_luminance(c: u8) -> (r: u64)
    requires
        c >= 1,
    ensures
        r == spec_decode_max_luminance(c),
{
    let frac = lum_frac(c % 32);
    let e = c / 32;
    let p: u64 = if e == 0 { 1 } else if e == 1 { 2 } else if e == 2 { 4 } else if e == 3 { 8 }
    else if e == 4 { 16 } else if e == 5 { 32 } else if e == 6 { 64 } else { 128 };
    proof {
        lemma_lum_frac_facts(c as int % 32);
        assert(frac * p <= 97856903 * 128) by (nonlinear_arith)
            requires
                0 <= frac <= 97856903,
                0 <= p <= 128,
        ;
    }
    frac * p
}

/// Decode a nonzero minimum-luminance code against the decoded maximum.
pub fn decode_min_luminance(c: u8, max: u64) -> (r: u64)
    requires
        c >= 1,
        max <= 0x3_0000_0000,
    ensures
        r == spec_decode_min_luminance(c, max),
{
    proof {
        assert(max * (c as u64) <= 0x3_0000_0000 * 255 && max * (c as u64) * (c as u64)
            <= 0x3_0000_0000 * 255 * 255) by (nonlinear_arith)
            requires
                max <= 0x3_0000_0000,
                c as u64 <= 255,
        ;
    }
    max * (c as u64) * (c as u64) / 6502500
}

} // verus!

verus! {

// ---------------------------------------------------------------------------
// Luminance encoding: the exact inverse-by-search of the decode transforms,
// and the round-trip laws relating the two directions.
// ---------------------------------------------------------------------------

/// The largest code in 1..=top whose decoded maximum luminance does not
/// exceed `x` (1 when none does).
pub open spec fn spec_encode_max_from(x: u64, top: u8) -> u8
    recommends
        top >= 1,
    decreases top,
{
    if top <= 1 {
        1
    } else if spec_decode_max_luminance(top) <= x {
        top
    } else {
        spec_encode_max_from(x, (top - 1) as u8)
    }
}

/// Code for a maximum (or frame-average) luminance: the largest code whose
/// decoded value does not exceed the given one.
pub open spec fn spec_encode_max_luminance(x: u64) -> u8 {
    spec_encode_max_from(x, 255)
}

/// Encode a maximum luminance (in 0.000001 cd/m²) back to its code byte.
pub fn encode_max_luminance(x: u64) -> (r: u8)
    requires
        x >= spec_decode_max_luminance(1),
    ensures
        r == spec_encode_max_luminance(x),
        1 <= r,
        spec_decode_max_luminance(r) <= x,
{
    let mut top: u8 = 255;
    while top > 1 && decode_max_luminance(top) > x
        invariant
            1 <= top <= 255,
            spec_encode_max_luminance(x) == spec_encode_max_from(x, top),
        decreases top,
    {
        top = top - 1;
    }
    proof {
        if top == 1 {
            assert(spec_encode_max_from(x, 1) == 1);
        }
    }
    top
}

/// Concrete facts about the luminance table: its range and its strict
/// growth from one entry to the next.
proof fn lemma_lum_frac_facts(k: int)
    requires
        0 <= k < 32,
    ensures
        50000000 <= spec_lum_frac(k) <= 97856903,
        k < 31 ==> spec_lum_frac(k) < spec_lum_frac(k + 1),
{
    if k == 0 {
    } else if k == 1 {
    } else if k == 2 {
    } else if k == 3 {
    } else if k == 4 {
    } else if k == 5 {
    } else if k == 6 {
    } else if k == 7 {
    } else if k == 8 {
    } else if k == 9 {
    } else if k == 10 {
    } else if k == 11 {
    } else if k == 12 {
    } else if k == 13 {
    } else if k == 14 {
    } else if k == 15 {
    } else if k == 16 {
    } else if k == 17 {
    } else if k == 18 {
    } else if k == 19 {
    } else if k == 20 {
    } else if k == 21 {
    } else if k == 22 {
    } else if k == 23 {
    } else if k == 24 {
    } else if k == 25 {
    } else if k == 26 {
    } else if k == 27 {
    } else if k == 28 {
    } else if k == 29 {
    } else if k == 30 {
    } else if k == 31 {
    }
}

/// Decoded maximum luminances grow strictly with the code.
#[verifier::rlimit(60)]
pub proof fn lemma_decode_max_increases(c: u8)
    requires
        1 <= c < 255,
    ensures
        spec_decode_max_luminance(c) < spec_decode_max_luminance((c + 1) as u8),
{
    let k = c as int % 32;
    let e = c as int / 32;
    let a = spec_lum_frac(k);
    let p = spec_pow2(e);
    lemma_lum_frac_facts(k);
    assert(1 <= p <= 128);
    if k < 31 {
        assert((c + 1) as int % 32 == k + 1 && (c + 1) as int / 32 == e);
        let b = spec_lum_frac(k + 1);
        lemma_lum_frac_facts(k + 1);
        assert(a < b <= 97856903);
        assert(a * p < b * p && b * p <= 97856903 * 128) by (nonlinear_arith)
            requires
                0 <= a < b <= 97856903,
                1 <= p <= 128,
        ;
        assert(spec_decode_max_luminance(c) == a * p);
        assert(spec_decode_max_luminance((c + 1) as u8) == b * p);
    } else {
        assert((c + 1) as int % 32 == 0 && (c + 1) as int / 32 == e + 1);
        let b = spec_lum_frac(0);
        assert(a < 2 * b && a <= 97856903 && b == 50000000);
        assert(spec_pow2(e + 1) == 2 * p);
        assert(a * p < b * (2 * p) && b * (2 * p) <= 50000000 * 256) by (nonlinear_arith)
            requires
                0 <= a < 2 * b,
                b == 50000000,
                1 <= p <= 128,
        ;
        assert(spec_decode_max_luminance(c) == a * p);
        assert(spec_decode_max_luminance((c + 1) as u8) == b * spec_pow2(e + 1));
    }
}

/// Strict monotonicity over any pair of codes.
pub proof fn lemma_decode_max_monotone(c1: u8, c2: u8)
    requires
        1 <= c1 < c2 <= 255,
    ensures
        spec_decode_max_luminance(c1) < spec_decode_max_luminance(c2),
    decreases c2 - c1,
{
    if c1 + 1 == c2 {
        lemma_decode_max_increases(c1);
    } else {
        lemma_decode_max_monotone(c1, (c2 - 1) as u8);
        lemma_decode_max_increases((c2 - 1) as u8);
    }
}

proof fn lemma_encode_max_from_exact(c: u8, top: u8)
    requires
        1 <= c <= top <= 255,
    ensures
        spec_encode_max_from(spec_decode_max_luminance(c), top) == c,
    decreases top,
{
    if top == c {
        if top > 1 {
            assert(spec_encode_max_from(spec_decode_max_luminance(c), top) == top);
        }
    } else {
        lemma_decode_max_monotone(c, top);
        lemma_encode_max_from_exact(c, (top - 1) as u8);
    }
}

/// Round trip: encoding a decoded maximum-luminance code gives the code
/// back, for every nonzero code byte.
pub proof fn lemma_max_luminance_code_round_trip(c: u8)
    requires
        1 <= c,
    ensures
        spec_encode_max_luminance(spec_decode_max_luminance(c)) == c,
{
    lemma_encode_max_from_exact(c, 255);
}

proof fn lemma_encode_max_from_bounds(x: u64, top: u8)
    requires
        1 <= top <= 255,
        spec_decode_max_luminance(1) <= x,
    ensures
        1 <= spec_encode_max_from(x, top) <= top,
        spec_decode_max_luminance(spec_encode_max_from(x, top)) <= x,
        spec_encode_max_from(x, top) < top ==> x < spec_decode_max_luminance(
            (spec_encode_max_from(x, top) + 1) as u8,
        ),
    decreases top,
{
    if top == 1 {
    } else if spec_decode_max_luminance(top) <= x {
    } else {
        lemma_encode_max_from_bounds(x, (top - 1) as u8);
    }
}

/// Round trip: a decoded encode stays within one encoding step of the
/// original value, for every value in the representable luminance range.
pub proof fn lemma_max_luminance_value_round_trip(x: u64)
    requires
        spec_decode_max_luminance(1) <= x,
    ensures
        1 <= spec_encode_max_luminance(x) <= 255,
        spec_decode_max_luminance(spec_encode_max_luminance(x)) <= x,
        spec_encode_max_luminance(x) < 255 ==> x < spec_decode_max_luminance(
            (spec_encode_max_luminance(x) + 1) as u8,
        ),
{
    lemma_encode_max_from_bounds(x, 255);
}

/// The largest code in 1..=top whose decoded minimum luminance does not
/// exceed `x` (1 when none does).
pub open spec fn spec_encode_min_from(x: u64, max: u64, top: u8) -> u8
    recommends
        top >= 1,
    decreases top,
{
    if top <= 1 {
        1
    } else if spec_decode_min_luminance(top, max) <= x {
        top
    } else {
        spec_encode_min_from(x, max, (top - 1) as u8)
    }
}

/// Code for a minimum luminance, given the decoded maximum it is relative
/// to.
pub open spec fn spec_encode_min_luminance(x: u64, max: u64) -> u8 {
    spec_encode_min_from(x, max, 255)
}

/// Encode a minimum luminance (in 0.000001 cd/m²) back to its code byte.
pub fn encode_min_luminance(x: u64, max: u64) -> (r: u8)
    requires
        max <= 0x3_0000_0000,
    ensures
        r == spec_encode_min_luminance(x, max),
        1 <= r,
{
    let mut top: u8 = 255;
    while top > 1 && decode_min_luminance(top, max) > x
        invariant
            1 <= top <= 255,
            max <= 0x3_0000_0000,
            spec_encode_min_luminance(x, max) == spec_encode_min_from(x, max, top),
        decreases top,
    {
        top = top - 1;
    }
    proof {
        if top == 1 {
            assert(spec_encode_min_from(x, max, 1) == 1);
        }
    }
    top
}

/// Decoded minimum luminances grow strictly with the code whenever the
/// maximum is at least one decode step (which every decoded maximum is).
pub proof fn lemma_decode_min_increases(c: u8, max: u64)
    requires
        1 <= c < 255,
        6502500 <= max <= 0x3_0000_0000,
    ensures
        spec_decode_min_luminance(c, max) < spec_decode_min_luminance((c + 1) as u8, max),
{
    let y1 = max * (c as u64) * (c as u64);
    let y2 = max * ((c + 1) as u64) * ((c + 1) as u64);
    assert(y2 >= y1 + 6502500 && y2 <= 0x3_0000_0000 * 255 * 255) by (nonlinear_arith)
        requires
            6502500 <= max <= 0x3_0000_0000,
            1 <= c as u64 <= 254,
            y1 == max * (c as u64) * (c as u64),
            y2 == max * ((c + 1) as u64) * ((c + 1) as u64),
    ;
    vstd::arithmetic::div_mod::lemma_div_is_ordered(0, y1 as int, 6502500);
    vstd::arithmetic::div_mod::lemma_div_is_ordered(y2 as int, (0x3_0000_0000 * 255 * 255) as int, 6502500);
    vstd::arithmetic::div_mod::lemma_div_plus_one(y1 as int, 6502500);
    vstd::arithmetic::div_mod::lemma_div_is_ordered(y1 as int + 6502500, y2 as int, 6502500);
}

pub proof fn lemma_decode_min_monotone(c1: u8, c2: u8, max: u64)
    requires
        1 <= c1 < c2 <= 255,
        6502500 <= max <= 0x3_0000_0000,
    ensures
        spec_decode_min_luminance(c1, max) < spec_decode_min_luminance(c2, max),
    decreases c2 - c1,
{
    if c1 + 1 == c2 {
        lemma_decode_min_increases(c1, max);
    } else {
        lemma_decode_min_monotone(c1, (c2 - 1) as u8, max);
        lemma_decode_min_increases((c2 - 1) as u8, max);
    }
}

proof fn lemma_encode_min_from_exact(c: u8, max: u64, top: u8)
    requires
        1 <= c <= top <= 255,
        6502500 <= max <= 0x3_0000_0000,
    ensures
        spec_encode_min_from(spec_decode_min_luminance(c, max), max, top) == c,
    decreases top,
{
    if top == c {
    } else {
        lemma_decode_min_monotone(c, top, max);
        lemma_encode_min_from_exact(c, max, (top - 1) as u8);
    }
}

/// Round trip: encoding a decoded minimum-luminance code gives the code
/// back, for every nonzero code byte and every decoded maximum (a decoded
/// maximum is always at least 50 cd/m², far above the one-step threshold).
pub proof fn lemma_min_luminance_code_round_trip(c: u8, max: u64)
    requires
        1 <= c,
        6502500 <= max <= 0x3_0000_0000,
    ensures
        spec_encode_min_luminance(spec_decode_min_luminance(c, max), max) == c,
{
    lemma_encode_min_from_exact(c, max, 255);
}

proof fn lemma_encode_min_from_bounds(x: u64, max: u64, top: u8)
    requires
        1 <= top <= 255,
        spec_decode_min_luminance(1, max) <= x,
    ensures
        1 <= spec_encode_min_from(x, max, top) <= top,
        spec_decode_min_luminance(spec_encode_min_from(x, max, top), max) <= x,
        spec_encode_min_from(x, max, top) < top ==> x < spec_decode_min_luminance(
            (spec_encode_min_from(x, max, top) + 1) as u8,
            max,
        ),
    decreases top,
{
    if top == 1 {
    } else if spec_decode_min_luminance(top, max) <= x {
    } else {
        lemma_encode_min_from_bounds(x, max, (top - 1) as u8);
    }
}

/// Round trip: a decoded minimum-luminance encode stays within one
/// encoding step of the original value.
pub proof fn lemma_min_luminance_value_round_trip(x: u64, max: u64)
    requires
        spec_decode_min_luminance(1, max) <= x,
    ensures
        1 <= spec_encode_min_luminance(x, max) <= 255,
        spec_decode_min_luminance(spec_encode_min_luminance(x, max), max) <= x,
        spec_encode_min_luminance(x, max) < 255 ==> x < spec_decode_min_luminance(
            (spec_encode_min_luminance(x, max) + 1) as u8,
            max,
        ),
{
    lemma_encode_min_from_bounds(x, max, 255);
}

} // verus!

verus! {

// ---------------------------------------------------------------------------
// HDR static metadata block decode.
// ---------------------------------------------------------------------------

/// Upper bound of every decoded maximum luminance (the code 255 decodes to
/// about 12525 cd/m²).
#[verifier::rlimit(60)]
pub proof fn lemma_decode_max_bound(c: u8)
    requires
        1 <= c,
    ensures
        6502500 <= spec_decode_max_luminance(c) <= 0x3_0000_0000,
{
    let k = c as int % 32;
    let e = c as int / 32;
    let a = spec_lum_frac(k);
    let p = spec_pow2(e);
    lemma_lum_frac_facts(k);
    assert(1 <= p <= 128);
    assert(50000000 <= a * p <= 97856903 * 128) by (nonlinear_arith)
        requires
            50000000 <= a <= 97856903,
            1 <= p <= 128,
    ;
    assert(spec_decode_max_luminance(c) == a * p);
}

pub open spec fn spec_hdr_static(d: Seq<u8>, p: int, end: int) -> HdrStaticMetadataBlock
    recommends
        0 <= p,
        p + 1 <= end <= d.len(),
{
    let len = end - p;
    let max = if len >= 3 && d[p + 2] != 0 {
        Some(spec_decode_max_luminance(d[p + 2]))
    } else {
        None
    };
    HdrStaticMetadataBlock {
        desired_content_max_luminance: max,
        desired_content_max_frame_avg_luminance: if len >= 4 && d[p + 3] != 0 {
            Some(spec_decode_max_luminance(d[p + 3]))
        } else {
            None
        },
        desired_content_min_luminance: match max {
            Some(m) => if len >= 5 && d[p + 4] != 0 {
                Some(spec_decode_min_luminance(d[p + 4], m))
            } else {
                None
            },
            None => None,
        },
        eotfs: Some(
            HdrStaticMetadataEotfs {
                traditional_sdr: spec_bit(d[p], 0),
                traditional_hdr: spec_bit(d[p], 1),
                pq: spec_bit(d[p], 2),
                hlg: spec_bit(d[p], 3),
            },
        ),
        descriptors: if len >= 2 {
            Some(HdrStaticMetadataDescriptors { type1: spec_bit(d[p + 1], 0) })
        } else {
            None
        },
    }
}

pub(crate) fn decode_hdr_static(d: &[u8], p: usize, end: usize) -> (r: HdrStaticMetadataBlock)
    requires
        p + 1 <= end <= d@.len(),
    ensures
        r == spec_hdr_static(d@, p as int, end as int),
{
    let _n: usize = d.len();
    let len = end - p;
    let max: Option<u64> = if len >= 3 && d[p + 2] != 0 {
        proof {
            lemma_decode_max_bound(d@[p + 2]);
        }
        Some(decode_max_luminance(d[p + 2]))
    } else {
        None
    };
    HdrStaticMetadataBlock {
        desired_content_max_luminance: max,
        desired_content_max_frame_avg_luminance: if len >= 4 && d[p + 3] != 0 {
            Some(decode_max_luminance(d[p + 3]))
        } else {
            None
        },
        desired_content_min_luminance: match max {
            Some(m) => if len >= 5 && d[p + 4] != 0 {
                proof {
                    lemma_decode_max_bound(d@[p + 2]);
                }
                Some(decode_min_luminance(d[p + 4], m))
            } else {
                None
            },
            None => None,
        },
        eotfs: Some(
            HdrStaticMetadataEotfs {
                traditional_sdr: bit(d[p], 0),
                traditional_hdr: bit(d[p], 1),
                pq: bit(d[p], 2),
                hlg: bit(d[p], 3),
            },
        ),
        descriptors: if len >= 2 {
            Some(HdrStaticMetadataDescriptors { type1: bit(d[p + 1], 0) })
        } else {
            None
        },
    }
}

// ---------------------------------------------------------------------------
// HDR dynamic metadata block decode.
// ---------------------------------------------------------------------------

#[derive(Debug, Clone, Copy, PartialEq, Eq)]
pub struct HdrDynamicMetadataType1 {
    pub type_1_hdr_metadata_version: u8,
}

#[derive(Debug, Clone, Copy, PartialEq, Eq)]
pub struct HdrDynamicMetadataType2 {
    pub ts_103_433_spec_version: u8,
    pub ts_103_433_1_capable: bool,
    pub ts_103_433_2_capable: bool,
    pub ts_103_433_3_capable: bool,
}

#[derive(Debug, Clone, Copy, PartialEq, Eq)]
pub struct HdrDynamicMetadataType3 {}

#[derive(Debug, Clone, Copy, PartialEq, Eq)]
pub struct HdrDynamicMetadataType4 {
    pub type_4_hdr_metadata_version: u8,
}

#[derive(Debug, Clone, Copy, PartialEq, Eq)]
pub struct HdrDynamicMetadataType256 {
    pub graphics_overlay_flag_version: u8,
}

/// CTA HDR dynamic metadata block, defined in section 7.5.14.
///
/// Each supported metadata type appears as its own optional field; when a
/// type occurs in several records the first record wins.
#[derive(Debug, Clone, Copy, PartialEq, Eq)]
pub struct HdrDynamicMetadataBlock {
    pub type1: Option<HdrDynamicMetadataType1>,
    pub type2: Option<HdrDynamicMetadataType2>,
    pub type3: Option<HdrDynamicMetadataType3>,
    pub type4: Option<HdrDynamicMetadataType4>,
    pub type256: Option<HdrDynamicMetadataType256>,
}

/// The records from `p` on, folded into a block; a record is a length byte
/// (at least 2, counting the type word and support flags), a 16-bit type
/// and an optional support-flags byte.
pub open spec fn spec_hdr_dynamic(d: Seq<u8>, p: int, end: int) -> HdrDynamicMetadataBlock
    recommends
        0 <= p,
        end <= d.len(),
    decreases end - p,
{
    let empty = HdrDynamicMetadataBlock {
        type1: None,
        type2: None,
        type3: None,
        type4: None,
        type256: None,
    };
    if p + 3 > end {
        empty
    } else {
        let len = d[p] as int;
        if len < 2 || p + 1 + len > end {
            empty
        } else {
            let rest = spec_hdr_dynamic(d, p + 1 + len, end);
            let ty = spec_le16(d[p + 1], d[p + 2]);
            let support: u8 = if len >= 3 {
                d[p + 3]
            } else {
                0
            };
            HdrDynamicMetadataBlock {
                type1: if ty == 1 {
                    Some(HdrDynamicMetadataType1 { type_1_hdr_metadata_version: support % 16 })
                } else {
                    rest.type1
                },
                type2: if ty == 2 {
                    Some(
                        HdrDynamicMetadataType2 {
                            ts_103_433_spec_version: support % 16,
                            ts_103_433_1_capable: spec_bit(support, 4),
                            ts_103_433_2_capable: spec_bit(support, 5),
                            ts_103_433_3_capable: spec_bit(support, 6),
                        },
                    )
                } else {
                    rest.type2
                },
                type3: if ty == 3 {
                    Some(HdrDynamicMetadataType3 {})
                } else {
                    rest.type3
                },
                type4: if ty == 4 {
                    Some(HdrDynamicMetadataType4 { type_4_hdr_metadata_version: support % 16 })
                } else {
                    rest.type4
                },
                type256: if ty == 256 {
                    Some(HdrDynamicMetadataType256 { graphics_overlay_flag_version: support % 16 })
                } else {
                    rest.type256
                },
            }
        }
    }
}

pub(crate) fn decode_hdr_dynamic(d: &[u8], p: usize, end: usize) -> (r: HdrDynamicMetadataBlock)
    requires
        end <= d@.len(),
    ensures
        r == spec_hdr_dynamic(d@, p as int, end as int),
    decreases end - p,
{
    let _n: usize = d.len();
    let empty = HdrDynamicMetadataBlock {
        type1: None,
        type2: None,
        type3: None,
        type4: None,
        type256: None,
    };
    if p >= end || end - p < 3 {
        empty
    } else {
        let len = d[p] as usize;
        if len < 2 || len + 1 > end - p {
            empty
        } else {
            let rest = decode_hdr_dynamic(d, p + 1 + len, end);
            let ty = crate::bytes::le16(d[p + 1], d[p + 2]);
            let support: u8 = if len >= 3 {
                d[p + 3]
            } else {
                0
            };
            HdrDynamicMetadataBlock {
                type1: if ty == 1 {
                    Some(HdrDynamicMetadataType1 { type_1_hdr_metadata_version: support % 16 })
                } else {
                    rest.type1
                },
                type2: if ty == 2 {
                    Some(
                        HdrDynamicMetadataType2 {
                            ts_103_433_spec_version: support % 16,
                            ts_103_433_1_capable: bit(support, 4),
                            ts_103_433_2_capable: bit(support, 5),
                            ts_103_433_3_capable: bit(support, 6),
                        },
                    )
                } else {
                    rest.type2
                },
                type3: if ty == 3 {
                    Some(HdrDynamicMetadataType3 {})
                } else {
                    rest.type3
                },
                type4: if ty == 4 {
                    Some(HdrDynamicMetadataType4 { type_4_hdr_metadata_version: support % 16 })
                } else {
                    rest.type4
                },
                type256: if ty == 256 {
                    Some(HdrDynamicMetadataType256 { graphics_overlay_flag_version: support % 16 })
                } else {
                    rest.type256
                },
            }
        }
    }
}

} // verus!

verus! {

// ---------------------------------------------------------------------------
// Short video descriptors and the video-carrying blocks.
// ---------------------------------------------------------------------------

/// A short video descriptor (SVD).
#[derive(Debug, Clone, Copy, PartialEq, Eq)]
pub struct Svd {
    pub vic: u8,
    pub native: bool,
}

/// Video data block: the list of short video descriptors.
#[derive(Debug, Clone, PartialEq, Eq)]
pub struct VideoBlock {
    svds: Vec<Svd>,
}

impl VideoBlock {
    pub closed spec fn model(&self) -> Seq<Svd> {
        self.svds@
    }

    /// The short video descriptors of this block, in order.
    pub fn svds(&self) -> (r: &Vec<Svd>)
        ensures
            r@ == self.model(),
    {
        &self.svds
    }
}

/// YCbCr 4:2:0 video data block: SVDs that only support 4:2:0 sampling.
#[derive(Debug, Clone, PartialEq, Eq)]
pub struct Ycbcr420VideoBlock {
    svds: Vec<Svd>,
}

impl Ycbcr420VideoBlock {
    pub closed spec fn model(&self) -> Seq<Svd> {
        self.svds@
    }

    /// The short video descriptors of this block, in order.
    pub fn svds(&self) -> (r: &Vec<Svd>)
        ensures
            r@ == self.model(),
    {
        &self.svds
    }
}

/// One SVD byte: 129..=192 mark the native version of VICs 1..=64, 0 and
/// 128 are reserved and decode to nothing.
pub open spec fn spec_svd(v: u8) -> Option<Svd> {
    if v == 0 || v == 128 {
        None
    } else if 129 <= v && v <= 192 {
        Some(Svd { vic: (v - 128) as u8, native: true })
    } else {
        Some(Svd { vic: v, native: false })
    }
}

pub open spec fn spec_svds(d: Seq<u8>, p: int, end: int) -> Seq<Svd>
    recommends
        0 <= p,
        end <= d.len(),
    decreases end - p,
{
    if p >= end {
        Seq::empty()
    } else {
        let rest = spec_svds(d, p + 1, end);
        match spec_svd(d[p]) {
            Some(svd) => seq![svd] + rest,
            None => rest,
        }
    }
}

fn decode_svd(v: u8) -> (r: Option<Svd>)
    ensures
        r == spec_svd(v),
{
    if v == 0 || v == 128 {
        None
    } else if 129 <= v && v <= 192 {
        Some(Svd { vic: v - 128, native: true })
    } else {
        Some(Svd { vic: v, native: false })
    }
}

pub(crate) fn decode_svds(d: &[u8], p: usize, end: usize) -> (r: Vec<Svd>)
    requires
        p <= end <= d@.len(),
    ensures
        r@ == spec_svds(d@, p as int, end as int),
    decreases end - p,
{
    let _n: usize = d.len();
    let mut out: Vec<Svd> = Vec::new();
    let mut q: usize = p;
    while q < end
        invariant
            p <= q <= end <= d@.len(),
            d@.len() <= usize::MAX,
            spec_svds(d@, p as int, end as int) == out@ + spec_svds(d@, q as int, end as int),
        decreases end - q,
    {
        match decode_svd(d[q]) {
            Some(svd) => {
                out.push(svd);
            },
            None => {},
        }
        proof {
            assert(spec_svds(d@, p as int, end as int) == out@ + spec_svds(
                d@,
                q as int + 1,
                end as int,
            ));
        }
        q = q + 1;
    }
    proof {
        assert(out@ + spec_svds(d@, end as int, end as int) =~= out@);
    }
    out
}

// ---------------------------------------------------------------------------
// YCbCr 4:2:0 capability map.
// ---------------------------------------------------------------------------

/// Ghost model of a YCbCr 4:2:0 capability map.
pub struct Ycbcr420CapMapModel {
    pub all: bool,
    pub bitmap: Seq<u8>,
}

/// CTA YCbCr 4:2:0 capability map block, defined in section 7.5.11.
///
/// Bit `i` says whether the `i`-th SVD of the regular video data blocks
/// supports 4:2:0 subsampling; an empty map means every SVD does.
#[derive(Debug, Clone, PartialEq, Eq)]
pub struct Ycbcr420CapMapBlock {
    bitmap: Vec<u8>,
}

impl Ycbcr420CapMapBlock {
    pub closed spec fn model(&self) -> Ycbcr420CapMapModel {
        Ycbcr420CapMapModel { all: self.bitmap@.len() == 0, bitmap: self.bitmap@ }
    }

    /// Whether the SVD at `svd_index` in the regular video data blocks
    /// supports YCbCr 4:2:0 subsampling.
    pub fn di_cta_ycbcr420_cap_map_supported(&self, svd_index: usize) -> (r: bool)
        ensures
            r == spec_cap_map_supported(self.model(), svd_index as int),
    {
        if self.bitmap.len() == 0 {
            true
        } else if svd_index / 8 < self.bitmap.len() {
            bit(self.bitmap[svd_index / 8], (svd_index % 8) as u8)
        } else {
            false
        }
    }
}

pub open spec fn spec_cap_map_supported(m: Ycbcr420CapMapModel, i: int) -> bool
    recommends
        0 <= i,
{
    if m.all {
        true
    } else if i / 8 < m.bitmap.len() {
        spec_bit(m.bitmap[i / 8], (i % 8) as u8)
    } else {
        false
    }
}

pub open spec fn spec_byte_run(d: Seq<u8>, p: int, end: int) -> Seq<u8>
    recommends
        0 <= p <= end <= d.len(),
{
    d.subrange(p, end)
}

fn copy_bytes(d: &[u8], p: usize, end: usize) -> (r: Vec<u8>)
    requires
        p <= end <= d@.len(),
    ensures
        r@ == spec_byte_run(d@, p as int, end as int),
{
    let _n: usize = d.len();
    let mut out: Vec<u8> = Vec::new();
    let mut q: usize = p;
    while q < end
        invariant
            p <= q <= end <= d@.len(),
            d@.len() <= usize::MAX,
            out@.len() == q - p,
            forall|j: int| 0 <= j < out@.len() ==> out@[j] == d@[p + j],
        decreases end - q,
    {
        out.push(d[q]);
        q = q + 1;
    }
    proof {
        assert(out@ =~= spec_byte_run(d@, p as int, end as int));
    }
    out
}

// ---------------------------------------------------------------------------
// InfoFrame data block.
// ---------------------------------------------------------------------------

/// InfoFrame types, defined in table 7.
#[derive(Debug, Clone, Copy, PartialEq, Eq)]
pub enum InfoframeType {
    AuxiliaryVideoInformation,
    SourceProductDescription,
    Audio,
    MpegSource,
    NtscVbi,
    DynamicRangeAndMastering,
}

/// CTA InfoFrame descriptor, defined in section 7.5.9.
#[derive(Debug, Clone, Copy, PartialEq, Eq)]
pub struct InfoframeDescriptor {
    pub type_: InfoframeType,
}

/// Ghost model of an InfoFrame data block.
pub struct InfoframeModel {
    pub num_simultaneous_vsifs: i32,
    pub infoframes: Seq<InfoframeDescriptor>,
}

/// CTA InfoFrame processing data block, defined in section 7.5.9.
///
/// The simultaneous-VSIF count carries the +1 offset the format stores it
/// with.
#[derive(Debug, Clone, PartialEq, Eq)]
pub struct InfoframeBlock {
    num_simultaneous_vsifs: i32,
    infoframes: Vec<InfoframeDescriptor>,
}

impl InfoframeBlock {
    pub closed spec fn model(&self) -> InfoframeModel {
        InfoframeModel {
            num_simultaneous_vsifs: self.num_simultaneous_vsifs,
            infoframes: self.infoframes@,
        }
    }

    /// Number of additional vendor-specific InfoFrames that can be received
    /// simultaneously.
    pub fn num_simultaneous_vsifs(&self) -> (r: i32)
        ensures
            r == self.model().num_simultaneous_vsifs,
    {
        self.num_simultaneous_vsifs
    }

    /// The InfoFrame descriptors of this block, in order.
    pub fn infoframes(&self) -> (r: &Vec<InfoframeDescriptor>)
        ensures
            r@ == self.model().infoframes,
    {
        &self.infoframes
    }
}

pub open spec fn spec_infoframe_type(code: u8) -> Option<InfoframeType>
    recommends
        code < 32,
{
    if code == 2 {
        Some(InfoframeType::AuxiliaryVideoInformation)
    } else if code == 3 {
        Some(InfoframeType::SourceProductDescription)
    } else if code == 4 {
        Some(InfoframeType::Audio)
    } else if code == 5 {
        Some(InfoframeType::MpegSource)
    } else if code == 6 {
        Some(InfoframeType::NtscVbi)
    } else if code == 7 {
        Some(InfoframeType::DynamicRangeAndMastering)
    } else {
        None
    }
}

/// The short InfoFrame descriptors from `p` on: each one is a header byte
/// (3-bit payload length, 5-bit type code) followed by its payload.
pub open spec fn spec_infoframe_descs(d: Seq<u8>, p: int, end: int) -> Seq<InfoframeDescriptor>
    recommends
        0 <= p,
        end <= d.len(),
    decreases end - p,
{
    if p >= end {
        Seq::empty()
    } else {
        let l = (d[p] / 32) as int;
        if p + 1 + l > end {
            Seq::empty()
        } else {
            let rest = spec_infoframe_descs(d, p + 1 + l, end);
            match spec_infoframe_type(d[p] % 32) {
                Some(t) => seq![InfoframeDescriptor { type_: t }] + rest,
                None => rest,
            }
        }
    }
}

fn decode_infoframe_descs(d: &[u8], p: usize, end: usize) -> (r: Vec<InfoframeDescriptor>)
    requires
        p <= end <= d@.len(),
    ensures
        r@ == spec_infoframe_descs(d@, p as int, end as int),
{
    let _n: usize = d.len();
    let mut out: Vec<InfoframeDescriptor> = Vec::new();
    let mut q: usize = p;
    let mut stop = false;
    while !stop && q < end
        invariant
            p <= q <= end <= d@.len(),
            d@.len() <= usize::MAX,
            !stop ==> spec_infoframe_descs(d@, p as int, end as int) == out@
                + spec_infoframe_descs(d@, q as int, end as int),
            stop ==> out@ == spec_infoframe_descs(d@, p as int, end as int),
        decreases end - q, !stop as int,
    {
        let l = (d[q] / 32) as usize;
        if l + 1 > end - q {
            proof {
                assert(spec_infoframe_descs(d@, q as int, end as int) =~= Seq::<
                    InfoframeDescriptor,
                >::empty());
                assert(out@ + Seq::<InfoframeDescriptor>::empty() =~= out@);
            }
            stop = true;
        } else {
            let code = d[q] % 32;
            let t: Option<InfoframeType> = if code == 2 {
                Some(InfoframeType::AuxiliaryVideoInformation)
            } else if code == 3 {
                Some(InfoframeType::SourceProductDescription)
            } else if code == 4 {
                Some(InfoframeType::Audio)
            } else if code == 5 {
                Some(InfoframeType::MpegSource)
            } else if code == 6 {
                Some(InfoframeType::NtscVbi)
            } else if code == 7 {
                Some(InfoframeType::DynamicRangeAndMastering)
            } else {
                None
            };
            match t {
                Some(t) => {
                    out.push(InfoframeDescriptor { type_: t });
                },
                None => {},
            }
            q = q + 1 + l;
        }
    }
    proof {
        if !stop {
            assert(spec_infoframe_descs(d@, end as int, end as int) =~= Seq::<
                InfoframeDescriptor,
            >::empty());
            assert(out@ + Seq::<InfoframeDescriptor>::empty() =~= out@);
        }
    }
    out
}

/// The InfoFrame block: a processing descriptor (whose first byte gives the
/// length of its trailing payload and whose second carries the VSIF count
/// with a +1 offset) followed by the short descriptors.
pub open spec fn spec_infoframe_block(d: Seq<u8>, p: int, end: int) -> Option<InfoframeModel>
    recommends
        0 <= p,
        end <= d.len(),
{
    if p + 2 > end {
        None
    } else {
        let m = (d[p] % 32) as int;
        if p + 2 + m > end {
            None
        } else {
            Some(
                InfoframeModel {
                    num_simultaneous_vsifs: (d[p + 1] + 1) as i32,
                    infoframes: spec_infoframe_descs(d, p + 2 + m, end),
                },
            )
        }
    }
}

pub(crate) fn decode_infoframe_block(d: &[u8], p: usize, end: usize) -> (r: Option<InfoframeBlock>)
    requires
        p <= end <= d@.len(),
    ensures
        r is Some <==> spec_infoframe_block(d@, p as int, end as int) is Some,
        r is Some ==> r->0.model() == spec_infoframe_block(d@, p as int, end as int)->0,
{
    let _n: usize = d.len();
    if end - p < 2 {
        None
    } else {
        let m = (d[p] % 32) as usize;
        if m + 2 > end - p {
            None
        } else {
            Some(
                InfoframeBlock {
                    num_simultaneous_vsifs: d[p + 1] as i32 + 1,
                    infoframes: decode_infoframe_descs(d, p + 2 + m, end),
                },
            )
        }
    }
}

} // verus!

verus! {

// ---------------------------------------------------------------------------
// Video format preference block (short video references).
// ---------------------------------------------------------------------------

/// How a short video reference picks a format.
#[derive(Debug, Clone, Copy, PartialEq, Eq)]
pub enum SvrType {
    VIC,
    DtdIndex,
    T7T10VTDB,
    FirstT8vtdb,
}

/// Short video reference, defined in section 7.5.12.  Indices are 1-based.
#[derive(Debug, Clone, Copy, PartialEq, Eq)]
pub struct Svr {
    pub type_: SvrType,
    pub vic: u8,
    pub dtd_index: u8,
    pub t7_t10_vtdb_index: u8,
}

/// Video format preference data block: short video references, the most
/// preferred format first.
#[derive(Debug, Clone, PartialEq, Eq)]
pub struct VideoFormatPrefBlock {
    svrs: Vec<Svr>,
}

impl VideoFormatPrefBlock {
    pub closed spec fn model(&self) -> Seq<Svr> {
        self.svrs@
    }

    /// The short video references of this block, most preferred first.
    pub fn svrs(&self) -> (r: &Vec<Svr>)
        ensures
            r@ == self.model(),
    {
        &self.svrs
    }
}

pub open spec fn spec_svr(v: u8) -> Option<Svr> {
    if (1 <= v && v <= 127) || (193 <= v && v <= 253) {
        Some(Svr { type_: SvrType::VIC, vic: v, dtd_index: 0, t7_t10_vtdb_index: 0 })
    } else if 129 <= v && v <= 144 {
        Some(
            Svr { type_: SvrType::DtdIndex, vic: 0, dtd_index: (v - 128) as u8, t7_t10_vtdb_index: 0 },
        )
    } else if 145 <= v && v <= 160 {
        Some(
            Svr {
                type_: SvrType::T7T10VTDB,
                vic: 0,
                dtd_index: 0,
                t7_t10_vtdb_index: (v - 144) as u8,
            },
        )
    } else if v == 161 {
        Some(Svr { type_: SvrType::FirstT8vtdb, vic: 0, dtd_index: 0, t7_t10_vtdb_index: 0 })
    } else {
        None
    }
}

pub open spec fn spec_svrs(d: Seq<u8>, p: int, end: int) -> Seq<Svr>
    recommends
        0 <= p,
        end <= d.len(),
    decreases end - p,
{
    if p >= end {
        Seq::empty()
    } else {
        let rest = spec_svrs(d, p + 1, end);
        match spec_svr(d[p]) {
            Some(svr) => seq![svr] + rest,
            None => rest,
        }
    }
}

fn decode_svr(v: u8) -> (r: Option<Svr>)
    ensures
        r == spec_svr(v),
{
    if (1 <= v && v <= 127) || (193 <= v && v <= 253) {
        Some(Svr { type_: SvrType::VIC, vic: v, dtd_index: 0, t7_t10_vtdb_index: 0 })
    } else if 129 <= v && v <= 144 {
        Some(Svr { type_: SvrType::DtdIndex, vic: 0, dtd_index: v - 128, t7_t10_vtdb_index: 0 })
    } else if 145 <= v && v <= 160 {
        Some(Svr { type_: SvrType::T7T10VTDB, vic: 0, dtd_index: 0, t7_t10_vtdb_index: v - 144 })
    } else if v == 161 {
        Some(Svr { type_: SvrType::FirstT8vtdb, vic: 0, dtd_index: 0, t7_t10_vtdb_index: 0 })
    } else {
        None
    }
}

pub(crate) fn decode_svrs(d: &[u8], p: usize, end: usize) -> (r: Vec<Svr>)
    requires
        p <= end <= d@.len(),
    ensures
        r@ == spec_svrs(d@, p as int, end as int),
{
    let _n: usize = d.len();
    let mut out: Vec<Svr> = Vec::new();
    let mut q: usize = p;
    while q < end
        invariant
            p <= q <= end <= d@.len(),
            d@.len() <= usize::MAX,
            spec_svrs(d@, p as int, end as int) == out@ + spec_svrs(d@, q as int, end as int),
        decreases end - q,
    {
        match decode_svr(d[q]) {
            Some(svr) => {
                out.push(svr);
            },
            None => {},
        }
        q = q + 1;
    }
    proof {
        assert(out@ + spec_svrs(d@, end as int, end as int) =~= out@);
    }
    out
}

// ---------------------------------------------------------------------------
// Speaker location data block.
// ---------------------------------------------------------------------------

/// Individual speaker placements, in the code order of section 7.5.16.
#[derive(Debug, Clone, Copy, PartialEq, Eq)]
#[allow(non_camel_case_types)]
pub enum SpeakerPlacement {
    FL,
    FR,
    FC,
    LFE1,
    BL,
    BR,
    FLC,
    FRC,
    BC,
    LFE2,
    SIL,
    SIR,
    TPFL,
    TPFR,
    TPFC,
    TPC,
    TPBL,
    TPBR,
    TPSIL,
    TPSIR,
    TPBC,
    BTFC,
    BTFL,
    BRFR,
    FLW,
    FRW,
    LS,
    RS,
}

/// Speaker location descriptor, defined in section 7.5.16.
///
/// Coordinates are the raw signed bytes; a position is the value divided by
/// 32, relative to the room dimensions.
#[derive(Debug, Clone, Copy, PartialEq, Eq)]
pub struct SpeakerLocationDescriptor {
    pub channel_index: i32,
    pub is_active: bool,
    pub has_coords: bool,
    pub x: i32,
    pub y: i32,
    pub z: i32,
    pub speaker_id: SpeakerPlacement,
}

/// Speaker location data block, defined in section 7.5.16.
#[derive(Debug, Clone, PartialEq, Eq)]
pub struct SpeakerLocationBlock {
    locations: Vec<SpeakerLocationDescriptor>,
}

impl SpeakerLocationBlock {
    pub closed spec fn model(&self) -> Seq<SpeakerLocationDescriptor> {
        self.locations@
    }

    /// The speaker location descriptors of this block, in order.
    pub fn locations(&self) -> (r: &Vec<SpeakerLocationDescriptor>)
        ensures
            r@ == self.model(),
    {
        &self.locations
    }
}

pub open spec fn spec_speaker_placement(v: u8) -> Option<SpeakerPlacement>
    recommends
        v < 32,
{
    if v == 0 { Some(SpeakerPlacement::FL) } else if v == 1 { Some(SpeakerPlacement::FR) }
    else if v == 2 { Some(SpeakerPlacement::FC) } else if v == 3 { Some(SpeakerPlacement::LFE1) }
    else if v == 4 { Some(SpeakerPlacement::BL) } else if v == 5 { Some(SpeakerPlacement::BR) }
    else if v == 6 { Some(SpeakerPlacement::FLC) } else if v == 7 { Some(SpeakerPlacement::FRC) }
    else if v == 8 { Some(SpeakerPlacement::BC) } else if v == 9 { Some(SpeakerPlacement::LFE2) }
    else if v == 10 { Some(SpeakerPlacement::SIL) } else if v == 11 { Some(SpeakerPlacement::SIR) }
    else if v == 12 { Some(SpeakerPlacement::TPFL) } else if v == 13 { Some(SpeakerPlacement::TPFR) }
    else if v == 14 { Some(SpeakerPlacement::TPFC) } else if v == 15 { Some(SpeakerPlacement::TPC) }
    else if v == 16 { Some(SpeakerPlacement::TPBL) } else if v == 17 { Some(SpeakerPlacement::TPBR) }
    else if v == 18 { Some(SpeakerPlacement::TPSIL) } else if v == 19 { Some(SpeakerPlacement::TPSIR) }
    else if v == 20 { Some(SpeakerPlacement::TPBC) } else if v == 21 { Some(SpeakerPlacement::BTFC) }
    else if v == 22 { Some(SpeakerPlacement::BTFL) } else if v == 23 { Some(SpeakerPlacement::BRFR) }
    else if v == 24 { Some(SpeakerPlacement::FLW) } else if v == 25 { Some(SpeakerPlacement::FRW) }
    else if v == 26 { Some(SpeakerPlacement::LS) } else if v == 27 { Some(SpeakerPlacement::RS) }
    else { None }
}

fn decode_speaker_placement(v: u8) -> (r: Option<SpeakerPlacement>)
    requires
        v < 32,
    ensures
        r == spec_speaker_placement(v),
{
    if v == 0 { Some(SpeakerPlacement::FL) } else if v == 1 { Some(SpeakerPlacement::FR) }
    else if v == 2 { Some(SpeakerPlacement::FC) } else if v == 3 { Some(SpeakerPlacement::LFE1) }
    else if v == 4 { Some(SpeakerPlacement::BL) } else if v == 5 { Some(SpeakerPlacement::BR) }
    else if v == 6 { Some(SpeakerPlacement::FLC) } else if v == 7 { Some(SpeakerPlacement::FRC) }
    else if v == 8 { Some(SpeakerPlacement::BC) } else if v == 9 { Some(SpeakerPlacement::LFE2) }
    else if v == 10 { Some(SpeakerPlacement::SIL) } else if v == 11 { Some(SpeakerPlacement::SIR) }
    else if v == 12 { Some(SpeakerPlacement::TPFL) } else if v == 13 { Some(SpeakerPlacement::TPFR) }
    else if v == 14 { Some(SpeakerPlacement::TPFC) } else if v == 15 { Some(SpeakerPlacement::TPC) }
    else if v == 16 { Some(SpeakerPlacement::TPBL) } else if v == 17 { Some(SpeakerPlacement::TPBR) }
    else if v == 18 { Some(SpeakerPlacement::TPSIL) } else if v == 19 { Some(SpeakerPlacement::TPSIR) }
    else if v == 20 { Some(SpeakerPlacement::TPBC) } else if v == 21 { Some(SpeakerPlacement::BTFC) }
    else if v == 22 { Some(SpeakerPlacement::BTFL) } else if v == 23 { Some(SpeakerPlacement::BRFR) }
    else if v == 24 { Some(SpeakerPlacement::FLW) } else if v == 25 { Some(SpeakerPlacement::FRW) }
    else if v == 26 { Some(SpeakerPlacement::LS) } else if v == 27 { Some(SpeakerPlacement::RS) }
    else { None }
}

/// Sign-extend a raw coordinate byte.
pub open spec fn spec_coord(b: u8) -> i32 {
    if b >= 128 {
        (b - 256) as i32
    } else {
        b as i32
    }
}

/// The speaker location descriptors from `p` on: each is two bytes, plus
/// three coordinate bytes when the coordinate flag is raised.
pub open spec fn spec_speaker_locations(d: Seq<u8>, p: int, end: int) -> Seq<
    SpeakerLocationDescriptor,
>
    recommends
        0 <= p,
        end <= d.len(),
    decreases end - p,
{
    if p + 2 > end {
        Seq::empty()
    } else {
        let has_coords = spec_bit(d[p], 6);
        let step: int = if has_coords {
            5
        } else {
            2
        };
        if p + step > end {
            Seq::empty()
        } else {
            let rest = spec_speaker_locations(d, p + step, end);
            match spec_speaker_placement(d[p + 1] % 32) {
                Some(id) => seq![
                    SpeakerLocationDescriptor {
                        channel_index: (d[p] % 32) as i32,
                        is_active: spec_bit(d[p], 5),
                        has_coords,
                        x: if has_coords {
                            spec_coord(d[p + 2])
                        } else {
                            0
                        },
                        y: if has_coords {
                            spec_coord(d[p + 3])
                        } else {
                            0
                        },
                        z: if has_coords {
                            spec_coord(d[p + 4])
                        } else {
                            0
                        },
                        speaker_id: id,
                    },
                ] + rest,
                None => rest,
            }
        }
    }
}

pub(crate) fn decode_speaker_locations(d: &[u8], p: usize, end: usize) -> (r: Vec<
    SpeakerLocationDescriptor,
>)
    requires
        p <= end <= d@.len(),
    ensures
        r@ == spec_speaker_locations(d@, p as int, end as int),
{
    let _n: usize = d.len();
    let mut out: Vec<SpeakerLocationDescriptor> = Vec::new();
    let mut q: usize = p;
    let mut stop = false;
    while !stop && q < end && end - q >= 2
        invariant
            p <= q,
            q <= end + 2,
            end <= d@.len(),
            d@.len() <= usize::MAX,
            !stop ==> spec_speaker_locations(d@, p as int, end as int) == out@
                + spec_speaker_locations(d@, q as int, end as int),
            stop ==> out@ == spec_speaker_locations(d@, p as int, end as int),
        decreases end - q, !stop as int,
    {
        let has_coords = bit(d[q], 6);
        let step: usize = if has_coords {
            5
        } else {
            2
        };
        if end - q < step {
            proof {
                assert(spec_speaker_locations(d@, q as int, end as int) =~= Seq::<
                    SpeakerLocationDescriptor,
                >::empty());
                assert(out@ + Seq::<SpeakerLocationDescriptor>::empty() =~= out@);
            }
            stop = true;
        } else {
            match decode_speaker_placement(d[q + 1] % 32) {
                Some(id) => {
                    let x: i32 = if has_coords {
                        if d[q + 2] >= 128 {
                            d[q + 2] as i32 - 256
                        } else {
                            d[q + 2] as i32
                        }
                    } else {
                        0
                    };
                    let y: i32 = if has_coords {
                        if d[q + 3] >= 128 {
                            d[q + 3] as i32 - 256
                        } else {
                            d[q + 3] as i32
                        }
                    } else {
                        0
                    };
                    let z: i32 = if has_coords {
                        if d[q + 4] >= 128 {
                            d[q + 4] as i32 - 256
                        } else {
                            d[q + 4] as i32
                        }
                    } else {
                        0
                    };
                    out.push(
                        SpeakerLocationDescriptor {
                            channel_index: (d[q] % 32) as i32,
                            is_active: bit(d[q], 5),
                            has_coords,
                            x,
                            y,
                            z,
                            speaker_id: id,
                        },
                    );
                },
                None => {},
            }
            q = q + step;
        }
    }
    proof {
        if !stop {
            assert(spec_speaker_locations(d@, q as int, end as int) =~= Seq::<
                SpeakerLocationDescriptor,
            >::empty());
            assert(out@ + Seq::<SpeakerLocationDescriptor>::empty() =~= out@);
        }
    }
    out
}

} // verus!

verus! {

// ---------------------------------------------------------------------------
// Data block records and the tag-length walk.
// ---------------------------------------------------------------------------

/// Ghost model of a decoded CTA data block.
pub struct DataBlockModel {
    pub tag: DataBlockTag,
    pub audio: Option<Seq<Sad>>,
    pub video: Option<Seq<Svd>>,
    pub speaker_alloc: Option<SpeakerAllocBlock>,
    pub video_cap: Option<VideoCapBlock>,
    pub colorimetry: Option<ColorimetryBlock>,
    pub hdr_static: Option<HdrStaticMetadataBlock>,
    pub hdr_dynamic: Option<HdrDynamicMetadataBlock>,
    pub ycbcr420: Option<Seq<Svd>>,
    pub ycbcr420_cap_map: Option<Ycbcr420CapMapModel>,
    pub infoframe: Option<InfoframeModel>,
    pub video_format_pref: Option<Seq<Svr>>,
    pub speaker_location: Option<Seq<SpeakerLocationDescriptor>>,
    pub did_type_vii: Option<VIITimingBlock>,
}

/// A decoded CTA data block: a closed tag-checked union.  Exactly the
/// payload matching the tag is present; every tag-mismatched accessor
/// answers `None`.  Kinds whose payload this decoder does not model (the
/// VESA display device and transfer-characteristic blocks, HDMI audio,
/// room configuration, native video resolution, video format, the type
/// VIII and type X timing blocks and the HDMI Forum override and sink
/// capability blocks) are surfaced with their tag alone.
#[derive(Debug, Clone, PartialEq, Eq)]
pub struct DataBlockRef {
    tag: DataBlockTag,
    audio: Option<AudioBlock>,
    video: Option<VideoBlock>,
    speaker_alloc: Option<SpeakerAllocBlock>,
    video_cap: Option<VideoCapBlock>,
    colorimetry: Option<ColorimetryBlock>,
    hdr_static: Option<HdrStaticMetadataBlock>,
    hdr_dynamic: Option<HdrDynamicMetadataBlock>,
    ycbcr420: Option<Ycbcr420VideoBlock>,
    ycbcr420_cap_map: Option<Ycbcr420CapMapBlock>,
    infoframe: Option<InfoframeBlock>,
    video_format_pref: Option<VideoFormatPrefBlock>,
    speaker_location: Option<SpeakerLocationBlock>,
    did_type_vii: Option<VIITimingBlock>,
}

impl DataBlockRef {
    pub closed spec fn model(&self) -> DataBlockModel {
        DataBlockModel {
            tag: self.tag,
            audio: match self.audio {
                Some(ref b) => Some(b.model()),
                None => None,
            },
            video: match self.video {
                Some(ref b) => Some(b.model()),
                None => None,
            },
            speaker_alloc: self.speaker_alloc,
            video_cap: self.video_cap,
            colorimetry: self.colorimetry,
            hdr_static: self.hdr_static,
            hdr_dynamic: self.hdr_dynamic,
            ycbcr420: match self.ycbcr420 {
                Some(ref b) => Some(b.model()),
                None => None,
            },
            ycbcr420_cap_map: match self.ycbcr420_cap_map {
                Some(ref b) => Some(b.model()),
                None => None,
            },
            infoframe: match self.infoframe {
                Some(ref b) => Some(b.model()),
                None => None,
            },
            video_format_pref: match self.video_format_pref {
                Some(ref b) => Some(b.model()),
                None => None,
            },
            speaker_location: match self.speaker_location {
                Some(ref b) => Some(b.model()),
                None => None,
            },
            did_type_vii: self.did_type_vii,
        }
    }

    /// Tag of this data block.
    pub fn tag(&self) -> (r: DataBlockTag)
        ensures
            r == self.model().tag,
    {
        self.tag
    }

    /// The audio block; `None` unless the tag is `Audio`.
    pub fn audio(&self) -> (r: Option<&AudioBlock>)
        ensures
            r is Some <==> self.model().audio is Some,
            r is Some ==> r->0.model() == self.model().audio->0,
    {
        match &self.audio {
            Some(b) => Some(b),
            None => None,
        }
    }

    /// The video block; `None` unless the tag is `Video`.
    pub fn video(&self) -> (r: Option<&VideoBlock>)
        ensures
            r is Some <==> self.model().video is Some,
            r is Some ==> r->0.model() == self.model().video->0,
    {
        match &self.video {
            Some(b) => Some(b),
            None => None,
        }
    }

    /// The speaker allocation; `None` unless the tag is `SpeakerAlloc`.
    pub fn speaker_alloc(&self) -> (r: Option<SpeakerAllocBlock>)
        ensures
            r == self.model().speaker_alloc,
    {
        self.speaker_alloc
    }

    /// The video capabilities; `None` unless the tag is `VideoCap`.
    pub fn video_cap(&self) -> (r: Option<VideoCapBlock>)
        ensures
            r == self.model().video_cap,
    {
        self.video_cap
    }

    /// The colorimetry data; `None` unless the tag is `Colorimetry`.
    pub fn colorimetry(&self) -> (r: Option<ColorimetryBlock>)
        ensures
            r == self.model().colorimetry,
    {
        self.colorimetry
    }

    /// The HDR static metadata; `None` unless the tag is
    /// `HdrStaticMetadata`.
    pub fn hdr_static_metadata(&self) -> (r: Option<HdrStaticMetadataBlock>)
        ensures
            r == self.model().hdr_static,
    {
        self.hdr_static
    }

    /// The HDR dynamic metadata; `None` unless the tag is
    /// `HdrDynamicMetadata`.
    pub fn hdr_dynamic_metadata(&self) -> (r: Option<HdrDynamicMetadataBlock>)
        ensures
            r == self.model().hdr_dynamic,
    {
        self.hdr_dynamic
    }

    /// The 4:2:0-only video block; `None` unless the tag is `Ycbcr420`.
    pub fn ycbcr420_video(&self) -> (r: Option<&Ycbcr420VideoBlock>)
        ensures
            r is Some <==> self.model().ycbcr420 is Some,
            r is Some ==> r->0.model() == self.model().ycbcr420->0,
    {
        match &self.ycbcr420 {
            Some(b) => Some(b),
            None => None,
        }
    }

    /// The 4:2:0 capability map; `None` unless the tag is
    /// `Ycbcr420CapMap`.
    pub fn ycbcr420_cap_map(&self) -> (r: Option<&Ycbcr420CapMapBlock>)
        ensures
            r is Some <==> self.model().ycbcr420_cap_map is Some,
            r is Some ==> r->0.model() == self.model().ycbcr420_cap_map->0,
    {
        match &self.ycbcr420_cap_map {
            Some(b) => Some(b),
            None => None,
        }
    }

    /// The InfoFrame information; `None` unless the tag is `Infoframe`.
    pub fn infoframe(&self) -> (r: Option<&InfoframeBlock>)
        ensures
            r is Some <==> self.model().infoframe is Some,
            r is Some ==> r->0.model() == self.model().infoframe->0,
    {
        match &self.infoframe {
            Some(b) => Some(b),
            None => None,
        }
    }

    /// The video format preferences; `None` unless the tag is
    /// `VideoFormatPref`.
    pub fn video_format_pref(&self) -> (r: Option<&VideoFormatPrefBlock>)
        ensures
            r is Some <==> self.model().video_format_pref is Some,
            r is Some ==> r->0.model() == self.model().video_format_pref->0,
    {
        match &self.video_format_pref {
            Some(b) => Some(b),
            None => None,
        }
    }

    /// The speaker locations; `None` unless the tag is `SpeakerLocation`.
    pub fn speaker_locations(&self) -> (r: Option<&SpeakerLocationBlock>)
        ensures
            r is Some <==> self.model().speaker_location is Some,
            r is Some ==> r->0.model() == self.model().speaker_location->0,
    {
        match &self.speaker_location {
            Some(b) => Some(b),
            None => None,
        }
    }

    /// The DisplayID type VII video timing; `None` unless the tag is
    /// `DisplayidVideoTimingVii`.
    pub fn did_type_vii_timing(&self) -> (r: Option<VIITimingBlock>)
        ensures
            r == self.model().did_type_vii,
    {
        self.did_type_vii
    }
}

/// DisplayID type VII video timing data block, defined in section
/// 7.5.17.1: a block revision byte followed by one 20-byte DisplayID
/// timing.
#[derive(Debug, Clone, Copy, PartialEq, Eq)]
pub struct VIITimingBlock {
    pub timing: Option<crate::displayid::TypeIIIVIITiming>,
}

pub open spec fn spec_empty_block_model(tag: DataBlockTag) -> DataBlockModel {
    DataBlockModel {
        tag,
        audio: None,
        video: None,
        speaker_alloc: None,
        video_cap: None,
        colorimetry: None,
        hdr_static: None,
        hdr_dynamic: None,
        ycbcr420: None,
        ycbcr420_cap_map: None,
        infoframe: None,
        video_format_pref: None,
        speaker_location: None,
        did_type_vii: None,
    }
}

/// The SADs from `p` on, three bytes each.
pub open spec fn spec_sads(d: Seq<u8>, p: int, end: int) -> Seq<Sad>
    recommends
        0 <= p,
        end <= d.len(),
    decreases end - p,
{
    if p + 3 > end {
        Seq::empty()
    } else {
        let rest = spec_sads(d, p + 3, end);
        match spec_sad(d[p], d[p + 1], d[p + 2]) {
            Some(sad) => seq![sad] + rest,
            None => rest,
        }
    }
}

pub(crate) fn decode_sads(d: &[u8], p: usize, end: usize) -> (r: Vec<Sad>)
    requires
        p <= end <= d@.len(),
    ensures
        r@ == spec_sads(d@, p as int, end as int),
{
    let _n: usize = d.len();
    let mut out: Vec<Sad> = Vec::new();
    let mut q: usize = p;
    while q < end && end - q >= 3
        invariant
            p <= q <= end <= d@.len(),
            d@.len() <= usize::MAX,
            spec_sads(d@, p as int, end as int) == out@ + spec_sads(d@, q as int, end as int),
        decreases end - q,
    {
        match decode_sad(d[q], d[q + 1], d[q + 2]) {
            Some(sad) => {
                out.push(sad);
            },
            None => {},
        }
        q = q + 3;
    }
    proof {
        assert(spec_sads(d@, q as int, end as int) =~= Seq::<Sad>::empty());
        assert(out@ + Seq::<Sad>::empty() =~= out@);
    }
    out
}

/// Decode the data block whose header byte sits at `p`.  The caller
/// guarantees that the whole block lies inside the buffer.
pub open spec fn spec_cta_data_block(d: Seq<u8>, p: int) -> Option<DataBlockModel>
    recommends
        0 <= p,
        p + 1 + (d[p] % 32) <= d.len(),
{
    let tag = d[p] / 32;
    let len = (d[p] % 32) as int;
    let body = p + 1;
    let end = p + 1 + len;
    if tag == 1 {
        Some(
            DataBlockModel { audio: Some(spec_sads(d, body, end)), ..spec_empty_block_model(
                DataBlockTag::Audio,
            ) },
        )
    } else if tag == 2 {
        Some(
            DataBlockModel { video: Some(spec_svds(d, body, end)), ..spec_empty_block_model(
                DataBlockTag::Video,
            ) },
        )
    } else if tag == 4 {
        if len >= 3 {
            Some(
                DataBlockModel {
                    speaker_alloc: Some(
                        SpeakerAllocBlock {
                            speakers: spec_speaker_allocation(d[body], d[body + 1], d[body + 2]),
                        },
                    ),
                    ..spec_empty_block_model(DataBlockTag::SpeakerAlloc)
                },
            )
        } else {
            None
        }
    } else if tag == 5 {
        Some(spec_empty_block_model(DataBlockTag::VesaDisplayTransferCharacteristic))
    } else if tag == 6 {
        Some(spec_empty_block_model(DataBlockTag::VideoFormat))
    } else if tag == 7 && len >= 1 {
        let etag = d[body];
        let ebody = body + 1;
        if etag == 0 && len >= 2 {
            Some(
                DataBlockModel { video_cap: Some(spec_video_cap(d[ebody])), ..spec_empty_block_model(
                    DataBlockTag::VideoCap,
                ) },
            )
        } else if etag == 2 {
            Some(spec_empty_block_model(DataBlockTag::VesaDisplayDevice))
        } else if etag == 5 && len >= 3 {
            Some(
                DataBlockModel {
                    colorimetry: Some(spec_colorimetry(d[ebody], d[ebody + 1])),
                    ..spec_empty_block_model(DataBlockTag::Colorimetry)
                },
            )
        } else if etag == 6 && len >= 3 {
            Some(
                DataBlockModel {
                    hdr_static: Some(spec_hdr_static(d, ebody, end)),
                    ..spec_empty_block_model(DataBlockTag::HdrStaticMetadata)
                },
            )
        } else if etag == 7 {
            Some(
                DataBlockModel {
                    hdr_dynamic: Some(spec_hdr_dynamic(d, ebody, end)),
                    ..spec_empty_block_model(DataBlockTag::HdrDynamicMetadata)
                },
            )
        } else if etag == 13 {
            Some(
                DataBlockModel {
                    video_format_pref: Some(spec_svrs(d, ebody, end)),
                    ..spec_empty_block_model(DataBlockTag::VideoFormatPref)
                },
            )
        } else if etag == 14 {
            Some(
                DataBlockModel { ycbcr420: Some(spec_svds(d, ebody, end)), ..spec_empty_block_model(
                    DataBlockTag::Ycbcr420,
                ) },
            )
        } else if etag == 15 {
            Some(
                DataBlockModel {
                    ycbcr420_cap_map: Some(
                        Ycbcr420CapMapModel {
                            all: end - ebody == 0,
                            bitmap: spec_byte_run(d, ebody, end),
                        },
                    ),
                    ..spec_empty_block_model(DataBlockTag::Ycbcr420CapMap)
                },
            )
        } else if etag == 20 {
            Some(
                DataBlockModel {
                    speaker_location: Some(spec_speaker_locations(d, ebody, end)),
                    ..spec_empty_block_model(DataBlockTag::SpeakerLocation)
                },
            )
        } else if etag == 32 {
            match spec_infoframe_block(d, ebody, end) {
                Some(m) => Some(
                    DataBlockModel { infoframe: Some(m), ..spec_empty_block_model(
                        DataBlockTag::Infoframe,
                    ) },
                ),
                None => None,
            }
        } else if etag == 34 && len >= 22 {
            Some(
                DataBlockModel {
                    did_type_vii: Some(
                        VIITimingBlock {
                            timing: Some(crate::displayid::spec_type_i_timing(d, ebody + 1)),
                        },
                    ),
                    ..spec_empty_block_model(DataBlockTag::DisplayidVideoTimingVii)
                },
            )
        } else if etag == 8 {
            Some(spec_empty_block_model(DataBlockTag::NativeVideoResolution))
        } else if etag == 18 {
            Some(spec_empty_block_model(DataBlockTag::HdmiAudio))
        } else if etag == 19 {
            Some(spec_empty_block_model(DataBlockTag::RoomConfig))
        } else if etag == 35 {
            Some(spec_empty_block_model(DataBlockTag::DisplayidVideoTimingViii))
        } else if etag == 42 {
            Some(spec_empty_block_model(DataBlockTag::DisplayidVideoTimingX))
        } else if etag == 120 {
            Some(spec_empty_block_model(DataBlockTag::HdmiEdidExtOverride))
        } else if etag == 121 {
            Some(spec_empty_block_model(DataBlockTag::HdmiSinkCap))
        } else {
            None
        }
    } else {
        None
    }
}

fn empty_block(tag: DataBlockTag) -> (r: DataBlockRef)
    ensures
        r.model() == spec_empty_block_model(tag),
{
    DataBlockRef {
        tag,
        audio: None,
        video: None,
        speaker_alloc: None,
        video_cap: None,
        colorimetry: None,
        hdr_static: None,
        hdr_dynamic: None,
        ycbcr420: None,
        ycbcr420_cap_map: None,
        infoframe: None,
        video_format_pref: None,
        speaker_location: None,
        did_type_vii: None,
    }
}

fn decode_cta_data_block(d: &[u8], p: usize) -> (r: Option<DataBlockRef>)
    requires
        p < d@.len(),
        p + 1 + (d@[p as int] % 32) <= d@.len(),
    ensures
        r is Some <==> spec_cta_data_block(d@, p as int) is Some,
        r is Some ==> r->0.model() == spec_cta_data_block(d@, p as int)->0,
{
    let _n: usize = d.len();
    let tag = d[p] / 32;
    let len = (d[p] % 32) as usize;
    let body = p + 1;
    let end = p + 1 + len;
    if tag == 1 {
        let mut b = empty_block(DataBlockTag::Audio);
        b.audio = Some(AudioBlock { sads: decode_sads(d, body, end) });
        Some(b)
    } else if tag == 2 {
        let mut b = empty_block(DataBlockTag::Video);
        b.video = Some(VideoBlock { svds: decode_svds(d, body, end) });
        Some(b)
    } else if tag == 4 {
        if len >= 3 {
            let mut b = empty_block(DataBlockTag::SpeakerAlloc);
            b.speaker_alloc = Some(
                SpeakerAllocBlock {
                    speakers: decode_speaker_allocation(d[body], d[body + 1], d[body + 2]),
                },
            );
            Some(b)
        } else {
            None
        }
    } else if tag == 5 {
        Some(empty_block(DataBlockTag::VesaDisplayTransferCharacteristic))
    } else if tag == 6 {
        Some(empty_block(DataBlockTag::VideoFormat))
    } else if tag == 7 && len >= 1 {
        let etag = d[body];
        let ebody = body + 1;
        if etag == 0 && len >= 2 {
            let mut b = empty_block(DataBlockTag::VideoCap);
            b.video_cap = Some(decode_video_cap(d[ebody]));
            Some(b)
        } else if etag == 2 {
            Some(empty_block(DataBlockTag::VesaDisplayDevice))
        } else if etag == 5 && len >= 3 {
            let mut b = empty_block(DataBlockTag::Colorimetry);
            b.colorimetry = Some(decode_colorimetry(d[ebody], d[ebody + 1]));
            Some(b)
        } else if etag == 6 && len >= 3 {
            let mut b = empty_block(DataBlockTag::HdrStaticMetadata);
            b.hdr_static = Some(decode_hdr_static(d, ebody, end));
            Some(b)
        } else if etag == 7 {
            let mut b = empty_block(DataBlockTag::HdrDynamicMetadata);
            b.hdr_dynamic = Some(decode_hdr_dynamic(d, ebody, end));
            Some(b)
        } else if etag == 13 {
            let mut b = empty_block(DataBlockTag::VideoFormatPref);
            b.video_format_pref = Some(VideoFormatPrefBlock { svrs: decode_svrs(d, ebody, end) });
            Some(b)
        } else if etag == 14 {
            let mut b = empty_block(DataBlockTag::Ycbcr420);
            b.ycbcr420 = Some(Ycbcr420VideoBlock { svds: decode_svds(d, ebody, end) });
            Some(b)
        } else if etag == 15 {
            let mut b = empty_block(DataBlockTag::Ycbcr420CapMap);
            b.ycbcr420_cap_map = Some(Ycbcr420CapMapBlock { bitmap: copy_bytes(d, ebody, end) });
            Some(b)
        } else if etag == 20 {
            let mut b = empty_block(DataBlockTag::SpeakerLocation);
            b.speaker_location = Some(
                SpeakerLocationBlock { locations: decode_speaker_locations(d, ebody, end) },
            );
            Some(b)
        } else if etag == 32 {
            match decode_infoframe_block(d, ebody, end) {
                Some(ib) => {
                    let mut b = empty_block(DataBlockTag::Infoframe);
                    b.infoframe = Some(ib);
                    Some(b)
                },
                None => None,
            }
        } else if etag == 34 && len >= 22 {
            let mut b = empty_block(DataBlockTag::DisplayidVideoTimingVii);
            b.did_type_vii = Some(
                VIITimingBlock {
                    timing: Some(crate::displayid::decode_type_i_timing(d, ebody + 1)),
                },
            );
            Some(b)
        } else if etag == 8 {
            Some(empty_block(DataBlockTag::NativeVideoResolution))
        } else if etag == 18 {
            Some(empty_block(DataBlockTag::HdmiAudio))
        } else if etag == 19 {
            Some(empty_block(DataBlockTag::RoomConfig))
        } else if etag == 35 {
            Some(empty_block(DataBlockTag::DisplayidVideoTimingViii))
        } else if etag == 42 {
            Some(empty_block(DataBlockTag::DisplayidVideoTimingX))
        } else if etag == 120 {
            Some(empty_block(DataBlockTag::HdmiEdidExtOverride))
        } else if etag == 121 {
            Some(empty_block(DataBlockTag::HdmiSinkCap))
        } else {
            None
        }
    } else {
        None
    }
}

} // verus!

verus! {

// ---------------------------------------------------------------------------
// The CTA extension block: header, data block walk and trailing detailed
// timings.
// ---------------------------------------------------------------------------

/// The recognized data blocks between `p` and `end`, in order; a block
/// whose declared length runs past `end` ends the walk.
pub open spec fn spec_cta_blocks(d: Seq<u8>, p: int, end: int) -> Seq<DataBlockModel>
    recommends
        0 <= p,
        end <= d.len(),
    decreases end - p,
{
    if p >= end {
        Seq::empty()
    } else {
        let len = (d[p] % 32) as int;
        if p + 1 + len > end {
            Seq::empty()
        } else {
            let rest = spec_cta_blocks(d, p + 1 + len, end);
            match spec_cta_data_block(d, p) {
                Some(m) => seq![m] + rest,
                None => rest,
            }
        }
    }
}

pub open spec fn spec_block_models(s: Seq<DataBlockRef>) -> Seq<DataBlockModel> {
    s.map_values(|b: DataBlockRef| b.model())
}

fn decode_cta_blocks(d: &[u8], p: usize, end: usize) -> (r: Vec<DataBlockRef>)
    requires
        p <= end <= d@.len(),
    ensures
        spec_block_models(r@) == spec_cta_blocks(d@, p as int, end as int),
{
    let _n: usize = d.len();
    let mut out: Vec<DataBlockRef> = Vec::new();
    let mut q: usize = p;
    let mut stop = false;
    proof {
        assert(spec_block_models(out@) =~= Seq::<DataBlockModel>::empty());
    }
    while !stop && q < end
        invariant
            p <= q <= end <= d@.len(),
            d@.len() <= usize::MAX,
            !stop ==> spec_cta_blocks(d@, p as int, end as int) == spec_block_models(out@)
                + spec_cta_blocks(d@, q as int, end as int),
            stop ==> spec_block_models(out@) == spec_cta_blocks(d@, p as int, end as int),
        decreases end - q, !stop as int,
    {
        let len = (d[q] % 32) as usize;
        if len + 1 > end - q {
            proof {
                assert(spec_cta_blocks(d@, q as int, end as int) =~= Seq::<
                    DataBlockModel,
                >::empty());
                assert(spec_block_models(out@) + Seq::<DataBlockModel>::empty() =~= spec_block_models(
                    out@,
                ));
            }
            stop = true;
        } else {
            match decode_cta_data_block(d, q) {
                Some(b) => {
                    proof {
                        assert(spec_block_models(out@.push(b)) =~= spec_block_models(out@).push(
                            b.model(),
                        ));
                    }
                    out.push(b);
                },
                None => {},
            }
            q = q + 1 + len;
        }
    }
    proof {
        if !stop {
            assert(spec_cta_blocks(d@, q as int, end as int) =~= Seq::<DataBlockModel>::empty());
            assert(spec_block_models(out@) + Seq::<DataBlockModel>::empty() =~= spec_block_models(
                out@,
            ));
        }
    }
    out
}

/// The detailed timing definitions from `p` up to `limit`: consecutive
/// 18-byte records until a zero pixel clock or the end of the block.
pub open spec fn spec_cta_dtds(d: Seq<u8>, p: int, limit: int) -> Seq<DetailedTimingDef>
    recommends
        0 <= p,
        limit <= d.len(),
    decreases limit - p,
{
    if p + 18 > limit {
        Seq::empty()
    } else if spec_le16(d[p], d[p + 1]) == 0 {
        Seq::empty()
    } else {
        seq![crate::edid::spec_detailed_timing(d, p)] + spec_cta_dtds(d, p + 18, limit)
    }
}

fn decode_cta_dtds(d: &[u8], p: usize, limit: usize) -> (r: Vec<DetailedTimingDef>)
    requires
        p <= limit <= d@.len(),
    ensures
        r@ == spec_cta_dtds(d@, p as int, limit as int),
{
    let _n: usize = d.len();
    let mut out: Vec<DetailedTimingDef> = Vec::new();
    let mut q: usize = p;
    let mut stop = false;
    while !stop && q < limit && limit - q >= 18
        invariant
            p <= q,
            q <= limit <= d@.len(),
            d@.len() <= usize::MAX,
            !stop ==> spec_cta_dtds(d@, p as int, limit as int) == out@ + spec_cta_dtds(
                d@,
                q as int,
                limit as int,
            ),
            stop ==> out@ == spec_cta_dtds(d@, p as int, limit as int),
        decreases limit - q, !stop as int,
    {
        if crate::bytes::le16(d[q], d[q + 1]) == 0 {
            proof {
                assert(out@ + Seq::<DetailedTimingDef>::empty() =~= out@);
            }
            stop = true;
        } else {
            out.push(crate::edid::decode_detailed_timing(d, q));
            q = q + 18;
        }
    }
    proof {
        if !stop {
            assert(out@ + Seq::<DetailedTimingDef>::empty() =~= out@);
        }
    }
    out
}

/// Ghost model of a decoded CTA extension block.
pub struct CtaModel {
    pub revision: u8,
    pub flags: Flags,
    pub data_blocks: Seq<DataBlockModel>,
    pub dtds: Seq<DetailedTimingDef>,
}

/// A decoded EDID CTA-861 extension block.
#[derive(Debug, Clone, PartialEq, Eq)]
pub struct CTA {
    pub(crate) revision: u8,
    pub(crate) flags: Flags,
    pub(crate) data_blocks: Vec<DataBlockRef>,
    pub(crate) dtds: Vec<DetailedTimingDef>,
}

impl CTA {
    pub closed spec fn model(&self) -> CtaModel {
        CtaModel {
            revision: self.revision,
            flags: self.flags,
            data_blocks: spec_block_models(self.data_blocks@),
            dtds: self.dtds@,
        }
    }

    /// Get a CTA-861 extension block.
    ///
    /// Returns `None` if the extension block tag is not
    /// [`CEA`](crate::edid::ExtensionTag::CEA).
    pub fn from_extension(ext: &crate::edid::ExtensionRef) -> (r: Option<&CTA>)
        ensures
            r is Some <==> ext.model().cta is Some,
            r is Some ==> r->0.model() == ext.model().cta->0,
    {
        ext.cta_contents()
    }

    /// The CTA extension revision (the specification calls it a version).
    pub fn revision(&self) -> (r: i32)
        ensures
            r == self.model().revision as i32,
    {
        self.revision as i32
    }

    /// Miscellaneous CTA flags; all zero for revision 1.
    pub fn flags(&self) -> (r: Flags)
        ensures
            r == self.model().flags,
    {
        self.flags
    }

    /// The recognized data blocks, in order of appearance.
    pub fn data_blocks(&self) -> (r: &Vec<DataBlockRef>)
        ensures
            r@.len() == self.model().data_blocks.len(),
            forall|i: int|
                0 <= i < r@.len() ==> #[trigger] r@[i].model() == self.model().data_blocks[i],
    {
        proof {
            assert(forall|i: int|
                0 <= i < self.data_blocks@.len() ==> #[trigger] self.data_blocks@[i].model()
                    == spec_block_models(self.data_blocks@)[i]);
        }
        &self.data_blocks
    }

    /// The detailed timing definitions that follow the data blocks.
    pub fn detailed_timing_defs(&self) -> (r: &Vec<DetailedTimingDef>)
        ensures
            r@ == self.model().dtds,
    {
        &self.dtds
    }
}

/// The decoded model of the CTA extension block at `off` (the tag byte).
pub open spec fn spec_cta(d: Seq<u8>, off: int) -> CtaModel
    recommends
        0 <= off,
        off + 128 <= d.len(),
{
    let revision = d[off + 1];
    let dd = d[off + 2] as int;
    CtaModel {
        revision,
        flags: if revision >= 2 {
            Flags {
                it_underscan: spec_bit(d[off + 3], 7),
                basic_audio: spec_bit(d[off + 3], 6),
                ycc444: spec_bit(d[off + 3], 5),
                ycc422: spec_bit(d[off + 3], 4),
                native_dtds: (d[off + 3] % 16) as i32,
            }
        } else {
            Flags {
                it_underscan: false,
                basic_audio: false,
                ycc444: false,
                ycc422: false,
                native_dtds: 0,
            }
        },
        data_blocks: if 4 <= dd && dd <= 127 {
            spec_cta_blocks(d, off + 4, off + dd)
        } else {
            Seq::empty()
        },
        dtds: if 4 <= dd && dd <= 127 {
            spec_cta_dtds(d, off + dd, off + 127)
        } else {
            Seq::empty()
        },
    }
}

pub(crate) fn decode_cta(d: &[u8], off: usize) -> (r: CTA)
    requires
        off + 128 <= d@.len(),
    ensures
        r.model() == spec_cta(d@, off as int),
{
    let _n: usize = d.len();
    let revision = d[off + 1];
    let dd = d[off + 2] as usize;
    let flags = if revision >= 2 {
        Flags {
            it_underscan: bit(d[off + 3], 7),
            basic_audio: bit(d[off + 3], 6),
            ycc444: bit(d[off + 3], 5),
            ycc422: bit(d[off + 3], 4),
            native_dtds: (d[off + 3] % 16) as i32,
        }
    } else {
        Flags {
            it_underscan: false,
            basic_audio: false,
            ycc444: false,
            ycc422: false,
            native_dtds: 0,
        }
    };
    let (data_blocks, dtds): (Vec<DataBlockRef>, Vec<DetailedTimingDef>) = if 4 <= dd && dd <= 127 {
        (decode_cta_blocks(d, off + 4, off + dd), decode_cta_dtds(d, off + dd, off + 127))
    } else {
        (Vec::new(), Vec::new())
    };
    let r = CTA { revision, flags, data_blocks, dtds };
    proof {
        if !(4 <= dd && dd <= 127) {
            assert(spec_block_models(r.data_blocks@) =~= Seq::<DataBlockModel>::empty());
        }
    }
    r
}

} // verus!

verus! {

// ---------------------------------------------------------------------------
// Video format lookup by VIC (ANSI/CTA-861-H table 1).
// ---------------------------------------------------------------------------

pub open spec fn spec_mk_video_format(
    vic: u8,
    h_active: i32,
    v_active: i32,
    h_front: i32,
    h_sync: i32,
    h_back: i32,
    v_front: i32,
    v_sync: i32,
    v_back: i32,
    h_positive: bool,
    v_positive: bool,
    pixel_clock_hz: i64,
    interlaced: bool,
    aspect: VideoFormatPictureAspectRatio,
) -> VideoFormat {
    VideoFormat {
        vic,
        h_active,
        v_active,
        h_front,
        v_front,
        h_sync,
        v_sync,
        h_back,
        v_back,
        h_sync_polarity: if h_positive {
            VideoFormatSyncPolarity::Positive
        } else {
            VideoFormatSyncPolarity::Negative
        },
        v_sync_polarity: if v_positive {
            VideoFormatSyncPolarity::Positive
        } else {
            VideoFormatSyncPolarity::Negative
        },
        pixel_clock_hz,
        interlaced,
        picture_aspect_ratio: aspect,
    }
}

fn mk_video_format(
    vic: u8,
    h_active: i32,
    v_active: i32,
    h_front: i32,
    h_sync: i32,
    h_back: i32,
    v_front: i32,
    v_sync: i32,
    v_back: i32,
    h_positive: bool,
    v_positive: bool,
    pixel_clock_hz: i64,
    interlaced: bool,
    aspect: VideoFormatPictureAspectRatio,
) -> (r: VideoFormat)
    ensures
        r == spec_mk_video_format(
            vic,
            h_active,
            v_active,
            h_front,
            h_sync,
            h_back,
            v_front,
            v_sync,
            v_back,
            h_positive,
            v_positive,
            pixel_clock_hz,
            interlaced,
            aspect,
        ),
{
    VideoFormat {
        vic,
        h_active,
        v_active,
        h_front,
        v_front,
        h_sync,
        v_sync,
        h_back,
        v_back,
        h_sync_polarity: if h_positive {
            VideoFormatSyncPolarity::Positive
        } else {
            VideoFormatSyncPolarity::Negative
        },
        v_sync_polarity: if v_positive {
            VideoFormatSyncPolarity::Positive
        } else {
            VideoFormatSyncPolarity::Negative
        },
        pixel_clock_hz,
        interlaced,
        picture_aspect_ratio: aspect,
    }
}

/// The CTA-861 video formats with video identification codes 1 to 64.
pub open spec fn spec_video_format_low(vic: u8) -> Option<VideoFormat> {
    if vic == 1 {
        Some(spec_mk_video_format(1, 640, 480, 16, 96, 48, 10, 2, 33, false, false, 25175000, false, VideoFormatPictureAspectRatio::_4_3))
    } else if vic == 2 {
        Some(spec_mk_video_format(2, 720, 480, 16, 62, 60, 9, 6, 30, false, false, 27000000, false, VideoFormatPictureAspectRatio::_4_3))
    } else if vic == 3 {
        Some(spec_mk_video_format(3, 720, 480, 16, 62, 60, 9, 6, 30, false, false, 27000000, false, VideoFormatPictureAspectRatio::_16_9))
    } else if vic == 4 {
        Some(spec_mk_video_format(4, 1280, 720, 110, 40, 220, 5, 5, 20, true, true, 74250000, false, VideoFormatPictureAspectRatio::_16_9))
    } else if vic == 5 {
        Some(spec_mk_video_format(5, 1920, 540, 88, 44, 148, 2, 5, 15, true, true, 74250000, true, VideoFormatPictureAspectRatio::_16_9))
    } else if vic == 6 {
        Some(spec_mk_video_format(6, 1440, 240, 38, 124, 114, 4, 3, 15, false, false, 27000000, true, VideoFormatPictureAspectRatio::_4_3))
    } else if vic == 7 {
        Some(spec_mk_video_format(7, 1440, 240, 38, 124, 114, 4, 3, 15, false, false, 27000000, true, VideoFormatPictureAspectRatio::_16_9))
    } else if vic == 8 {
        Some(spec_mk_video_format(8, 1440, 240, 38, 124, 114, 4, 3, 15, false, false, 27000000, false, VideoFormatPictureAspectRatio::_4_3))
    } else if vic == 9 {
        Some(spec_mk_video_format(9, 1440, 240, 38, 124, 114, 4, 3, 15, false, false, 27000000, false, VideoFormatPictureAspectRatio::_16_9))
    } else if vic == 10 {
        Some(spec_mk_video_format(10, 2880, 240, 76, 248, 228, 4, 3, 15, false, false, 54000000, true, VideoFormatPictureAspectRatio::_4_3))
    } else if vic == 11 {
        Some(spec_mk_video_format(11, 2880, 240, 76, 248, 228, 4, 3, 15, false, false, 54000000, true, VideoFormatPictureAspectRatio::_16_9))
    } else if vic == 12 {
        Some(spec_mk_video_format(12, 2880, 240, 76, 248, 228, 4, 3, 15, false, false, 54000000, false, VideoFormatPictureAspectRatio::_4_3))
    } else if vic == 13 {
        Some(spec_mk_video_format(13, 2880, 240, 76, 248, 228, 4, 3, 15, false, false, 54000000, false, VideoFormatPictureAspectRatio::_16_9))
    } else if vic == 14 {
        Some(spec_mk_video_format(14, 1440, 480, 32, 124, 120, 9, 6, 30, false, false, 54000000, false, VideoFormatPictureAspectRatio::_4_3))
    } else if vic == 15 {
        Some(spec_mk_video_format(15, 1440, 480, 32, 124, 120, 9, 6, 30, false, false, 54000000, false, VideoFormatPictureAspectRatio::_16_9))
    } else if vic == 16 {
        Some(spec_mk_video_format(16, 1920, 1080, 88, 44, 148, 4, 5, 36, true, true, 148500000, false, VideoFormatPictureAspectRatio::_16_9))
    } else if vic == 17 {
        Some(spec_mk_video_format(17, 720, 576, 12, 64, 68, 5, 5, 39, false, false, 27000000, false, VideoFormatPictureAspectRatio::_4_3))
    } else if vic == 18 {
        Some(spec_mk_video_format(18, 720, 576, 12, 64, 68, 5, 5, 39, false, false, 27000000, false, VideoFormatPictureAspectRatio::_16_9))
    } else if vic == 19 {
        Some(spec_mk_video_format(19, 1280, 720, 440, 40, 220, 5, 5, 20, true, true, 74250000, false, VideoFormatPictureAspectRatio::_16_9))
    } else if vic == 20 {
        Some(spec_mk_video_format(20, 1920, 540, 528, 44, 148, 2, 5, 15, true, true, 74250000, true, VideoFormatPictureAspectRatio::_16_9))
    } else if vic == 21 {
        Some(spec_mk_video_format(21, 1440, 288, 24, 126, 138, 2, 3, 19, false, false, 27000000, true, VideoFormatPictureAspectRatio::_4_3))
    } else if vic == 22 {
        Some(spec_mk_video_format(22, 1440, 288, 24, 126, 138, 2, 3, 19, false, false, 27000000, true, VideoFormatPictureAspectRatio::_16_9))
    } else if vic == 23 {
        Some(spec_mk_video_format(23, 1440, 288, 24, 126, 138, 2, 3, 19, false, false, 27000000, false, VideoFormatPictureAspectRatio::_4_3))
    } else if vic == 24 {
        Some(spec_mk_video_format(24, 1440, 288, 24, 126, 138, 2, 3, 19, false, false, 27000000, false, VideoFormatPictureAspectRatio::_16_9))
    } else if vic == 25 {
        Some(spec_mk_video_format(25, 2880, 288, 48, 252, 276, 2, 3, 19, false, false, 54000000, true, VideoFormatPictureAspectRatio::_4_3))
    } else if vic == 26 {
        Some(spec_mk_video_format(26, 2880, 288, 48, 252, 276, 2, 3, 19, false, false, 54000000, true, VideoFormatPictureAspectRatio::_16_9))
    } else if vic == 27 {
        Some(spec_mk_video_format(27, 2880, 288, 48, 252, 276, 2, 3, 19, false, false, 54000000, false, VideoFormatPictureAspectRatio::_4_3))
    } else if vic == 28 {
        Some(spec_mk_video_format(28, 2880, 288, 48, 252, 276, 2, 3, 19, false, false, 54000000, false, VideoFormatPictureAspectRatio::_16_9))
    } else if vic == 29 {
        Some(spec_mk_video_format(29, 1440, 576, 16, 128, 136, 5, 5, 39, false, false, 54000000, false, VideoFormatPictureAspectRatio::_4_3))
    } else if vic == 30 {
        Some(spec_mk_video_format(30, 1440, 576, 16, 128, 136, 5, 5, 39, false, false, 54000000, false, VideoFormatPictureAspectRatio::_16_9))
    } else if vic == 31 {
        Some(spec_mk_video_format(31, 1920, 1080, 528, 44, 148, 4, 5, 36, true, true, 148500000, false, VideoFormatPictureAspectRatio::_16_9))
    } else if vic == 32 {
        Some(spec_mk_video_format(32, 1920, 1080, 638, 44, 148, 4, 5, 36, true, true, 74250000, false, VideoFormatPictureAspectRatio::_16_9))
    } else if vic == 33 {
        Some(spec_mk_video_format(33, 1920, 1080, 528, 44, 148, 4, 5, 36, true, true, 74250000, false, VideoFormatPictureAspectRatio::_16_9))
    } else if vic == 34 {
        Some(spec_mk_video_format(34, 1920, 1080, 88, 44, 148, 4, 5, 36, true, true, 74250000, false, VideoFormatPictureAspectRatio::_16_9))
    } else if vic == 35 {
        Some(spec_mk_video_format(35, 2880, 480, 64, 248, 240, 9, 6, 30, false, false, 108000000, false, VideoFormatPictureAspectRatio::_4_3))
    } else if vic == 36 {
        Some(spec_mk_video_format(36, 2880, 480, 64, 248, 240, 9, 6, 30, false, false, 108000000, false, VideoFormatPictureAspectRatio::_16_9))
    } else if vic == 37 {
        Some(spec_mk_video_format(37, 2880, 576, 32, 256, 272, 5, 5, 39, false, false, 108000000, false, VideoFormatPictureAspectRatio::_4_3))
    } else if vic == 38 {
        Some(spec_mk_video_format(38, 2880, 576, 32, 256, 272, 5, 5, 39, false, false, 108000000, false, VideoFormatPictureAspectRatio::_16_9))
    } else if vic == 39 {
        Some(spec_mk_video_format(39, 1920, 540, 32, 168, 184, 23, 5, 57, true, false, 72000000, true, VideoFormatPictureAspectRatio::_16_9))
    } else if vic == 40 {
        Some(spec_mk_video_format(40, 1920, 540, 528, 44, 148, 2, 5, 15, true, true, 148500000, true, VideoFormatPictureAspectRatio::_16_9))
    } else if vic == 41 {
        Some(spec_mk_video_format(41, 1280, 720, 440, 40, 220, 5, 5, 20, true, true, 148500000, false, VideoFormatPictureAspectRatio::_16_9))
    } else if vic == 42 {
        Some(spec_mk_video_format(42, 720, 576, 12, 64, 68, 5, 5, 39, false, false, 54000000, false, VideoFormatPictureAspectRatio::_4_3))
    } else if vic == 43 {
        Some(spec_mk_video_format(43, 720, 576, 12, 64, 68, 5, 5, 39, false, false, 54000000, false, VideoFormatPictureAspectRatio::_16_9))
    } else if vic == 44 {
        Some(spec_mk_video_format(44, 1440, 288, 24, 126, 138, 2, 3, 19, false, false, 54000000, true, VideoFormatPictureAspectRatio::_4_3))
    } else if vic == 45 {
        Some(spec_mk_video_format(45, 1440, 288, 24, 126, 138, 2, 3, 19, false, false, 54000000, true, VideoFormatPictureAspectRatio::_16_9))
    } else if vic == 46 {
        Some(spec_mk_video_format(46, 1920, 540, 88, 44, 148, 2, 5, 15, true, true, 148500000, true, VideoFormatPictureAspectRatio::_16_9))
    } else if vic == 47 {
        Some(spec_mk_video_format(47, 1280, 720, 110, 40, 220, 5, 5, 20, true, true, 148500000, false, VideoFormatPictureAspectRatio::_16_9))
    } else if vic == 48 {
        Some(spec_mk_video_format(48, 720, 480, 16, 62, 60, 9, 6, 30, false, false, 54000000, false, VideoFormatPictureAspectRatio::_4_3))
    } else if vic == 49 {
        Some(spec_mk_video_format(49, 720, 480, 16, 62, 60, 9, 6, 30, false, false, 54000000, false, VideoFormatPictureAspectRatio::_16_9))
    } else if vic == 50 {
        Some(spec_mk_video_format(50, 1440, 240, 38, 124, 114, 4, 3, 15, false, false, 54000000, true, VideoFormatPictureAspectRatio::_4_3))
    } else if vic == 51 {
        Some(spec_mk_video_format(51, 1440, 240, 38, 124, 114, 4, 3, 15, false, false, 54000000, true, VideoFormatPictureAspectRatio::_16_9))
    } else if vic == 52 {
        Some(spec_mk_video_format(52, 720, 576, 12, 64, 68, 5, 5, 39, false, false, 108000000, false, VideoFormatPictureAspectRatio::_4_3))
    } else if vic == 53 {
        Some(spec_mk_video_format(53, 720, 576, 12, 64, 68, 5, 5, 39, false, false, 108000000, false, VideoFormatPictureAspectRatio::_16_9))
    } else if vic == 54 {
        Some(spec_mk_video_format(54, 1440, 288, 24, 126, 138, 2, 3, 19, false, false, 108000000, true, VideoFormatPictureAspectRatio::_4_3))
    } else if vic == 55 {
        Some(spec_mk_video_format(55, 1440, 288, 24, 126, 138, 2, 3, 19, false, false, 108000000, true, VideoFormatPictureAspectRatio::_16_9))
    } else if vic == 56 {
        Some(spec_mk_video_format(56, 720, 480, 16, 62, 60, 9, 6, 30, false, false, 108000000, false, VideoFormatPictureAspectRatio::_4_3))
    } else if vic == 57 {
        Some(spec_mk_video_format(57, 720, 480, 16, 62, 60, 9, 6, 30, false, false, 108000000, false, VideoFormatPictureAspectRatio::_16_9))
    } else if vic == 58 {
        Some(spec_mk_video_format(58, 1440, 240, 38, 124, 114, 4, 3, 15, false, false, 108000000, true, VideoFormatPictureAspectRatio::_4_3))
    } else if vic == 59 {
        Some(spec_mk_video_format(59, 1440, 240, 38, 124, 114, 4, 3, 15, false, false, 108000000, true, VideoFormatPictureAspectRatio::_16_9))
    } else if vic == 60 {
        Some(spec_mk_video_format(60, 1280, 720, 1760, 40, 220, 5, 5, 20, true, true, 59400000, false, VideoFormatPictureAspectRatio::_16_9))
    } else if vic == 61 {
        Some(spec_mk_video_format(61, 1280, 720, 2420, 40, 220, 5, 5, 20, true, true, 74250000, false, VideoFormatPictureAspectRatio::_16_9))
    } else if vic == 62 {
        Some(spec_mk_video_format(62, 1280, 720, 1760, 40, 220, 5, 5, 20, true, true, 74250000, false, VideoFormatPictureAspectRatio::_16_9))
    } else if vic == 63 {
        Some(spec_mk_video_format(63, 1920, 1080, 88, 44, 148, 4, 5, 36, true, true, 297000000, false, VideoFormatPictureAspectRatio::_16_9))
    } else if vic == 64 {
        Some(spec_mk_video_format(64, 1920, 1080, 528, 44, 148, 4, 5, 36, true, true, 297000000, false, VideoFormatPictureAspectRatio::_16_9))
    } else {
        None
    }
}

fn video_format_low(vic: u8) -> (r: Option<VideoFormat>)
    ensures
        r == spec_video_format_low(vic),
{
    if vic == 1 {
        Some(mk_video_format(1, 640, 480, 16, 96, 48, 10, 2, 33, false, false, 25175000, false, VideoFormatPictureAspectRatio::_4_3))
    } else if vic == 2 {
        Some(mk_video_format(2, 720, 480, 16, 62, 60, 9, 6, 30, false, false, 27000000, false, VideoFormatPictureAspectRatio::_4_3))
    } else if vic == 3 {
        Some(mk_video_format(3, 720, 480, 16, 62, 60, 9, 6, 30, false, false, 27000000, false, VideoFormatPictureAspectRatio::_16_9))
    } else if vic == 4 {
        Some(mk_video_format(4, 1280, 720, 110, 40, 220, 5, 5, 20, true, true, 74250000, false, VideoFormatPictureAspectRatio::_16_9))
    } else if vic == 5 {
        Some(mk_video_format(5, 1920, 540, 88, 44, 148, 2, 5, 15, true, true, 74250000, true, VideoFormatPictureAspectRatio::_16_9))
    } else if vic == 6 {
        Some(mk_video_format(6, 1440, 240, 38, 124, 114, 4, 3, 15, false, false, 27000000, true, VideoFormatPictureAspectRatio::_4_3))
    } else if vic == 7 {
        Some(mk_video_format(7, 1440, 240, 38, 124, 114, 4, 3, 15, false, false, 27000000, true, VideoFormatPictureAspectRatio::_16_9))
    } else if vic == 8 {
        Some(mk_video_format(8, 1440, 240, 38, 124, 114, 4, 3, 15, false, false, 27000000, false, VideoFormatPictureAspectRatio::_4_3))
    } else if vic == 9 {
        Some(mk_video_format(9, 1440, 240, 38, 124, 114, 4, 3, 15, false, false, 27000000, false, VideoFormatPictureAspectRatio::_16_9))
    } else if vic == 10 {
        Some(mk_video_format(10, 2880, 240, 76, 248, 228, 4, 3, 15, false, false, 54000000, true, VideoFormatPictureAspectRatio::_4_3))
    } else if vic == 11 {
        Some(mk_video_format(11, 2880, 240, 76, 248, 228, 4, 3, 15, false, false, 54000000, true, VideoFormatPictureAspectRatio::_16_9))
    } else if vic == 12 {
        Some(mk_video_format(12, 2880, 240, 76, 248, 228, 4, 3, 15, false, false, 54000000, false, VideoFormatPictureAspectRatio::_4_3))
    } else if vic == 13 {
        Some(mk_video_format(13, 2880, 240, 76, 248, 228, 4, 3, 15, false, false, 54000000, false, VideoFormatPictureAspectRatio::_16_9))
    } else if vic == 14 {
        Some(mk_video_format(14, 1440, 480, 32, 124, 120, 9, 6, 30, false, false, 54000000, false, VideoFormatPictureAspectRatio::_4_3))
    } else if vic == 15 {
        Some(mk_video_format(15, 1440, 480, 32, 124, 120, 9, 6, 30, false, false, 54000000, false, VideoFormatPictureAspectRatio::_16_9))
    } else if vic == 16 {
        Some(mk_video_format(16, 1920, 1080, 88, 44, 148, 4, 5, 36, true, true, 148500000, false, VideoFormatPictureAspectRatio::_16_9))
    } else if vic == 17 {
        Some(mk_video_format(17, 720, 576, 12, 64, 68, 5, 5, 39, false, false, 27000000, false, VideoFormatPictureAspectRatio::_4_3))
    } else if vic == 18 {
        Some(mk_video_format(18, 720, 576, 12, 64, 68, 5, 5, 39, false, false, 27000000, false, VideoFormatPictureAspectRatio::_16_9))
    } else if vic == 19 {
        Some(mk_video_format(19, 1280, 720, 440, 40, 220, 5, 5, 20, true, true, 74250000, false, VideoFormatPictureAspectRatio::_16_9))
    } else if vic == 20 {
        Some(mk_video_format(20, 1920, 540, 528, 44, 148, 2, 5, 15, true, true, 74250000, true, VideoFormatPictureAspectRatio::_16_9))
    } else if vic == 21 {
        Some(mk_video_format(21, 1440, 288, 24, 126, 138, 2, 3, 19, false, false, 27000000, true, VideoFormatPictureAspectRatio::_4_3))
    } else if vic == 22 {
        Some(mk_video_format(22, 1440, 288, 24, 126, 138, 2, 3, 19, false, false, 27000000, true, VideoFormatPictureAspectRatio::_16_9))
    } else if vic == 23 {
        Some(mk_video_format(23, 1440, 288, 24, 126, 138, 2, 3, 19, false, false, 27000000, false, VideoFormatPictureAspectRatio::_4_3))
    } else if vic == 24 {
        Some(mk_video_format(24, 1440, 288, 24, 126, 138, 2, 3, 19, false, false, 27000000, false, VideoFormatPictureAspectRatio::_16_9))
    } else if vic == 25 {
        Some(mk_video_format(25, 2880, 288, 48, 252, 276, 2, 3, 19, false, false, 54000000, true, VideoFormatPictureAspectRatio::_4_3))
    } else if vic == 26 {
        Some(mk_video_format(26, 2880, 288, 48, 252, 276, 2, 3, 19, false, false, 54000000, true, VideoFormatPictureAspectRatio::_16_9))
    } else if vic == 27 {
        Some(mk_video_format(27, 2880, 288, 48, 252, 276, 2, 3, 19, false, false, 54000000, false, VideoFormatPictureAspectRatio::_4_3))
    } else if vic == 28 {
        Some(mk_video_format(28, 2880, 288, 48, 252, 276, 2, 3, 19, false, false, 54000000, false, VideoFormatPictureAspectRatio::_16_9))
    } else if vic == 29 {
        Some(mk_video_format(29, 1440, 576, 16, 128, 136, 5, 5, 39, false, false, 54000000, false, VideoFormatPictureAspectRatio::_4_3))
    } else if vic == 30 {
        Some(mk_video_format(30, 1440, 576, 16, 128, 136, 5, 5, 39, false, false, 54000000, false, VideoFormatPictureAspectRatio::_16_9))
    } else if vic == 31 {
        Some(mk_video_format(31, 1920, 1080, 528, 44, 148, 4, 5, 36, true, true, 148500000, false, VideoFormatPictureAspectRatio::_16_9))
    } else if vic == 32 {
        Some(mk_video_format(32, 1920, 1080, 638, 44, 148, 4, 5, 36, true, true, 74250000, false, VideoFormatPictureAspectRatio::_16_9))
    } else if vic == 33 {
        Some(mk_video_format(33, 1920, 1080, 528, 44, 148, 4, 5, 36, true, true, 74250000, false, VideoFormatPictureAspectRatio::_16_9))
    } else if vic == 34 {
        Some(mk_video_format(34, 1920, 1080, 88, 44, 148, 4, 5, 36, true, true, 74250000, false, VideoFormatPictureAspectRatio::_16_9))
    } else if vic == 35 {
        Some(mk_video_format(35, 2880, 480, 64, 248, 240, 9, 6, 30, false, false, 108000000, false, VideoFormatPictureAspectRatio::_4_3))
    } else if vic == 36 {
        Some(mk_video_format(36, 2880, 480, 64, 248, 240, 9, 6, 30, false, false, 108000000, false, VideoFormatPictureAspectRatio::_16_9))
    } else if vic == 37 {
        Some(mk_video_format(37, 2880, 576, 32, 256, 272, 5, 5, 39, false, false, 108000000, false, VideoFormatPictureAspectRatio::_4_3))
    } else if vic == 38 {
        Some(mk_video_format(38, 2880, 576, 32, 256, 272, 5, 5, 39, false, false, 108000000, false, VideoFormatPictureAspectRatio::_16_9))
    } else if vic == 39 {
        Some(mk_video_format(39, 1920, 540, 32, 168, 184, 23, 5, 57, true, false, 72000000, true, VideoFormatPictureAspectRatio::_16_9))
    } else if vic == 40 {
        Some(mk_video_format(40, 1920, 540, 528, 44, 148, 2, 5, 15, true, true, 148500000, true, VideoFormatPictureAspectRatio::_16_9))
    } else if vic == 41 {
        Some(mk_video_format(41, 1280, 720, 440, 40, 220, 5, 5, 20, true, true, 148500000, false, VideoFormatPictureAspectRatio::_16_9))
    } else if vic == 42 {
        Some(mk_video_format(42, 720, 576, 12, 64, 68, 5, 5, 39, false, false, 54000000, false, VideoFormatPictureAspectRatio::_4_3))
    } else if vic == 43 {
        Some(mk_video_format(43, 720, 576, 12, 64, 68, 5, 5, 39, false, false, 54000000, false, VideoFormatPictureAspectRatio::_16_9))
    } else if vic == 44 {
        Some(mk_video_format(44, 1440, 288, 24, 126, 138, 2, 3, 19, false, false, 54000000, true, VideoFormatPictureAspectRatio::_4_3))
    } else if vic == 45 {
        Some(mk_video_format(45, 1440, 288, 24, 126, 138, 2, 3, 19, false, false, 54000000, true, VideoFormatPictureAspectRatio::_16_9))
    } else if vic == 46 {
        Some(mk_video_format(46, 1920, 540, 88, 44, 148, 2, 5, 15, true, true, 148500000, true, VideoFormatPictureAspectRatio::_16_9))
    } else if vic == 47 {
        Some(mk_video_format(47, 1280, 720, 110, 40, 220, 5, 5, 20, true, true, 148500000, false, VideoFormatPictureAspectRatio::_16_9))
    } else if vic == 48 {
        Some(mk_video_format(48, 720, 480, 16, 62, 60, 9, 6, 30, false, false, 54000000, false, VideoFormatPictureAspectRatio::_4_3))
    } else if vic == 49 {
        Some(mk_video_format(49, 720, 480, 16, 62, 60, 9, 6, 30, false, false, 54000000, false, VideoFormatPictureAspectRatio::_16_9))
    } else if vic == 50 {
        Some(mk_video_format(50, 1440, 240, 38, 124, 114, 4, 3, 15, false, false, 54000000, true, VideoFormatPictureAspectRatio::_4_3))
    } else if vic == 51 {
        Some(mk_video_format(51, 1440, 240, 38, 124, 114, 4, 3, 15, false, false, 54000000, true, VideoFormatPictureAspectRatio::_16_9))
    } else if vic == 52 {
        Some(mk_video_format(52, 720, 576, 12, 64, 68, 5, 5, 39, false, false, 108000000, false, VideoFormatPictureAspectRatio::_4_3))
    } else if vic == 53 {
        Some(mk_video_format(53, 720, 576, 12, 64, 68, 5, 5, 39, false, false, 108000000, false, VideoFormatPictureAspectRatio::_16_9))
    } else if vic == 54 {
        Some(mk_video_format(54, 1440, 288, 24, 126, 138, 2, 3, 19, false, false, 108000000, true, VideoFormatPictureAspectRatio::_4_3))
    } else if vic == 55 {
        Some(mk_video_format(55, 1440, 288, 24, 126, 138, 2, 3, 19, false, false, 108000000, true, VideoFormatPictureAspectRatio::_16_9))
    } else if vic == 56 {
        Some(mk_video_format(56, 720, 480, 16, 62, 60, 9, 6, 30, false, false, 108000000, false, VideoFormatPictureAspectRatio::_4_3))
    } else if vic == 57 {
        Some(mk_video_format(57, 720, 480, 16, 62, 60, 9, 6, 30, false, false, 108000000, false, VideoFormatPictureAspectRatio::_16_9))
    } else if vic == 58 {
        Some(mk_video_format(58, 1440, 240, 38, 124, 114, 4, 3, 15, false, false, 108000000, true, VideoFormatPictureAspectRatio::_4_3))
    } else if vic == 59 {
        Some(mk_video_format(59, 1440, 240, 38, 124, 114, 4, 3, 15, false, false, 108000000, true, VideoFormatPictureAspectRatio::_16_9))
    } else if vic == 60 {
        Some(mk_video_format(60, 1280, 720, 1760, 40, 220, 5, 5, 20, true, true, 59400000, false, VideoFormatPictureAspectRatio::_16_9))
    } else if vic == 61 {
        Some(mk_video_format(61, 1280, 720, 2420, 40, 220, 5, 5, 20, true, true, 74250000, false, VideoFormatPictureAspectRatio::_16_9))
    } else if vic == 62 {
        Some(mk_video_format(62, 1280, 720, 1760, 40, 220, 5, 5, 20, true, true, 74250000, false, VideoFormatPictureAspectRatio::_16_9))
    } else if vic == 63 {
        Some(mk_video_format(63, 1920, 1080, 88, 44, 148, 4, 5, 36, true, true, 297000000, false, VideoFormatPictureAspectRatio::_16_9))
    } else if vic == 64 {
        Some(mk_video_format(64, 1920, 1080, 528, 44, 148, 4, 5, 36, true, true, 297000000, false, VideoFormatPictureAspectRatio::_16_9))
    } else {
        None
    }
}

/// The CTA-861 video formats with video identification codes 65 to 127.
pub open spec fn spec_video_format_mid(vic: u8) -> Option<VideoFormat> {
    if vic == 65 {
        Some(spec_mk_video_format(65, 1280, 720, 1760, 40, 220, 5, 5, 20, true, true, 59400000, false, VideoFormatPictureAspectRatio::_64_27))
    } else if vic == 66 {
        Some(spec_mk_video_format(66, 1280, 720, 2420, 40, 220, 5, 5, 20, true, true, 74250000, false, VideoFormatPictureAspectRatio::_64_27))
    } else if vic == 67 {
        Some(spec_mk_video_format(67, 1280, 720, 1760, 40, 220, 5, 5, 20, true, true, 74250000, false, VideoFormatPictureAspectRatio::_64_27))
    } else if vic == 68 {
        Some(spec_mk_video_format(68, 1280, 720, 440, 40, 220, 5, 5, 20, true, true, 74250000, false, VideoFormatPictureAspectRatio::_64_27))
    } else if vic == 69 {
        Some(spec_mk_video_format(69, 1280, 720, 110, 40, 220, 5, 5, 20, true, true, 74250000, false, VideoFormatPictureAspectRatio::_64_27))
    } else if vic == 70 {
        Some(spec_mk_video_format(70, 1280, 720, 440, 40, 220, 5, 5, 20, true, true, 148500000, false, VideoFormatPictureAspectRatio::_64_27))
    } else if vic == 71 {
        Some(spec_mk_video_format(71, 1280, 720, 110, 40, 220, 5, 5, 20, true, true, 148500000, false, VideoFormatPictureAspectRatio::_64_27))
    } else if vic == 72 {
        Some(spec_mk_video_format(72, 1920, 1080, 638, 44, 148, 4, 5, 36, true, true, 74250000, false, VideoFormatPictureAspectRatio::_64_27))
    } else if vic == 73 {
        Some(spec_mk_video_format(73, 1920, 1080, 528, 44, 148, 4, 5, 36, true, true, 74250000, false, VideoFormatPictureAspectRatio::_64_27))
    } else if vic == 74 {
        Some(spec_mk_video_format(74, 1920, 1080, 88, 44, 148, 4, 5, 36, true, true, 74250000, false, VideoFormatPictureAspectRatio::_64_27))
    } else if vic == 75 {
        Some(spec_mk_video_format(75, 1920, 1080, 528, 44, 148, 4, 5, 36, true, true, 148500000, false, VideoFormatPictureAspectRatio::_64_27))
    } else if vic == 76 {
        Some(spec_mk_video_format(76, 1920, 1080, 88, 44, 148, 4, 5, 36, true, true, 148500000, false, VideoFormatPictureAspectRatio::_64_27))
    } else if vic == 77 {
        Some(spec_mk_video_format(77, 1920, 1080, 528, 44, 148, 4, 5, 36, true, true, 297000000, false, VideoFormatPictureAspectRatio::_64_27))
    } else if vic == 78 {
        Some(spec_mk_video_format(78, 1920, 1080, 88, 44, 148, 4, 5, 36, true, true, 297000000, false, VideoFormatPictureAspectRatio::_64_27))
    } else if vic == 79 {
        Some(spec_mk_video_format(79, 1680, 720, 1360, 40, 220, 5, 5, 20, true, true, 59400000, false, VideoFormatPictureAspectRatio::_64_27))
    } else if vic == 80 {
        Some(spec_mk_video_format(80, 1680, 720, 1228, 40, 220, 5, 5, 20, true, true, 59400000, false, VideoFormatPictureAspectRatio::_64_27))
    } else if vic == 81 {
        Some(spec_mk_video_format(81, 1680, 720, 700, 40, 220, 5, 5, 20, true, true, 59400000, false, VideoFormatPictureAspectRatio::_64_27))
    } else if vic == 82 {
        Some(spec_mk_video_format(82, 1680, 720, 260, 40, 220, 5, 5, 20, true, true, 82500000, false, VideoFormatPictureAspectRatio::_64_27))
    } else if vic == 83 {
        Some(spec_mk_video_format(83, 1680, 720, 260, 40, 220, 5, 5, 20, true, true, 99000000, false, VideoFormatPictureAspectRatio::_64_27))
    } else if vic == 84 {
        Some(spec_mk_video_format(84, 1680, 720, 60, 40, 220, 5, 5, 95, true, true, 165000000, false, VideoFormatPictureAspectRatio::_64_27))
    } else if vic == 85 {
        Some(spec_mk_video_format(85, 1680, 720, 60, 40, 220, 5, 5, 95, true, true, 198000000, false, VideoFormatPictureAspectRatio::_64_27))
    } else if vic == 86 {
        Some(spec_mk_video_format(86, 2560, 1080, 998, 44, 148, 4, 5, 11, true, true, 99000000, false, VideoFormatPictureAspectRatio::_64_27))
    } else if vic == 87 {
        Some(spec_mk_video_format(87, 2560, 1080, 448, 44, 148, 4, 5, 36, true, true, 90000000, false, VideoFormatPictureAspectRatio::_64_27))
    } else if vic == 88 {
        Some(spec_mk_video_format(88, 2560, 1080, 768, 44, 148, 4, 5, 36, true, true, 118800000, false, VideoFormatPictureAspectRatio::_64_27))
    } else if vic == 89 {
        Some(spec_mk_video_format(89, 2560, 1080, 548, 44, 148, 4, 5, 36, true, true, 185625000, false, VideoFormatPictureAspectRatio::_64_27))
    } else if vic == 90 {
        Some(spec_mk_video_format(90, 2560, 1080, 248, 44, 148, 4, 5, 11, true, true, 198000000, false, VideoFormatPictureAspectRatio::_64_27))
    } else if vic == 91 {
        Some(spec_mk_video_format(91, 2560, 1080, 218, 44, 148, 4, 5, 161, true, true, 371250000, false, VideoFormatPictureAspectRatio::_64_27))
    } else if vic == 92 {
        Some(spec_mk_video_format(92, 2560, 1080, 548, 44, 148, 4, 5, 161, true, true, 495000000, false, VideoFormatPictureAspectRatio::_64_27))
    } else if vic == 93 {
        Some(spec_mk_video_format(93, 3840, 2160, 1276, 88, 296, 8, 10, 72, true, true, 297000000, false, VideoFormatPictureAspectRatio::_16_9))
    } else if vic == 94 {
        Some(spec_mk_video_format(94, 3840, 2160, 1056, 88, 296, 8, 10, 72, true, true, 297000000, false, VideoFormatPictureAspectRatio::_16_9))
    } else if vic == 95 {
        Some(spec_mk_video_format(95, 3840, 2160, 176, 88, 296, 8, 10, 72, true, true, 297000000, false, VideoFormatPictureAspectRatio::_16_9))
    } else if vic == 96 {
        Some(spec_mk_video_format(96, 3840, 2160, 1056, 88, 296, 8, 10, 72, true, true, 594000000, false, VideoFormatPictureAspectRatio::_16_9))
    } else if vic == 97 {
        Some(spec_mk_video_format(97, 3840, 2160, 176, 88, 296, 8, 10, 72, true, true, 594000000, false, VideoFormatPictureAspectRatio::_16_9))
    } else if vic == 98 {
        Some(spec_mk_video_format(98, 4096, 2160, 1020, 88, 296, 8, 10, 72, true, true, 297000000, false, VideoFormatPictureAspectRatio::_256_135))
    } else if vic == 99 {
        Some(spec_mk_video_format(99, 4096, 2160, 968, 88, 128, 8, 10, 72, true, true, 297000000, false, VideoFormatPictureAspectRatio::_256_135))
    } else if vic == 100 {
        Some(spec_mk_video_format(100, 4096, 2160, 88, 88, 128, 8, 10, 72, true, true, 297000000, false, VideoFormatPictureAspectRatio::_256_135))
    } else if vic == 101 {
        Some(spec_mk_video_format(101, 4096, 2160, 968, 88, 128, 8, 10, 72, true, true, 594000000, false, VideoFormatPictureAspectRatio::_256_135))
    } else if vic == 102 {
        Some(spec_mk_video_format(102, 4096, 2160, 88, 88, 128, 8, 10, 72, true, true, 594000000, false, VideoFormatPictureAspectRatio::_256_135))
    } else if vic == 103 {
        Some(spec_mk_video_format(103, 3840, 2160, 1276, 88, 296, 8, 10, 72, true, true, 297000000, false, VideoFormatPictureAspectRatio::_64_27))
    } else if vic == 104 {
        Some(spec_mk_video_format(104, 3840, 2160, 1056, 88, 296, 8, 10, 72, true, true, 297000000, false, VideoFormatPictureAspectRatio::_64_27))
    } else if vic == 105 {
        Some(spec_mk_video_format(105, 3840, 2160, 176, 88, 296, 8, 10, 72, true, true, 297000000, false, VideoFormatPictureAspectRatio::_64_27))
    } else if vic == 106 {
        Some(spec_mk_video_format(106, 3840, 2160, 1056, 88, 296, 8, 10, 72, true, true, 594000000, false, VideoFormatPictureAspectRatio::_64_27))
    } else if vic == 107 {
        Some(spec_mk_video_format(107, 3840, 2160, 176, 88, 296, 8, 10, 72, true, true, 594000000, false, VideoFormatPictureAspectRatio::_64_27))
    } else if vic == 108 {
        Some(spec_mk_video_format(108, 1280, 720, 960, 40, 220, 5, 5, 20, true, true, 90000000, false, VideoFormatPictureAspectRatio::_16_9))
    } else if vic == 109 {
        Some(spec_mk_video_format(109, 1280, 720, 960, 40, 220, 5, 5, 20, true, true, 90000000, false, VideoFormatPictureAspectRatio::_64_27))
    } else if vic == 110 {
        Some(spec_mk_video_format(110, 1680, 720, 810, 40, 220, 5, 5, 20, true, true, 99000000, false, VideoFormatPictureAspectRatio::_64_27))
    } else if vic == 111 {
        Some(spec_mk_video_format(111, 1920, 1080, 638, 44, 148, 4, 5, 36, true, true, 148500000, false, VideoFormatPictureAspectRatio::_16_9))
    } else if vic == 112 {
        Some(spec_mk_video_format(112, 1920, 1080, 638, 44, 148, 4, 5, 36, true, true, 148500000, false, VideoFormatPictureAspectRatio::_64_27))
    } else if vic == 113 {
        Some(spec_mk_video_format(113, 2560, 1080, 998, 44, 148, 4, 5, 11, true, true, 198000000, false, VideoFormatPictureAspectRatio::_64_27))
    } else if vic == 114 {
        Some(spec_mk_video_format(114, 3840, 2160, 1276, 88, 296, 8, 10, 72, true, true, 594000000, false, VideoFormatPictureAspectRatio::_16_9))
    } else if vic == 115 {
        Some(spec_mk_video_format(115, 4096, 2160, 1020, 88, 296, 8, 10, 72, true, true, 594000000, false, VideoFormatPictureAspectRatio::_256_135))
    } else if vic == 116 {
        Some(spec_mk_video_format(116, 3840, 2160, 1276, 88, 296, 8, 10, 72, true, true, 594000000, false, VideoFormatPictureAspectRatio::_64_27))
    } else if vic == 117 {
        Some(spec_mk_video_format(117, 3840, 2160, 1056, 88, 296, 8, 10, 72, true, true, 1188000000, false, VideoFormatPictureAspectRatio::_16_9))
    } else if vic == 118 {
        Some(spec_mk_video_format(118, 3840, 2160, 176, 88, 296, 8, 10, 72, true, true, 1188000000, false, VideoFormatPictureAspectRatio::_16_9))
    } else if vic == 119 {
        Some(spec_mk_video_format(119, 3840, 2160, 1056, 88, 296, 8, 10, 72, true, true, 1188000000, false, VideoFormatPictureAspectRatio::_64_27))
    } else if vic == 120 {
        Some(spec_mk_video_format(120, 3840, 2160, 176, 88, 296, 8, 10, 72, true, true, 1188000000, false, VideoFormatPictureAspectRatio::_64_27))
    } else if vic == 121 {
        Some(spec_mk_video_format(121, 5120, 2160, 1996, 88, 296, 8, 10, 22, true, true, 396000000, false, VideoFormatPictureAspectRatio::_64_27))
    } else if vic == 122 {
        Some(spec_mk_video_format(122, 5120, 2160, 1696, 88, 296, 8, 10, 22, true, true, 396000000, false, VideoFormatPictureAspectRatio::_64_27))
    } else if vic == 123 {
        Some(spec_mk_video_format(123, 5120, 2160, 664, 88, 128, 8, 10, 22, true, true, 396000000, false, VideoFormatPictureAspectRatio::_64_27))
    } else if vic == 124 {
        Some(spec_mk_video_format(124, 5120, 2160, 746, 88, 296, 8, 10, 297, true, true, 742500000, false, VideoFormatPictureAspectRatio::_64_27))
    } else if vic == 125 {
        Some(spec_mk_video_format(125, 5120, 2160, 1096, 88, 296, 8, 10, 72, true, true, 742500000, false, VideoFormatPictureAspectRatio::_64_27))
    } else if vic == 126 {
        Some(spec_mk_video_format(126, 5120, 2160, 164, 88, 128, 8, 10, 72, true, true, 742500000, false, VideoFormatPictureAspectRatio::_64_27))
    } else if vic == 127 {
        Some(spec_mk_video_format(127, 5120, 2160, 1096, 88, 296, 8, 10, 72, true, true, 1485000000, false, VideoFormatPictureAspectRatio::_64_27))
    } else {
        None
    }
}

fn video_format_mid(vic: u8) -> (r: Option<VideoFormat>)
    ensures
        r == spec_video_format_mid(vic),
{
    if vic == 65 {
        Some(mk_video_format(65, 1280, 720, 1760, 40, 220, 5, 5, 20, true, true, 59400000, false, VideoFormatPictureAspectRatio::_64_27))
    } else if vic == 66 {
        Some(mk_video_format(66, 1280, 720, 2420, 40, 220, 5, 5, 20, true, true, 74250000, false, VideoFormatPictureAspectRatio::_64_27))
    } else if vic == 67 {
        Some(mk_video_format(67, 1280, 720, 1760, 40, 220, 5, 5, 20, true, true, 74250000, false, VideoFormatPictureAspectRatio::_64_27))
    } else if vic == 68 {
        Some(mk_video_format(68, 1280, 720, 440, 40, 220, 5, 5, 20, true, true, 74250000, false, VideoFormatPictureAspectRatio::_64_27))
    } else if vic == 69 {
        Some(mk_video_format(69, 1280, 720, 110, 40, 220, 5, 5, 20, true, true, 74250000, false, VideoFormatPictureAspectRatio::_64_27))
    } else if vic == 70 {
        Some(mk_video_format(70, 1280, 720, 440, 40, 220, 5, 5, 20, true, true, 148500000, false, VideoFormatPictureAspectRatio::_64_27))
    } else if vic == 71 {
        Some(mk_video_format(71, 1280, 720, 110, 40, 220, 5, 5, 20, true, true, 148500000, false, VideoFormatPictureAspectRatio::_64_27))
    } else if vic == 72 {
        Some(mk_video_format(72, 1920, 1080, 638, 44, 148, 4, 5, 36, true, true, 74250000, false, VideoFormatPictureAspectRatio::_64_27))
    } else if vic == 73 {
        Some(mk_video_format(73, 1920, 1080, 528, 44, 148, 4, 5, 36, true, true, 74250000, false, VideoFormatPictureAspectRatio::_64_27))
    } else if vic == 74 {
        Some(mk_video_format(74, 1920, 1080, 88, 44, 148, 4, 5, 36, true, true, 74250000, false, VideoFormatPictureAspectRatio::_64_27))
    } else if vic == 75 {
        Some(mk_video_format(75, 1920, 1080, 528, 44, 148, 4, 5, 36, true, true, 148500000, false, VideoFormatPictureAspectRatio::_64_27))
    } else if vic == 76 {
        Some(mk_video_format(76, 1920, 1080, 88, 44, 148, 4, 5, 36, true, true, 148500000, false, VideoFormatPictureAspectRatio::_64_27))
    } else if vic == 77 {
        Some(mk_video_format(77, 1920, 1080, 528, 44, 148, 4, 5, 36, true, true, 297000000, false, VideoFormatPictureAspectRatio::_64_27))
    } else if vic == 78 {
        Some(mk_video_format(78, 1920, 1080, 88, 44, 148, 4, 5, 36, true, true, 297000000, false, VideoFormatPictureAspectRatio::_64_27))
    } else if vic == 79 {
        Some(mk_video_format(79, 1680, 720, 1360, 40, 220, 5, 5, 20, true, true, 59400000, false, VideoFormatPictureAspectRatio::_64_27))
    } else if vic == 80 {
        Some(mk_video_format(80, 1680, 720, 1228, 40, 220, 5, 5, 20, true, true, 59400000, false, VideoFormatPictureAspectRatio::_64_27))
    } else if vic == 81 {
        Some(mk_video_format(81, 1680, 720, 700, 40, 220, 5, 5, 20, true, true, 59400000, false, VideoFormatPictureAspectRatio::_64_27))
    } else if vic == 82 {
        Some(mk_video_format(82, 1680, 720, 260, 40, 220, 5, 5, 20, true, true, 82500000, false, VideoFormatPictureAspectRatio::_64_27))
    } else if vic == 83 {
        Some(mk_video_format(83, 1680, 720, 260, 40, 220, 5, 5, 20, true, true, 99000000, false, VideoFormatPictureAspectRatio::_64_27))
    } else if vic == 84 {
        Some(mk_video_format(84, 1680, 720, 60, 40, 220, 5, 5, 95, true, true, 165000000, false, VideoFormatPictureAspectRatio::_64_27))
    } else if vic == 85 {
        Some(mk_video_format(85, 1680, 720, 60, 40, 220, 5, 5, 95, true, true, 198000000, false, VideoFormatPictureAspectRatio::_64_27))
    } else if vic == 86 {
        Some(mk_video_format(86, 2560, 1080, 998, 44, 148, 4, 5, 11, true, true, 99000000, false, VideoFormatPictureAspectRatio::_64_27))
    } else if vic == 87 {
        Some(mk_video_format(87, 2560, 1080, 448, 44, 148, 4, 5, 36, true, true, 90000000, false, VideoFormatPictureAspectRatio::_64_27))
    } else if vic == 88 {
        Some(mk_video_format(88, 2560, 1080, 768, 44, 148, 4, 5, 36, true, true, 118800000, false, VideoFormatPictureAspectRatio::_64_27))
    } else if vic == 89 {
        Some(mk_video_format(89, 2560, 1080, 548, 44, 148, 4, 5, 36, true, true, 185625000, false, VideoFormatPictureAspectRatio::_64_27))
    } else if vic == 90 {
        Some(mk_video_format(90, 2560, 1080, 248, 44, 148, 4, 5, 11, true, true, 198000000, false, VideoFormatPictureAspectRatio::_64_27))
    } else if vic == 91 {
        Some(mk_video_format(91, 2560, 1080, 218, 44, 148, 4, 5, 161, true, true, 371250000, false, VideoFormatPictureAspectRatio::_64_27))
    } else if vic == 92 {
        Some(mk_video_format(92, 2560, 1080, 548, 44, 148, 4, 5, 161, true, true, 495000000, false, VideoFormatPictureAspectRatio::_64_27))
    } else if vic == 93 {
        Some(mk_video_format(93, 3840, 2160, 1276, 88, 296, 8, 10, 72, true, true, 297000000, false, VideoFormatPictureAspectRatio::_16_9))
    } else if vic == 94 {
        Some(mk_video_format(94, 3840, 2160, 1056, 88, 296, 8, 10, 72, true, true, 297000000, false, VideoFormatPictureAspectRatio::_16_9))
    } else if vic == 95 {
        Some(mk_video_format(95, 3840, 2160, 176, 88, 296, 8, 10, 72, true, true, 297000000, false, VideoFormatPictureAspectRatio::_16_9))
    } else if vic == 96 {
        Some(mk_video_format(96, 3840, 2160, 1056, 88, 296, 8, 10, 72, true, true, 594000000, false, VideoFormatPictureAspectRatio::_16_9))
    } else if vic == 97 {
        Some(mk_video_format(97, 3840, 2160, 176, 88, 296, 8, 10, 72, true, true, 594000000, false, VideoFormatPictureAspectRatio::_16_9))
    } else if vic == 98 {
        Some(mk_video_format(98, 4096, 2160, 1020, 88, 296, 8, 10, 72, true, true, 297000000, false, VideoFormatPictureAspectRatio::_256_135))
    } else if vic == 99 {
        Some(mk_video_format(99, 4096, 2160, 968, 88, 128, 8, 10, 72, true, true, 297000000, false, VideoFormatPictureAspectRatio::_256_135))
    } else if vic == 100 {
        Some(mk_video_format(100, 4096, 2160, 88, 88, 128, 8, 10, 72, true, true, 297000000, false, VideoFormatPictureAspectRatio::_256_135))
    } else if vic == 101 {
        Some(mk_video_format(101, 4096, 2160, 968, 88, 128, 8, 10, 72, true, true, 594000000, false, VideoFormatPictureAspectRatio::_256_135))
    } else if vic == 102 {
        Some(mk_video_format(102, 4096, 2160, 88, 88, 128, 8, 10, 72, true, true, 594000000, false, VideoFormatPictureAspectRatio::_256_135))
    } else if vic == 103 {
        Some(mk_video_format(103, 3840, 2160, 1276, 88, 296, 8, 10, 72, true, true, 297000000, false, VideoFormatPictureAspectRatio::_64_27))
    } else if vic == 104 {
        Some(mk_video_format(104, 3840, 2160, 1056, 88, 296, 8, 10, 72, true, true, 297000000, false, VideoFormatPictureAspectRatio::_64_27))
    } else if vic == 105 {
        Some(mk_video_format(105, 3840, 2160, 176, 88, 296, 8, 10, 72, true, true, 297000000, false, VideoFormatPictureAspectRatio::_64_27))
    } else if vic == 106 {
        Some(mk_video_format(106, 3840, 2160, 1056, 88, 296, 8, 10, 72, true, true, 594000000, false, VideoFormatPictureAspectRatio::_64_27))
    } else if vic == 107 {
        Some(mk_video_format(107, 3840, 2160, 176, 88, 296, 8, 10, 72, true, true, 594000000, false, VideoFormatPictureAspectRatio::_64_27))
    } else if vic == 108 {
        Some(mk_video_format(108, 1280, 720, 960, 40, 220, 5, 5, 20, true, true, 90000000, false, VideoFormatPictureAspectRatio::_16_9))
    } else if vic == 109 {
        Some(mk_video_format(109, 1280, 720, 960, 40, 220, 5, 5, 20, true, true, 90000000, false, VideoFormatPictureAspectRatio::_64_27))
    } else if vic == 110 {
        Some(mk_video_format(110, 1680, 720, 810, 40, 220, 5, 5, 20, true, true, 99000000, false, VideoFormatPictureAspectRatio::_64_27))
    } else if vic == 111 {
        Some(mk_video_format(111, 1920, 1080, 638, 44, 148, 4, 5, 36, true, true, 148500000, false, VideoFormatPictureAspectRatio::_16_9))
    } else if vic == 112 {
        Some(mk_video_format(112, 1920, 1080, 638, 44, 148, 4, 5, 36, true, true, 148500000, false, VideoFormatPictureAspectRatio::_64_27))
    } else if vic == 113 {
        Some(mk_video_format(113, 2560, 1080, 998, 44, 148, 4, 5, 11, true, true, 198000000, false, VideoFormatPictureAspectRatio::_64_27))
    } else if vic == 114 {
        Some(mk_video_format(114, 3840, 2160, 1276, 88, 296, 8, 10, 72, true, true, 594000000, false, VideoFormatPictureAspectRatio::_16_9))
    } else if vic == 115 {
        Some(mk_video_format(115, 4096, 2160, 1020, 88, 296, 8, 10, 72, true, true, 594000000, false, VideoFormatPictureAspectRatio::_256_135))
    } else if vic == 116 {
        Some(mk_video_format(116, 3840, 2160, 1276, 88, 296, 8, 10, 72, true, true, 594000000, false, VideoFormatPictureAspectRatio::_64_27))
    } else if vic == 117 {
        Some(mk_video_format(117, 3840, 2160, 1056, 88, 296, 8, 10, 72, true, true, 1188000000, false, VideoFormatPictureAspectRatio::_16_9))
    } else if vic == 118 {
        Some(mk_video_format(118, 3840, 2160, 176, 88, 296, 8, 10, 72, true, true, 1188000000, false, VideoFormatPictureAspectRatio::_16_9))
    } else if vic == 119 {
        Some(mk_video_format(119, 3840, 2160, 1056, 88, 296, 8, 10, 72, true, true, 1188000000, false, VideoFormatPictureAspectRatio::_64_27))
    } else if vic == 120 {
        Some(mk_video_format(120, 3840, 2160, 176, 88, 296, 8, 10, 72, true, true, 1188000000, false, VideoFormatPictureAspectRatio::_64_27))
    } else if vic == 121 {
        Some(mk_video_format(121, 5120, 2160, 1996, 88, 296, 8, 10, 22, true, true, 396000000, false, VideoFormatPictureAspectRatio::_64_27))
    } else if vic == 122 {
        Some(mk_video_format(122, 5120, 2160, 1696, 88, 296, 8, 10, 22, true, true, 396000000, false, VideoFormatPictureAspectRatio::_64_27))
    } else if vic == 123 {
        Some(mk_video_format(123, 5120, 2160, 664, 88, 128, 8, 10, 22, true, true, 396000000, false, VideoFormatPictureAspectRatio::_64_27))
    } else if vic == 124 {
        Some(mk_video_format(124, 5120, 2160, 746, 88, 296, 8, 10, 297, true, true, 742500000, false, VideoFormatPictureAspectRatio::_64_27))
    } else if vic == 125 {
        Some(mk_video_format(125, 5120, 2160, 1096, 88, 296, 8, 10, 72, true, true, 742500000, false, VideoFormatPictureAspectRatio::_64_27))
    } else if vic == 126 {
        Some(mk_video_format(126, 5120, 2160, 164, 88, 128, 8, 10, 72, true, true, 742500000, false, VideoFormatPictureAspectRatio::_64_27))
    } else if vic == 127 {
        Some(mk_video_format(127, 5120, 2160, 1096, 88, 296, 8, 10, 72, true, true, 1485000000, false, VideoFormatPictureAspectRatio::_64_27))
    } else {
        None
    }
}

/// The CTA-861 video formats with video identification codes 193 to 219.
pub open spec fn spec_video_format_high(vic: u8) -> Option<VideoFormat> {
    if vic == 193 {
        Some(spec_mk_video_format(193, 5120, 2160, 164, 88, 128, 8, 10, 72, true, true, 1485000000, false, VideoFormatPictureAspectRatio::_64_27))
    } else if vic == 194 {
        Some(spec_mk_video_format(194, 7680, 4320, 2552, 176, 592, 16, 20, 144, true, true, 1188000000, false, VideoFormatPictureAspectRatio::_16_9))
    } else if vic == 195 {
        Some(spec_mk_video_format(195, 7680, 4320, 2352, 176, 592, 16, 20, 44, true, true, 1188000000, false, VideoFormatPictureAspectRatio::_16_9))
    } else if vic == 196 {
        Some(spec_mk_video_format(196, 7680, 4320, 552, 176, 592, 16, 20, 44, true, true, 1188000000, false, VideoFormatPictureAspectRatio::_16_9))
    } else if vic == 197 {
        Some(spec_mk_video_format(197, 7680, 4320, 2552, 176, 592, 16, 20, 144, true, true, 2376000000, false, VideoFormatPictureAspectRatio::_16_9))
    } else if vic == 198 {
        Some(spec_mk_video_format(198, 7680, 4320, 2352, 176, 592, 16, 20, 44, true, true, 2376000000, false, VideoFormatPictureAspectRatio::_16_9))
    } else if vic == 199 {
        Some(spec_mk_video_format(199, 7680, 4320, 552, 176, 592, 16, 20, 44, true, true, 2376000000, false, VideoFormatPictureAspectRatio::_16_9))
    } else if vic == 200 {
        Some(spec_mk_video_format(200, 7680, 4320, 2112, 176, 592, 16, 20, 144, true, true, 4752000000, false, VideoFormatPictureAspectRatio::_16_9))
    } else if vic == 201 {
        Some(spec_mk_video_format(201, 7680, 4320, 352, 176, 592, 16, 20, 144, true, true, 4752000000, false, VideoFormatPictureAspectRatio::_16_9))
    } else if vic == 202 {
        Some(spec_mk_video_format(202, 7680, 4320, 2552, 176, 592, 16, 20, 144, true, true, 1188000000, false, VideoFormatPictureAspectRatio::_64_27))
    } else if vic == 203 {
        Some(spec_mk_video_format(203, 7680, 4320, 2352, 176, 592, 16, 20, 44, true, true, 1188000000, false, VideoFormatPictureAspectRatio::_64_27))
    } else if vic == 204 {
        Some(spec_mk_video_format(204, 7680, 4320, 552, 176, 592, 16, 20, 44, true, true, 1188000000, false, VideoFormatPictureAspectRatio::_64_27))
    } else if vic == 205 {
        Some(spec_mk_video_format(205, 7680, 4320, 2552, 176, 592, 16, 20, 144, true, true, 2376000000, false, VideoFormatPictureAspectRatio::_64_27))
    } else if vic == 206 {
        Some(spec_mk_video_format(206, 7680, 4320, 2352, 176, 592, 16, 20, 44, true, true, 2376000000, false, VideoFormatPictureAspectRatio::_64_27))
    } else if vic == 207 {
        Some(spec_mk_video_format(207, 7680, 4320, 552, 176, 592, 16, 20, 44, true, true, 2376000000, false, VideoFormatPictureAspectRatio::_64_27))
    } else if vic == 208 {
        Some(spec_mk_video_format(208, 7680, 4320, 2112, 176, 592, 16, 20, 144, true, true, 4752000000, false, VideoFormatPictureAspectRatio::_64_27))
    } else if vic == 209 {
        Some(spec_mk_video_format(209, 7680, 4320, 352, 176, 592, 16, 20, 144, true, true, 4752000000, false, VideoFormatPictureAspectRatio::_64_27))
    } else if vic == 210 {
        Some(spec_mk_video_format(210, 10240, 4320, 1492, 176, 592, 16, 20, 594, true, true, 1485000000, false, VideoFormatPictureAspectRatio::_64_27))
    } else if vic == 211 {
        Some(spec_mk_video_format(211, 10240, 4320, 2492, 176, 592, 16, 20, 44, true, true, 1485000000, false, VideoFormatPictureAspectRatio::_64_27))
    } else if vic == 212 {
        Some(spec_mk_video_format(212, 10240, 4320, 288, 176, 296, 16, 20, 144, true, true, 1485000000, false, VideoFormatPictureAspectRatio::_64_27))
    } else if vic == 213 {
        Some(spec_mk_video_format(213, 10240, 4320, 1492, 176, 592, 16, 20, 594, true, true, 2970000000, false, VideoFormatPictureAspectRatio::_64_27))
    } else if vic == 214 {
        Some(spec_mk_video_format(214, 10240, 4320, 2492, 176, 592, 16, 20, 44, true, true, 2970000000, false, VideoFormatPictureAspectRatio::_64_27))
    } else if vic == 215 {
        Some(spec_mk_video_format(215, 10240, 4320, 288, 176, 296, 16, 20, 144, true, true, 2970000000, false, VideoFormatPictureAspectRatio::_64_27))
    } else if vic == 216 {
        Some(spec_mk_video_format(216, 10240, 4320, 2192, 176, 592, 16, 20, 144, true, true, 5940000000, false, VideoFormatPictureAspectRatio::_64_27))
    } else if vic == 217 {
        Some(spec_mk_video_format(217, 10240, 4320, 288, 176, 296, 16, 20, 144, true, true, 5940000000, false, VideoFormatPictureAspectRatio::_64_27))
    } else if vic == 218 {
        Some(spec_mk_video_format(218, 4096, 2160, 800, 88, 296, 8, 10, 72, true, true, 1188000000, false, VideoFormatPictureAspectRatio::_256_135))
    } else if vic == 219 {
        Some(spec_mk_video_format(219, 4096, 2160, 88, 88, 296, 8, 10, 72, true, true, 1188000000, false, VideoFormatPictureAspectRatio::_256_135))
    } else {
        None
    }
}

fn video_format_high(vic: u8) -> (r: Option<VideoFormat>)
    ensures
        r == spec_video_format_high(vic),
{
    if vic == 193 {
        Some(mk_video_format(193, 5120, 2160, 164, 88, 128, 8, 10, 72, true, true, 1485000000, false, VideoFormatPictureAspectRatio::_64_27))
    } else if vic == 194 {
        Some(mk_video_format(194, 7680, 4320, 2552, 176, 592, 16, 20, 144, true, true, 1188000000, false, VideoFormatPictureAspectRatio::_16_9))
    } else if vic == 195 {
        Some(mk_video_format(195, 7680, 4320, 2352, 176, 592, 16, 20, 44, true, true, 1188000000, false, VideoFormatPictureAspectRatio::_16_9))
    } else if vic == 196 {
        Some(mk_video_format(196, 7680, 4320, 552, 176, 592, 16, 20, 44, true, true, 1188000000, false, VideoFormatPictureAspectRatio::_16_9))
    } else if vic == 197 {
        Some(mk_video_format(197, 7680, 4320, 2552, 176, 592, 16, 20, 144, true, true, 2376000000, false, VideoFormatPictureAspectRatio::_16_9))
    } else if vic == 198 {
        Some(mk_video_format(198, 7680, 4320, 2352, 176, 592, 16, 20, 44, true, true, 2376000000, false, VideoFormatPictureAspectRatio::_16_9))
    } else if vic == 199 {
        Some(mk_video_format(199, 7680, 4320, 552, 176, 592, 16, 20, 44, true, true, 2376000000, false, VideoFormatPictureAspectRatio::_16_9))
    } else if vic == 200 {
        Some(mk_video_format(200, 7680, 4320, 2112, 176, 592, 16, 20, 144, true, true, 4752000000, false, VideoFormatPictureAspectRatio::_16_9))
    } else if vic == 201 {
        Some(mk_video_format(201, 7680, 4320, 352, 176, 592, 16, 20, 144, true, true, 4752000000, false, VideoFormatPictureAspectRatio::_16_9))
    } else if vic == 202 {
        Some(mk_video_format(202, 7680, 4320, 2552, 176, 592, 16, 20, 144, true, true, 1188000000, false, VideoFormatPictureAspectRatio::_64_27))
    } else if vic == 203 {
        Some(mk_video_format(203, 7680, 4320, 2352, 176, 592, 16, 20, 44, true, true, 1188000000, false, VideoFormatPictureAspectRatio::_64_27))
    } else if vic == 204 {
        Some(mk_video_format(204, 7680, 4320, 552, 176, 592, 16, 20, 44, true, true, 1188000000, false, VideoFormatPictureAspectRatio::_64_27))
    } else if vic == 205 {
        Some(mk_video_format(205, 7680, 4320, 2552, 176, 592, 16, 20, 144, true, true, 2376000000, false, VideoFormatPictureAspectRatio::_64_27))
    } else if vic == 206 {
        Some(mk_video_format(206, 7680, 4320, 2352, 176, 592, 16, 20, 44, true, true, 2376000000, false, VideoFormatPictureAspectRatio::_64_27))
    } else if vic == 207 {
        Some(mk_video_format(207, 7680, 4320, 552, 176, 592, 16, 20, 44, true, true, 2376000000, false, VideoFormatPictureAspectRatio::_64_27))
    } else if vic == 208 {
        Some(mk_video_format(208, 7680, 4320, 2112, 176, 592, 16, 20, 144, true, true, 4752000000, false, VideoFormatPictureAspectRatio::_64_27))
    } else if vic == 209 {
        Some(mk_video_format(209, 7680, 4320, 352, 176, 592, 16, 20, 144, true, true, 4752000000, false, VideoFormatPictureAspectRatio::_64_27))
    } else if vic == 210 {
        Some(mk_video_format(210, 10240, 4320, 1492, 176, 592, 16, 20, 594, true, true, 1485000000, false, VideoFormatPictureAspectRatio::_64_27))
    } else if vic == 211 {
        Some(mk_video_format(211, 10240, 4320, 2492, 176, 592, 16, 20, 44, true, true, 1485000000, false, VideoFormatPictureAspectRatio::_64_27))
    } else if vic == 212 {
        Some(mk_video_format(212, 10240, 4320, 288, 176, 296, 16, 20, 144, true, true, 1485000000, false, VideoFormatPictureAspectRatio::_64_27))
    } else if vic == 213 {
        Some(mk_video_format(213, 10240, 4320, 1492, 176, 592, 16, 20, 594, true, true, 2970000000, false, VideoFormatPictureAspectRatio::_64_27))
    } else if vic == 214 {
        Some(mk_video_format(214, 10240, 4320, 2492, 176, 592, 16, 20, 44, true, true, 2970000000, false, VideoFormatPictureAspectRatio::_64_27))
    } else if vic == 215 {
        Some(mk_video_format(215, 10240, 4320, 288, 176, 296, 16, 20, 144, true, true, 2970000000, false, VideoFormatPictureAspectRatio::_64_27))
    } else if vic == 216 {
        Some(mk_video_format(216, 10240, 4320, 2192, 176, 592, 16, 20, 144, true, true, 5940000000, false, VideoFormatPictureAspectRatio::_64_27))
    } else if vic == 217 {
        Some(mk_video_format(217, 10240, 4320, 288, 176, 296, 16, 20, 144, true, true, 5940000000, false, VideoFormatPictureAspectRatio::_64_27))
    } else if vic == 218 {
        Some(mk_video_format(218, 4096, 2160, 800, 88, 296, 8, 10, 72, true, true, 1188000000, false, VideoFormatPictureAspectRatio::_256_135))
    } else if vic == 219 {
        Some(mk_video_format(219, 4096, 2160, 88, 88, 296, 8, 10, 72, true, true, 1188000000, false, VideoFormatPictureAspectRatio::_256_135))
    } else {
        None
    }
}

/// The CTA-861 video format for a video identification code.
pub open spec fn spec_video_format_from_vic(vic: u8) -> Option<VideoFormat> {
    if vic <= 64 {
        spec_video_format_low(vic)
    } else if vic <= 127 {
        spec_video_format_mid(vic)
    } else {
        spec_video_format_high(vic)
    }
}

impl VideoFormat {
    /// Get a CTA-861 video format from a VIC.
    ///
    /// Returns `None` if the VIC is not a defined CTA-861 format.
    pub fn from_vic(vic: u8) -> (r: Option<VideoFormat>)
        ensures
            r == spec_video_format_from_vic(vic),
    {
        if vic <= 64 {
            video_format_low(vic)
        } else if vic <= 127 {
            video_format_mid(vic)
        } else {
            video_format_high(vic)
        }
    }
}

/// An HDMI video format (addressed by HDMI VIC), not to be confused with a
/// CTA-861 video format.
#[derive(Debug, Clone, Copy, PartialEq, Eq)]
pub struct HdmiVideoFormat {
    pub vic: u8,
    pub h_active: i32,
    pub v_active: i32,
    pub h_front: i32,
    pub v_front: i32,
    pub h_sync: i32,
    pub v_sync: i32,
    pub h_back: i32,
    pub v_back: i32,
    pub pixel_clock_hz: i64,
}

pub open spec fn spec_hdmi_video_format_from_vic(vic: u8) -> Option<HdmiVideoFormat> {
    if vic == 1 {
        Some(HdmiVideoFormat { vic: 1, h_active: 3840, v_active: 2160, h_front: 176, v_front: 8, h_sync: 88, v_sync: 10, h_back: 296, v_back: 72, pixel_clock_hz: 297000000 })
    } else if vic == 2 {
        Some(HdmiVideoFormat { vic: 2, h_active: 3840, v_active: 2160, h_front: 1056, v_front: 8, h_sync: 88, v_sync: 10, h_back: 296, v_back: 72, pixel_clock_hz: 297000000 })
    } else if vic == 3 {
        Some(HdmiVideoFormat { vic: 3, h_active: 3840, v_active: 2160, h_front: 1276, v_front: 8, h_sync: 88, v_sync: 10, h_back: 296, v_back: 72, pixel_clock_hz: 297000000 })
    } else if vic == 4 {
        Some(HdmiVideoFormat { vic: 4, h_active: 4096, v_active: 2160, h_front: 1020, v_front: 8, h_sync: 88, v_sync: 10, h_back: 296, v_back: 72, pixel_clock_hz: 297000000 })
    } else {
        None
    }
}

impl HdmiVideoFormat {
    /// Get an HDMI video format from an HDMI VIC.
    ///
    /// Returns `None` if the HDMI VIC is unknown.
    pub fn from_vic(hdmi_vic: u8) -> (r: Option<HdmiVideoFormat>)
        ensures
            r == spec_hdmi_video_format_from_vic(hdmi_vic),
    {
        if hdmi_vic == 1 {
            Some(HdmiVideoFormat { vic: 1, h_active: 3840, v_active: 2160, h_front: 176, v_front: 8, h_sync: 88, v_sync: 10, h_back: 296, v_back: 72, pixel_clock_hz: 297000000 })
        } else if hdmi_vic == 2 {
            Some(HdmiVideoFormat { vic: 2, h_active: 3840, v_active: 2160, h_front: 1056, v_front: 8, h_sync: 88, v_sync: 10, h_back: 296, v_back: 72, pixel_clock_hz: 297000000 })
        } else if hdmi_vic == 3 {
            Some(HdmiVideoFormat { vic: 3, h_active: 3840, v_active: 2160, h_front: 1276, v_front: 8, h_sync: 88, v_sync: 10, h_back: 296, v_back: 72, pixel_clock_hz: 297000000 })
        } else if hdmi_vic == 4 {
            Some(HdmiVideoFormat { vic: 4, h_active: 4096, v_active: 2160, h_front: 1020, v_front: 8, h_sync: 88, v_sync: 10, h_back: 296, v_back: 72, pixel_clock_hz: 297000000 })
        } else {
            None
        }
    }
}

} // verus!

verus! {

/// The SVDs of a regular video block that a capability map marks as
/// supporting 4:2:0 subsampling, resolved positionally over the first `n`
/// entries.
pub open spec fn spec_cap_map_filter(m: Ycbcr420CapMapModel, svds: Seq<Svd>, n: int) -> Seq<Svd>
    recommends
        0 <= n <= svds.len(),
    decreases n,
{
    if n <= 0 {
        Seq::empty()
    } else {
        let rest = spec_cap_map_filter(m, svds, n - 1);
        if spec_cap_map_supported(m, n - 1) {
            rest.push(svds[n - 1])
        } else {
            rest
        }
    }
}

impl Ycbcr420CapMapBlock {
    /// Correlate this capability map against a video block's SVD list:
    /// the SVDs whose positional bit is raised (or all of them for an
    /// empty map), in their original order.
    pub fn supported_among(&self, svds: &Vec<Svd>) -> (r: Vec<Svd>)
        ensures
            r@ == spec_cap_map_filter(self.model(), svds@, svds@.len() as int),
    {
        let mut out: Vec<Svd> = Vec::new();
        let len = svds.len();
        let mut i: usize = 0;
        while i < len
            invariant
                0 <= i <= len,
                len == svds@.len(),
                out@ == spec_cap_map_filter(self.model(), svds@, i as int),
            decreases len - i,
        {
            if self.di_cta_ycbcr420_cap_map_supported(i) {
                out.push(svds[i]);
            }
            i = i + 1;
        }
        out
    }
}

} // verus!
