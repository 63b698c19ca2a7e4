//! CTA-861 extension decoding: data block walk, audio descriptors, HDR
//! metadata, colorimetry, capability maps and the VIC table.

use libdisplay_info::cta::{
    AudioFormat, DataBlockTag, VideoFormat, VideoFormatPictureAspectRatio, CTA,
};
use libdisplay_info::edid::ExtensionTag;
use libdisplay_info::info::Info;

fn fix_checksum(block: &mut [u8]) {
    let sum: u32 = block[..127].iter().map(|b| *b as u32).sum();
    block[127] = ((256 - (sum % 256)) % 256) as u8;
}

fn base_with_one_ext() -> Vec<u8> {
    let mut d = vec![0u8; 128];
    for i in 1..7 {
        d[i] = 0xFF;
    }
    d[18] = 1;
    d[19] = 4;
    for i in 0..8 {
        d[38 + 2 * i] = 0x01;
        d[39 + 2 * i] = 0x01;
    }
    d[126] = 1;
    fix_checksum(&mut d);
    d
}

/// A CTA extension block with the given data-block bytes and no detailed
/// timings.
fn cta_ext(data_blocks: &[u8]) -> Vec<u8> {
    let mut e = vec![0u8; 128];
    e[0] = 0x02;
    e[1] = 3;
    e[2] = (4 + data_blocks.len()) as u8;
    e[3] = 0x00;
    e[4..4 + data_blocks.len()].copy_from_slice(data_blocks);
    fix_checksum(&mut e);
    e
}

fn parse_with_cta(data_blocks: &[u8]) -> Info {
    let mut d = base_with_one_ext();
    d.extend_from_slice(&cta_ext(data_blocks));
    Info::parse_edid(&d).expect("blob with CTA extension parses")
}

#[test]
fn lpcm_sad_uses_plus_one_channels() {
    // Audio data block (tag 1, length 3): one SAD for LPCM with the raw
    // channel field encoding 2 channels, 48/44.1/32 kHz, 16/20/24 bits.
    let info = parse_with_cta(&[0x23, 0x09, 0x07, 0x07]);
    let edid_holder = info.edid().unwrap();
    let exts = edid_holder.extensions();
    assert_eq!(exts[0].tag(), ExtensionTag::CEA);
    let cta = CTA::from_extension(&exts[0]).expect("CTA view available");
    assert_eq!(cta.revision(), 3);
    let blocks = cta.data_blocks();
    assert_eq!(blocks.len(), 1);
    assert_eq!(blocks[0].tag(), DataBlockTag::Audio);
    let audio = blocks[0].audio().expect("audio payload");
    let sads = audio.sads();
    assert_eq!(sads.len(), 1);
    let sad = sads[0];
    assert_eq!(sad.format, AudioFormat::LPCM);
    assert_eq!(sad.max_channels, Some(2));
    let rates = sad.supported_sample_rates.unwrap();
    assert!(rates.has_48_khz && rates.has_44_1_khz && rates.has_32_khz);
    assert!(!rates.has_192_khz);
    let lpcm = sad.lpcm.unwrap();
    assert!(lpcm.has_sample_size_16_bits && lpcm.has_sample_size_20_bits);
    assert!(lpcm.has_sample_size_24_bits);
    assert!(sad.max_bitrate_kbs.is_none());
    // A tag-mismatched accessor answers nothing.
    assert!(blocks[0].video().is_none());
    assert!(blocks[0].speaker_alloc().is_none());
}

#[test]
fn ac3_sad_bitrate() {
    // AC-3, 6 channels (raw 5), bitrate 640 kb/s (raw 80).
    let info = parse_with_cta(&[0x23, 0x15, 0x07, 80]);
    let edid_holder = info.edid().unwrap();
    let cta = CTA::from_extension(&edid_holder.extensions()[0]).unwrap();
    let sad = cta.data_blocks()[0].audio().unwrap().sads()[0];
    assert_eq!(sad.format, AudioFormat::AC3);
    assert_eq!(sad.max_channels, Some(6));
    assert_eq!(sad.max_bitrate_kbs, Some(640));
    assert!(sad.lpcm.is_none());
}

#[test]
fn video_block_svds() {
    // Video data block (tag 2, length 3): native VIC 16, plain VIC 4 and
    // the reserved value 0 which is skipped.
    let info = parse_with_cta(&[0x43, 144, 4, 0]);
    let edid_holder = info.edid().unwrap();
    let cta = CTA::from_extension(&edid_holder.extensions()[0]).unwrap();
    let blocks = cta.data_blocks();
    assert_eq!(blocks[0].tag(), DataBlockTag::Video);
    let svds = blocks[0].video().unwrap().svds();
    assert_eq!(svds.len(), 2);
    assert_eq!(svds[0].vic, 16);
    assert!(svds[0].native);
    assert_eq!(svds[1].vic, 4);
    assert!(!svds[1].native);
}

#[test]
fn speaker_allocation_block() {
    // Speaker allocation (tag 4, length 3): FL/FR and LFE1.
    let info = parse_with_cta(&[0x83, 0x03, 0x00, 0x00]);
    let edid_holder = info.edid().unwrap();
    let cta = CTA::from_extension(&edid_holder.extensions()[0]).unwrap();
    let sa = cta.data_blocks()[0].speaker_alloc().unwrap();
    assert!(sa.speakers.fl_fr);
    assert!(sa.speakers.lfe1);
    assert!(!sa.speakers.fc);
}

#[test]
fn video_capability_block() {
    // Extended tag 0: QY and QS raised, CE always underscanned.
    let info = parse_with_cta(&[0xE2, 0x00, 0xC2]);
    let edid_holder = info.edid().unwrap();
    let cta = CTA::from_extension(&edid_holder.extensions()[0]).unwrap();
    let vc = cta.data_blocks()[0].video_cap().unwrap();
    assert!(vc.selectable_ycc_quantization_range);
    assert!(vc.selectable_rgb_quantization_range);
    assert_eq!(
        vc.ce_over_underscan,
        libdisplay_info::cta::VideoCapOverUnderscan::AlwaysUnderscan
    );
}

#[test]
fn colorimetry_block_and_summary() {
    // Extended tag 5: BT.2020 cYCC/YCC/RGB plus ST 2113 and ICtCp.
    let info = parse_with_cta(&[0xE3, 0x05, 0xE0, 0xC0]);
    let edid_holder = info.edid().unwrap();
    let cta = CTA::from_extension(&edid_holder.extensions()[0]).unwrap();
    let c = cta.data_blocks()[0].colorimetry().unwrap();
    assert!(c.bt2020_cycc && c.bt2020_ycc && c.bt2020_rgb);
    assert!(c.st2113_rgb && c.ictcp);
    assert!(!c.xvycc_601);
    let summary = info.supported_signal_colorimetry();
    assert!(summary.bt2020_rgb && summary.st2113_rgb && summary.ictcp);
}

#[test]
fn hdr_static_metadata_block() {
    // Extended tag 6: SDR+PQ, type 1 descriptor, max code 32, no frame
    // average, min code 16.
    let info = parse_with_cta(&[0xE6, 0x06, 0x05, 0x01, 32, 0, 16]);
    let edid_holder = info.edid().unwrap();
    let cta = CTA::from_extension(&edid_holder.extensions()[0]).unwrap();
    let blocks = cta.data_blocks();
    assert_eq!(blocks[0].tag(), DataBlockTag::HdrStaticMetadata);
    let hdr = blocks[0].hdr_static_metadata().unwrap();
    let eotfs = hdr.eotfs.unwrap();
    assert!(eotfs.traditional_sdr && eotfs.pq);
    assert!(!eotfs.hlg);
    assert!(hdr.descriptors.unwrap().type1);
    // Code 32 decodes to 50 * 2^1 = 100 cd/m².
    assert_eq!(hdr.desired_content_max_luminance, Some(100_000_000));
    assert_eq!(hdr.desired_content_max_frame_avg_luminance, None);
    // min = max * (16/255)^2 / 100, rounded down.
    assert_eq!(hdr.desired_content_min_luminance, Some(3936));
    let summary = info.hdr_static_metadata();
    assert_eq!(summary.desired_content_max_luminance, 100_000_000);
    assert_eq!(summary.desired_content_min_luminance, 3936);
    assert!(summary.type1 && summary.pq && summary.traditional_sdr);
}

#[test]
fn hdr_summary_defaults_without_block() {
    let info = parse_with_cta(&[]);
    let summary = info.hdr_static_metadata();
    assert_eq!(summary.desired_content_max_luminance, 0);
    assert!(summary.traditional_sdr);
    assert!(!summary.pq && !summary.hlg && !summary.type1);
}

#[test]
fn ycbcr420_cap_map() {
    // Extended tag 15 with one bitmap byte: SVDs 0 and 2 support 4:2:0.
    let info = parse_with_cta(&[0xE2, 0x0F, 0x05]);
    let edid_holder = info.edid().unwrap();
    let cta = CTA::from_extension(&edid_holder.extensions()[0]).unwrap();
    let map = cta.data_blocks()[0].ycbcr420_cap_map().unwrap();
    assert!(map.di_cta_ycbcr420_cap_map_supported(0));
    assert!(!map.di_cta_ycbcr420_cap_map_supported(1));
    assert!(map.di_cta_ycbcr420_cap_map_supported(2));
    assert!(!map.di_cta_ycbcr420_cap_map_supported(64));
}

#[test]
fn empty_ycbcr420_cap_map_means_all() {
    let info = parse_with_cta(&[0xE1, 0x0F]);
    let edid_holder = info.edid().unwrap();
    let cta = CTA::from_extension(&edid_holder.extensions()[0]).unwrap();
    let map = cta.data_blocks()[0].ycbcr420_cap_map().unwrap();
    assert!(map.di_cta_ycbcr420_cap_map_supported(0));
    assert!(map.di_cta_ycbcr420_cap_map_supported(17));
}

#[test]
fn unknown_data_blocks_are_skipped() {
    // A vendor block (tag 3) and an audio block; only the audio survives,
    // and the walk still sees it after consuming the vendor bytes.
    let info = parse_with_cta(&[0x63, 0x00, 0x0C, 0x03, 0x23, 0x09, 0x07, 0x07]);
    let edid_holder = info.edid().unwrap();
    let cta = CTA::from_extension(&edid_holder.extensions()[0]).unwrap();
    let blocks = cta.data_blocks();
    assert_eq!(blocks.len(), 1);
    assert_eq!(blocks[0].tag(), DataBlockTag::Audio);
}

#[test]
fn cta_detailed_timings_after_blocks() {
    let mut e = vec![0u8; 128];
    e[0] = 0x02;
    e[1] = 3;
    e[2] = 4;  // detailed timings start right after the header
    e[3] = 0x01;  // one native DTD
    let dtd: [u8; 18] = [
        0x02, 0x3A, 0x80, 0x18, 0x71, 0x38, 0x2D, 0x40, 0x58, 0x2C, 0x45, 0x00, 0xFD, 0x1E,
        0x11, 0x00, 0x00, 0x1E,
    ];
    e[4..22].copy_from_slice(&dtd);
    fix_checksum(&mut e);
    let mut d = base_with_one_ext();
    d.extend_from_slice(&e);
    let info = Info::parse_edid(&d).unwrap();
    let edid_holder = info.edid().unwrap();
    let cta = CTA::from_extension(&edid_holder.extensions()[0]).unwrap();
    assert_eq!(cta.flags().native_dtds, 1);
    let dtds = cta.detailed_timing_defs();
    assert_eq!(dtds.len(), 1);
    assert_eq!(dtds[0].pixel_clock_hz, 148_500_000);
    assert_eq!(dtds[0].horiz_video, 1920);
}

#[test]
fn cta_flags_decode() {
    let mut e = vec![0u8; 128];
    e[0] = 0x02;
    e[1] = 3;
    e[2] = 4;
    e[3] = 0xF2;  // underscan, basic audio, YCC444, YCC422, two native DTDs
    fix_checksum(&mut e);
    let mut d = base_with_one_ext();
    d.extend_from_slice(&e);
    let info = Info::parse_edid(&d).unwrap();
    let edid_holder = info.edid().unwrap();
    let cta = CTA::from_extension(&edid_holder.extensions()[0]).unwrap();
    let f = cta.flags();
    assert!(f.it_underscan && f.basic_audio && f.ycc444 && f.ycc422);
    assert_eq!(f.native_dtds, 2);
}

#[test]
fn video_format_from_vic() {
    let f = VideoFormat::from_vic(16).expect("VIC 16 recorded");
    assert_eq!(f.h_active, 1920);
    assert_eq!(f.v_active, 1080);
    assert_eq!(f.pixel_clock_hz, 148_500_000);
    assert_eq!(f.picture_aspect_ratio, VideoFormatPictureAspectRatio::_16_9);
    assert!(!f.interlaced);
    assert!(VideoFormat::from_vic(0).is_none());
}

#[test]
fn did_type_vii_timing_block() {
    // Extended tag 34: a revision byte and one 20-byte DisplayID timing
    // (148.5 MHz, 1920x1080, both sync polarities positive).
    let clock: u32 = 148_500 / 10 - 1;
    let block: Vec<u8> = vec![
        0xF6,
        0x22,
        0x00,
        (clock & 0xFF) as u8,
        ((clock >> 8) & 0xFF) as u8,
        ((clock >> 16) & 0xFF) as u8,
        0x84,
        0x7F,
        0x07,
        0x17,
        0x01,
        87,
        0x80,
        43,
        0x00,
        0x37,
        0x04,
        44,
        0x00,
        3,
        0x80,
        4,
        0x00,
    ];
    let info = parse_with_cta(&block);
    let edid_holder = info.edid().unwrap();
    let cta = CTA::from_extension(&edid_holder.extensions()[0]).unwrap();
    let blocks = cta.data_blocks();
    assert_eq!(blocks[0].tag(), DataBlockTag::DisplayidVideoTimingVii);
    let vii = blocks[0].did_type_vii_timing().unwrap();
    let t = vii.timing.unwrap();
    assert_eq!(t.pixel_clock_khz, 148_500);
    assert_eq!(t.horiz_active, 1920);
    assert_eq!(t.vert_active, 1080);
    assert_eq!(t.horiz_blank, 280);
}

#[test]
fn infoframe_block() {
    // Extended tag 32: processing descriptor with no extra payload, one
    // additional simultaneous VSIF, then AVI and dynamic-range
    // descriptors.
    let info = parse_with_cta(&[0xE5, 0x20, 0x00, 0x01, 0x02, 0x07]);
    let edid_holder = info.edid().unwrap();
    let cta = CTA::from_extension(&edid_holder.extensions()[0]).unwrap();
    let blocks = cta.data_blocks();
    assert_eq!(blocks[0].tag(), DataBlockTag::Infoframe);
    let inf = blocks[0].infoframe().unwrap();
    assert_eq!(inf.num_simultaneous_vsifs(), 2);
    let frames = inf.infoframes();
    assert_eq!(frames.len(), 2);
    assert_eq!(
        frames[0].type_,
        libdisplay_info::cta::InfoframeType::AuxiliaryVideoInformation
    );
    assert_eq!(
        frames[1].type_,
        libdisplay_info::cta::InfoframeType::DynamicRangeAndMastering
    );
}

#[test]
fn video_format_pref_block() {
    // Extended tag 13: a VIC reference, a DTD reference and the first
    // type VIII VTDB reference, in preference order.
    let info = parse_with_cta(&[0xE4, 0x0D, 16, 129, 161]);
    let edid_holder = info.edid().unwrap();
    let cta = CTA::from_extension(&edid_holder.extensions()[0]).unwrap();
    let pref = cta.data_blocks()[0].video_format_pref().unwrap();
    let svrs = pref.svrs();
    assert_eq!(svrs.len(), 3);
    assert_eq!(svrs[0].type_, libdisplay_info::cta::SvrType::VIC);
    assert_eq!(svrs[0].vic, 16);
    assert_eq!(svrs[1].type_, libdisplay_info::cta::SvrType::DtdIndex);
    assert_eq!(svrs[1].dtd_index, 1);
    assert_eq!(svrs[2].type_, libdisplay_info::cta::SvrType::FirstT8vtdb);
}

#[test]
fn speaker_location_block() {
    // Extended tag 20: an active back-left channel without coordinates,
    // then an active front-right channel with coordinates.
    let info = parse_with_cta(&[0xE8, 0x14, 0x22, 0x04, 0x61, 0x01, 0x20, 0xE0, 0x00]);
    let edid_holder = info.edid().unwrap();
    let cta = CTA::from_extension(&edid_holder.extensions()[0]).unwrap();
    let blocks = cta.data_blocks();
    assert_eq!(blocks[0].tag(), DataBlockTag::SpeakerLocation);
    let sl = blocks[0].speaker_locations().unwrap();
    let locations = sl.locations();
    assert_eq!(locations.len(), 2);
    assert_eq!(locations[0].channel_index, 2);
    assert!(locations[0].is_active);
    assert!(!locations[0].has_coords);
    assert_eq!(
        locations[0].speaker_id,
        libdisplay_info::cta::SpeakerPlacement::BL
    );
    assert_eq!(locations[1].channel_index, 1);
    assert!(locations[1].has_coords);
    assert_eq!(
        locations[1].speaker_id,
        libdisplay_info::cta::SpeakerPlacement::FR
    );
    assert_eq!(locations[1].x, 32);
    assert_eq!(locations[1].y, -32);
    assert_eq!(locations[1].z, 0);
}

#[test]
fn hdr_dynamic_metadata_block() {
    // Extended tag 7: one record of metadata type 1, version 2.
    let info = parse_with_cta(&[0xE5, 0x07, 3, 1, 0, 0x02]);
    let edid_holder = info.edid().unwrap();
    let cta = CTA::from_extension(&edid_holder.extensions()[0]).unwrap();
    let blocks = cta.data_blocks();
    assert_eq!(blocks[0].tag(), DataBlockTag::HdrDynamicMetadata);
    let dynm = blocks[0].hdr_dynamic_metadata().unwrap();
    let t1 = dynm.type1.unwrap();
    assert_eq!(t1.type_1_hdr_metadata_version, 2);
    assert!(dynm.type2.is_none());
    assert!(dynm.type3.is_none());
    assert!(dynm.type4.is_none());
    assert!(dynm.type256.is_none());
}

#[test]
fn cap_map_correlates_with_video_block() {
    // A video block with three SVDs and a capability map whose bits mark
    // the first and third of them.
    let info = parse_with_cta(&[0x43, 16, 4, 31, 0xE2, 0x0F, 0x05]);
    let edid_holder = info.edid().unwrap();
    let cta = CTA::from_extension(&edid_holder.extensions()[0]).unwrap();
    let blocks = cta.data_blocks();
    let svds = blocks[0].video().unwrap().svds();
    let map = blocks[1].ycbcr420_cap_map().unwrap();
    let supported = map.supported_among(svds);
    assert_eq!(supported.len(), 2);
    assert_eq!(supported[0].vic, 16);
    assert_eq!(supported[1].vic, 31);
}

#[test]
fn interlaced_and_high_vic_formats() {
    // VIC 6: 720(1440)x480 interlaced, 4:3.
    let f6 = VideoFormat::from_vic(6).expect("VIC 6 defined");
    assert_eq!(f6.h_active, 1440);
    assert_eq!(f6.v_active, 240);
    assert!(f6.interlaced);
    assert_eq!(f6.pixel_clock_hz, 27_000_000);
    assert_eq!(f6.picture_aspect_ratio, VideoFormatPictureAspectRatio::_4_3);
    // VIC 97: 3840x2160 at 60.
    let f97 = VideoFormat::from_vic(97).expect("VIC 97 defined");
    assert_eq!(f97.h_active, 3840);
    assert_eq!(f97.pixel_clock_hz, 594_000_000);
    // VIC 219: 4096x2160 at 120.
    let f219 = VideoFormat::from_vic(219).expect("VIC 219 defined");
    assert_eq!(f219.h_active, 4096);
    assert_eq!(f219.pixel_clock_hz, 1_188_000_000);
    // The gap between the defined code ranges stays empty.
    assert!(VideoFormat::from_vic(128).is_none());
    assert!(VideoFormat::from_vic(192).is_none());
}

#[test]
fn unmodeled_blocks_keep_their_tag() {
    // A VESA display device block (extended tag 2) and an HDMI audio
    // block (extended tag 18) surface with their tags; their payloads are
    // not modeled.
    let info = parse_with_cta(&[0xE4, 0x02, 0x00, 0x00, 0x00, 0xE2, 0x12, 0x00]);
    let edid_holder = info.edid().unwrap();
    let cta = CTA::from_extension(&edid_holder.extensions()[0]).unwrap();
    let blocks = cta.data_blocks();
    assert_eq!(blocks.len(), 2);
    assert_eq!(blocks[0].tag(), DataBlockTag::VesaDisplayDevice);
    assert_eq!(blocks[1].tag(), DataBlockTag::HdmiAudio);
    assert!(blocks[0].audio().is_none());
    assert!(blocks[0].video_cap().is_none());
}
