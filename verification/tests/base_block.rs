//! Field-level decoding of the 128-byte base block: identity, video
//! input, sentinels, timings and descriptors.

use libdisplay_info::edid::{
    DetailedTimingDefSignalType, DetailedTimingDefStereo, DetailedTimingDefSyncPolarity,
    DisplayColorType, DisplayDescriptorTag, DisplayRangeLimitsType, ScreenSize,
    StandardTimingAspectRatio, VideoInputDigitalInterface,
};
use libdisplay_info::info::Info;

fn fix_checksum(block: &mut [u8]) {
    let sum: u32 = block[..127].iter().map(|b| *b as u32).sum();
    block[127] = ((256 - (sum % 256)) % 256) as u8;
}

fn base_14() -> Vec<u8> {
    let mut d = vec![0u8; 128];
    for i in 1..7 {
        d[i] = 0xFF;
    }
    d[18] = 1;
    d[19] = 4;
    for i in 0..8 {
        d[38 + 2 * i] = 0x01;
        d[39 + 2 * i] = 0x01;
    }
    fix_checksum(&mut d);
    d
}

fn parse(d: &[u8]) -> Info {
    Info::parse_edid(d).expect("blob parses")
}

#[test]
fn vendor_product_fields() {
    let mut d = base_14();
    d[8] = 0x10;
    d[9] = 0xAC;
    d[10] = 0x34;
    d[11] = 0x12;
    d[12] = 0x78;
    d[13] = 0x56;
    d[14] = 0x34;
    d[15] = 0x12;
    d[16] = 23;
    d[17] = 30;
    fix_checksum(&mut d);
    let info = parse(&d);
    let vp = info.edid().unwrap().vendor_product();
    assert_eq!(vp.manufacturer, ['D', 'E', 'L']);
    assert_eq!(vp.product, 0x1234);
    assert_eq!(vp.serial, Some(0x12345678));
    assert_eq!(vp.manufacture_week, 23);
    assert_eq!(vp.manufacture_year, 2020);
    assert_eq!(vp.model_year, None);
}

#[test]
fn model_year_marker() {
    let mut d = base_14();
    d[16] = 0xFF;
    d[17] = 30;
    fix_checksum(&mut d);
    let vp = parse(&d).edid().unwrap().vendor_product();
    assert_eq!(vp.model_year, Some(2020));
    assert_eq!(vp.manufacture_week, 0);
    assert_eq!(vp.manufacture_year, 0);
    // The adjacent raw value decodes as a manufacture date instead.
    let mut d2 = base_14();
    d2[16] = 0xFE;
    d2[17] = 30;
    fix_checksum(&mut d2);
    let vp2 = parse(&d2).edid().unwrap().vendor_product();
    assert_eq!(vp2.model_year, None);
    assert_eq!(vp2.manufacture_week, 0xFE);
    assert_eq!(vp2.manufacture_year, 2020);
}

#[test]
fn serial_sentinel_boundary() {
    let mut d = base_14();
    fix_checksum(&mut d);
    assert_eq!(parse(&d).edid().unwrap().vendor_product().serial, None);
    d[12] = 1;
    fix_checksum(&mut d);
    assert_eq!(parse(&d).edid().unwrap().vendor_product().serial, Some(1));
}

#[test]
fn gamma_sentinel_boundary() {
    let mut d = base_14();
    d[23] = 0xFF;
    fix_checksum(&mut d);
    assert_eq!(parse(&d).edid().unwrap().basic_gamma(), None);
    d[23] = 0xFE;
    fix_checksum(&mut d);
    assert_eq!(parse(&d).edid().unwrap().basic_gamma(), Some(354));
    d[23] = 120;
    fix_checksum(&mut d);
    let info = parse(&d);
    assert_eq!(info.edid().unwrap().basic_gamma(), Some(220));
    assert_eq!(info.default_gamma(), Some(220));
}

#[test]
fn digital_video_input() {
    let mut d = base_14();
    d[20] = 0x80 | 0x20 | 0x05;
    fix_checksum(&mut d);
    let edid_owner = parse(&d);
    let edid = edid_owner.edid().unwrap();
    assert!(edid.video_input_analog().is_none());
    let digital = edid.video_input_digital().unwrap();
    assert_eq!(digital.color_bit_depth, Some(8));
    assert_eq!(digital.interface, VideoInputDigitalInterface::DisplayPort);
    assert!(!digital.dfp1);
    // Digital EDID 1.4 always reports an undefined color type and
    // supports RGB 4:4:4.
    assert_eq!(edid.display_color_type(), DisplayColorType::Undefined);
    let formats = edid.color_encoding_formats().unwrap();
    assert!(formats.rgb444);
}

#[test]
fn analog_video_input() {
    let mut d = base_14();
    d[20] = 0x2F;  // analog, level 1, all four sync flags raised
    fix_checksum(&mut d);
    let owner = parse(&d);
    let analog = owner.edid().unwrap().video_input_analog().unwrap();
    assert!(owner.edid().unwrap().video_input_digital().is_none());
    assert!(analog.sync_separate);
    assert!(analog.sync_composite);
    assert!(analog.sync_on_green);
    assert!(analog.sync_serrations);
}

#[test]
fn screen_size_variants() {
    let mut d = base_14();
    d[21] = 60;
    d[22] = 34;
    fix_checksum(&mut d);
    assert_eq!(
        parse(&d).edid().unwrap().screen_size(),
        ScreenSize::Size { width_cm: 60, height_cm: 34 }
    );
    d[21] = 79;
    d[22] = 0;
    fix_checksum(&mut d);
    assert_eq!(
        parse(&d).edid().unwrap().screen_size(),
        ScreenSize::LandscapeAspectRatio { ratio_hundredths: 178 }
    );
    d[21] = 0;
    fix_checksum(&mut d);
    assert_eq!(parse(&d).edid().unwrap().screen_size(), ScreenSize::Undefined);
}

#[test]
fn established_timing_bits() {
    let mut d = base_14();
    d[35] = 0x20;
    d[36] = 0x08;
    d[37] = 0x80;
    fix_checksum(&mut d);
    let owner = parse(&d);
    let et = owner.edid().unwrap().established_timings();
    assert!(et.has_640x480_60hz);
    assert!(et.has_1024x768_60hz);
    assert!(et.has_1152x870_75hz);
    assert!(!et.has_800x600_60hz);
}

#[test]
fn standard_timing_decode_and_dmt() {
    let mut d = base_14();
    d[38] = 0x61;
    d[39] = 0x40;
    fix_checksum(&mut d);
    let owner = parse(&d);
    let timings = owner.edid().unwrap().standard_timings();
    assert_eq!(timings.len(), 1);
    let t = timings[0];
    assert_eq!(t.horiz_video, 1024);
    assert_eq!(t.aspect_ratio, StandardTimingAspectRatio::_4_3);
    assert_eq!(t.refresh_rate_hz, 60);
    assert_eq!(t.vert_video(), 768);
    let dmt = t.dmt().expect("1024x768 at 60 has a DMT entry");
    assert_eq!(dmt.dmt_id, 0x10);
    assert_eq!(dmt.pixel_clock_hz, 65_000_000);
    assert_eq!(dmt.horiz_blank, 320);
}

#[test]
fn detailed_timing_1080p() {
    let mut d = base_14();
    let o = 54;
    let dtd: [u8; 18] = [
        0x02, 0x3A, 0x80, 0x18, 0x71, 0x38, 0x2D, 0x40, 0x58, 0x2C, 0x45, 0x00, 0xFD, 0x1E,
        0x11, 0x00, 0x00, 0x1E,
    ];
    d[o..o + 18].copy_from_slice(&dtd);
    fix_checksum(&mut d);
    let owner = parse(&d);
    let defs = owner.edid().unwrap().detailed_timing_defs();
    assert_eq!(defs.len(), 1);
    let t = defs[0];
    assert_eq!(t.pixel_clock_hz, 148_500_000);
    assert_eq!(t.horiz_video, 1920);
    assert_eq!(t.vert_video, 1080);
    assert_eq!(t.horiz_blank, 280);
    assert_eq!(t.vert_blank, 45);
    assert_eq!(t.horiz_front_porch, 88);
    assert_eq!(t.horiz_sync_pulse, 44);
    assert_eq!(t.vert_front_porch, 4);
    assert_eq!(t.vert_sync_pulse, 5);
    assert_eq!(t.horiz_image_mm, 509);
    assert_eq!(t.vert_image_mm, 286);
    assert_eq!(t.horiz_border, None);
    assert_eq!(t.vert_border, None);
    assert!(!t.interlaced);
    assert_eq!(t.stereo, DetailedTimingDefStereo::NONE);
    assert_eq!(t.signal_type, DetailedTimingDefSignalType::DigitalSeparate);
    let sep = t.digital_separate.unwrap();
    assert_eq!(sep.sync_vert_polarity, DetailedTimingDefSyncPolarity::Positive);
    assert_eq!(sep.sync_horiz_polarity, DetailedTimingDefSyncPolarity::Positive);
    assert!(t.analog_composite.is_none());
}

#[test]
fn display_descriptor_text() {
    let mut d = base_14();
    let o = 54;
    d[o + 3] = 0xFC;
    d[o + 5..o + 18].copy_from_slice(b"Hello\n       ");
    fix_checksum(&mut d);
    let owner = parse(&d);
    let descs = owner.edid().unwrap().display_descriptors();
    assert_eq!(descs.len(), 1);
    assert_eq!(descs[0].tag(), DisplayDescriptorTag::ProductName);
    assert_eq!(descs[0].string().unwrap(), "Hello");
    assert!(descs[0].range_limits().is_none());
}

#[test]
fn display_range_limits() {
    let mut d = base_14();
    let o = 54;
    d[o + 3] = 0xFD;
    d[o + 5] = 48;
    d[o + 6] = 75;
    d[o + 7] = 30;
    d[o + 8] = 83;
    d[o + 9] = 10;
    d[o + 10] = 0x00;
    fix_checksum(&mut d);
    let owner = parse(&d);
    let descs = owner.edid().unwrap().display_descriptors();
    let limits = descs[0].range_limits().unwrap();
    assert_eq!(limits.min_vert_rate_hz, 48);
    assert_eq!(limits.max_vert_rate_hz, 75);
    assert_eq!(limits.min_horiz_rate_hz, 30_000);
    assert_eq!(limits.max_horiz_rate_hz, 83_000);
    assert_eq!(limits.max_pixel_clock_hz, Some(100_000_000));
    assert_eq!(limits.type_, DisplayRangeLimitsType::DefaultGtf);
    assert!(limits.secondary_gtf.is_none());
    assert!(limits.cvt.is_none());
}

#[test]
fn cvt_timing_codes_descriptor() {
    let mut d = base_14();
    let o = 54;
    d[o + 3] = 0xF8;
    d[o + 4] = 0x01;
    // 1200 lines: stored (1200 / 2) - 1 = 599 = 0x257; aspect 16:10 (2);
    // preferred 60 Hz (1); supports 60 Hz standard and reduced blanking.
    d[o + 5] = 0x57;
    d[o + 6] = 0x28;
    d[o + 7] = 0x29;
    fix_checksum(&mut d);
    let owner = parse(&d);
    let descs = owner.edid().unwrap().display_descriptors();
    let codes = descs[0].cvt_timing_codes().unwrap();
    assert_eq!(codes.len(), 1);
    let c = codes[0];
    assert_eq!(c.addressable_lines_per_field, 1200);
    assert!(c.supports_60hz_sb);
    assert!(c.supports_60hz_rb);
    assert!(!c.supports_50hz_sb);
}

#[test]
fn established_timings_iii_descriptor() {
    let mut d = base_14();
    let o = 54;
    d[o + 3] = 0xF7;
    d[o + 4] = 0x0A;
    // Byte 6 bit 1 selects 1024x768 at 85 Hz (DMT 0x13).
    d[o + 6] = 0x02;
    fix_checksum(&mut d);
    let owner = parse(&d);
    let descs = owner.edid().unwrap().display_descriptors();
    assert_eq!(descs[0].tag(), DisplayDescriptorTag::EstablishedTimingsIII);
    let timings = descs[0].established_timings_iii().unwrap();
    assert_eq!(timings.len(), 1);
    assert_eq!(timings[0].dmt_id, 0x13);
    assert_eq!(timings[0].horiz_video, 1024);
}

#[test]
fn secondary_gtf_range_limits() {
    let mut d = base_14();
    let o = 54;
    d[o + 3] = 0xFD;
    d[o + 5] = 50;
    d[o + 6] = 90;
    d[o + 7] = 25;
    d[o + 8] = 95;
    d[o + 9] = 20;
    d[o + 10] = 0x02;
    d[o + 11] = 0;
    d[o + 12] = 40;  // start frequency in 2 kHz steps
    d[o + 13] = 80;  // C times two
    d[o + 14] = 0x58;  // M low
    d[o + 15] = 0x02;  // M high
    d[o + 16] = 128;  // K
    d[o + 17] = 40;  // J times two
    fix_checksum(&mut d);
    let owner = parse(&d);
    let descs = owner.edid().unwrap().display_descriptors();
    let limits = descs[0].range_limits().unwrap();
    assert_eq!(limits.type_, DisplayRangeLimitsType::SecondaryGtf);
    let gtf = limits.secondary_gtf.unwrap();
    assert_eq!(gtf.start_freq_hz, 80_000);
    assert_eq!(gtf.c_times_2, 80);
    assert_eq!(gtf.m, 600);
    assert_eq!(gtf.k, 128);
    assert_eq!(gtf.j_times_2, 40);
    assert!(limits.cvt.is_none());
}

#[test]
fn cvt_range_limits() {
    let mut d = base_14();
    let o = 54;
    d[o + 3] = 0xFD;
    d[o + 5] = 24;
    d[o + 6] = 120;
    d[o + 7] = 30;
    d[o + 8] = 160;
    d[o + 9] = 30;  // 300 MHz before the additional precision
    d[o + 10] = 0x04;
    d[o + 11] = 0x11;  // CVT version 1.1
    d[o + 12] = 0x08;  // subtract 2 * 0.25 MHz
    d[o + 13] = 0xF0;  // 240 * 8 = 1920 maximum active pixels
    d[o + 14] = 0xE0;  // 4:3, 16:9, 16:10 supported
    d[o + 15] = 0x38;  // preferred 16:9, standard and reduced blanking
    d[o + 16] = 0x90;  // horizontal shrink, vertical stretch
    d[o + 17] = 60;
    fix_checksum(&mut d);
    let owner = parse(&d);
    let descs = owner.edid().unwrap().display_descriptors();
    let limits = descs[0].range_limits().unwrap();
    assert_eq!(limits.type_, DisplayRangeLimitsType::Cvt);
    assert_eq!(limits.max_pixel_clock_hz, Some(299_500_000));
    let cvt = limits.cvt.unwrap();
    assert_eq!(cvt.version, 1);
    assert_eq!(cvt.revision, 1);
    assert_eq!(cvt.max_horiz_px, Some(1920));
    assert!(cvt.supported_aspect_ratio.four_three);
    assert!(cvt.supported_aspect_ratio.sixteen_nine);
    assert!(cvt.supported_aspect_ratio.sixteen_ten);
    assert!(!cvt.supported_aspect_ratio.five_four);
    assert!(cvt.preferred_aspect_ratio.sixteen_nine);
    assert!(!cvt.preferred_aspect_ratio.four_three);
    assert!(cvt.standard_blanking);
    assert!(cvt.reduced_blanking);
    assert!(cvt.supported_scaling.horiz_shrink);
    assert!(cvt.supported_scaling.vert_stretch);
    assert!(!cvt.supported_scaling.horiz_stretch);
    assert_eq!(cvt.preferred_vert_refresh_hz, 60);
}

#[test]
fn color_point_descriptor() {
    let mut d = base_14();
    let o = 54;
    d[o + 3] = 0xFB;
    d[o + 5] = 1;
    d[o + 6] = 0x0F;
    d[o + 7] = 80;
    d[o + 8] = 84;
    d[o + 9] = 120;
    // Second slot index 0: unused.
    fix_checksum(&mut d);
    let owner = parse(&d);
    let descs = owner.edid().unwrap().display_descriptors();
    assert_eq!(descs[0].tag(), DisplayDescriptorTag::ColorPoint);
    let points = descs[0].color_points().unwrap();
    assert_eq!(points.len(), 1);
    let p = points[0];
    assert_eq!(p.index, 1);
    assert_eq!(p.white_x, 323);
    assert_eq!(p.white_y, 339);
    assert_eq!(p.gamma, Some(220));
}

#[test]
fn std_timing_ids_descriptor() {
    let mut d = base_14();
    let o = 54;
    d[o + 3] = 0xFA;
    d[o + 5] = 0x61;
    d[o + 6] = 0x40;
    for k in 1..6 {
        d[o + 5 + 2 * k] = 0x01;
        d[o + 6 + 2 * k] = 0x01;
    }
    d[o + 17] = 0x0A;
    fix_checksum(&mut d);
    let owner = parse(&d);
    let descs = owner.edid().unwrap().display_descriptors();
    assert_eq!(descs[0].tag(), DisplayDescriptorTag::StdTimingIds);
    let timings = descs[0].standard_timings().unwrap();
    assert_eq!(timings.len(), 1);
    assert_eq!(timings[0].horiz_video, 1024);
    assert_eq!(timings[0].refresh_rate_hz, 60);
}

#[test]
fn dcm_data_descriptor() {
    let mut d = base_14();
    let o = 54;
    d[o + 3] = 0xF9;
    d[o + 5] = 0x03;
    d[o + 6] = 0x2C;
    d[o + 7] = 0x01;  // red a3 = 300
    d[o + 8] = 0x64;
    d[o + 9] = 0x00;  // red a2 = 100
    fix_checksum(&mut d);
    let owner = parse(&d);
    let descs = owner.edid().unwrap().display_descriptors();
    assert_eq!(descs[0].tag(), DisplayDescriptorTag::DcmData);
    let dcm = descs[0].color_management_data().unwrap();
    assert_eq!(dcm.version, 3);
    assert_eq!(dcm.red_a3, 300);
    assert_eq!(dcm.red_a2, 100);
    assert_eq!(dcm.green_a3, 0);
}

#[test]
fn unknown_descriptor_tags_are_skipped() {
    let mut d = base_14();
    let o = 54;
    d[o + 3] = 0x42;  // not a defined descriptor tag
    let o2 = 54 + 18;
    d[o2 + 3] = 0x10;  // dummy descriptor
    fix_checksum(&mut d);
    let owner = parse(&d);
    let descs = owner.edid().unwrap().display_descriptors();
    assert_eq!(descs.len(), 1);
    assert_eq!(descs[0].tag(), DisplayDescriptorTag::Dummy);
}

#[test]
fn range_limits_type_is_revision_dependent() {
    // A bare range-limits descriptor (type byte 0x01): reported as
    // default GTF before EDID 1.4, as bare from 1.4 on.
    let mut d = base_14();
    let o = 54;
    d[o + 3] = 0xFD;
    d[o + 5] = 50;
    d[o + 6] = 75;
    d[o + 7] = 30;
    d[o + 8] = 80;
    d[o + 10] = 0x01;
    d[19] = 3;
    fix_checksum(&mut d);
    let owner = parse(&d);
    let limits = owner.edid().unwrap().display_descriptors()[0].range_limits().unwrap();
    assert_eq!(limits.type_, DisplayRangeLimitsType::DefaultGtf);
    d[19] = 4;
    fix_checksum(&mut d);
    let owner14 = parse(&d);
    let limits14 = owner14.edid().unwrap().display_descriptors()[0].range_limits().unwrap();
    assert_eq!(limits14.type_, DisplayRangeLimitsType::Bare);
    // The CVT subtype exists only from EDID 1.4 on.
    d[o + 10] = 0x04;
    d[19] = 3;
    fix_checksum(&mut d);
    let owner13 = parse(&d);
    let limits13 = owner13.edid().unwrap().display_descriptors()[0].range_limits().unwrap();
    assert!(limits13.cvt.is_none());
    assert_eq!(limits13.type_, DisplayRangeLimitsType::DefaultGtf);
}

#[test]
fn dmt_lookup_covers_cross_referenced_entries() {
    // 1280x960 at 85 Hz: standard-timing code 0x8159, DMT ID 0x21.
    let mut d = base_14();
    d[38] = 0x81;
    d[39] = 0x59;
    fix_checksum(&mut d);
    let owner = parse(&d);
    let t = owner.edid().unwrap().standard_timings()[0];
    assert_eq!(t.horiz_video, 1280);
    assert_eq!(t.refresh_rate_hz, 85);
    let dmt = t.dmt().expect("1280x960 at 85 has a DMT entry");
    assert_eq!(dmt.dmt_id, 0x21);
    assert_eq!(dmt.pixel_clock_hz, 148_500_000);
    assert_eq!(dmt.vert_video, 960);
}

#[test]
fn established_timings_iii_reduced_blanking_entry() {
    // Bitmap byte 8 (third raw byte) bit 6 selects 1440x900 at 60 Hz with
    // reduced blanking (DMT 0x2F).
    let mut d = base_14();
    let o = 54;
    d[o + 3] = 0xF7;
    d[o + 4] = 0x0A;
    d[o + 8] = 0x40;
    fix_checksum(&mut d);
    let owner = parse(&d);
    let timings = owner.edid().unwrap().display_descriptors()[0]
        .established_timings_iii()
        .unwrap();
    assert_eq!(timings.len(), 1);
    assert_eq!(timings[0].dmt_id, 0x2F);
    assert_eq!(timings[0].horiz_video, 1440);
    assert!(timings[0].reduced_blanking);
}
