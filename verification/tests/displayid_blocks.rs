//! DisplayID sections carried as EDID extension blocks: versions 1 and 2,
//! display parameters, type I timings and the tiled topology.

use libdisplay_info::displayid::{
    DataBlockTag, DisplayId, ProductType, TiledTopoSingleRecvBehavior, TypeITimingAspectRatio,
    TypeITimingSyncPolarity,
};
use libdisplay_info::displayid2::{DisplayId2, PrimaryUseCase};
use libdisplay_info::edid::ExtensionTag;
use libdisplay_info::info::Info;

fn fix_checksum(block: &mut [u8]) {
    let sum: u32 = block[..127].iter().map(|b| *b as u32).sum();
    block[127] = ((256 - (sum % 256)) % 256) as u8;
}

fn base_with_one_ext() -> Vec<u8> {
    let mut d = vec![0u8; 128];
    for i in 1..7 {
        d[i] = 0xFF;
    }
    d[18] = 1;
    d[19] = 4;
    for i in 0..8 {
        d[38 + 2 * i] = 0x01;
        d[39 + 2 * i] = 0x01;
    }
    d[126] = 1;
    fix_checksum(&mut d);
    d
}

/// A DisplayID 1.3 extension block holding the given data-block bytes.
fn did_ext(payload: &[u8], product_type: u8) -> Vec<u8> {
    let mut e = vec![0u8; 128];
    e[0] = 0x70;
    e[1] = 0x13;
    e[2] = payload.len() as u8;
    e[3] = product_type;
    e[4] = 0;
    e[5..5 + payload.len()].copy_from_slice(payload);
    fix_checksum(&mut e);
    e
}

#[test]
fn displayid_header() {
    let mut d = base_with_one_ext();
    d.extend_from_slice(&did_ext(&[], 3));
    let info = Info::parse_edid(&d).unwrap();
    let edid_holder = info.edid().unwrap();
    let exts = edid_holder.extensions();
    assert_eq!(exts[0].tag(), ExtensionTag::DisplayId);
    let did = DisplayId::from_extension(&exts[0]).expect("version 1 section");
    assert_eq!(did.version(), 1);
    assert_eq!(did.revision(), 3);
    assert_eq!(did.product_type(), ProductType::StandaloneDisplay);
    assert!(did.data_blocks().is_empty());
    assert!(DisplayId2::from_extension(&exts[0]).is_none());
}

#[test]
fn displayid_display_params() {
    // Display parameters block: 300.0 x 170.0 mm, 1920 x 1080, audio
    // feature, gamma 2.20, aspect ratio 1.78, 10 bits overall, 8 native.
    let block: &[u8] = &[
        0x01, 0x00, 0x0C, 0xB8, 0x0B, 0xA4, 0x06, 0x80, 0x07, 0x38, 0x04, 0x80, 120, 78, 0x97,
    ];
    let mut d = base_with_one_ext();
    d.extend_from_slice(&did_ext(block, 2));
    let info = Info::parse_edid(&d).unwrap();
    let edid_holder = info.edid().unwrap();
    let did = DisplayId::from_extension(&edid_holder.extensions()[0]).unwrap();
    let blocks = did.data_blocks();
    assert_eq!(blocks.len(), 1);
    assert_eq!(blocks[0].tag(), DataBlockTag::DisplayParams);
    let p = blocks[0].display_params().unwrap();
    assert_eq!(p.horiz_image_tenths_mm, 3000);
    assert_eq!(p.vert_image_tenths_mm, 1700);
    assert_eq!(p.horiz_pixels, 1920);
    assert_eq!(p.vert_pixels, 1080);
    assert!(p.features.unwrap().audio);
    assert!(!p.features.unwrap().deinterlacing);
    assert_eq!(p.gamma_hundredths, Some(220));
    assert_eq!(p.aspect_ratio_hundredths, 178);
    assert_eq!(p.bits_per_color_overall, 10);
    assert_eq!(p.bits_per_color_native, 8);
}

#[test]
fn displayid_gamma_sentinel() {
    let mut block = vec![0x01, 0x00, 0x0C];
    block.extend_from_slice(&[0, 0, 0, 0, 0, 0, 0, 0, 0, 0xFF, 0, 0]);
    let mut d = base_with_one_ext();
    d.extend_from_slice(&did_ext(&block, 2));
    let info = Info::parse_edid(&d).unwrap();
    let edid_holder = info.edid().unwrap();
    let did = DisplayId::from_extension(&edid_holder.extensions()[0]).unwrap();
    let p = did.data_blocks()[0].display_params().unwrap();
    assert_eq!(p.gamma_hundredths, None);
}

#[test]
fn displayid_type_i_timing() {
    // One 20-byte type I timing: 148.5 MHz, preferred, 16:9, 1920x1080,
    // blank 280/45, offset 88/4, sync width 44/5, both polarities
    // positive.
    let clock = 148_500 / 10 - 1;  // 10 kHz units, stored minus one
    let block: Vec<u8> = vec![
        0x03,
        0x00,
        20,
        (clock & 0xFF) as u8,
        ((clock >> 8) & 0xFF) as u8,
        ((clock >> 16) & 0xFF) as u8,
        0x84,
        0x7F,
        0x07,
        0x17,
        0x01,
        87,
        0x80,
        43,
        0x00,
        0x37,
        0x04,
        44,
        0x00,
        3,
        0x80,
        4,
        0x00,
    ];
    let mut d = base_with_one_ext();
    d.extend_from_slice(&did_ext(&block, 2));
    let info = Info::parse_edid(&d).unwrap();
    let edid_holder = info.edid().unwrap();
    let did = DisplayId::from_extension(&edid_holder.extensions()[0]).unwrap();
    let timings = did.data_blocks()[0].type_i_timings().unwrap();
    assert_eq!(timings.len(), 1);
    let t = timings[0];
    assert_eq!(t.pixel_clock_khz, 148_500);
    assert!(t.preferred);
    assert_eq!(t.aspect_ratio, TypeITimingAspectRatio::_16_9);
    assert_eq!(t.horiz_active, 1920);
    assert_eq!(t.vert_active, 1080);
    assert_eq!(t.horiz_blank, 280);
    assert_eq!(t.vert_blank, 45);
    assert_eq!(t.horiz_offset, 88);
    assert_eq!(t.vert_offset, 4);
    assert_eq!(t.horiz_sync_width, 44);
    assert_eq!(t.vert_sync_width, 5);
    assert_eq!(t.horiz_sync_polarity, TypeITimingSyncPolarity::Positive);
    assert_eq!(t.vert_sync_polarity, TypeITimingSyncPolarity::Positive);
    assert!(!t.interlaced);
}

#[test]
fn displayid_tiled_topology() {
    // 3x2 tile grid, this tile at (2, 1) 1-based, 1920x1080 per tile,
    // no bezel, vendor "DEL", product 0x1234, serial 0x12345678.
    let mut block = vec![0x12, 0x00, 22];
    let payload: [u8; 22] = [
        0x81, 0x21, 0x10, 0x00, 0x7F, 0x07, 0x37, 0x04, 0x00, 0x00, 0x00, 0x00, 0x00, 0x10,
        0xAC, 0x00, 0x34, 0x12, 0x78, 0x56, 0x34, 0x12,
    ];
    block.extend_from_slice(&payload);
    let mut d = base_with_one_ext();
    d.extend_from_slice(&did_ext(&block, 2));
    let info = Info::parse_edid(&d).unwrap();
    let edid_holder = info.edid().unwrap();
    let did = DisplayId::from_extension(&edid_holder.extensions()[0]).unwrap();
    let topo = did.data_blocks()[0].tiled_topo().unwrap();
    let caps = topo.caps.unwrap();
    assert!(caps.single_enclosure);
    assert_eq!(caps.single_recv_behavior, TiledTopoSingleRecvBehavior::TileOnly);
    assert_eq!(topo.total_horiz_tiles, 3);
    assert_eq!(topo.total_vert_tiles, 2);
    assert_eq!(topo.horiz_tile_location, 2);
    assert_eq!(topo.vert_tile_location, 1);
    assert_eq!(topo.horiz_tile_pixels, 1920);
    assert_eq!(topo.vert_tile_lines, 1080);
    assert!(topo.bezel.is_none());
    assert_eq!(topo.vendor_id, ['D', 'E', 'L']);
    assert_eq!(topo.product_code, 0x1234);
    assert_eq!(topo.serial_number, 0x12345678);
}

#[test]
fn displayid2_section() {
    let mut e = vec![0u8; 128];
    e[0] = 0x70;
    e[1] = 0x20;
    e[2] = 0;
    e[3] = 0x04;
    fix_checksum(&mut e);
    let mut d = base_with_one_ext();
    d.extend_from_slice(&e);
    let info = Info::parse_edid(&d).unwrap();
    let edid_holder = info.edid().unwrap();
    let exts = edid_holder.extensions();
    assert!(DisplayId::from_extension(&exts[0]).is_none());
    let did2 = DisplayId2::from_extension(&exts[0]).expect("version 2 section");
    assert_eq!(did2.revision(), 0);
    assert_eq!(
        did2.product_primary_use_case(),
        PrimaryUseCase::DesktopProductivity
    );
}

#[test]
fn bindgen_test_layout_di_displayid_display_params_features() {
    // The feature-flag record is eight independent booleans; it occupies
    // one byte per flag and needs no padding.
    assert_eq!(
        std::mem::size_of::<libdisplay_info::displayid::DisplayParamsFeatures>(),
        8usize
    );
    assert_eq!(
        std::mem::align_of::<libdisplay_info::displayid::DisplayParamsFeatures>(),
        1usize
    );
    // Each flag stores independently of the others.
    let f = libdisplay_info::displayid::DisplayParamsFeatures {
        audio: true,
        separate_audio_inputs: false,
        audio_input_override: true,
        power_management: false,
        fixed_timing: true,
        fixed_pixel_format: false,
        ai: true,
        deinterlacing: false,
    };
    assert!(f.audio && f.audio_input_override && f.fixed_timing && f.ai);
    assert!(!f.separate_audio_inputs && !f.power_management);
    assert!(!f.fixed_pixel_format && !f.deinterlacing);
}
