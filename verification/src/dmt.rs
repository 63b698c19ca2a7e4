//! VESA Display Monitor Timing (DMT) lookup.
//!
//! A static table of standardized timings, addressed by DMT ID or by the
//! 2-byte EDID standard-timing code.  The table carries every entry the
//! EDID cross references can reach: all timings named by the established
//! timings III bitmap and all timings with a standard-timing code.  The
//! VESA CVT ID column is not recorded.

use vstd::prelude::*;

verus! {

/// A DMT timing record.
///
/// The refresh rate is kept in millihertz; identifiers that do not exist
/// for an entry are zero.
#[derive(Debug, Clone, Copy, PartialEq, Eq)]
pub struct Timing {
    pub dmt_id: u8,
    pub edid_std_id: u16,
    pub cvt_id: u32,
    pub horiz_video: i32,
    pub vert_video: i32,
    pub refresh_rate_millihz: i32,
    pub pixel_clock_hz: i32,
    pub horiz_blank: i32,
    pub vert_blank: i32,
    pub horiz_front_porch: i32,
    pub vert_front_porch: i32,
    pub horiz_sync_pulse: i32,
    pub vert_sync_pulse: i32,
    pub horiz_border: i32,
    pub vert_border: i32,
    pub reduced_blanking: bool,
}

pub open spec fn spec_mk_timing(
    dmt_id: u8,
    edid_std_id: u16,
    horiz_video: i32,
    vert_video: i32,
    refresh_rate_millihz: i32,
    pixel_clock_hz: i32,
    horiz_blank: i32,
    vert_blank: i32,
    horiz_front_porch: i32,
    vert_front_porch: i32,
    horiz_sync_pulse: i32,
    vert_sync_pulse: i32,
    reduced_blanking: bool,
) -> Timing {
    Timing {
        dmt_id,
        edid_std_id,
        cvt_id: 0,
        horiz_video,
        vert_video,
        refresh_rate_millihz,
        pixel_clock_hz,
        horiz_blank,
        vert_blank,
        horiz_front_porch,
        vert_front_porch,
        horiz_sync_pulse,
        vert_sync_pulse,
        horiz_border: 0,
        vert_border: 0,
        reduced_blanking,
    }
}

fn mk_timing(
    dmt_id: u8,
    edid_std_id: u16,
    horiz_video: i32,
    vert_video: i32,
    refresh_rate_millihz: i32,
    pixel_clock_hz: i32,
    horiz_blank: i32,
    vert_blank: i32,
    horiz_front_porch: i32,
    vert_front_porch: i32,
    horiz_sync_pulse: i32,
    vert_sync_pulse: i32,
    reduced_blanking: bool,
) -> (r: Timing)
    ensures
        r == spec_mk_timing(
            dmt_id,
            edid_std_id,
            horiz_video,
            vert_video,
            refresh_rate_millihz,
            pixel_clock_hz,
            horiz_blank,
            vert_blank,
            horiz_front_porch,
            vert_front_porch,
            horiz_sync_pulse,
            vert_sync_pulse,
            reduced_blanking,
        ),
{
    Timing {
        dmt_id,
        edid_std_id,
        cvt_id: 0,
        horiz_video,
        vert_video,
        refresh_rate_millihz,
        pixel_clock_hz,
        horiz_blank,
        vert_blank,
        horiz_front_porch,
        vert_front_porch,
        horiz_sync_pulse,
        vert_sync_pulse,
        horiz_border: 0,
        vert_border: 0,
        reduced_blanking,
    }
}

/// The DMT entries this table records, by DMT ID: every entry reachable
/// from a 2-byte EDID standard-timing code or from the established
/// timings III bitmap.  The VESA CVT ID column is not recorded.
pub open spec fn spec_timing_by_dmt_id(id: u8) -> Option<Timing> {
    if id == 0x01 {
        Some(spec_mk_timing(0x01, 0, 640, 350, 85080, 31500000, 192, 95, 32, 32, 64, 3, false))    } else if id == 0x02 {
        Some(spec_mk_timing(0x02, 0x3119, 640, 400, 85080, 31500000, 192, 45, 32, 1, 64, 3, false))    } else if id == 0x03 {
        Some(spec_mk_timing(0x03, 0, 720, 400, 85039, 35500000, 216, 46, 36, 1, 72, 3, false))    } else if id == 0x04 {
        Some(spec_mk_timing(0x04, 0x3140, 640, 480, 59940, 25175000, 160, 45, 16, 10, 96, 2, false))    } else if id == 0x05 {
        Some(spec_mk_timing(0x05, 0x314C, 640, 480, 72809, 31500000, 192, 40, 24, 9, 40, 3, false))    } else if id == 0x06 {
        Some(spec_mk_timing(0x06, 0x314F, 640, 480, 75000, 31500000, 200, 20, 16, 1, 64, 3, false))    } else if id == 0x07 {
        Some(spec_mk_timing(0x07, 0x3159, 640, 480, 85008, 36000000, 192, 29, 56, 1, 56, 3, false))    } else if id == 0x08 {
        Some(spec_mk_timing(0x08, 0, 800, 600, 56250, 36000000, 224, 25, 24, 1, 72, 2, false))    } else if id == 0x09 {
        Some(spec_mk_timing(0x09, 0x4540, 800, 600, 60317, 40000000, 256, 28, 40, 1, 128, 4, false))    } else if id == 0x0A {
        Some(spec_mk_timing(0x0A, 0x454C, 800, 600, 72188, 50000000, 240, 66, 56, 37, 120, 6, false))    } else if id == 0x0B {
        Some(spec_mk_timing(0x0B, 0x454F, 800, 600, 75000, 49500000, 256, 25, 16, 1, 80, 3, false))    } else if id == 0x0C {
        Some(spec_mk_timing(0x0C, 0x4559, 800, 600, 85061, 56250000, 248, 31, 32, 1, 64, 3, false))    } else if id == 0x0D {
        Some(spec_mk_timing(0x0D, 0, 800, 600, 119972, 73250000, 160, 36, 48, 3, 32, 4, true))    } else if id == 0x0E {
        Some(spec_mk_timing(0x0E, 0, 848, 480, 60000, 33750000, 240, 37, 16, 6, 112, 8, false))    } else if id == 0x10 {
        Some(spec_mk_timing(0x10, 0x6140, 1024, 768, 60004, 65000000, 320, 38, 24, 3, 136, 6, false))    } else if id == 0x11 {
        Some(spec_mk_timing(0x11, 0x614A, 1024, 768, 70069, 75000000, 304, 38, 24, 3, 136, 6, false))    } else if id == 0x12 {
        Some(spec_mk_timing(0x12, 0x614F, 1024, 768, 75029, 78750000, 288, 32, 16, 1, 96, 3, false))    } else if id == 0x13 {
        Some(spec_mk_timing(0x13, 0x6159, 1024, 768, 84997, 94500000, 352, 40, 48, 1, 96, 3, false))    } else if id == 0x14 {
        Some(spec_mk_timing(0x14, 0, 1024, 768, 119989, 115500000, 160, 45, 48, 3, 32, 4, true))    } else if id == 0x15 {
        Some(spec_mk_timing(0x15, 0x714F, 1152, 864, 75000, 108000000, 448, 36, 64, 1, 128, 3, false))    } else if id == 0x16 {
        Some(spec_mk_timing(0x16, 0, 1280, 768, 59995, 68250000, 160, 22, 48, 3, 32, 7, true))    } else if id == 0x17 {
        Some(spec_mk_timing(0x17, 0, 1280, 768, 59870, 79500000, 384, 30, 64, 3, 128, 7, false))    } else if id == 0x18 {
        Some(spec_mk_timing(0x18, 0, 1280, 768, 74893, 102250000, 416, 37, 80, 3, 128, 7, false))    } else if id == 0x19 {
        Some(spec_mk_timing(0x19, 0, 1280, 768, 84837, 117500000, 432, 41, 80, 3, 136, 7, false))    } else if id == 0x1B {
        Some(spec_mk_timing(0x1B, 0, 1280, 800, 59910, 71000000, 160, 23, 48, 3, 32, 6, true))    } else if id == 0x1C {
        Some(spec_mk_timing(0x1C, 0x8100, 1280, 800, 59810, 83500000, 400, 31, 72, 3, 128, 6, false))    } else if id == 0x20 {
        Some(spec_mk_timing(0x20, 0x8140, 1280, 960, 60000, 108000000, 520, 40, 96, 1, 112, 3, false))    } else if id == 0x21 {
        Some(spec_mk_timing(0x21, 0x8159, 1280, 960, 85002, 148500000, 448, 51, 64, 1, 160, 3, false))    } else if id == 0x23 {
        Some(spec_mk_timing(0x23, 0x8180, 1280, 1024, 60020, 108000000, 408, 42, 48, 1, 112, 3, false))    } else if id == 0x24 {
        Some(spec_mk_timing(0x24, 0x818F, 1280, 1024, 75025, 135000000, 408, 42, 16, 1, 144, 3, false))    } else if id == 0x25 {
        Some(spec_mk_timing(0x25, 0x8199, 1280, 1024, 85024, 157500000, 448, 48, 64, 1, 160, 3, false))    } else if id == 0x27 {
        Some(spec_mk_timing(0x27, 0, 1360, 768, 60015, 85500000, 432, 27, 64, 3, 112, 6, false))    } else if id == 0x29 {
        Some(spec_mk_timing(0x29, 0, 1400, 1050, 59948, 101000000, 160, 30, 48, 3, 32, 4, true))    } else if id == 0x2A {
        Some(spec_mk_timing(0x2A, 0x9040, 1400, 1050, 59978, 121750000, 464, 39, 88, 3, 144, 4, false))    } else if id == 0x2B {
        Some(spec_mk_timing(0x2B, 0x904F, 1400, 1050, 74867, 156000000, 496, 49, 104, 3, 144, 4, false))    } else if id == 0x2C {
        Some(spec_mk_timing(0x2C, 0x9059, 1400, 1050, 84960, 179500000, 512, 55, 104, 3, 152, 4, false))    } else if id == 0x2F {
        Some(spec_mk_timing(0x2F, 0, 1440, 900, 59901, 88750000, 160, 26, 48, 3, 32, 6, true))    } else if id == 0x30 {
        Some(spec_mk_timing(0x30, 0x9500, 1440, 900, 59887, 106500000, 464, 34, 80, 3, 152, 6, false))    } else if id == 0x31 {
        Some(spec_mk_timing(0x31, 0x950F, 1440, 900, 74984, 136750000, 496, 42, 96, 3, 152, 6, false))    } else if id == 0x32 {
        Some(spec_mk_timing(0x32, 0x9519, 1440, 900, 84842, 157000000, 512, 48, 104, 3, 152, 6, false))    } else if id == 0x33 {
        Some(spec_mk_timing(0x33, 0xA940, 1600, 1200, 60000, 162000000, 560, 50, 64, 1, 192, 3, false))    } else if id == 0x34 {
        Some(spec_mk_timing(0x34, 0xA945, 1600, 1200, 65000, 175500000, 560, 50, 64, 1, 192, 3, false))    } else if id == 0x35 {
        Some(spec_mk_timing(0x35, 0xA94A, 1600, 1200, 70000, 189000000, 560, 50, 64, 1, 192, 3, false))    } else if id == 0x36 {
        Some(spec_mk_timing(0x36, 0xA94F, 1600, 1200, 75000, 202500000, 560, 50, 64, 1, 192, 3, false))    } else if id == 0x37 {
        Some(spec_mk_timing(0x37, 0xA959, 1600, 1200, 85000, 229500000, 560, 50, 64, 1, 192, 3, false))    } else if id == 0x39 {
        Some(spec_mk_timing(0x39, 0, 1680, 1050, 59883, 119000000, 160, 30, 48, 3, 32, 6, true))    } else if id == 0x3A {
        Some(spec_mk_timing(0x3A, 0xB300, 1680, 1050, 59954, 146250000, 560, 39, 104, 3, 176, 6, false))    } else if id == 0x3B {
        Some(spec_mk_timing(0x3B, 0xB30F, 1680, 1050, 74892, 187000000, 592, 49, 120, 3, 176, 6, false))    } else if id == 0x3C {
        Some(spec_mk_timing(0x3C, 0xB319, 1680, 1050, 84941, 214750000, 608, 55, 128, 3, 176, 6, false))    } else if id == 0x3E {
        Some(spec_mk_timing(0x3E, 0xC140, 1792, 1344, 60000, 204750000, 656, 50, 128, 1, 200, 3, false))    } else if id == 0x3F {
        Some(spec_mk_timing(0x3F, 0xC14F, 1792, 1344, 74997, 261000000, 664, 73, 96, 1, 216, 3, false))    } else if id == 0x41 {
        Some(spec_mk_timing(0x41, 0xC940, 1856, 1392, 59995, 218250000, 672, 47, 96, 1, 224, 3, false))    } else if id == 0x42 {
        Some(spec_mk_timing(0x42, 0xC94F, 1856, 1392, 75000, 288000000, 704, 108, 128, 1, 224, 3, false))    } else if id == 0x44 {
        Some(spec_mk_timing(0x44, 0, 1920, 1200, 59950, 154000000, 160, 35, 48, 3, 32, 6, true))    } else if id == 0x45 {
        Some(spec_mk_timing(0x45, 0xD100, 1920, 1200, 59885, 193250000, 672, 45, 136, 3, 200, 6, false))    } else if id == 0x46 {
        Some(spec_mk_timing(0x46, 0xD10F, 1920, 1200, 74930, 245250000, 688, 55, 136, 3, 208, 6, false))    } else if id == 0x47 {
        Some(spec_mk_timing(0x47, 0xD119, 1920, 1200, 84932, 281250000, 704, 62, 144, 3, 208, 6, false))    } else if id == 0x49 {
        Some(spec_mk_timing(0x49, 0xD140, 1920, 1440, 60000, 234000000, 680, 60, 128, 1, 208, 3, false))    } else if id == 0x4A {
        Some(spec_mk_timing(0x4A, 0xD14F, 1920, 1440, 75000, 297000000, 720, 60, 144, 1, 224, 3, false))    } else if id == 0x52 {
        Some(spec_mk_timing(0x52, 0xD1C0, 1920, 1080, 60000, 148500000, 280, 45, 88, 4, 44, 5, false))    } else if id == 0x55 {
        Some(spec_mk_timing(0x55, 0x81C0, 1280, 720, 60000, 74250000, 370, 30, 110, 5, 40, 5, false))
    } else {
        None
    }
}

/// Look a timing up by its DMT ID.
pub fn timing_by_dmt_id(id: u8) -> (r: Option<Timing>)
    ensures
        r == spec_timing_by_dmt_id(id),
{
    if id == 0x01 {
        Some(mk_timing(0x01, 0, 640, 350, 85080, 31500000, 192, 95, 32, 32, 64, 3, false))    } else if id == 0x02 {
        Some(mk_timing(0x02, 0x3119, 640, 400, 85080, 31500000, 192, 45, 32, 1, 64, 3, false))    } else if id == 0x03 {
        Some(mk_timing(0x03, 0, 720, 400, 85039, 35500000, 216, 46, 36, 1, 72, 3, false))    } else if id == 0x04 {
        Some(mk_timing(0x04, 0x3140, 640, 480, 59940, 25175000, 160, 45, 16, 10, 96, 2, false))    } else if id == 0x05 {
        Some(mk_timing(0x05, 0x314C, 640, 480, 72809, 31500000, 192, 40, 24, 9, 40, 3, false))    } else if id == 0x06 {
        Some(mk_timing(0x06, 0x314F, 640, 480, 75000, 31500000, 200, 20, 16, 1, 64, 3, false))    } else if id == 0x07 {
        Some(mk_timing(0x07, 0x3159, 640, 480, 85008, 36000000, 192, 29, 56, 1, 56, 3, false))    } else if id == 0x08 {
        Some(mk_timing(0x08, 0, 800, 600, 56250, 36000000, 224, 25, 24, 1, 72, 2, false))    } else if id == 0x09 {
        Some(mk_timing(0x09, 0x4540, 800, 600, 60317, 40000000, 256, 28, 40, 1, 128, 4, false))    } else if id == 0x0A {
        Some(mk_timing(0x0A, 0x454C, 800, 600, 72188, 50000000, 240, 66, 56, 37, 120, 6, false))    } else if id == 0x0B {
        Some(mk_timing(0x0B, 0x454F, 800, 600, 75000, 49500000, 256, 25, 16, 1, 80, 3, false))    } else if id == 0x0C {
        Some(mk_timing(0x0C, 0x4559, 800, 600, 85061, 56250000, 248, 31, 32, 1, 64, 3, false))    } else if id == 0x0D {
        Some(mk_timing(0x0D, 0, 800, 600, 119972, 73250000, 160, 36, 48, 3, 32, 4, true))    } else if id == 0x0E {
        Some(mk_timing(0x0E, 0, 848, 480, 60000, 33750000, 240, 37, 16, 6, 112, 8, false))    } else if id == 0x10 {
        Some(mk_timing(0x10, 0x6140, 1024, 768, 60004, 65000000, 320, 38, 24, 3, 136, 6, false))    } else if id == 0x11 {
        Some(mk_timing(0x11, 0x614A, 1024, 768, 70069, 75000000, 304, 38, 24, 3, 136, 6, false))    } else if id == 0x12 {
        Some(mk_timing(0x12, 0x614F, 1024, 768, 75029, 78750000, 288, 32, 16, 1, 96, 3, false))    } else if id == 0x13 {
        Some(mk_timing(0x13, 0x6159, 1024, 768, 84997, 94500000, 352, 40, 48, 1, 96, 3, false))    } else if id == 0x14 {
        Some(mk_timing(0x14, 0, 1024, 768, 119989, 115500000, 160, 45, 48, 3, 32, 4, true))    } else if id == 0x15 {
        Some(mk_timing(0x15, 0x714F, 1152, 864, 75000, 108000000, 448, 36, 64, 1, 128, 3, false))    } else if id == 0x16 {
        Some(mk_timing(0x16, 0, 1280, 768, 59995, 68250000, 160, 22, 48, 3, 32, 7, true))    } else if id == 0x17 {
        Some(mk_timing(0x17, 0, 1280, 768, 59870, 79500000, 384, 30, 64, 3, 128, 7, false))    } else if id == 0x18 {
        Some(mk_timing(0x18, 0, 1280, 768, 74893, 102250000, 416, 37, 80, 3, 128, 7, false))    } else if id == 0x19 {
        Some(mk_timing(0x19, 0, 1280, 768, 84837, 117500000, 432, 41, 80, 3, 136, 7, false))    } else if id == 0x1B {
        Some(mk_timing(0x1B, 0, 1280, 800, 59910, 71000000, 160, 23, 48, 3, 32, 6, true))    } else if id == 0x1C {
        Some(mk_timing(0x1C, 0x8100, 1280, 800, 59810, 83500000, 400, 31, 72, 3, 128, 6, false))    } else if id == 0x20 {
        Some(mk_timing(0x20, 0x8140, 1280, 960, 60000, 108000000, 520, 40, 96, 1, 112, 3, false))    } else if id == 0x21 {
        Some(mk_timing(0x21, 0x8159, 1280, 960, 85002, 148500000, 448, 51, 64, 1, 160, 3, false))    } else if id == 0x23 {
        Some(mk_timing(0x23, 0x8180, 1280, 1024, 60020, 108000000, 408, 42, 48, 1, 112, 3, false))    } else if id == 0x24 {
        Some(mk_timing(0x24, 0x818F, 1280, 1024, 75025, 135000000, 408, 42, 16, 1, 144, 3, false))    } else if id == 0x25 {
        Some(mk_timing(0x25, 0x8199, 1280, 1024, 85024, 157500000, 448, 48, 64, 1, 160, 3, false))    } else if id == 0x27 {
        Some(mk_timing(0x27, 0, 1360, 768, 60015, 85500000, 432, 27, 64, 3, 112, 6, false))    } else if id == 0x29 {
        Some(mk_timing(0x29, 0, 1400, 1050, 59948, 101000000, 160, 30, 48, 3, 32, 4, true))    } else if id == 0x2A {
        Some(mk_timing(0x2A, 0x9040, 1400, 1050, 59978, 121750000, 464, 39, 88, 3, 144, 4, false))    } else if id == 0x2B {
        Some(mk_timing(0x2B, 0x904F, 1400, 1050, 74867, 156000000, 496, 49, 104, 3, 144, 4, false))    } else if id == 0x2C {
        Some(mk_timing(0x2C, 0x9059, 1400, 1050, 84960, 179500000, 512, 55, 104, 3, 152, 4, false))    } else if id == 0x2F {
        Some(mk_timing(0x2F, 0, 1440, 900, 59901, 88750000, 160, 26, 48, 3, 32, 6, true))    } else if id == 0x30 {
        Some(mk_timing(0x30, 0x9500, 1440, 900, 59887, 106500000, 464, 34, 80, 3, 152, 6, false))    } else if id == 0x31 {
        Some(mk_timing(0x31, 0x950F, 1440, 900, 74984, 136750000, 496, 42, 96, 3, 152, 6, false))    } else if id == 0x32 {
        Some(mk_timing(0x32, 0x9519, 1440, 900, 84842, 157000000, 512, 48, 104, 3, 152, 6, false))    } else if id == 0x33 {
        Some(mk_timing(0x33, 0xA940, 1600, 1200, 60000, 162000000, 560, 50, 64, 1, 192, 3, false))    } else if id == 0x34 {
        Some(mk_timing(0x34, 0xA945, 1600, 1200, 65000, 175500000, 560, 50, 64, 1, 192, 3, false))    } else if id == 0x35 {
        Some(mk_timing(0x35, 0xA94A, 1600, 1200, 70000, 189000000, 560, 50, 64, 1, 192, 3, false))    } else if id == 0x36 {
        Some(mk_timing(0x36, 0xA94F, 1600, 1200, 75000, 202500000, 560, 50, 64, 1, 192, 3, false))    } else if id == 0x37 {
        Some(mk_timing(0x37, 0xA959, 1600, 1200, 85000, 229500000, 560, 50, 64, 1, 192, 3, false))    } else if id == 0x39 {
        Some(mk_timing(0x39, 0, 1680, 1050, 59883, 119000000, 160, 30, 48, 3, 32, 6, true))    } else if id == 0x3A {
        Some(mk_timing(0x3A, 0xB300, 1680, 1050, 59954, 146250000, 560, 39, 104, 3, 176, 6, false))    } else if id == 0x3B {
        Some(mk_timing(0x3B, 0xB30F, 1680, 1050, 74892, 187000000, 592, 49, 120, 3, 176, 6, false))    } else if id == 0x3C {
        Some(mk_timing(0x3C, 0xB319, 1680, 1050, 84941, 214750000, 608, 55, 128, 3, 176, 6, false))    } else if id == 0x3E {
        Some(mk_timing(0x3E, 0xC140, 1792, 1344, 60000, 204750000, 656, 50, 128, 1, 200, 3, false))    } else if id == 0x3F {
        Some(mk_timing(0x3F, 0xC14F, 1792, 1344, 74997, 261000000, 664, 73, 96, 1, 216, 3, false))    } else if id == 0x41 {
        Some(mk_timing(0x41, 0xC940, 1856, 1392, 59995, 218250000, 672, 47, 96, 1, 224, 3, false))    } else if id == 0x42 {
        Some(mk_timing(0x42, 0xC94F, 1856, 1392, 75000, 288000000, 704, 108, 128, 1, 224, 3, false))    } else if id == 0x44 {
        Some(mk_timing(0x44, 0, 1920, 1200, 59950, 154000000, 160, 35, 48, 3, 32, 6, true))    } else if id == 0x45 {
        Some(mk_timing(0x45, 0xD100, 1920, 1200, 59885, 193250000, 672, 45, 136, 3, 200, 6, false))    } else if id == 0x46 {
        Some(mk_timing(0x46, 0xD10F, 1920, 1200, 74930, 245250000, 688, 55, 136, 3, 208, 6, false))    } else if id == 0x47 {
        Some(mk_timing(0x47, 0xD119, 1920, 1200, 84932, 281250000, 704, 62, 144, 3, 208, 6, false))    } else if id == 0x49 {
        Some(mk_timing(0x49, 0xD140, 1920, 1440, 60000, 234000000, 680, 60, 128, 1, 208, 3, false))    } else if id == 0x4A {
        Some(mk_timing(0x4A, 0xD14F, 1920, 1440, 75000, 297000000, 720, 60, 144, 1, 224, 3, false))    } else if id == 0x52 {
        Some(mk_timing(0x52, 0xD1C0, 1920, 1080, 60000, 148500000, 280, 45, 88, 4, 44, 5, false))    } else if id == 0x55 {
        Some(mk_timing(0x55, 0x81C0, 1280, 720, 60000, 74250000, 370, 30, 110, 5, 40, 5, false))
    } else {
        None
    }
}

/// The DMT ID (if any) recorded for a 2-byte EDID standard-timing code.
pub open spec fn spec_dmt_id_by_std_id(std: u16) -> Option<u8> {
    if std == 0x3119 {
        Some(0x02)
    } else if std == 0x3140 {
        Some(0x04)
    } else if std == 0x314C {
        Some(0x05)
    } else if std == 0x314F {
        Some(0x06)
    } else if std == 0x3159 {
        Some(0x07)
    } else if std == 0x4540 {
        Some(0x09)
    } else if std == 0x454C {
        Some(0x0A)
    } else if std == 0x454F {
        Some(0x0B)
    } else if std == 0x4559 {
        Some(0x0C)
    } else if std == 0x6140 {
        Some(0x10)
    } else if std == 0x614A {
        Some(0x11)
    } else if std == 0x614F {
        Some(0x12)
    } else if std == 0x6159 {
        Some(0x13)
    } else if std == 0x714F {
        Some(0x15)
    } else if std == 0x8100 {
        Some(0x1C)
    } else if std == 0x8140 {
        Some(0x20)
    } else if std == 0x8159 {
        Some(0x21)
    } else if std == 0x8180 {
        Some(0x23)
    } else if std == 0x818F {
        Some(0x24)
    } else if std == 0x8199 {
        Some(0x25)
    } else if std == 0x9040 {
        Some(0x2A)
    } else if std == 0x904F {
        Some(0x2B)
    } else if std == 0x9059 {
        Some(0x2C)
    } else if std == 0x9500 {
        Some(0x30)
    } else if std == 0x950F {
        Some(0x31)
    } else if std == 0x9519 {
        Some(0x32)
    } else if std == 0xA940 {
        Some(0x33)
    } else if std == 0xA945 {
        Some(0x34)
    } else if std == 0xA94A {
        Some(0x35)
    } else if std == 0xA94F {
        Some(0x36)
    } else if std == 0xA959 {
        Some(0x37)
    } else if std == 0xB300 {
        Some(0x3A)
    } else if std == 0xB30F {
        Some(0x3B)
    } else if std == 0xB319 {
        Some(0x3C)
    } else if std == 0xC140 {
        Some(0x3E)
    } else if std == 0xC14F {
        Some(0x3F)
    } else if std == 0xC940 {
        Some(0x41)
    } else if std == 0xC94F {
        Some(0x42)
    } else if std == 0xD100 {
        Some(0x45)
    } else if std == 0xD10F {
        Some(0x46)
    } else if std == 0xD119 {
        Some(0x47)
    } else if std == 0xD140 {
        Some(0x49)
    } else if std == 0xD14F {
        Some(0x4A)
    } else if std == 0xD1C0 {
        Some(0x52)
    } else if std == 0x81C0 {
        Some(0x55)
    } else {
        None
    }
}

pub open spec fn spec_timing_by_std_id(std: u16) -> Option<Timing> {
    match spec_dmt_id_by_std_id(std) {
        Some(id) => spec_timing_by_dmt_id(id),
        None => None,
    }
}

/// Look a timing up by the 2-byte EDID standard-timing code.
pub fn timing_by_std_id(std: u16) -> (r: Option<Timing>)
    ensures
        r == spec_timing_by_std_id(std),
{
    let id = if std == 0x3119 {
        Some(0x02u8)
    } else if std == 0x3140 {
        Some(0x04u8)
    } else if std == 0x314C {
        Some(0x05u8)
    } else if std == 0x314F {
        Some(0x06u8)
    } else if std == 0x3159 {
        Some(0x07u8)
    } else if std == 0x4540 {
        Some(0x09u8)
    } else if std == 0x454C {
        Some(0x0Au8)
    } else if std == 0x454F {
        Some(0x0Bu8)
    } else if std == 0x4559 {
        Some(0x0Cu8)
    } else if std == 0x6140 {
        Some(0x10u8)
    } else if std == 0x614A {
        Some(0x11u8)
    } else if std == 0x614F {
        Some(0x12u8)
    } else if std == 0x6159 {
        Some(0x13u8)
    } else if std == 0x714F {
        Some(0x15u8)
    } else if std == 0x8100 {
        Some(0x1Cu8)
    } else if std == 0x8140 {
        Some(0x20u8)
    } else if std == 0x8159 {
        Some(0x21u8)
    } else if std == 0x8180 {
        Some(0x23u8)
    } else if std == 0x818F {
        Some(0x24u8)
    } else if std == 0x8199 {
        Some(0x25u8)
    } else if std == 0x9040 {
        Some(0x2Au8)
    } else if std == 0x904F {
        Some(0x2Bu8)
    } else if std == 0x9059 {
        Some(0x2Cu8)
    } else if std == 0x9500 {
        Some(0x30u8)
    } else if std == 0x950F {
        Some(0x31u8)
    } else if std == 0x9519 {
        Some(0x32u8)
    } else if std == 0xA940 {
        Some(0x33u8)
    } else if std == 0xA945 {
        Some(0x34u8)
    } else if std == 0xA94A {
        Some(0x35u8)
    } else if std == 0xA94F {
        Some(0x36u8)
    } else if std == 0xA959 {
        Some(0x37u8)
    } else if std == 0xB300 {
        Some(0x3Au8)
    } else if std == 0xB30F {
        Some(0x3Bu8)
    } else if std == 0xB319 {
        Some(0x3Cu8)
    } else if std == 0xC140 {
        Some(0x3Eu8)
    } else if std == 0xC14F {
        Some(0x3Fu8)
    } else if std == 0xC940 {
        Some(0x41u8)
    } else if std == 0xC94F {
        Some(0x42u8)
    } else if std == 0xD100 {
        Some(0x45u8)
    } else if std == 0xD10F {
        Some(0x46u8)
    } else if std == 0xD119 {
        Some(0x47u8)
    } else if std == 0xD140 {
        Some(0x49u8)
    } else if std == 0xD14F {
        Some(0x4Au8)
    } else if std == 0xD1C0 {
        Some(0x52u8)
    } else if std == 0x81C0 {
        Some(0x55u8)
    } else {
        None
    };
    match id {
        Some(i) => timing_by_dmt_id(i),
        None => None,
    }
}

/// DMT ID assigned to bit `b` (7 = most significant) of bitmap byte `k` in
/// an established timings III descriptor, per the EDID 1.4 table.
pub open spec fn spec_est_iii_dmt_id(k: int, b: int) -> u8
    recommends
        0 <= k < 6,
        0 <= b < 8,
{
    let pos = k * 8 + (7 - b);
    if pos == 0 {
        0x01
    } else if pos == 1 {
        0x02
    } else if pos == 2 {
        0x03
    } else if pos == 3 {
        0x07
    } else if pos == 4 {
        0x0E
    } else if pos == 5 {
        0x0C
    } else if pos == 6 {
        0x13
    } else if pos == 7 {
        0x15
    } else if pos == 8 {
        0x16
    } else if pos == 9 {
        0x17
    } else if pos == 10 {
        0x18
    } else if pos == 11 {
        0x19
    } else if pos == 12 {
        0x20
    } else if pos == 13 {
        0x21
    } else if pos == 14 {
        0x23
    } else if pos == 15 {
        0x25
    } else if pos == 16 {
        0x27
    } else if pos == 17 {
        0x2F
    } else if pos == 18 {
        0x30
    } else if pos == 19 {
        0x31
    } else if pos == 20 {
        0x32
    } else if pos == 21 {
        0x29
    } else if pos == 22 {
        0x2A
    } else if pos == 23 {
        0x2B
    } else if pos == 24 {
        0x2C
    } else if pos == 25 {
        0x39
    } else if pos == 26 {
        0x3A
    } else if pos == 27 {
        0x3B
    } else if pos == 28 {
        0x3C
    } else if pos == 29 {
        0x33
    } else if pos == 30 {
        0x34
    } else if pos == 31 {
        0x35
    } else if pos == 32 {
        0x36
    } else if pos == 33 {
        0x37
    } else if pos == 34 {
        0x3E
    } else if pos == 35 {
        0x3F
    } else if pos == 36 {
        0x41
    } else if pos == 37 {
        0x42
    } else if pos == 38 {
        0x44
    } else if pos == 39 {
        0x45
    } else if pos == 40 {
        0x46
    } else if pos == 41 {
        0x47
    } else if pos == 42 {
        0x49
    } else if pos == 43 {
        0x4A
    } else {
        0
    }
}

/// Executable version of the established-timings-III bit assignment.
pub fn est_iii_dmt_id(k: usize, b: u8) -> (r: u8)
    requires
        k < 6,
        b < 8,
    ensures
        r == spec_est_iii_dmt_id(k as int, b as int),
{
    let pos = k * 8 + (7 - b as usize);
    if pos == 0 {
        0x01
    } else if pos == 1 {
        0x02
    } else if pos == 2 {
        0x03
    } else if pos == 3 {
        0x07
    } else if pos == 4 {
        0x0E
    } else if pos == 5 {
        0x0C
    } else if pos == 6 {
        0x13
    } else if pos == 7 {
        0x15
    } else if pos == 8 {
        0x16
    } else if pos == 9 {
        0x17
    } else if pos == 10 {
        0x18
    } else if pos == 11 {
        0x19
    } else if pos == 12 {
        0x20
    } else if pos == 13 {
        0x21
    } else if pos == 14 {
        0x23
    } else if pos == 15 {
        0x25
    } else if pos == 16 {
        0x27
    } else if pos == 17 {
        0x2F
    } else if pos == 18 {
        0x30
    } else if pos == 19 {
        0x31
    } else if pos == 20 {
        0x32
    } else if pos == 21 {
        0x29
    } else if pos == 22 {
        0x2A
    } else if pos == 23 {
        0x2B
    } else if pos == 24 {
        0x2C
    } else if pos == 25 {
        0x39
    } else if pos == 26 {
        0x3A
    } else if pos == 27 {
        0x3B
    } else if pos == 28 {
        0x3C
    } else if pos == 29 {
        0x33
    } else if pos == 30 {
        0x34
    } else if pos == 31 {
        0x35
    } else if pos == 32 {
        0x36
    } else if pos == 33 {
        0x37
    } else if pos == 34 {
        0x3E
    } else if pos == 35 {
        0x3F
    } else if pos == 36 {
        0x41
    } else if pos == 37 {
        0x42
    } else if pos == 38 {
        0x44
    } else if pos == 39 {
        0x45
    } else if pos == 40 {
        0x46
    } else if pos == 41 {
        0x47
    } else if pos == 42 {
        0x49
    } else if pos == 43 {
        0x4A
    } else {
        0
    }
}

} // verus!
