//! The HDR luminance code transforms: exact values and both round-trip
//! directions.

use libdisplay_info::cta::{
    decode_max_luminance, decode_min_luminance, encode_max_luminance, encode_min_luminance,
};

#[test]
fn max_luminance_exact_values() {
    // 50 * 2^(c/32) cd/m² in microcandela units.
    assert_eq!(decode_max_luminance(1), 51_094_818);
    assert_eq!(decode_max_luminance(32), 100_000_000);
    assert_eq!(decode_max_luminance(64), 200_000_000);
    assert_eq!(decode_max_luminance(255), 12_525_683_584);
}

#[test]
fn max_luminance_code_round_trip_all_bytes() {
    for c in 1..=255u8 {
        let decoded = decode_max_luminance(c);
        assert_eq!(encode_max_luminance(decoded), c);
    }
}

#[test]
fn max_luminance_strictly_monotone() {
    for c in 1..255u8 {
        assert!(decode_max_luminance(c) < decode_max_luminance(c + 1));
    }
}

#[test]
fn max_luminance_value_within_one_step() {
    // 60 cd/m² sits between two codes; the encode picks the lower one.
    let x: u64 = 60_000_000;
    let c = encode_max_luminance(x);
    assert!(decode_max_luminance(c) <= x);
    assert!(x < decode_max_luminance(c + 1));
}

#[test]
fn min_luminance_round_trip_all_bytes() {
    let max = decode_max_luminance(32);
    for c in 1..=255u8 {
        let decoded = decode_min_luminance(c, max);
        assert_eq!(encode_min_luminance(decoded, max), c);
    }
}

#[test]
fn min_luminance_exact_value() {
    // min = max * (c/255)^2 / 100 with max = 100 cd/m² and c = 16.
    assert_eq!(decode_min_luminance(16, 100_000_000), 3936);
    // c = 255 gives max / 100.
    assert_eq!(decode_min_luminance(255, 100_000_000), 1_000_000);
}
