use dps3xx::{read_raw_value, scale_factor, sign_extend_12, sign_extend_16, sign_extend_20,
    sign_extend_24, CalibrationCoefficients};

#[test]
fn test_decode_all_zero_bytes() {
    let c = CalibrationCoefficients::decode(&[0u8; 18]);
    assert_eq!(c.c0, 0);
    assert_eq!(c.c1, 0);
    assert_eq!(c.c00, 0);
    assert_eq!(c.c10, 0);
    assert_eq!(c.c01, 0);
    assert_eq!(c.c11, 0);
    assert_eq!(c.c20, 0);
    assert_eq!(c.c21, 0);
    assert_eq!(c.c30, 0);
}

#[test]
fn test_decode_all_ones_is_minus_one_everywhere() {
    // every field is the all-ones pattern of its width: -1 after sign extension
    let c = CalibrationCoefficients::decode(&[0xFFu8; 18]);
    assert_eq!(c.c0, -1);
    assert_eq!(c.c1, -1);
    assert_eq!(c.c00, -1);
    assert_eq!(c.c10, -1);
    assert_eq!(c.c01, -1);
    assert_eq!(c.c11, -1);
    assert_eq!(c.c20, -1);
    assert_eq!(c.c21, -1);
    assert_eq!(c.c30, -1);
}

#[test]
fn test_decode_reference_pattern() {
    // c0 = 0x800 (most negative 12-bit), c1 = 0x001, c00 = 0x80000 (most
    // negative 20-bit), c10 = 0x00001, and the five 16-bit fields in order:
    // 0x8000, 0x0001, 0x7FFF, 0xFF85, 0x0123
    let raw: [u8; 18] = [
        0x80, 0x00, 0x01, // c0, c1
        0x80, 0x00, 0x00, 0x00, 0x01, // c00, c10
        0x80, 0x00, // c01
        0x00, 0x01, // c11
        0x7F, 0xFF, // c20
        0xFF, 0x85, // c21
        0x01, 0x23, // c30
    ];
    let c = CalibrationCoefficients::decode(&raw);
    assert_eq!(c.c0, -2048);
    assert_eq!(c.c1, 1);
    assert_eq!(c.c00, -524288);
    assert_eq!(c.c10, 1);
    assert_eq!(c.c01, -32768);
    assert_eq!(c.c11, 1);
    assert_eq!(c.c20, 32767);
    assert_eq!(c.c21, -123);
    assert_eq!(c.c30, 0x0123);
}

#[test]
fn test_encode_decode_roundtrip() {
    // encoding decoded bytes restores them: the fields cover all 144 bits
    let raw: [u8; 18] = [
        0x12, 0x34, 0x56, 0x78, 0x9A, 0xBC, 0xDE, 0xF0, 0x11, 0x22, 0x33, 0x44, 0x55, 0x66,
        0x77, 0x88, 0x99, 0xAA,
    ];
    let c = CalibrationCoefficients::decode(&raw);
    assert_eq!(c.encode(), raw);

    // and decoding encoded in-range coefficients restores them
    let c = CalibrationCoefficients {
        c0: -2048,
        c1: 2047,
        c00: -524288,
        c10: 524287,
        c01: -32768,
        c11: 32767,
        c20: -1,
        c21: 0,
        c30: 12345,
    };
    assert_eq!(CalibrationCoefficients::decode(&c.encode()), c);
}

#[test]
fn test_sign_extension_widths() {
    assert_eq!(sign_extend_12(0x000), 0);
    assert_eq!(sign_extend_12(0x7FF), 2047);
    assert_eq!(sign_extend_12(0x800), -2048);
    assert_eq!(sign_extend_12(0xFFF), -1);
    assert_eq!(sign_extend_16(0x7FFF), 32767);
    assert_eq!(sign_extend_16(0x8000), -32768);
    assert_eq!(sign_extend_20(0x7FFFF), 524287);
    assert_eq!(sign_extend_20(0x80000), -524288);
    assert_eq!(sign_extend_20(0xFFFFF), -1);
}

#[test]
fn test_sign_extension_24_symmetric_about_zero() {
    assert_eq!(sign_extend_24(0x000000), 0);
    assert_eq!(sign_extend_24(0x800000), -8388608);
    assert_eq!(sign_extend_24(0x7FFFFF), 8388607);
    assert_eq!(sign_extend_24(0xFFFFFF), -1);
    // the two's complement of each positive value reads as its negation
    for v in [1u32, 5, 1024, 0x7FFFFF] {
        assert_eq!(sign_extend_24(v), v as i32);
        assert_eq!(sign_extend_24(0x1000000 - v), -(v as i32));
    }
}

#[test]
fn test_raw_reading_big_endian() {
    assert_eq!(read_raw_value(&[0x00, 0x04, 0x00]), 1024);
    assert_eq!(read_raw_value(&[0x00, 0x00, 0x00]), 0);
    assert_eq!(read_raw_value(&[0x80, 0x00, 0x00]), -8388608);
    assert_eq!(read_raw_value(&[0xFF, 0xFF, 0xFF]), -1);
    assert_eq!(read_raw_value(&[0x12, 0x34, 0x56]), 0x123456);
}

#[test]
fn test_scale_factors_by_oversampling() {
    assert_eq!(scale_factor(0), 524288);
    assert_eq!(scale_factor(1), 1572864);
    assert_eq!(scale_factor(2), 3670016);
    assert_eq!(scale_factor(3), 7864320);
    assert_eq!(scale_factor(4), 253952);
    assert_eq!(scale_factor(5), 516096);
    assert_eq!(scale_factor(6), 1040384);
    assert_eq!(scale_factor(7), 2088960);
}
