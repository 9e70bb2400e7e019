//! Calibration engine: decoding of the bit-packed signed coefficients and
//! the per-oversampling scale factors.
//!
//! The sensor stores nine signed coefficients in eighteen raw bytes at fixed,
//! not byte-aligned bit boundaries: two 12-bit fields (c0, c1), two 20-bit
//! fields (c00, c10) and five 16-bit fields (c01, c11, c20, c21, c30).  Each
//! field is extracted as an unsigned value of its width and then
//! sign-extended.  Raw pressure and temperature readings are 24-bit
//! two's-complement big-endian values.

use vstd::arithmetic::power2::{lemma2_to64, pow2};
use vstd::prelude::*;

verus! {

/// The two's-complement reading of an unsigned `width`-bit value: values with
/// the top bit of the width set stand for negatives.
pub open spec fn sign_extended(value: u32, width: nat) -> int
    recommends
        1 <= width <= 31,
        value < pow2(width),
{
    if value >= pow2((width - 1) as nat) {
        value - pow2(width)
    } else {
        value as int
    }
}

/// The unsigned `width`-bit pattern whose two's-complement reading is `v`:
/// the inverse of `sign_extended` on the signed range of the width.
pub open spec fn field_bits(v: int, width: nat) -> u32
    recommends
        1 <= width <= 31,
        -pow2((width - 1) as nat) <= v < pow2((width - 1) as nat),
{
    if v >= 0 {
        v as u32
    } else {
        (v + pow2(width)) as u32
    }
}

/// The 12-bit c0 field: all of byte 0 and the high half of byte 1.
pub open spec fn c0_bits(b: Seq<u8>) -> u32 {
    ((b[0] as u32) << 4u32) | ((b[1] as u32) >> 4u32)
}

/// The 12-bit c1 field: the low half of byte 1 and all of byte 2.
pub open spec fn c1_bits(b: Seq<u8>) -> u32 {
    (((b[1] as u32) & 0x0F) << 8u32) | (b[2] as u32)
}

/// The 20-bit c00 field: bytes 3 and 4 and the high half of byte 5.
pub open spec fn c00_bits(b: Seq<u8>) -> u32 {
    (((b[3] as u32) << 12u32) | ((b[4] as u32) << 4u32)) | ((b[5] as u32) >> 4u32)
}

/// The 20-bit c10 field: the low half of byte 5 and bytes 6 and 7.
pub open spec fn c10_bits(b: Seq<u8>) -> u32 {
    ((((b[5] as u32) & 0x0F) << 16u32) | ((b[6] as u32) << 8u32)) | (b[7] as u32)
}

/// A 16-bit field stored as two consecutive bytes, most significant first.
pub open spec fn word_bits(hi: u8, lo: u8) -> u32 {
    ((hi as u32) << 8u32) | (lo as u32)
}

/// The nine signed compensation coefficients of one sensor.
///
/// Immutable once decoded; owned by the calibrated device state.
#[derive(Clone, Copy, Debug, PartialEq, Eq, Structural)]
pub struct CalibrationCoefficients {
    pub c0: i32,
    pub c1: i32,
    pub c00: i32,
    pub c10: i32,
    pub c01: i32,
    pub c11: i32,
    pub c20: i32,
    pub c21: i32,
    pub c30: i32,
}

/// The coefficients read from eighteen raw bytes: each field extracted at its
/// documented bit range and sign-extended at its width.
pub open spec fn decoded(b: Seq<u8>) -> CalibrationCoefficients {
    CalibrationCoefficients {
        c0: sign_extended(c0_bits(b), 12) as i32,
        c1: sign_extended(c1_bits(b), 12) as i32,
        c00: sign_extended(c00_bits(b), 20) as i32,
        c10: sign_extended(c10_bits(b), 20) as i32,
        c01: sign_extended(word_bits(b[8], b[9]), 16) as i32,
        c11: sign_extended(word_bits(b[10], b[11]), 16) as i32,
        c20: sign_extended(word_bits(b[12], b[13]), 16) as i32,
        c21: sign_extended(word_bits(b[14], b[15]), 16) as i32,
        c30: sign_extended(word_bits(b[16], b[17]), 16) as i32,
    }
}

/// Whether every coefficient lies in the signed range of its field width.
pub open spec fn in_coefficient_range(c: CalibrationCoefficients) -> bool {
    &&& -2048 <= c.c0 < 2048
    &&& -2048 <= c.c1 < 2048
    &&& -524288 <= c.c00 < 524288
    &&& -524288 <= c.c10 < 524288
    &&& -32768 <= c.c01 < 32768
    &&& -32768 <= c.c11 < 32768
    &&& -32768 <= c.c20 < 32768
    &&& -32768 <= c.c21 < 32768
    &&& -32768 <= c.c30 < 32768
}

/// The eighteen raw bytes that hold the given coefficients at the documented
/// bit boundaries.
pub open spec fn encoded(c: CalibrationCoefficients) -> Seq<u8> {
    seq![
        (field_bits(c.c0 as int, 12) >> 4u32) as u8,
        (((field_bits(c.c0 as int, 12) & 0x0F) << 4u32) | (field_bits(c.c1 as int, 12)
            >> 8u32)) as u8,
        (field_bits(c.c1 as int, 12) & 0xFF) as u8,
        (field_bits(c.c00 as int, 20) >> 12u32) as u8,
        ((field_bits(c.c00 as int, 20) >> 4u32) & 0xFF) as u8,
        (((field_bits(c.c00 as int, 20) & 0x0F) << 4u32) | (field_bits(c.c10 as int, 20)
            >> 16u32)) as u8,
        ((field_bits(c.c10 as int, 20) >> 8u32) & 0xFF) as u8,
        (field_bits(c.c10 as int, 20) & 0xFF) as u8,
        (field_bits(c.c01 as int, 16) >> 8u32) as u8,
        (field_bits(c.c01 as int, 16) & 0xFF) as u8,
        (field_bits(c.c11 as int, 16) >> 8u32) as u8,
        (field_bits(c.c11 as int, 16) & 0xFF) as u8,
        (field_bits(c.c20 as int, 16) >> 8u32) as u8,
        (field_bits(c.c20 as int, 16) & 0xFF) as u8,
        (field_bits(c.c21 as int, 16) >> 8u32) as u8,
        (field_bits(c.c21 as int, 16) & 0xFF) as u8,
        (field_bits(c.c30 as int, 16) >> 8u32) as u8,
        (field_bits(c.c30 as int, 16) & 0xFF) as u8,
    ]
}

/// The two's-complement reading of a 12-bit field.
pub fn sign_extend_12(value: u32) -> (r: i32)
    requires
        value < 0x1000,
    ensures
        r as int == sign_extended(value, 12),
        -2048 <= r < 2048,
{
    proof {
        lemma2_to64();
    }
    if value >= 0x800 {
        (value as i32) - 0x1000
    } else {
        value as i32
    }
}

/// The two's-complement reading of a 16-bit field.
pub fn sign_extend_16(value: u32) -> (r: i32)
    requires
        value < 0x10000,
    ensures
        r as int == sign_extended(value, 16),
        -32768 <= r < 32768,
{
    proof {
        lemma2_to64();
    }
    if value >= 0x8000 {
        (value as i32) - 0x10000
    } else {
        value as i32
    }
}

/// The two's-complement reading of a 20-bit field.
pub fn sign_extend_20(value: u32) -> (r: i32)
    requires
        value < 0x100000,
    ensures
        r as int == sign_extended(value, 20),
        -524288 <= r < 524288,
{
    proof {
        lemma2_to64();
    }
    if value >= 0x80000 {
        (value as i32) - 0x100000
    } else {
        value as i32
    }
}

/// The two's-complement reading of a 24-bit raw register value.
pub fn sign_extend_24(value: u32) -> (r: i32)
    requires
        value < 0x1000000,
    ensures
        r as int == sign_extended(value, 24),
        -8388608 <= r < 8388608,
{
    proof {
        lemma2_to64();
    }
    if value >= 0x800000 {
        (value as i32) - 0x1000000
    } else {
        value as i32
    }
}

/// The 24-bit big-endian value held in three raw register bytes, most
/// significant byte first.
pub open spec fn reading_bits(b: [u8; 3]) -> u32 {
    (((b[0] as u32) << 16u32) | ((b[1] as u32) << 8u32)) | (b[2] as u32)
}

/// Three bytes hold a value under 2^24; the low three bits of any byte are
/// under eight.
pub(crate) proof fn lemma_reading_bounds(b0: u8, b1: u8, b2: u8, cfg: u8)
    by (bit_vector)
    ensures
        (((b0 as u32) << 16u32) | ((b1 as u32) << 8u32)) | (b2 as u32) < 0x1000000,
        cfg & 0x07 <= 7,
{
}

/// The signed reading held in three raw register bytes: the 24-bit
/// big-endian value, sign-extended.
pub fn read_raw_value(bytes: &[u8; 3]) -> (r: i32)
    ensures
        r as int == sign_extended(reading_bits(*bytes), 24),
        -8388608 <= r < 8388608,
{
    let b0: u8 = bytes[0];
    let b1: u8 = bytes[1];
    let b2: u8 = bytes[2];
    proof {
        lemma_reading_bounds(b0, b1, b2, 0);
    }
    let value: u32 = (((b0 as u32) << 16u32) | ((b1 as u32) << 8u32)) | (b2 as u32);
    sign_extend_24(value)
}

/// Sign extension from 24 bits is symmetric about zero: a value with the top
/// bit set reads as the negative counterpart of its two's complement, the
/// all-zero pattern reads as zero, and `0x800000` reads as the most negative
/// value.
pub proof fn lemma_sign_extend_24_symmetric()
    ensures
        sign_extended(0, 24) == 0,
        sign_extended(0x800000, 24) == -0x800000,
        forall|v: u32| 0 < v < 0x800000 ==> #[trigger] sign_extended(v, 24) == v as int,
        forall|v: u32|
            0 < v < 0x800000 ==> #[trigger] sign_extended((0x1000000 - v) as u32, 24) == -(
            v as int),
{
    lemma2_to64();
}

/// The scale factor that normalizes a raw reading taken at the given
/// oversampling setting into the compensation polynomial's domain.
pub open spec fn spec_scale_factor(oversampling: u8) -> u32 {
    if oversampling == 0 {
        524288
    } else if oversampling == 1 {
        1572864
    } else if oversampling == 2 {
        3670016
    } else if oversampling == 3 {
        7864320
    } else if oversampling == 4 {
        253952
    } else if oversampling == 5 {
        516096
    } else if oversampling == 6 {
        1040384
    } else {
        2088960
    }
}

/// The scale factor for one oversampling setting (the low three bits of a
/// rate/resolution configuration register).
#[verifier::when_used_as_spec(spec_scale_factor)]
pub fn scale_factor(oversampling: u8) -> (r: u32)
    requires
        oversampling <= 7,
    ensures
        r == spec_scale_factor(oversampling),
        r >= 253952,
{
    match oversampling {
        0 => 524288,
        1 => 1572864,
        2 => 3670016,
        3 => 7864320,
        4 => 253952,
        5 => 516096,
        6 => 1040384,
        _ => 2088960,
    }
}

impl CalibrationCoefficients {
    /// Decodes the eighteen raw coefficient bytes into the nine signed
    /// coefficients, each extracted at its documented bit range and
    /// sign-extended at its width.
    pub fn decode(raw: &[u8; 18]) -> (r: Self)
        ensures
            r == decoded(raw@),
            in_coefficient_range(r),
    {
        let b0: u8 = raw[0];
        let b1: u8 = raw[1];
        let b2: u8 = raw[2];
        let b3: u8 = raw[3];
        let b4: u8 = raw[4];
        let b5: u8 = raw[5];
        let b6: u8 = raw[6];
        let b7: u8 = raw[7];
        let w0: u32 = ((b0 as u32) << 4u32) | ((b1 as u32) >> 4u32);
        let w1: u32 = (((b1 as u32) & 0x0F) << 8u32) | (b2 as u32);
        let w00: u32 = (((b3 as u32) << 12u32) | ((b4 as u32) << 4u32)) | ((b5 as u32) >> 4u32);
        let w10: u32 = ((((b5 as u32) & 0x0F) << 16u32) | ((b6 as u32) << 8u32)) | (b7 as u32);
        proof {
            lemma_bv_pack_c0_c1(b0, b1, b2);
            lemma_bv_pack_c00_c10(b3, b4, b5, b6, b7);
            lemma_bv_pack_word(raw@[8], raw@[9]);
            lemma_bv_pack_word(raw@[10], raw@[11]);
            lemma_bv_pack_word(raw@[12], raw@[13]);
            lemma_bv_pack_word(raw@[14], raw@[15]);
            lemma_bv_pack_word(raw@[16], raw@[17]);
        }
        let c01w: u32 = ((raw[8] as u32) << 8u32) | (raw[9] as u32);
        let c11w: u32 = ((raw[10] as u32) << 8u32) | (raw[11] as u32);
        let c20w: u32 = ((raw[12] as u32) << 8u32) | (raw[13] as u32);
        let c21w: u32 = ((raw[14] as u32) << 8u32) | (raw[15] as u32);
        let c30w: u32 = ((raw[16] as u32) << 8u32) | (raw[17] as u32);
        CalibrationCoefficients {
            c0: sign_extend_12(w0),
            c1: sign_extend_12(w1),
            c00: sign_extend_20(w00),
            c10: sign_extend_20(w10),
            c01: sign_extend_16(c01w),
            c11: sign_extend_16(c11w),
            c20: sign_extend_16(c20w),
            c21: sign_extend_16(c21w),
            c30: sign_extend_16(c30w),
        }
    }

    /// Packs the nine coefficients back into the eighteen raw bytes that
    /// `decode` reads them from.
    pub fn encode(&self) -> (r: [u8; 18])
        requires
            in_coefficient_range(*self),
        ensures
            r@ == encoded(*self),
    {
        proof {
            lemma2_to64();
        }
        let w0: u32 = if self.c0 >= 0 {
            self.c0 as u32
        } else {
            (self.c0 + 0x1000) as u32
        };
        let w1: u32 = if self.c1 >= 0 {
            self.c1 as u32
        } else {
            (self.c1 + 0x1000) as u32
        };
        let w00: u32 = if self.c00 >= 0 {
            self.c00 as u32
        } else {
            (self.c00 + 0x100000) as u32
        };
        let w10: u32 = if self.c10 >= 0 {
            self.c10 as u32
        } else {
            (self.c10 + 0x100000) as u32
        };
        let w01: u32 = if self.c01 >= 0 {
            self.c01 as u32
        } else {
            (self.c01 + 0x10000) as u32
        };
        let w11: u32 = if self.c11 >= 0 {
            self.c11 as u32
        } else {
            (self.c11 + 0x10000) as u32
        };
        let w20: u32 = if self.c20 >= 0 {
            self.c20 as u32
        } else {
            (self.c20 + 0x10000) as u32
        };
        let w21: u32 = if self.c21 >= 0 {
            self.c21 as u32
        } else {
            (self.c21 + 0x10000) as u32
        };
        let w30: u32 = if self.c30 >= 0 {
            self.c30 as u32
        } else {
            (self.c30 + 0x10000) as u32
        };
        let r: [u8; 18] = [
            (w0 >> 4u32) as u8,
            (((w0 & 0x0F) << 4u32) | (w1 >> 8u32)) as u8,
            (w1 & 0xFF) as u8,
            (w00 >> 12u32) as u8,
            ((w00 >> 4u32) & 0xFF) as u8,
            (((w00 & 0x0F) << 4u32) | (w10 >> 16u32)) as u8,
            ((w10 >> 8u32) & 0xFF) as u8,
            (w10 & 0xFF) as u8,
            (w01 >> 8u32) as u8,
            (w01 & 0xFF) as u8,
            (w11 >> 8u32) as u8,
            (w11 & 0xFF) as u8,
            (w20 >> 8u32) as u8,
            (w20 & 0xFF) as u8,
            (w21 >> 8u32) as u8,
            (w21 & 0xFF) as u8,
            (w30 >> 8u32) as u8,
            (w30 & 0xFF) as u8,
        ];
        proof {
            assert(r@ =~= encoded(*self));
        }
        r
    }
}

/// Bit-level facts about the packing of the two 12-bit fields in bytes 0..=2:
/// the fields stay under 12 bits and re-packing them restores the bytes.
proof fn lemma_bv_pack_c0_c1(b0: u8, b1: u8, b2: u8)
    by (bit_vector)
    ensures
        (((b0 as u32) << 4u32) | ((b1 as u32) >> 4u32)) < 0x1000,
        ((((b1 as u32) & 0x0F) << 8u32) | (b2 as u32)) < 0x1000,
        ((((b0 as u32) << 4u32) | ((b1 as u32) >> 4u32)) >> 4u32) as u8 == b0,
        (((((b0 as u32) << 4u32) | ((b1 as u32) >> 4u32)) & 0x0F) << 4u32 | (((((b1 as u32)
            & 0x0F) << 8u32) | (b2 as u32)) >> 8u32)) as u8 == b1,
        (((((b1 as u32) & 0x0F) << 8u32) | (b2 as u32)) & 0xFF) as u8 == b2,
{
}

/// Bit-level facts about the packing of the two 20-bit fields in bytes 3..=7.
proof fn lemma_bv_pack_c00_c10(b3: u8, b4: u8, b5: u8, b6: u8, b7: u8)
    by (bit_vector)
    ensures
        ((((b3 as u32) << 12u32) | ((b4 as u32) << 4u32)) | ((b5 as u32) >> 4u32)) < 0x100000,
        (((((b5 as u32) & 0x0F) << 16u32) | ((b6 as u32) << 8u32)) | (b7 as u32)) < 0x100000,
        (((((b3 as u32) << 12u32) | ((b4 as u32) << 4u32)) | ((b5 as u32) >> 4u32)) >> 12u32) as u8
            == b3,
        ((((((b3 as u32) << 12u32) | ((b4 as u32) << 4u32)) | ((b5 as u32) >> 4u32)) >> 4u32)
            & 0xFF) as u8 == b4,
        ((((((b3 as u32) << 12u32) | ((b4 as u32) << 4u32)) | ((b5 as u32) >> 4u32)) & 0x0F)
            << 4u32 | ((((((b5 as u32) & 0x0F) << 16u32) | ((b6 as u32) << 8u32)) | (b7 as u32))
            >> 16u32)) as u8 == b5,
        (((((((b5 as u32) & 0x0F) << 16u32) | ((b6 as u32) << 8u32)) | (b7 as u32)) >> 8u32)
            & 0xFF) as u8 == b6,
        ((((((b5 as u32) & 0x0F) << 16u32) | ((b6 as u32) << 8u32)) | (b7 as u32)) & 0xFF) as u8
            == b7,
{
}

/// Bit-level facts about a 16-bit field stored as two bytes.
proof fn lemma_bv_pack_word(hi: u8, lo: u8)
    by (bit_vector)
    ensures
        (((hi as u32) << 8u32) | (lo as u32)) < 0x10000,
        ((((hi as u32) << 8u32) | (lo as u32)) >> 8u32) as u8 == hi,
        ((((hi as u32) << 8u32) | (lo as u32)) & 0xFF) as u8 == lo,
{
}

/// Unpacking facts: bytes built from two 12-bit values give the values back.
proof fn lemma_bv_unpack_c0_c1(w0: u32, w1: u32)
    by (bit_vector)
    requires
        w0 < 0x1000,
        w1 < 0x1000,
    ensures
        ((((w0 >> 4u32) as u8) as u32) << 4u32) | (((((w0 & 0x0F) << 4u32 | (w1 >> 8u32)) as u8)
            as u32) >> 4u32) == w0,
        ((((((w0 & 0x0F) << 4u32 | (w1 >> 8u32)) as u8) as u32) & 0x0F) << 8u32) | (((w1
            & 0xFF) as u8) as u32) == w1,
{
}

/// Unpacking facts: bytes built from two 20-bit values give the values back.
proof fn lemma_bv_unpack_c00_c10(w00: u32, w10: u32)
    by (bit_vector)
    requires
        w00 < 0x100000,
        w10 < 0x100000,
    ensures
        (((((w00 >> 12u32) as u8) as u32) << 12u32) | ((((w00 >> 4u32) & 0xFF) as u8 as u32)
            << 4u32)) | (((((w00 & 0x0F) << 4u32 | (w10 >> 16u32)) as u8) as u32) >> 4u32) == w00,
        ((((((w00 & 0x0F) << 4u32 | (w10 >> 16u32)) as u8) as u32) & 0x0F) << 16u32 | ((((w10
            >> 8u32) & 0xFF) as u8 as u32) << 8u32)) | (((w10 & 0xFF) as u8) as u32) == w10,
{
}

/// Unpacking facts: bytes built from a 16-bit value give the value back.
proof fn lemma_bv_unpack_word(w: u32)
    by (bit_vector)
    requires
        w < 0x10000,
    ensures
        ((((w >> 8u32) as u8) as u32) << 8u32) | (((w & 0xFF) as u8) as u32) == w,
{
}

/// Sign extension at a field width is undone by taking the field's bit
/// pattern again: the decode direction of the round trip, per field.
proof fn lemma_field_roundtrip(value: u32, width: nat)
    requires
        1 <= width <= 24,
        value < pow2(width),
    ensures
        field_bits(sign_extended(value, width), width) == value,
        -pow2((width - 1) as nat) <= sign_extended(value, width) < pow2((width - 1) as nat),
{
    vstd::arithmetic::power2::lemma_pow2_unfold(width);
}

/// The bit pattern of a value in the signed range of a width reads back as
/// that value: the encode direction of the round trip, per field.
proof fn lemma_bits_roundtrip(v: int, width: nat)
    requires
        1 <= width <= 24,
        -pow2((width - 1) as nat) <= v < pow2((width - 1) as nat),
    ensures
        sign_extended(field_bits(v, width), width) == v,
        field_bits(v, width) < pow2(width),
{
    lemma2_to64();
    vstd::arithmetic::power2::lemma_pow2_unfold(width);
    if width < 24 {
        vstd::arithmetic::power2::lemma_pow2_strictly_increases(width, 24);
    }
}

/// Decoding eighteen raw bytes and packing the nine coefficients again gives
/// back exactly the original bytes: the coefficient fields cover all 144 bits.
pub proof fn lemma_encode_of_decode(b: Seq<u8>)
    requires
        b.len() == 18,
    ensures
        encoded(decoded(b)) == b,
{
    lemma2_to64();
    lemma_bv_pack_c0_c1(b[0], b[1], b[2]);
    lemma_bv_pack_c00_c10(b[3], b[4], b[5], b[6], b[7]);
    lemma_bv_pack_word(b[8], b[9]);
    lemma_bv_pack_word(b[10], b[11]);
    lemma_bv_pack_word(b[12], b[13]);
    lemma_bv_pack_word(b[14], b[15]);
    lemma_bv_pack_word(b[16], b[17]);
    lemma_field_roundtrip(c0_bits(b), 12);
    lemma_field_roundtrip(c1_bits(b), 12);
    lemma_field_roundtrip(c00_bits(b), 20);
    lemma_field_roundtrip(c10_bits(b), 20);
    lemma_field_roundtrip(word_bits(b[8], b[9]), 16);
    lemma_field_roundtrip(word_bits(b[10], b[11]), 16);
    lemma_field_roundtrip(word_bits(b[12], b[13]), 16);
    lemma_field_roundtrip(word_bits(b[14], b[15]), 16);
    lemma_field_roundtrip(word_bits(b[16], b[17]), 16);
    assert(encoded(decoded(b)) =~= b);
}

/// Packing nine in-range coefficients and decoding the bytes again gives back
/// exactly the original coefficients.
pub proof fn lemma_decode_of_encode(c: CalibrationCoefficients)
    requires
        in_coefficient_range(c),
    ensures
        decoded(encoded(c)) == c,
{
    lemma2_to64();
    lemma_bits_roundtrip(c.c0 as int, 12);
    lemma_bits_roundtrip(c.c1 as int, 12);
    lemma_bits_roundtrip(c.c00 as int, 20);
    lemma_bits_roundtrip(c.c10 as int, 20);
    lemma_bits_roundtrip(c.c01 as int, 16);
    lemma_bits_roundtrip(c.c11 as int, 16);
    lemma_bits_roundtrip(c.c20 as int, 16);
    lemma_bits_roundtrip(c.c21 as int, 16);
    lemma_bits_roundtrip(c.c30 as int, 16);
    lemma_bv_unpack_c0_c1(field_bits(c.c0 as int, 12), field_bits(c.c1 as int, 12));
    lemma_bv_unpack_c00_c10(field_bits(c.c00 as int, 20), field_bits(c.c10 as int, 20));
    lemma_bv_unpack_word(field_bits(c.c01 as int, 16));
    lemma_bv_unpack_word(field_bits(c.c11 as int, 16));
    lemma_bv_unpack_word(field_bits(c.c20 as int, 16));
    lemma_bv_unpack_word(field_bits(c.c21 as int, 16));
    lemma_bv_unpack_word(field_bits(c.c30 as int, 16));
}

} // verus!
