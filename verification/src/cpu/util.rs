use vstd::prelude::*;

verus! {

/// The value of the word `w` read in two's complement.
pub open spec fn signed32(w: u32) -> int {
    if w >= 0x8000_0000 {
        w - 0x1_0000_0000
    } else {
        w as int
    }
}

/// The word whose two's complement reading is `x`, for `x` in the range of
/// `i32`.
pub open spec fn unsigned32(x: int) -> u32 {
    if x < 0 {
        (x + 0x1_0000_0000) as u32
    } else {
        x as u32
    }
}

/// The residue of `x` modulo 2^32.
pub open spec fn wrap32(x: int) -> u32 {
    (x % 0x1_0000_0000) as u32
}

/// Reads a word in two's complement.
pub fn as_signed(w: u32) -> (r: i32)
    ensures
        r == signed32(w),
{
    if w >= 0x8000_0000 {
        (w as i64 - 0x1_0000_0000) as i32
    } else {
        w as i32
    }
}

/// The word that holds `x` in two's complement.
pub fn as_unsigned(x: i32) -> (r: u32)
    ensures
        r == unsigned32(x as int),
        signed32(r) == x,
{
    if x < 0 {
        (x as i64 + 0x1_0000_0000) as u32
    } else {
        x as u32
    }
}

/// The result in case of a fault, success otherwise.
pub open spec fn fault_when(cond: bool, fault: crate::fault::Fault) -> Result<(), crate::fault::Fault> {
    if cond {
        Err(fault)
    } else {
        Ok(())
    }
}

/// The sum of two words and a carry: its residue modulo 2^32, and whether it
/// reaches 2^32.
pub open spec fn spec_add_carry(a: u32, b: u32, carry: bool) -> (u32, bool) {
    let sum: int = a + b + (if carry { 1int } else { 0int });
    (wrap32(sum), sum >= 0x1_0000_0000)
}

/// Adds two words and a carry. Returns the low 32 bits of the sum and the
/// carry out of bit 31.
#[verifier::when_used_as_spec(spec_add_carry)]
pub fn add_carry(a: u32, b: u32, carry: bool) -> (r: (u32, bool))
    ensures
        r == spec_add_carry(a, b, carry),
{
    let c: u64 = if carry { 1 } else { 0 };
    let sum: u64 = a as u64 + b as u64 + c;
    if sum >= 0x1_0000_0000 {
        ((sum - 0x1_0000_0000) as u32, true)
    } else {
        (sum as u32, false)
    }
}

/// The word `x` rotated left by `n` bits.
pub open spec fn spec_rotl(x: u32, n: u32) -> u32 {
    if n == 0 {
        x
    } else {
        (x << n) | (x >> ((32 - n) as u32))
    }
}

/// Rotates a word left by `n` bits.
#[verifier::when_used_as_spec(spec_rotl)]
pub fn rotl(x: u32, n: u32) -> (r: u32)
    requires
        n < 32,
    ensures
        r == spec_rotl(x, n),
{
    if n == 0 {
        x
    } else {
        (x << n) | (x >> (32 - n))
    }
}

/// Every bit of a rotated word is the bit of the word that lies `n` places
/// to its right, wrapping around.
pub proof fn lemma_rotl_bits(x: u32, n: u32, k: u32)
    requires
        n < 32,
        k < 32,
    ensures
        (spec_rotl(x, n) >> k) & 1 == (x >> (((k + 32 - n) % 32) as u32)) & 1,
{
    if n == 0 {
    } else {
        assert((((x << n) | (x >> ((32 - n) as u32))) >> k) & 1 == (x >> (((k + 32 - n) % 32) as u32)) & 1) by (bit_vector)
            requires
                0 < n < 32,
                k < 32,
        ;
    }
}

/// The low 32 bits of a product do not depend on whether its factors are
/// read as signed or as unsigned words.
pub proof fn lemma_signed_product(a: u32, b: u32)
    ensures
        wrap32(signed32(a) * signed32(b)) == wrap32(a * b),
{
    let m: int = 0x1_0000_0000;
    let sa: int = signed32(a);
    let sb: int = signed32(b);
    let ka: int = if a >= 0x8000_0000 { 1 } else { 0 };
    let kb: int = if b >= 0x8000_0000 { 1 } else { 0 };
    let q: int = ka * sb + kb * sa + m * ka * kb;
    assert(a * b == m * q + sa * sb) by (nonlinear_arith)
        requires
            a == sa + m * ka,
            b == sb + m * kb,
            q == ka * sb + kb * sa + m * ka * kb,
    ;
    vstd::arithmetic::div_mod::lemma_mod_multiples_vanish(q, sa * sb, m);
}

/// A product of two words read in two's complement lies within 63 bits.
pub proof fn lemma_product_bounds(a: int, b: int)
    by (nonlinear_arith)
    requires
        -0x8000_0000 <= a < 0x8000_0000,
        -0x8000_0000 <= b < 0x8000_0000,
    ensures
        -0x4000_0000_0000_0000 <= a * b <= 0x4000_0000_0000_0000,
{
}

/// A product of two words lies within 64 bits.
pub proof fn lemma_unsigned_product_bounds(a: int, b: int)
    by (nonlinear_arith)
    requires
        0 <= a <= 0xFFFF_FFFF,
        0 <= b <= 0xFFFF_FFFF,
    ensures
        0 <= a * b <= 0xFFFF_FFFE_0000_0001,
{
}

pub open spec fn spec_sext_26(val: u32) -> i32 {
    if val & 0x0200_0000 != 0 {
        signed32(val | 0xFC00_0000) as i32
    } else {
        signed32(val) as i32
    }
}

/// Extends the sign of a 26-bit value: where bit 25 is set, the six bits
/// above it are set too; the word is read in two's complement.
#[verifier::when_used_as_spec(spec_sext_26)]
pub fn sext_26(val: u32) -> (r: i32)
    ensures
        r == spec_sext_26(val),
{
    if val & 0x0200_0000 != 0 {
        as_signed(val | 0xFC00_0000)
    } else {
        as_signed(val)
    }
}

pub open spec fn spec_sext_12(val: u16) -> i32 {
    if val & 0x800 != 0 {
        ((val | 0xF000) - 0x1_0000) as i32
    } else {
        val as i32
    }
}

/// Extends the sign of a 12-bit value: where bit 11 is set, the result is
/// negative, the value with every higher bit set read in two's complement.
#[verifier::when_used_as_spec(spec_sext_12)]
pub fn sext_12(val: u16) -> (r: i32)
    ensures
        r == spec_sext_12(val),
{
    if val & 0x800 != 0 {
        (val | 0xF000) as i32 - 0x1_0000
    } else {
        val as i32
    }
}

/// Whether bit `k`, bit 0 being the most significant, lies in the rotate mask
/// from `mb` to `me`. With `me < mb` the mask wraps around: it holds the bits
/// up to `me` and the bits from `mb` on.
pub open spec fn in_mask(mb: usize, me: usize, k: usize) -> bool {
    if mb <= me {
        mb <= k && k <= me
    } else {
        k <= me || mb <= k
    }
}

pub open spec fn spec_mask(mb: usize, me: usize) -> u32 {
    let straight: u32 = if me >= 31 {
        0xFFFF_FFFFu32 >> mb
    } else {
        (0xFFFF_FFFFu32 >> mb) ^ (0xFFFF_FFFFu32 >> ((me + 1) as usize))
    };
    if me < mb {
        !straight
    } else {
        straight
    }
}

/// A rotate mask holds exactly the bits from `mb` to `me`, wrapping around
/// where `me < mb`.
pub proof fn lemma_mask_bits(mb: usize, me: usize, k: usize)
    requires
        mb < 32,
        me < 32,
        k < 32,
    ensures
        ((spec_mask(mb, me) >> ((31 - k) as usize)) & 1 == 1) == in_mask(mb, me, k),
{
    let b: u32 = mb as u32;
    let e: u32 = me as u32;
    let j: u32 = k as u32;
    assert({
        let straight: u32 = if e >= 31 {
            0xFFFF_FFFFu32 >> b
        } else {
            (0xFFFF_FFFFu32 >> b) ^ (0xFFFF_FFFFu32 >> ((e + 1) as u32))
        };
        let m: u32 = if e < b { !straight } else { straight };
        ((m >> ((31 - j) as u32)) & 1 == 1) == (if b <= e { b <= j && j <= e } else { j <= e || b <= j })
    }) by (bit_vector)
        requires
            b < 32,
            e < 32,
            j < 32,
    ;
}

/// A mask that wraps around is the complement of the mask of the bits that it
/// leaves out.
pub proof fn lemma_mask_wraps(mb: usize, me: usize)
    requires
        me + 1 < mb,
        mb < 32,
    ensures
        spec_mask(mb, me) == !spec_mask((me + 1) as usize, (mb - 1) as usize),
{
    let b: u32 = mb as u32;
    let e: u32 = me as u32;
    assert(!((0xFFFF_FFFFu32 >> b) ^ (0xFFFF_FFFFu32 >> ((e + 1) as u32))) == !((0xFFFF_FFFFu32 >> ((e + 1) as u32)) ^ (0xFFFF_FFFFu32 >> ((b - 1 + 1) as u32)))) by (bit_vector)
        requires
            e + 1 < b,
            b < 32,
    ;
}

/// The rotate mask from bit `mb` to bit `me`, bit 0 being the most
/// significant.
#[verifier::when_used_as_spec(spec_mask)]
pub fn mask(mb: usize, me: usize) -> (r: u32)
    requires
        mb < 32,
    ensures
        r == spec_mask(mb, me),
        me < 32 ==> forall|k: usize| k < 32 ==> ((r >> ((31 - k) as usize)) & 1 == 1) == #[trigger] in_mask(mb, me, k),
{
    let mut mask: u32 = 0xFFFF_FFFFu32 >> mb;
    if me < 31 {
        mask ^= 0xFFFF_FFFFu32 >> (me + 1);
    }
    if me < mb {
        mask = !mask;
    }
    proof {
        if me < 32 {
            assert forall|k: usize| k < 32 implies ((mask >> ((31 - k) as usize)) & 1 == 1) == #[trigger] in_mask(mb, me, k) by {
                lemma_mask_bits(mb, me, k);
            }
        }
    }
    mask
}

pub open spec fn spec_convert_to_single(val: u64) -> u32 {
    let exp: u32 = ((val >> 52) & 0x7FF) as u32;
    if exp > 896 || (val & !0x8000_0000_0000_0000u64) == 0 || exp < 874 {
        (((val >> 32) & 0xC000_0000) | ((val >> 29) & 0x3FFF_FFFF)) as u32
    } else {
        (((0x8000_0000 | ((val & 0x000F_FFFF_FFFF_FFFF) >> 21)) as u32) >> ((905 - exp) as u32)) | (((val >> 32)
            & 0x8000_0000) as u32)
    }
}

/// The single-precision word that a store of the double-precision register
/// image `val` writes. A value in the single-precision normal range, a zero,
/// an infinity or a NaN keeps its sign and the top of its fraction and has
/// its exponent narrowed; a value with an exponent from 874 to 896 is
/// denormalized.
#[verifier::when_used_as_spec(spec_convert_to_single)]
pub fn convert_to_single(val: u64) -> (r: u32)
    ensures
        r == spec_convert_to_single(val),
{
    let exp: u32 = ((val >> 52) & 0x7FF) as u32;
    if exp > 896 || (val & !0x8000_0000_0000_0000u64) == 0 {
        (((val >> 32) & 0xC000_0000) | ((val >> 29) & 0x3FFF_FFFF)) as u32
    } else if exp >= 874 {
        let mut t: u32 = (0x8000_0000 | ((val & 0x000F_FFFF_FFFF_FFFF) >> 21)) as u32;
        t = t >> (905 - exp);
        t |= ((val >> 32) & 0x8000_0000) as u32;
        t
    } else {
        (((val >> 32) & 0xC000_0000) | ((val >> 29) & 0x3FFF_FFFF)) as u32
    }
}

/// A significand and its exponent after up to `fuel` more steps of
/// normalization: the significand is shifted left, and the exponent lowered,
/// until bit 23 of the significand is set. The value that the two stand for
/// stays the same.
pub open spec fn normalized(frac: u64, exp: int, fuel: nat) -> (u64, int)
    decreases fuel,
{
    if fuel == 0 || (frac & 0x0080_0000) != 0 {
        (frac, exp)
    } else {
        normalized(frac << 1, exp - 1, (fuel - 1) as nat)
    }
}

/// While bit 23 of the significand is clear, one more step of normalization
/// keeps the significand below 2^24.
proof fn lemma_shift_bound(frac: u64, n: u64)
    by (bit_vector)
    requires
        n <= 23,
        (1u64 << n) <= frac,
        frac < 0x0100_0000,
        (frac & 0x0080_0000) == 0,
    ensures
        n < 23,
        (1u64 << ((n + 1) as u64)) <= (frac << 1),
        (frac << 1) < 0x0100_0000,
{
}

/// Normalizes a significand below 2^24 that is not zero. Bit 23 of the
/// result is set.
pub fn normalize(frac: u64, exp: i32) -> (r: (u64, i32))
    requires
        0 < frac < 0x0100_0000,
        -1000 <= exp <= 1000,
    ensures
        (r.0, r.1 as int) == normalized(frac, exp as int, 24),
        r.0 & 0x0080_0000 != 0,
        r.0 < 0x0100_0000,
        exp - 23 <= r.1 <= exp,
{
    let mut frac: u64 = frac;
    let mut exp: i32 = exp;
    let ghost frac0: u64 = frac;
    let ghost exp0: i32 = exp;
    let mut n: u64 = 0;
    proof {
        assert(1u64 << 0u64 == 1) by (bit_vector);
    }
    while (frac & 0x0080_0000) == 0
        invariant
            n <= 23,
            exp == exp0 - n,
            -1000 <= exp0 <= 1000,
            (1u64 << n) <= frac,
            frac < 0x0100_0000,
            normalized(frac0, exp0 as int, 24) == normalized(frac, exp as int, (24 - n) as nat),
        decreases 24 - n,
    {
        proof {
            lemma_shift_bound(frac, n);
        }
        frac <<= 1;
        exp -= 1;
        n += 1;
    }
    (frac, exp)
}

/// The double-precision image of the single-precision word `val`: the same
/// sign; for a normal value the exponent rebiased by 896, for a denormal the
/// exponent that normalization leaves, for an infinity or a NaN the largest
/// exponent, for a zero none; the fraction at the top of the wider fraction.
pub open spec fn spec_convert_to_double(val: u32) -> u64 {
    let x: u64 = val as u64;
    let exp: u64 = (x >> 23) & 0xff;
    let frac: u64 = x & 0x007F_FFFF;
    if exp > 0 && exp < 255 {
        ((x >> 31) << 63) | (((exp + 896) as u64) << 52) | (frac << 29)
    } else if exp == 0 && frac != 0 {
        let (f, e) = normalized(frac, 897, 24);
        ((x >> 31) << 63) | ((e as u64) << 52) | ((f & 0x007F_FFFF) << 29)
    } else {
        ((x >> 31) << 63) | ((if exp == 255 { 0x7FFu64 } else { 0u64 }) << 52) | (frac << 29)
    }
}

/// The double-precision register image that a load of the single-precision
/// word `val` gives.
#[verifier::when_used_as_spec(spec_convert_to_double)]
pub fn convert_to_double(val: u32) -> (r: u64)
    ensures
        r == spec_convert_to_double(val),
{
    let x: u64 = val as u64;
    let exp: u64 = (x >> 23) & 0xff;
    let frac: u64 = x & 0x007F_FFFF;

    if (exp > 0) && (exp < 255) {
        let y: u64 = if (exp >> 7) == 0 { 1 } else { 0 };
        let z: u64 = y << 61 | y << 60 | y << 59;
        proof {
            assert((((x & 0xC000_0000) << 32) | ((if (((x >> 23) & 0xff) >> 7) == 0 { 1u64 } else { 0u64 }) << 61 | (if (((x >> 23) & 0xff) >> 7) == 0 { 1u64 } else { 0u64 }) << 60 | (if (((x >> 23) & 0xff) >> 7) == 0 { 1u64 } else { 0u64 }) << 59) | ((x & 0x3FFF_FFFF) << 29)) == ((x >> 31) << 63) | (((((x >> 23) & 0xff) + 896) as u64) << 52) | ((x & 0x007F_FFFF) << 29)) by (bit_vector)
                requires
                    0 < (x >> 23) & 0xff,
                    (x >> 23) & 0xff < 255,
                    x <= 0xFFFF_FFFF,
            ;
        }
        ((x & 0xC000_0000) << 32) | z | ((x & 0x3FFF_FFFF) << 29)
    } else if (exp == 0) && (frac != 0) {
        proof {
            assert(x & 0x007F_FFFF < 0x0100_0000) by (bit_vector);
            assert((x & 0x8000_0000) << 32 == (x >> 31) << 63) by (bit_vector)
                requires
                    x <= 0xFFFF_FFFF,
            ;
        }
        let (f, e) = normalize(frac, 897);
        ((x & 0x8000_0000) << 32) | ((e as u64) << 52) | ((f & 0x007F_FFFF) << 29)
    } else {
        let y: u64 = exp >> 7;
        let z: u64 = y << 61 | y << 60 | y << 59;
        proof {
            assert((((x & 0xC000_0000) << 32) | ((((x >> 23) & 0xff) >> 7) << 61 | (((x >> 23) & 0xff) >> 7) << 60 | (((x >> 23) & 0xff) >> 7) << 59) | ((x & 0x3FFF_FFFF) << 29)) == ((x >> 31) << 63) | ((if (x >> 23) & 0xff == 255 { 0x7FFu64 } else { 0u64 }) << 52) | ((x & 0x007F_FFFF) << 29)) by (bit_vector)
                requires
                    (x >> 23) & 0xff == 0 || (x >> 23) & 0xff >= 255,
                    x <= 0xFFFF_FFFF,
            ;
        }
        ((x & 0xC000_0000) << 32) | z | ((x & 0x3FFF_FFFF) << 29)
    }
}

/// The single-precision image of 1.
pub const SINGLE_ONE: u32 = 0x3F80_0000;

/// The exponent of the power of two by which a quantized load with the scale
/// `ld_scale` multiplies. The scale is a six-bit number in two's complement,
/// and the factor is two to the power of its negative: scales 0 to 31 stand
/// for 2^0 down to 2^-31, scales 32 to 63 for 2^32 down to 2^1.
pub open spec fn spec_scale_exponent(ld_scale: usize) -> i32 {
    if ld_scale < 32 {
        (0 - ld_scale) as i32
    } else {
        (64 - ld_scale) as i32
    }
}

/// The exponent of the power of two by which a quantized load with the scale
/// `ld_scale` multiplies.
#[verifier::when_used_as_spec(spec_scale_exponent)]
pub fn scale_exponent(ld_scale: usize) -> (r: i32)
    requires
        ld_scale < 64,
    ensures
        r == spec_scale_exponent(ld_scale),
        -31 <= r <= 32,
{
    if ld_scale < 32 {
        0 - (ld_scale as i32)
    } else {
        64 - (ld_scale as i32)
    }
}

/// The single-precision image of the power of two by which a quantized load
/// with the scale `ld_scale` multiplies: the entry of the dequantization
/// table.
pub open spec fn spec_dequantize_factor(ld_scale: usize) -> u32 {
    ((127 + spec_scale_exponent(ld_scale)) as u32) << 23
}

/// The entry of the dequantization table for the scale `ld_scale`.
#[verifier::when_used_as_spec(spec_dequantize_factor)]
pub fn dequantize_factor(ld_scale: usize) -> (r: u32)
    requires
        ld_scale < 64,
    ensures
        r == spec_dequantize_factor(ld_scale),
{
    ((127 + scale_exponent(ld_scale)) as u32) << 23
}

/// The single-precision image with the sign bit `sign`, for the value of
/// the normalized 24-bit significand `mant` at the biased exponent `t`.
/// An exponent of 255 or more gives an infinity. An exponent below 1 gives a
/// denormal: the significand is shifted right, and rounded to the nearest
/// value that fits, to the even one of two that are equally near.
pub open spec fn spec_pack_single(sign: u32, mant: u32, t: i32) -> u32 {
    if t >= 255 {
        sign | 0x7F80_0000
    } else if t >= 1 {
        sign | ((t as u32) << 23) | (mant & 0x007F_FFFF)
    } else if t < -23 {
        sign
    } else {
        let sh: u32 = (1 - t) as u32;
        let kept: u32 = mant >> sh;
        let rest: u32 = mant & (((1u32 << sh) - 1) as u32);
        let half: u32 = 1u32 << ((sh - 1) as u32);
        if rest > half || (rest == half && (kept & 1) == 1) {
            sign | ((kept + 1) as u32)
        } else {
            sign | kept
        }
    }
}

/// A shift to zero or more bits below bit 24 leaves room for one more.
proof fn lemma_pack_bounds(mant: u32, sh: u32)
    by (bit_vector)
    requires
        1 <= sh <= 24,
        mant < 0x0100_0000,
    ensures
        (mant >> sh) < 0x0080_0000,
        (1u32 << sh) >= 1,
{
}

/// Packs a sign, a normalized significand and a biased exponent into a
/// single-precision image.
#[verifier::when_used_as_spec(spec_pack_single)]
pub fn pack_single(sign: u32, mant: u32, t: i32) -> (r: u32)
    requires
        mant < 0x0100_0000,
    ensures
        r == spec_pack_single(sign, mant, t),
{
    if t >= 255 {
        sign | 0x7F80_0000
    } else if t >= 1 {
        sign | ((t as u32) << 23) | (mant & 0x007F_FFFF)
    } else if t < -23 {
        sign
    } else {
        let sh: u32 = (1 - t) as u32;
        proof {
            lemma_pack_bounds(mant, sh);
        }
        let kept: u32 = mant >> sh;
        let rest: u32 = mant & ((1u32 << sh) - 1);
        let half: u32 = 1u32 << (sh - 1);
        if rest > half || (rest == half && (kept & 1) == 1) {
            sign | (kept + 1)
        } else {
            sign | kept
        }
    }
}

/// The single-precision image of the value of the image `x` times two to
/// the power of `e`. A NaN stays a NaN, and is made quiet; an infinity and a
/// zero stay what they are.
pub open spec fn spec_scale_single(x: u32, e: i32) -> u32 {
    let sign: u32 = x & 0x8000_0000;
    let exp: u32 = (x >> 23) & 0xFF;
    let frac: u32 = x & 0x007F_FFFF;
    if exp == 0xFF {
        if frac != 0 {
            x | 0x0040_0000
        } else {
            x
        }
    } else if exp == 0 && frac == 0 {
        x
    } else if exp != 0 {
        spec_pack_single(sign, frac | 0x0080_0000, (exp + e) as i32)
    } else {
        let (m, q) = normalized(frac as u64, 1, 24);
        spec_pack_single(sign, m as u32, (q + e) as i32)
    }
}

/// The parts of a single-precision image lie within their fields.
proof fn lemma_single_fields(x: u32)
    by (bit_vector)
    ensures
        (x >> 23) & 0xFF <= 0xFF,
        x & 0x007F_FFFF < 0x0080_0000,
        (x & 0x007F_FFFF) | 0x0080_0000 < 0x0100_0000,
{
}

/// Multiplies the value of a single-precision image by two to the power of
/// `e`.
#[verifier::when_used_as_spec(spec_scale_single)]
pub fn scale_single(x: u32, e: i32) -> (r: u32)
    requires
        -31 <= e <= 32,
    ensures
        r == spec_scale_single(x, e),
{
    proof {
        lemma_single_fields(x);
    }
    let sign: u32 = x & 0x8000_0000;
    let exp: u32 = (x >> 23) & 0xFF;
    let frac: u32 = x & 0x007F_FFFF;
    if exp == 0xFF {
        if frac != 0 {
            x | 0x0040_0000
        } else {
            x
        }
    } else if exp == 0 && frac == 0 {
        x
    } else if exp != 0 {
        pack_single(sign, frac | 0x0080_0000, exp as i32 + e)
    } else {
        let (m, q) = normalize(frac as u64, 1);
        pack_single(sign, m as u32, q + e)
    }
}

/// The single-precision image of the integer `n` times two to the power of
/// `e`, for an integer of at most sixteen bits.
pub open spec fn spec_scaled_integer(n: i32, e: i32) -> u32 {
    if n == 0 {
        0
    } else {
        let sign: u32 = if n < 0 { 0x8000_0000u32 } else { 0u32 };
        let magnitude: u64 = (if n < 0 { 0 - n } else { n as int }) as u64;
        let (m, q) = normalized(magnitude, 150, 24);
        spec_pack_single(sign, m as u32, (q + e) as i32)
    }
}

/// Converts an integer of at most sixteen bits to single precision and
/// multiplies it by two to the power of `e`. The result is exact.
#[verifier::when_used_as_spec(spec_scaled_integer)]
pub fn scaled_integer(n: i32, e: i32) -> (r: u32)
    requires
        -0x8000 <= n <= 0xFFFF,
        -31 <= e <= 32,
    ensures
        r == spec_scaled_integer(n, e),
{
    if n == 0 {
        0
    } else {
        let sign: u32 = if n < 0 { 0x8000_0000 } else { 0 };
        let magnitude: u64 = if n < 0 { (0 - n) as u64 } else { n as u64 };
        let (m, q) = normalize(magnitude, 150);
        pack_single(sign, m as u32, q + e)
    }
}

/// The quantized value that a load of the type `ld_type` finds in `val`, as
/// an integer: the low byte or the low half, unsigned or in two's
/// complement. None for a type that loads a single-precision image.
pub open spec fn spec_quantized(val: u32, ld_type: usize) -> Option<i32> {
    if ld_type == 4 {
        Some((val & 0xFF) as i32)
    } else if ld_type == 5 {
        Some((val & 0xFFFF) as i32)
    } else if ld_type == 6 {
        Some((if (val & 0xFF) >= 0x80 { (val & 0xFF) - 0x100 } else { (val & 0xFF) as int }) as i32)
    } else if ld_type == 7 {
        Some((if (val & 0xFFFF) >= 0x8000 { (val & 0xFFFF) - 0x1_0000 } else { (val & 0xFFFF) as int }) as i32)
    } else {
        None
    }
}

/// The quantized value that a load of the type `ld_type` finds in `val`.
#[verifier::when_used_as_spec(spec_quantized)]
pub fn quantized(val: u32, ld_type: usize) -> (r: Option<i32>)
    ensures
        r == spec_quantized(val, ld_type),
        r matches Some(n) ==> -0x8000 <= n <= 0xFFFF,
{
    proof {
        crate::cpu::instr::lemma_and_bound(val, 0xFF);
        crate::cpu::instr::lemma_and_bound(val, 0xFFFF);
    }
    let byte: i32 = (val & 0xFF) as i32;
    let half: i32 = (val & 0xFFFF) as i32;
    if ld_type == 4 {
        Some(byte)
    } else if ld_type == 5 {
        Some(half)
    } else if ld_type == 6 {
        Some(if byte >= 0x80 { byte - 0x100 } else { byte })
    } else if ld_type == 7 {
        Some(if half >= 0x8000 { half - 0x1_0000 } else { half })
    } else {
        None
    }
}

/// The single-precision image that a quantized load of the type `ld_type`
/// with the scale `ld_scale` makes of the loaded value `val`: for the
/// integer types the integer, for any other type the single-precision value
/// that `val` is the image of, times the power of two that the scale stands
/// for.
#[verifier::opaque]
pub open spec fn spec_dequantized(val: u32, ld_type: usize, ld_scale: usize) -> u32 {
    match spec_quantized(val, ld_type) {
        Some(n) => spec_scaled_integer(n, spec_scale_exponent(ld_scale)),
        None => spec_scale_single(val, spec_scale_exponent(ld_scale)),
    }
}

/// Dequantizes a loaded value. The result is the bit pattern of a
/// single-precision number.
#[verifier::when_used_as_spec(spec_dequantized)]
pub fn dequantized(val: u32, ld_type: usize, ld_scale: usize) -> (r: u32)
    requires
        ld_scale < 64,
    ensures
        r == spec_dequantized(val, ld_type, ld_scale),
{
    reveal(spec_dequantized);
    let e: i32 = scale_exponent(ld_scale);
    match quantized(val, ld_type) {
        Some(n) => scaled_integer(n, e),
        None => scale_single(val, e),
    }
}

} // verus!
