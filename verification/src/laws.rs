//! The laws of the lane-view family and of the dispatcher, stated over the
//! same spec functions that the executable contracts use and proved once for
//! all inputs.

use crate::calculations::{
    calculate_post, padd_b, padd_d, padd_q, padd_w, padds_b, padds_d, padds_q, padds_w, pinc_reg,
    pmull_b, EitherRegisters,
};
use crate::types::{
    from_lanes16, from_lanes32, from_lanes8, hex_digit, hex_str, is_increment_op, is_upper_hex,
    lanes16, lanes32, lanes8, mul_widen8_lanes, nibble, sat_add16, sat_add32, sat_add64, sat_add8,
    u64x1, wrap_add16, wrap_add32, wrap_add8, Operations,
};
use vstd::prelude::*;

verus! {

// ---------------------------------------------------------------------------
// Round-trip: reinterpretation is lossless
// ---------------------------------------------------------------------------
/// Reinterpreting a register into lanes of any width and reassembling it
/// yields the original register, bit for bit. (The 64-bit view is the
/// register itself, so it needs no statement.)
pub proof fn lemma_register_roundtrip(x: u64)
    ensures
        from_lanes8(lanes8(x)) == x,
        from_lanes16(lanes16(x)) == x,
        from_lanes32(lanes32(x)) == x,
{
    assert((((x & 0xFF) as u8) as u64) | (((((x >> 8) & 0xFF) as u8) as u64) << 8) | (((((x
        >> 16) & 0xFF) as u8) as u64) << 16) | (((((x >> 24) & 0xFF) as u8) as u64) << 24) | (((((
    x >> 32) & 0xFF) as u8) as u64) << 32) | (((((x >> 40) & 0xFF) as u8) as u64) << 40) | (((((x
        >> 48) & 0xFF) as u8) as u64) << 48) | (((((x >> 56) & 0xFF) as u8) as u64) << 56)
        == x) by (bit_vector);
    assert((((x & 0xFFFF) as u16) as u64) | (((((x >> 16) & 0xFFFF) as u16) as u64) << 16)
        | (((((x >> 32) & 0xFFFF) as u16) as u64) << 32) | (((((x >> 48) & 0xFFFF) as u16) as u64)
        << 48) == x) by (bit_vector);
    assert((((x & 0xFFFF_FFFF) as u32) as u64) | (((((x >> 32) & 0xFFFF_FFFF) as u32) as u64)
        << 32) == x) by (bit_vector);
}

/// The inverse direction: decomposing a register that was assembled from
/// eight 8-bit lanes gives back exactly those lanes.
pub proof fn lemma_lanes8_roundtrip(s: Seq<u8>)
    requires
        s.len() == 8,
    ensures
        lanes8(from_lanes8(s)) =~= s,
{
    let a0 = s[0];
    let a1 = s[1];
    let a2 = s[2];
    let a3 = s[3];
    let a4 = s[4];
    let a5 = s[5];
    let a6 = s[6];
    let a7 = s[7];
    let y = from_lanes8(s);
    assert((y & 0xFF) as u8 == a0 && ((y >> 8) & 0xFF) as u8 == a1 && ((y >> 16) & 0xFF) as u8
        == a2 && ((y >> 24) & 0xFF) as u8 == a3 && ((y >> 32) & 0xFF) as u8 == a4 && ((y >> 40)
        & 0xFF) as u8 == a5 && ((y >> 48) & 0xFF) as u8 == a6 && ((y >> 56) & 0xFF) as u8
        == a7) by (bit_vector)
        requires
            y == (a0 as u64) | ((a1 as u64) << 8) | ((a2 as u64) << 16) | ((a3 as u64) << 24) | ((
            a4 as u64) << 32) | ((a5 as u64) << 40) | ((a6 as u64) << 48) | ((a7 as u64) << 56),
    ;
}

/// The inverse direction for four 16-bit lanes.
pub proof fn lemma_lanes16_roundtrip(s: Seq<u16>)
    requires
        s.len() == 4,
    ensures
        lanes16(from_lanes16(s)) =~= s,
{
    let a0 = s[0];
    let a1 = s[1];
    let a2 = s[2];
    let a3 = s[3];
    let y = from_lanes16(s);
    assert((y & 0xFFFF) as u16 == a0 && ((y >> 16) & 0xFFFF) as u16 == a1 && ((y >> 32)
        & 0xFFFF) as u16 == a2 && ((y >> 48) & 0xFFFF) as u16 == a3) by (bit_vector)
        requires
            y == (a0 as u64) | ((a1 as u64) << 16) | ((a2 as u64) << 32) | ((a3 as u64) << 48),
    ;
}

/// The inverse direction for two 32-bit lanes.
pub proof fn lemma_lanes32_roundtrip(s: Seq<u32>)
    requires
        s.len() == 2,
    ensures
        lanes32(from_lanes32(s)) =~= s,
{
    let a0 = s[0];
    let a1 = s[1];
    let y = from_lanes32(s);
    assert((y & 0xFFFF_FFFF) as u32 == a0 && ((y >> 32) & 0xFFFF_FFFF) as u32 == a1) by (bit_vector)
        requires
            y == (a0 as u64) | ((a1 as u64) << 32),
    ;
}

// ---------------------------------------------------------------------------
// Rendering
// ---------------------------------------------------------------------------
/// Every register renders as exactly sixteen characters, each one a digit
/// or an uppercase letter `A` through `F`.
pub proof fn lemma_render_sixteen_digits(x: u64)
    ensures
        hex_str(x).len() == 16,
        forall|i: int| 0 <= i < 16 ==> is_upper_hex(#[trigger] hex_str(x)[i]),
{
    assert forall|i: int| 0 <= i < 16 implies is_upper_hex(#[trigger] hex_str(x)[i]) by {
        let sh = (4 * (15 - i)) as u64;
        assert(((x >> sh) & 0xF) < 16) by (bit_vector);
        assert(hex_str(x)[i] == hex_digit(nibble(x, 15 - i)));
    }
}

// ---------------------------------------------------------------------------
// No cross-lane carry
// ---------------------------------------------------------------------------
/// Packed wrapping addition never lets a carry cross a lane boundary: every
/// lane of the result is the sum of the matching operand lanes alone,
/// wrapped within that lane's own width.
pub proof fn lemma_no_cross_lane_carry(a: u64, b: u64)
    ensures
        forall|i: int|
            0 <= i < 8 ==> lanes8(padd_b(a, b))[i] == wrap_add8(lanes8(a)[i], lanes8(b)[i]),
        forall|i: int|
            0 <= i < 4 ==> lanes16(padd_w(a, b))[i] == wrap_add16(lanes16(a)[i], lanes16(b)[i]),
        forall|i: int|
            0 <= i < 2 ==> lanes32(padd_d(a, b))[i] == wrap_add32(lanes32(a)[i], lanes32(b)[i]),
{
    lemma_lanes8_roundtrip(crate::types::wrap_add8_lanes(lanes8(a), lanes8(b)));
    lemma_lanes16_roundtrip(crate::types::wrap_add16_lanes(lanes16(a), lanes16(b)));
    lemma_lanes32_roundtrip(crate::types::wrap_add32_lanes(lanes32(a), lanes32(b)));
}

// ---------------------------------------------------------------------------
// Saturation ceiling
// ---------------------------------------------------------------------------
/// Packed saturating addition clamps every lane at its own maximum, and
/// agrees with packed wrapping addition whenever no lane's true sum reaches
/// the lane's modulus.
pub proof fn lemma_saturation_ceiling(a: u64, b: u64)
    ensures
        forall|i: int|
            0 <= i < 8 ==> lanes8(padds_b(a, b))[i] == sat_add8(lanes8(a)[i], lanes8(b)[i]),
        forall|i: int| 0 <= i < 8 ==> lanes8(padds_b(a, b))[i] <= 0xFF,
        forall|i: int|
            0 <= i < 4 ==> lanes16(padds_w(a, b))[i] == sat_add16(lanes16(a)[i], lanes16(b)[i]),
        forall|i: int| 0 <= i < 4 ==> lanes16(padds_w(a, b))[i] <= 0xFFFF,
        forall|i: int|
            0 <= i < 2 ==> lanes32(padds_d(a, b))[i] == sat_add32(lanes32(a)[i], lanes32(b)[i]),
        forall|i: int| 0 <= i < 2 ==> lanes32(padds_d(a, b))[i] <= 0xFFFF_FFFF,
        padds_q(a, b) == sat_add64(a, b),
        (forall|i: int| 0 <= i < 8 ==> lanes8(a)[i] + lanes8(b)[i] < 0x100) ==> padds_b(a, b)
            == padd_b(a, b),
        (forall|i: int| 0 <= i < 4 ==> lanes16(a)[i] + lanes16(b)[i] < 0x1_0000) ==> padds_w(a, b)
            == padd_w(a, b),
        (forall|i: int| 0 <= i < 2 ==> lanes32(a)[i] + lanes32(b)[i] < 0x1_0000_0000)
            ==> padds_d(a, b) == padd_d(a, b),
        a + b < 0x1_0000_0000_0000_0000 ==> padds_q(a, b) == padd_q(a, b),
{
    lemma_lanes8_roundtrip(crate::types::sat_add8_lanes(lanes8(a), lanes8(b)));
    lemma_lanes16_roundtrip(crate::types::sat_add16_lanes(lanes16(a), lanes16(b)));
    lemma_lanes32_roundtrip(crate::types::sat_add32_lanes(lanes32(a), lanes32(b)));
    if forall|i: int| 0 <= i < 8 ==> lanes8(a)[i] + lanes8(b)[i] < 0x100 {
        assert(crate::types::sat_add8_lanes(lanes8(a), lanes8(b)) =~= crate::types::wrap_add8_lanes(
            lanes8(a),
            lanes8(b),
        ));
    }
    if forall|i: int| 0 <= i < 4 ==> lanes16(a)[i] + lanes16(b)[i] < 0x1_0000 {
        assert(crate::types::sat_add16_lanes(lanes16(a), lanes16(b))
            =~= crate::types::wrap_add16_lanes(lanes16(a), lanes16(b)));
    }
    if forall|i: int| 0 <= i < 2 ==> lanes32(a)[i] + lanes32(b)[i] < 0x1_0000_0000 {
        assert(crate::types::sat_add32_lanes(lanes32(a), lanes32(b))
            =~= crate::types::wrap_add32_lanes(lanes32(a), lanes32(b)));
    }
}

// ---------------------------------------------------------------------------
// Increment independence
// ---------------------------------------------------------------------------
/// An increment-family operation applied to `(a, b)` returns the pair
/// `(increment(a), increment(b))`: the first register is a function of `a`
/// and the operation alone, the second of `b` and the operation alone.
pub proof fn lemma_increment_independence(a: u64, b: u64, op: Operations, r: EitherRegisters)
    requires
        is_increment_op(op),
        calculate_post(a, b, op, r),
    ensures
        r == EitherRegisters::TwoRegisters(u64x1(pinc_reg(a, op)), u64x1(pinc_reg(b, op))),
{
}

// ---------------------------------------------------------------------------
// Multiply lane selection
// ---------------------------------------------------------------------------
/// The packed multiply of the 8-bit views reads only the lanes with even
/// (lower) index of each operand: two input pairs that agree on those lanes
/// give the same product register, whatever stands in the other lanes.
pub proof fn lemma_multiply_lane_selection(a1: u64, b1: u64, a2: u64, b2: u64)
    requires
        lanes8(a1)[0] == lanes8(a2)[0],
        lanes8(a1)[2] == lanes8(a2)[2],
        lanes8(a1)[4] == lanes8(a2)[4],
        lanes8(a1)[6] == lanes8(a2)[6],
        lanes8(b1)[0] == lanes8(b2)[0],
        lanes8(b1)[2] == lanes8(b2)[2],
        lanes8(b1)[4] == lanes8(b2)[4],
        lanes8(b1)[6] == lanes8(b2)[6],
    ensures
        pmull_b(a1, b1) == pmull_b(a2, b2),
{
    assert(mul_widen8_lanes(lanes8(a1), lanes8(b1)) =~= mul_widen8_lanes(lanes8(a2), lanes8(b2)));
}

} // verus!
