//! The operation dispatcher: picks the lane width and the arithmetic kind of
//! an operation, reinterprets the operands into that lane view, applies the
//! per-lane primitive and reassembles the result register(s).

use crate::types::{
    from_lanes16, from_lanes32, from_lanes8, lanes16, lanes32, lanes8, mul_widen16_lanes,
    mul_widen32_lanes, mul_widen8_lanes, sat_add16_lanes, sat_add32_lanes, sat_add64,
    sat_add8_lanes, sat_inc16_lanes, sat_inc32_lanes, sat_inc8_lanes, u64x1, wrap_add16_lanes,
    wrap_add32_lanes, wrap_add64, wrap_add8_lanes, wrap_inc16_lanes, wrap_inc32_lanes,
    wrap_inc8_lanes, Operations,
};
use vstd::prelude::*;

verus! {

// ---------------------------------------------------------------------------
// Whole-register semantics of each operation family
// ---------------------------------------------------------------------------
/// Wrapping addition over 8-bit lanes of two registers.
pub open spec fn padd_b(a: u64, b: u64) -> u64 {
    from_lanes8(wrap_add8_lanes(lanes8(a), lanes8(b)))
}

/// Wrapping addition over 16-bit lanes of two registers.
pub open spec fn padd_w(a: u64, b: u64) -> u64 {
    from_lanes16(wrap_add16_lanes(lanes16(a), lanes16(b)))
}

/// Wrapping addition over 32-bit lanes of two registers.
pub open spec fn padd_d(a: u64, b: u64) -> u64 {
    from_lanes32(wrap_add32_lanes(lanes32(a), lanes32(b)))
}

/// Wrapping addition of two registers as single 64-bit lanes.
pub open spec fn padd_q(a: u64, b: u64) -> u64 {
    wrap_add64(a, b)
}

/// Saturating addition over 8-bit lanes of two registers.
pub open spec fn padds_b(a: u64, b: u64) -> u64 {
    from_lanes8(sat_add8_lanes(lanes8(a), lanes8(b)))
}

/// Saturating addition over 16-bit lanes of two registers.
pub open spec fn padds_w(a: u64, b: u64) -> u64 {
    from_lanes16(sat_add16_lanes(lanes16(a), lanes16(b)))
}

/// Saturating addition over 32-bit lanes of two registers.
pub open spec fn padds_d(a: u64, b: u64) -> u64 {
    from_lanes32(sat_add32_lanes(lanes32(a), lanes32(b)))
}

/// Saturating addition of two registers as single 64-bit lanes.
pub open spec fn padds_q(a: u64, b: u64) -> u64 {
    sat_add64(a, b)
}

/// Wrapping increment of every 8-bit lane of one register.
pub open spec fn pinc_b(x: u64) -> u64 {
    from_lanes8(wrap_inc8_lanes(lanes8(x)))
}

/// Wrapping increment of every 16-bit lane of one register.
pub open spec fn pinc_w(x: u64) -> u64 {
    from_lanes16(wrap_inc16_lanes(lanes16(x)))
}

/// Wrapping increment of every 32-bit lane of one register.
pub open spec fn pinc_d(x: u64) -> u64 {
    from_lanes32(wrap_inc32_lanes(lanes32(x)))
}

/// Wrapping increment of one register as a single 64-bit lane.
pub open spec fn pinc_q(x: u64) -> u64 {
    wrap_add64(x, 1)
}

/// Saturating increment of every 8-bit lane of one register.
pub open spec fn pincs_b(x: u64) -> u64 {
    from_lanes8(sat_inc8_lanes(lanes8(x)))
}

/// Saturating increment of every 16-bit lane of one register.
pub open spec fn pincs_w(x: u64) -> u64 {
    from_lanes16(sat_inc16_lanes(lanes16(x)))
}

/// Saturating increment of every 32-bit lane of one register.
pub open spec fn pincs_d(x: u64) -> u64 {
    from_lanes32(sat_inc32_lanes(lanes32(x)))
}

/// Saturating increment of one register as a single 64-bit lane.
pub open spec fn pincs_q(x: u64) -> u64 {
    sat_add64(x, 1)
}

/// Packed multiply of the 8-bit views, producing 16-bit lanes.
pub open spec fn pmull_b(a: u64, b: u64) -> u64 {
    from_lanes16(mul_widen8_lanes(lanes8(a), lanes8(b)))
}

/// Packed multiply of the 16-bit views, producing 32-bit lanes.
pub open spec fn pmull_w(a: u64, b: u64) -> u64 {
    from_lanes32(mul_widen16_lanes(lanes16(a), lanes16(b)))
}

/// Packed multiply of the 32-bit views, producing one 64-bit lane.
pub open spec fn pmull_d(a: u64, b: u64) -> u64 {
    mul_widen32_lanes(lanes32(a), lanes32(b))
}

/// The register the increment family yields for one operand on its own.
/// For an operation outside the increment family the operand is returned
/// unchanged; the dispatcher never relies on those arms.
pub open spec fn pinc_reg(x: u64, op: Operations) -> u64 {
    match op {
        Operations::PINCB => pinc_b(x),
        Operations::PINCSB => pincs_b(x),
        Operations::PINCW => pinc_w(x),
        Operations::PINCSW => pincs_w(x),
        Operations::PINCD => pinc_d(x),
        Operations::PINCSD => pincs_d(x),
        Operations::PINCQ => pinc_q(x),
        Operations::PINCSQ => pincs_q(x),
        _ => x,
    }
}

// ---------------------------------------------------------------------------
// The result carrier and the dispatcher
// ---------------------------------------------------------------------------
/// The outcome of one calculation: one combined register for the add and
/// multiply families, or two independent registers for the increment family.
#[derive(Clone, Copy, PartialEq, Eq, Structural, Debug)]
pub enum EitherRegisters {
    OneRegister(u64x1),
    TwoRegisters(u64x1, u64x1),
}

/// Exactly what `calculate` returns for each operation: one register holding
/// the operation's whole-register result, or, for the increment family, the
/// two operands incremented independently of one another.
pub open spec fn calculate_post(a: u64, b: u64, op: Operations, r: EitherRegisters) -> bool {
    match op {
        Operations::PADDB => r == EitherRegisters::OneRegister(u64x1(padd_b(a, b))),
        Operations::PADDSB => r == EitherRegisters::OneRegister(u64x1(padds_b(a, b))),
        Operations::PMULLB => r == EitherRegisters::OneRegister(u64x1(pmull_b(a, b))),
        Operations::PADDW => r == EitherRegisters::OneRegister(u64x1(padd_w(a, b))),
        Operations::PADDSW => r == EitherRegisters::OneRegister(u64x1(padds_w(a, b))),
        Operations::PMULLW => r == EitherRegisters::OneRegister(u64x1(pmull_w(a, b))),
        Operations::PADDD => r == EitherRegisters::OneRegister(u64x1(padd_d(a, b))),
        Operations::PADDSD => r == EitherRegisters::OneRegister(u64x1(padds_d(a, b))),
        Operations::PMULLD => r == EitherRegisters::OneRegister(u64x1(pmull_d(a, b))),
        Operations::PADDQ => r == EitherRegisters::OneRegister(u64x1(padd_q(a, b))),
        Operations::PADDSQ => r == EitherRegisters::OneRegister(u64x1(padds_q(a, b))),
        _ => r == EitherRegisters::TwoRegisters(u64x1(pinc_reg(a, op)), u64x1(pinc_reg(b, op))),
    }
}

/// Resolves the operation's lane width and arithmetic kind, reinterprets the
/// operands into that lane view, applies the per-lane primitive, and returns
/// the reassembled register(s). Total over all inputs: every operation is
/// defined for every pair of 64-bit values.
pub fn calculate(mm1: u64x1, mm2: u64x1, operation: &Operations) -> (r: EitherRegisters)
    ensures
        calculate_post(mm1@, mm2@, *operation, r),
{
    match operation {
        Operations::PADDB | Operations::PADDSB | Operations::PINCB | Operations::PINCSB
            | Operations::PMULLB => {
            let a = mm1.to_u8x8();
            let b = mm2.to_u8x8();
            match operation {
                Operations::PADDB => EitherRegisters::OneRegister(
                    a.overflowing_add(&b).to_u64x1(),
                ),
                Operations::PADDSB => EitherRegisters::OneRegister(
                    a.saturating_add(&b).to_u64x1(),
                ),
                Operations::PINCB => EitherRegisters::TwoRegisters(
                    a.overflowing_increment().to_u64x1(),
                    b.overflowing_increment().to_u64x1(),
                ),
                Operations::PINCSB => EitherRegisters::TwoRegisters(
                    a.saturating_increment().to_u64x1(),
                    b.saturating_increment().to_u64x1(),
                ),
                _ => EitherRegisters::OneRegister(a.multiply(&b).to_u64x1()),
            }
        },
        Operations::PADDW | Operations::PADDSW | Operations::PINCW | Operations::PINCSW
            | Operations::PMULLW => {
            let a = mm1.to_u16x4();
            let b = mm2.to_u16x4();
            match operation {
                Operations::PADDW => EitherRegisters::OneRegister(
                    a.overflowing_add(&b).to_u64x1(),
                ),
                Operations::PADDSW => EitherRegisters::OneRegister(
                    a.saturating_add(&b).to_u64x1(),
                ),
                Operations::PINCW => EitherRegisters::TwoRegisters(
                    a.overflowing_increment().to_u64x1(),
                    b.overflowing_increment().to_u64x1(),
                ),
                Operations::PINCSW => EitherRegisters::TwoRegisters(
                    a.saturating_increment().to_u64x1(),
                    b.saturating_increment().to_u64x1(),
                ),
                _ => EitherRegisters::OneRegister(a.multiply(&b).to_u64x1()),
            }
        },
        Operations::PADDD | Operations::PADDSD | Operations::PINCD | Operations::PINCSD
            | Operations::PMULLD => {
            let a = mm1.to_u32x2();
            let b = mm2.to_u32x2();
            match operation {
                Operations::PADDD => EitherRegisters::OneRegister(
                    a.overflowing_add(&b).to_u64x1(),
                ),
                Operations::PADDSD => EitherRegisters::OneRegister(
                    a.saturating_add(&b).to_u64x1(),
                ),
                Operations::PINCD => EitherRegisters::TwoRegisters(
                    a.overflowing_increment().to_u64x1(),
                    b.overflowing_increment().to_u64x1(),
                ),
                Operations::PINCSD => EitherRegisters::TwoRegisters(
                    a.saturating_increment().to_u64x1(),
                    b.saturating_increment().to_u64x1(),
                ),
                _ => EitherRegisters::OneRegister(a.multiply(&b)),
            }
        },
        Operations::PADDQ => EitherRegisters::OneRegister(mm1.overflowing_add(&mm2)),
        Operations::PADDSQ => EitherRegisters::OneRegister(mm1.saturating_add(&mm2)),
        Operations::PINCQ => EitherRegisters::TwoRegisters(
            mm1.overflowing_increment(),
            mm2.overflowing_increment(),
        ),
        Operations::PINCSQ => EitherRegisters::TwoRegisters(
            mm1.saturating_increment(),
            mm2.saturating_increment(),
        ),
    }
}

} // verus!
