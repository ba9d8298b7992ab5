use packed64::calculations::{calculate, EitherRegisters};
use packed64::types::{u16x4, u32x2, u64x1, u8x8, Operations};

fn one(r: EitherRegisters) -> u64x1 {
    match r {
        EitherRegisters::OneRegister(x) => x,
        EitherRegisters::TwoRegisters(_, _) => panic!("expected one register"),
    }
}

fn two(r: EitherRegisters) -> (u64x1, u64x1) {
    match r {
        EitherRegisters::OneRegister(_) => panic!("expected two registers"),
        EitherRegisters::TwoRegisters(x, y) => (x, y),
    }
}

#[test]
fn paddq_one_plus_one() {
    let r = calculate(u64x1::new(1), u64x1::new(1), &Operations::PADDQ);
    assert_eq!(one(r).to_hex(), "0000000000000002");
}

#[test]
fn paddq_wraps_to_zero() {
    let r = calculate(
        u64x1::new(0xFFFF_FFFF_FFFF_FFFF),
        u64x1::new(1),
        &Operations::PADDQ,
    );
    assert_eq!(one(r).to_hex(), "0000000000000000");
}

#[test]
fn paddsq_saturates_at_max() {
    let r = calculate(
        u64x1::new(0xFFFF_FFFF_FFFF_FFFF),
        u64x1::new(5),
        &Operations::PADDSQ,
    );
    assert_eq!(one(r).to_hex(), "FFFFFFFFFFFFFFFF");
}

#[test]
fn paddsb_saturates_low_byte() {
    let r = calculate(u64x1::new(0xFF), u64x1::new(1), &Operations::PADDSB);
    assert_eq!(one(r).to_hex(), "00000000000000FF");
}

#[test]
fn paddb_low_byte_wraps_without_carry() {
    // 0xFF + 0x01 wraps the low byte to 0x00 and must not carry into byte 1.
    let r = calculate(u64x1::new(0xFF), u64x1::new(1), &Operations::PADDB);
    assert_eq!(one(r).to_hex(), "0000000000000000");
}

#[test]
fn paddw_no_cross_lane_carry() {
    // Every 16-bit lane at its maximum, plus one in every lane: each lane
    // wraps to zero on its own; nothing spills into the neighbour.
    let r = calculate(
        u64x1::new(0xFFFF_FFFF_FFFF_FFFF),
        u64x1::new(0x0001_0001_0001_0001),
        &Operations::PADDW,
    );
    assert_eq!(one(r).to_hex(), "0000000000000000");
}

#[test]
fn paddw_differs_from_wide_addition() {
    // As a single 64-bit number 0xFFFF + 1 would be 0x10000; as packed
    // 16-bit lanes the low lane wraps to zero and lane 1 stays zero.
    let packed = calculate(u64x1::new(0xFFFF), u64x1::new(1), &Operations::PADDW);
    let wide = calculate(u64x1::new(0xFFFF), u64x1::new(1), &Operations::PADDQ);
    assert_eq!(one(packed).to_hex(), "0000000000000000");
    assert_eq!(one(wide).to_hex(), "0000000000010000");
}

#[test]
fn paddd_no_cross_lane_carry() {
    let r = calculate(
        u64x1::new(0x0000_0000_FFFF_FFFF),
        u64x1::new(0x0000_0000_0000_0001),
        &Operations::PADDD,
    );
    assert_eq!(one(r).to_hex(), "0000000000000000");
}

#[test]
fn padds_equals_padd_when_no_lane_saturates() {
    let a = u64x1::new(0x0102_0304_0506_0708);
    let b = u64x1::new(0x1011_1213_1415_1617);
    let saturating = calculate(a, b, &Operations::PADDSB);
    let wrapping = calculate(
        u64x1::new(0x0102_0304_0506_0708),
        u64x1::new(0x1011_1213_1415_1617),
        &Operations::PADDB,
    );
    assert_eq!(one(saturating), one(wrapping));
}

#[test]
fn paddsw_clamps_each_lane() {
    // Lane 0: 0xFFFF + 2 clamps to 0xFFFF; lane 1: 0x0001 + 1 = 0x0002.
    let r = calculate(
        u64x1::new(0x0000_0000_0001_FFFF),
        u64x1::new(0x0000_0000_0001_0002),
        &Operations::PADDSW,
    );
    assert_eq!(one(r).to_hex(), "000000000002FFFF");
}

#[test]
fn paddsd_clamps_each_lane() {
    let r = calculate(
        u64x1::new(0x0000_0001_FFFF_FFFF),
        u64x1::new(0x0000_0001_0000_0002),
        &Operations::PADDSD,
    );
    assert_eq!(one(r).to_hex(), "00000002FFFFFFFF");
}

#[test]
fn pincb_increments_both_inputs_independently() {
    let r = calculate(u64x1::new(5), u64x1::new(9), &Operations::PINCB);
    let (x, y) = two(r);
    assert_eq!(x.to_hex(), "0101010101010106");
    assert_eq!(y.to_hex(), "010101010101010A");
}

#[test]
fn pincb_first_result_ignores_second_operand() {
    let a = 0x1234_5678_9ABC_DEF0;
    let r1 = calculate(u64x1::new(a), u64x1::new(0), &Operations::PINCB);
    let r2 = calculate(
        u64x1::new(a),
        u64x1::new(0xFFFF_FFFF_FFFF_FFFF),
        &Operations::PINCB,
    );
    assert_eq!(two(r1).0, two(r2).0);
}

#[test]
fn pincsb_clamps_each_byte() {
    let r = calculate(u64x1::new(0xFF), u64x1::new(0), &Operations::PINCSB);
    let (x, y) = two(r);
    assert_eq!(x.to_hex(), "01010101010101FF");
    assert_eq!(y.to_hex(), "0101010101010101");
}

#[test]
fn pincw_wraps_each_lane() {
    let r = calculate(
        u64x1::new(0x0000_0000_0000_FFFF),
        u64x1::new(2),
        &Operations::PINCW,
    );
    let (x, y) = two(r);
    assert_eq!(x.to_hex(), "0001000100010000");
    assert_eq!(y.to_hex(), "0001000100010003");
}

#[test]
fn pincsw_clamps_each_lane() {
    let r = calculate(
        u64x1::new(0xFFFF_FFFF_FFFF_FFFF),
        u64x1::new(0),
        &Operations::PINCSW,
    );
    let (x, y) = two(r);
    assert_eq!(x.to_hex(), "FFFFFFFFFFFFFFFF");
    assert_eq!(y.to_hex(), "0001000100010001");
}

#[test]
fn pincd_and_pincsd_treat_lanes_apart() {
    let a = u64x1::new(0x0000_0000_FFFF_FFFF);
    let w = calculate(a, u64x1::new(0), &Operations::PINCD);
    assert_eq!(two(w).0.to_hex(), "0000000100000000");
    let s = calculate(u64x1::new(0x0000_0000_FFFF_FFFF), u64x1::new(0), &Operations::PINCSD);
    assert_eq!(two(s).0.to_hex(), "00000001FFFFFFFF");
}

#[test]
fn pincq_wraps_and_pincsq_clamps() {
    let w = calculate(
        u64x1::new(0xFFFF_FFFF_FFFF_FFFF),
        u64x1::new(7),
        &Operations::PINCQ,
    );
    let (x, y) = two(w);
    assert_eq!(x.to_hex(), "0000000000000000");
    assert_eq!(y.to_hex(), "0000000000000008");
    let s = calculate(
        u64x1::new(0xFFFF_FFFF_FFFF_FFFF),
        u64x1::new(7),
        &Operations::PINCSQ,
    );
    let (x, y) = two(s);
    assert_eq!(x.to_hex(), "FFFFFFFFFFFFFFFF");
    assert_eq!(y.to_hex(), "0000000000000008");
}

#[test]
fn pmullb_multiplies_even_indexed_bytes() {
    // Byte lane 0 of each operand: 2 * 3 = 6; byte lane 1 is ignored.
    let r = calculate(
        u64x1::new(0x0000_0000_0000_0102),
        u64x1::new(0x0000_0000_0000_0203),
        &Operations::PMULLB,
    );
    assert_eq!(one(r).to_hex(), "0000000000000006");
}

#[test]
fn pmullb_ignores_the_top_byte() {
    // The two inputs differ from zero only in the top byte, which does not
    // feed the product: the result must equal the product of two zeros.
    let a = calculate(
        u64x1::new(0x0200_0000_0000_0000),
        u64x1::new(0x0300_0000_0000_0000),
        &Operations::PMULLB,
    );
    let z = calculate(u64x1::new(0), u64x1::new(0), &Operations::PMULLB);
    assert_eq!(one(a), one(z));
}

#[test]
fn pmullb_widens_into_16_bit_lanes() {
    // 0xFF * 0xFF = 0xFE01 needs the doubled lane width.
    let r = calculate(u64x1::new(0xFF), u64x1::new(0xFF), &Operations::PMULLB);
    assert_eq!(one(r).to_hex(), "000000000000FE01");
}

#[test]
fn pmullw_multiplies_lanes_zero_and_two() {
    // Selected 16-bit lanes: lane 0 (2 * 4 = 8) and lane 2 (3 * 5 = 15);
    // lanes 1 and 3 are ignored.
    let r = calculate(
        u64x1::new(0x0003_FFFF_0002),
        u64x1::new(0x0005_EEEE_0004),
        &Operations::PMULLW,
    );
    assert_eq!(one(r).to_hex(), "0000000F00000008");
}

#[test]
fn pmulld_multiplies_the_upper_lanes() {
    // The 32-bit multiply reads the upper lane of each operand: 2 * 3 = 6.
    let r = calculate(
        u64x1::new(0x0000_0002_FFFF_FFFF),
        u64x1::new(0x0000_0003_EEEE_EEEE),
        &Operations::PMULLD,
    );
    assert_eq!(one(r).to_hex(), "0000000000000006");
}

#[test]
fn pmulld_widens_into_the_full_register() {
    let r = calculate(
        u64x1::new(0xFFFF_FFFF_0000_0000),
        u64x1::new(0xFFFF_FFFF_0000_0000),
        &Operations::PMULLD,
    );
    assert_eq!(one(r).to_hex(), "FFFFFFFE00000001");
}

#[test]
fn reinterpretation_round_trips() {
    let x = 0x0123_4567_89AB_CDEF;
    assert_eq!(u64x1::new(x).to_u8x8().to_u64x1().to_hex(), "0123456789ABCDEF");
    assert_eq!(u64x1::new(x).to_u16x4().to_u64x1().to_hex(), "0123456789ABCDEF");
    assert_eq!(u64x1::new(x).to_u32x2().to_u64x1().to_hex(), "0123456789ABCDEF");
}

#[test]
fn lane_order_is_least_significant_first() {
    assert_eq!(
        u8x8::new([0x01, 0x02, 0x03, 0x04, 0x05, 0x06, 0x07, 0x08]).to_u64x1().to_hex(),
        "0807060504030201"
    );
    assert_eq!(
        u16x4::new([0x0001, 0x0002, 0x0003, 0x0004]).to_u64x1().to_hex(),
        "0004000300020001"
    );
    assert_eq!(u32x2::new([0x1, 0x2]).to_u64x1().to_hex(), "0000000200000001");
}

#[test]
fn lane_views_render_the_whole_register() {
    assert_eq!(u64x1::new(0).to_hex(), "0000000000000000");
    assert_eq!(u8x8::new([0xEF, 0xCD, 0xAB, 0x89, 0x67, 0x45, 0x23, 0x01]).to_hex(),
        "0123456789ABCDEF");
    assert_eq!(u16x4::new([0xCDEF, 0x89AB, 0x4567, 0x0123]).to_hex(), "0123456789ABCDEF");
    assert_eq!(u32x2::new([0x89ABCDEF, 0x01234567]).to_hex(), "0123456789ABCDEF");
}

#[test]
fn lane_primitives_work_on_views_directly() {
    let a = u8x8::new([0xFF, 0x00, 0x7F, 0x01, 0x10, 0x20, 0x30, 0x40]);
    let b = u8x8::new([0x01, 0xFF, 0x81, 0x01, 0x01, 0x01, 0x01, 0x01]);
    assert_eq!(a.overflowing_add(&b).to_hex(), "413121110200FF00");
    assert_eq!(a.saturating_add(&b).to_hex(), "4131211102FFFFFF");
    assert_eq!(a.overflowing_increment().to_hex(), "4131211102800100");
    assert_eq!(a.saturating_increment().to_hex(), "41312111028001FF");
    let c = u8x8::new([0xFF; 8]);
    assert_eq!(c.overflowing_increment().to_hex(), "0000000000000000");
    assert_eq!(c.saturating_increment().to_hex(), "FFFFFFFFFFFFFFFF");
}

#[test]
fn u64_lane_primitives() {
    let a = u64x1::new(0xFFFF_FFFF_FFFF_FFFE);
    let b = u64x1::new(3);
    assert_eq!(a.overflowing_add(&b).to_hex(), "0000000000000001");
    assert_eq!(a.saturating_add(&b).to_hex(), "FFFFFFFFFFFFFFFF");
    assert_eq!(a.overflowing_increment().to_hex(), "FFFFFFFFFFFFFFFF");
    assert_eq!(a.saturating_increment().to_hex(), "FFFFFFFFFFFFFFFF");
}

#[test]
fn requires_mm2_is_false_only_for_increments() {
    assert!(!Operations::PINCB.requires_mm2());
    assert!(!Operations::PINCSB.requires_mm2());
    assert!(!Operations::PINCW.requires_mm2());
    assert!(!Operations::PINCSW.requires_mm2());
    assert!(!Operations::PINCD.requires_mm2());
    assert!(!Operations::PINCSD.requires_mm2());
    assert!(!Operations::PINCQ.requires_mm2());
    assert!(!Operations::PINCSQ.requires_mm2());
    assert!(Operations::PADDB.requires_mm2());
    assert!(Operations::PADDSQ.requires_mm2());
    assert!(Operations::PMULLB.requires_mm2());
    assert!(Operations::PMULLW.requires_mm2());
    assert!(Operations::PMULLD.requires_mm2());
}

#[test]
fn default_operation_is_paddb() {
    assert_eq!(Operations::default(), Operations::PADDB);
}
