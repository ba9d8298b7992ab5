//! The lane-view type family: one 64-bit register reinterpreted as packed
//! unsigned lanes of 64, 32, 16 or 8 bits.
//!
//! Lane order: lane `i` of a width-`W` view holds bits `[W * i, W * (i + 1))`
//! of the register; lane 0 is the least significant lane. Every conversion
//! and every operation uses this order.

use vstd::prelude::*;
use vstd::string::StringExecFns;

verus! {

// ---------------------------------------------------------------------------
// Hexadecimal rendering
// ---------------------------------------------------------------------------
/// The uppercase hexadecimal digit for a value below sixteen.
pub open spec fn hex_digit(v: u8) -> char
    recommends
        v < 16,
{
    if v == 0 {
        '0'
    } else if v == 1 {
        '1'
    } else if v == 2 {
        '2'
    } else if v == 3 {
        '3'
    } else if v == 4 {
        '4'
    } else if v == 5 {
        '5'
    } else if v == 6 {
        '6'
    } else if v == 7 {
        '7'
    } else if v == 8 {
        '8'
    } else if v == 9 {
        '9'
    } else if v == 10 {
        'A'
    } else if v == 11 {
        'B'
    } else if v == 12 {
        'C'
    } else if v == 13 {
        'D'
    } else if v == 14 {
        'E'
    } else {
        'F'
    }
}

/// Nibble `j` of `x`, counted from the least significant nibble.
pub open spec fn nibble(x: u64, j: int) -> u8
    recommends
        0 <= j < 16,
{
    ((x >> ((4 * j) as u64)) & 0xF) as u8
}

/// The canonical rendering of a register: sixteen uppercase hexadecimal
/// digits, zero-padded, most significant nibble first.
pub open spec fn hex_str(x: u64) -> Seq<char> {
    Seq::new(16, |i: int| hex_digit(nibble(x, 15 - i)))
}

/// True of the sixteen characters that a rendered register may contain.
pub open spec fn is_upper_hex(c: char) -> bool {
    (('0' as u32) <= (c as u32) && (c as u32) <= ('9' as u32)) || (('A' as u32) <= (c as u32) && (
    c as u32) <= ('F' as u32))
}

/// Appends one uppercase hexadecimal character to a string.
pub(crate) fn append_hex_char(s: &mut String, c: char)
    requires
        is_upper_hex(c),
    ensures
        final(s)@ == old(s)@ + seq![c],
{
    match c {
        '0' => {
            proof {
                reveal_strlit("0");
                assert(("0")@ =~= seq!['0']);
            }
            s.append("0");
        },
        '1' => {
            proof {
                reveal_strlit("1");
                assert(("1")@ =~= seq!['1']);
            }
            s.append("1");
        },
        '2' => {
            proof {
                reveal_strlit("2");
                assert(("2")@ =~= seq!['2']);
            }
            s.append("2");
        },
        '3' => {
            proof {
                reveal_strlit("3");
                assert(("3")@ =~= seq!['3']);
            }
            s.append("3");
        },
        '4' => {
            proof {
                reveal_strlit("4");
                assert(("4")@ =~= seq!['4']);
            }
            s.append("4");
        },
        '5' => {
            proof {
                reveal_strlit("5");
                assert(("5")@ =~= seq!['5']);
            }
            s.append("5");
        },
        '6' => {
            proof {
                reveal_strlit("6");
                assert(("6")@ =~= seq!['6']);
            }
            s.append("6");
        },
        '7' => {
            proof {
                reveal_strlit("7");
                assert(("7")@ =~= seq!['7']);
            }
            s.append("7");
        },
        '8' => {
            proof {
                reveal_strlit("8");
                assert(("8")@ =~= seq!['8']);
            }
            s.append("8");
        },
        '9' => {
            proof {
                reveal_strlit("9");
                assert(("9")@ =~= seq!['9']);
            }
            s.append("9");
        },
        'A' => {
            proof {
                reveal_strlit("A");
                assert(("A")@ =~= seq!['A']);
            }
            s.append("A");
        },
        'B' => {
            proof {
                reveal_strlit("B");
                assert(("B")@ =~= seq!['B']);
            }
            s.append("B");
        },
        'C' => {
            proof {
                reveal_strlit("C");
                assert(("C")@ =~= seq!['C']);
            }
            s.append("C");
        },
        'D' => {
            proof {
                reveal_strlit("D");
                assert(("D")@ =~= seq!['D']);
            }
            s.append("D");
        },
        'E' => {
            proof {
                reveal_strlit("E");
                assert(("E")@ =~= seq!['E']);
            }
            s.append("E");
        },
        'F' => {
            proof {
                reveal_strlit("F");
                assert(("F")@ =~= seq!['F']);
            }
            s.append("F");
        },
        _ => {
        },
    }
}

/// The uppercase hexadecimal character of a value below sixteen.
pub(crate) fn hex_digit_char(v: u8) -> (c: char)
    requires
        v < 16,
    ensures
        c == hex_digit(v),
        is_upper_hex(c),
{
    match v {
        0 => '0',
        1 => '1',
        2 => '2',
        3 => '3',
        4 => '4',
        5 => '5',
        6 => '6',
        7 => '7',
        8 => '8',
        9 => '9',
        10 => 'A',
        11 => 'B',
        12 => 'C',
        13 => 'D',
        14 => 'E',
        _ => 'F',
    }
}

/// Renders a 64-bit value as sixteen uppercase hexadecimal digits,
/// zero-padded, most significant nibble first.
pub(crate) fn render_hex(x: u64) -> (s: String)
    ensures
        s@ == hex_str(x),
{
    let mut s = String::new();
    let mut i: usize = 0;
    while i < 16
        invariant
            0 <= i <= 16,
            s@ =~= hex_str(x).take(i as int),
        decreases 16 - i,
    {
        let sh: u64 = 60 - 4 * (i as u64);
        let v: u8 = ((x >> sh) & 0xF) as u8;
        proof {
            assert(((x >> sh) & 0xF) < 16) by (bit_vector);
            assert(v == nibble(x, 15 - i));
            assert(hex_str(x)[i as int] == hex_digit(nibble(x, 15 - i)));
        }
        let c = hex_digit_char(v);
        append_hex_char(&mut s, c);
        proof {
            assert(s@ =~= hex_str(x).take(i + 1));
        }
        i = i + 1;
    }
    proof {
        assert(hex_str(x).take(16) =~= hex_str(x));
    }
    s
}

// ---------------------------------------------------------------------------
// Lane decomposition and recomposition, per width
// ---------------------------------------------------------------------------
/// Lanes of `x` under the 8-bit view, least significant lane first.
pub open spec fn lanes8(x: u64) -> Seq<u8> {
    seq![
        (x & 0xFF) as u8,
        ((x >> 8) & 0xFF) as u8,
        ((x >> 16) & 0xFF) as u8,
        ((x >> 24) & 0xFF) as u8,
        ((x >> 32) & 0xFF) as u8,
        ((x >> 40) & 0xFF) as u8,
        ((x >> 48) & 0xFF) as u8,
        ((x >> 56) & 0xFF) as u8,
    ]
}

/// Lanes of `x` under the 16-bit view, least significant lane first.
pub open spec fn lanes16(x: u64) -> Seq<u16> {
    seq![
        (x & 0xFFFF) as u16,
        ((x >> 16) & 0xFFFF) as u16,
        ((x >> 32) & 0xFFFF) as u16,
        ((x >> 48) & 0xFFFF) as u16,
    ]
}

/// Lanes of `x` under the 32-bit view, least significant lane first.
pub open spec fn lanes32(x: u64) -> Seq<u32> {
    seq![(x & 0xFFFF_FFFF) as u32, ((x >> 32) & 0xFFFF_FFFF) as u32]
}

/// Recomposes a register from eight 8-bit lanes, least significant first.
pub open spec fn from_lanes8(s: Seq<u8>) -> u64
    recommends
        s.len() == 8,
{
    (s[0] as u64) | ((s[1] as u64) << 8) | ((s[2] as u64) << 16) | ((s[3] as u64) << 24)
        | ((s[4] as u64) << 32) | ((s[5] as u64) << 40) | ((s[6] as u64) << 48)
        | ((s[7] as u64) << 56)
}

/// Recomposes a register from four 16-bit lanes, least significant first.
pub open spec fn from_lanes16(s: Seq<u16>) -> u64
    recommends
        s.len() == 4,
{
    (s[0] as u64) | ((s[1] as u64) << 16) | ((s[2] as u64) << 32) | ((s[3] as u64) << 48)
}

/// Recomposes a register from two 32-bit lanes, least significant first.
pub open spec fn from_lanes32(s: Seq<u32>) -> u64
    recommends
        s.len() == 2,
{
    (s[0] as u64) | ((s[1] as u64) << 32)
}

// ---------------------------------------------------------------------------
// Per-lane arithmetic: wrapping and saturating, per width
// ---------------------------------------------------------------------------
/// `(a + b) mod 2^8`: the carry out of the lane is discarded.
pub open spec fn wrap_add8(a: u8, b: u8) -> u8 {
    ((a + b) % 0x100) as u8
}

/// `(a + b) mod 2^16`.
pub open spec fn wrap_add16(a: u16, b: u16) -> u16 {
    ((a + b) % 0x1_0000) as u16
}

/// `(a + b) mod 2^32`.
pub open spec fn wrap_add32(a: u32, b: u32) -> u32 {
    ((a + b) % 0x1_0000_0000) as u32
}

/// `(a + b) mod 2^64`.
pub open spec fn wrap_add64(a: u64, b: u64) -> u64 {
    ((a + b) % 0x1_0000_0000_0000_0000) as u64
}

/// `min(a + b, 2^8 - 1)`: unsigned saturation at the lane maximum.
pub open spec fn sat_add8(a: u8, b: u8) -> u8 {
    if a + b > 0xFF {
        0xFF
    } else {
        (a + b) as u8
    }
}

/// `min(a + b, 2^16 - 1)`.
pub open spec fn sat_add16(a: u16, b: u16) -> u16 {
    if a + b > 0xFFFF {
        0xFFFF
    } else {
        (a + b) as u16
    }
}

/// `min(a + b, 2^32 - 1)`.
pub open spec fn sat_add32(a: u32, b: u32) -> u32 {
    if a + b > 0xFFFF_FFFF {
        0xFFFF_FFFF
    } else {
        (a + b) as u32
    }
}

/// `min(a + b, 2^64 - 1)`.
pub open spec fn sat_add64(a: u64, b: u64) -> u64 {
    if a + b > 0xFFFF_FFFF_FFFF_FFFF {
        0xFFFF_FFFF_FFFF_FFFF
    } else {
        (a + b) as u64
    }
}

// ---------------------------------------------------------------------------
// Lane-wise operations on whole lane sequences
// ---------------------------------------------------------------------------
/// Lane-wise wrapping addition of two 8-bit lane sequences.
pub open spec fn wrap_add8_lanes(a: Seq<u8>, b: Seq<u8>) -> Seq<u8> {
    Seq::new(a.len(), |i: int| wrap_add8(a[i], b[i]))
}

/// Lane-wise wrapping addition of two 16-bit lane sequences.
pub open spec fn wrap_add16_lanes(a: Seq<u16>, b: Seq<u16>) -> Seq<u16> {
    Seq::new(a.len(), |i: int| wrap_add16(a[i], b[i]))
}

/// Lane-wise wrapping addition of two 32-bit lane sequences.
pub open spec fn wrap_add32_lanes(a: Seq<u32>, b: Seq<u32>) -> Seq<u32> {
    Seq::new(a.len(), |i: int| wrap_add32(a[i], b[i]))
}

/// Lane-wise saturating addition of two 8-bit lane sequences.
pub open spec fn sat_add8_lanes(a: Seq<u8>, b: Seq<u8>) -> Seq<u8> {
    Seq::new(a.len(), |i: int| sat_add8(a[i], b[i]))
}

/// Lane-wise saturating addition of two 16-bit lane sequences.
pub open spec fn sat_add16_lanes(a: Seq<u16>, b: Seq<u16>) -> Seq<u16> {
    Seq::new(a.len(), |i: int| sat_add16(a[i], b[i]))
}

/// Lane-wise saturating addition of two 32-bit lane sequences.
pub open spec fn sat_add32_lanes(a: Seq<u32>, b: Seq<u32>) -> Seq<u32> {
    Seq::new(a.len(), |i: int| sat_add32(a[i], b[i]))
}

/// Adds one to every 8-bit lane, wrapping modulo 2^8.
pub open spec fn wrap_inc8_lanes(a: Seq<u8>) -> Seq<u8> {
    Seq::new(a.len(), |i: int| wrap_add8(a[i], 1))
}

/// Adds one to every 16-bit lane, wrapping modulo 2^16.
pub open spec fn wrap_inc16_lanes(a: Seq<u16>) -> Seq<u16> {
    Seq::new(a.len(), |i: int| wrap_add16(a[i], 1))
}

/// Adds one to every 32-bit lane, wrapping modulo 2^32.
pub open spec fn wrap_inc32_lanes(a: Seq<u32>) -> Seq<u32> {
    Seq::new(a.len(), |i: int| wrap_add32(a[i], 1))
}

/// Adds one to every 8-bit lane, clamping at 2^8 - 1.
pub open spec fn sat_inc8_lanes(a: Seq<u8>) -> Seq<u8> {
    Seq::new(a.len(), |i: int| sat_add8(a[i], 1))
}

/// Adds one to every 16-bit lane, clamping at 2^16 - 1.
pub open spec fn sat_inc16_lanes(a: Seq<u16>) -> Seq<u16> {
    Seq::new(a.len(), |i: int| sat_add16(a[i], 1))
}

/// Adds one to every 32-bit lane, clamping at 2^32 - 1.
pub open spec fn sat_inc32_lanes(a: Seq<u32>) -> Seq<u32> {
    Seq::new(a.len(), |i: int| sat_add32(a[i], 1))
}

/// Packed multiply of the 8-bit views: of each adjacent lane pair only the
/// lane with the even (lower) index feeds the product, and each product is
/// widened into a 16-bit lane.
pub open spec fn mul_widen8_lanes(a: Seq<u8>, b: Seq<u8>) -> Seq<u16> {
    seq![
        (a[0] * b[0]) as u16,
        (a[2] * b[2]) as u16,
        (a[4] * b[4]) as u16,
        (a[6] * b[6]) as u16,
    ]
}

/// Packed multiply of the 16-bit views: lanes 0 and 2 feed the products,
/// widened into 32-bit lanes.
pub open spec fn mul_widen16_lanes(a: Seq<u16>, b: Seq<u16>) -> Seq<u32> {
    seq![(a[0] * b[0]) as u32, (a[2] * b[2]) as u32]
}

/// Packed multiply of the 32-bit views: only the upper lane (index 1) feeds
/// the product, widened into the full 64-bit register.
pub open spec fn mul_widen32_lanes(a: Seq<u32>, b: Seq<u32>) -> u64 {
    (a[1] * b[1]) as u64
}

// ---------------------------------------------------------------------------
// The 64-bit register
// ---------------------------------------------------------------------------
/// The full 64-bit register; every lane view reinterprets its bits.
#[allow(non_camel_case_types)]
#[derive(Clone, Copy, PartialEq, Eq, Structural, Debug)]
pub struct u64x1(pub u64);

impl View for u64x1 {
    type V = u64;

    open spec fn view(&self) -> u64 {
        self.0
    }
}

impl u64x1 {
    pub fn new(data: u64) -> (r: Self)
        ensures
            r@ == data,
    {
        Self(data)
    }

    /// Wrapping addition over the single 64-bit lane.
    pub fn overflowing_add(&self, x: &u64x1) -> (r: u64x1)
        ensures
            r@ == wrap_add64(self@, x@),
    {
        u64x1(self.0.wrapping_add(x.0))
    }

    /// Saturating addition over the single 64-bit lane.
    pub fn saturating_add(&self, x: &u64x1) -> (r: u64x1)
        ensures
            r@ == sat_add64(self@, x@),
    {
        u64x1(self.0.saturating_add(x.0))
    }

    /// Adds one to the single 64-bit lane, wrapping around at the maximum.
    pub fn overflowing_increment(&self) -> (r: Self)
        ensures
            r@ == wrap_add64(self@, 1),
    {
        Self(self.0.wrapping_add(1))
    }

    /// Adds one to the single 64-bit lane, stopping at the maximum.
    pub fn saturating_increment(&self) -> (r: Self)
        ensures
            r@ == sat_add64(self@, 1),
    {
        Self(self.0.saturating_add(1))
    }

    /// Renders the register as sixteen uppercase hexadecimal digits.
    pub fn to_hex(&self) -> (s: String)
        ensures
            s@ == hex_str(self@),
    {
        render_hex(self.0)
    }

    /// Reinterprets the register as eight 8-bit lanes; bit-exact, no value change.
    pub fn to_u8x8(&self) -> (r: u8x8)
        ensures
            r@ == lanes8(self@),
    {
        let x = self.0;
        let r = u8x8(
            [
                (x & 0xFF) as u8,
                ((x >> 8) & 0xFF) as u8,
                ((x >> 16) & 0xFF) as u8,
                ((x >> 24) & 0xFF) as u8,
                ((x >> 32) & 0xFF) as u8,
                ((x >> 40) & 0xFF) as u8,
                ((x >> 48) & 0xFF) as u8,
                ((x >> 56) & 0xFF) as u8,
            ],
        );
        proof {
            assert(r@ =~= lanes8(self@));
        }
        r
    }

    /// Reinterprets the register as four 16-bit lanes; bit-exact, no value change.
    pub fn to_u16x4(&self) -> (r: u16x4)
        ensures
            r@ == lanes16(self@),
    {
        let x = self.0;
        let r = u16x4(
            [
                (x & 0xFFFF) as u16,
                ((x >> 16) & 0xFFFF) as u16,
                ((x >> 32) & 0xFFFF) as u16,
                ((x >> 48) & 0xFFFF) as u16,
            ],
        );
        proof {
            assert(r@ =~= lanes16(self@));
        }
        r
    }

    /// Reinterprets the register as two 32-bit lanes; bit-exact, no value change.
    pub fn to_u32x2(&self) -> (r: u32x2)
        ensures
            r@ == lanes32(self@),
    {
        let x = self.0;
        let r = u32x2([(x & 0xFFFF_FFFF) as u32, ((x >> 32) & 0xFFFF_FFFF) as u32]);
        proof {
            assert(r@ =~= lanes32(self@));
        }
        r
    }
}

// ---------------------------------------------------------------------------
// Two 32-bit lanes
// ---------------------------------------------------------------------------
/// Two 32-bit lanes of one 64-bit register.
#[allow(non_camel_case_types)]
#[derive(Clone, Copy, Debug)]
pub struct u32x2(pub [u32; 2]);

impl View for u32x2 {
    type V = Seq<u32>;

    open spec fn view(&self) -> Seq<u32> {
        self.0@
    }
}

impl u32x2 {
    pub fn new(data: [u32; 2]) -> (r: Self)
        ensures
            r@ == data@,
    {
        Self(data)
    }

    /// Reassembles the 64-bit register from the two lanes; bit-exact inverse
    /// of the 32-bit reinterpretation.
    pub fn to_u64x1(&self) -> (r: u64x1)
        ensures
            r@ == from_lanes32(self@),
    {
        let d = &self.0;
        u64x1((d[0] as u64) | ((d[1] as u64) << 32))
    }

    /// Renders the reassembled register as sixteen uppercase hexadecimal digits.
    pub fn to_hex(&self) -> (s: String)
        ensures
            s@ == hex_str(from_lanes32(self@)),
    {
        self.to_u64x1().to_hex()
    }

    /// Lane-wise wrapping addition: each lane wraps modulo 2^32 on its own;
    /// no carry crosses into the neighbouring lane.
    pub fn overflowing_add(&self, x: &u32x2) -> (r: u32x2)
        ensures
            r@ == wrap_add32_lanes(self@, x@),
    {
        let a = &self.0;
        let b = &x.0;
        let r = u32x2([a[0].wrapping_add(b[0]), a[1].wrapping_add(b[1])]);
        proof {
            assert(r@ =~= wrap_add32_lanes(self@, x@));
        }
        r
    }

    /// Lane-wise saturating addition: each lane is clamped at 2^32 - 1.
    pub fn saturating_add(&self, x: &u32x2) -> (r: u32x2)
        ensures
            r@ == sat_add32_lanes(self@, x@),
    {
        let a = &self.0;
        let b = &x.0;
        let r = u32x2([a[0].saturating_add(b[0]), a[1].saturating_add(b[1])]);
        proof {
            assert(r@ =~= sat_add32_lanes(self@, x@));
        }
        r
    }

    /// Adds one to every lane, wrapping around at the lane maximum.
    pub fn overflowing_increment(&self) -> (r: Self)
        ensures
            r@ == wrap_inc32_lanes(self@),
    {
        let a = &self.0;
        let r = Self([a[0].wrapping_add(1), a[1].wrapping_add(1)]);
        proof {
            assert(r@ =~= wrap_inc32_lanes(self@));
        }
        r
    }

    /// Adds one to every lane, stopping at the lane maximum.
    pub fn saturating_increment(&self) -> (r: Self)
        ensures
            r@ == sat_inc32_lanes(self@),
    {
        let a = &self.0;
        let r = Self([a[0].saturating_add(1), a[1].saturating_add(1)]);
        proof {
            assert(r@ =~= sat_inc32_lanes(self@));
        }
        r
    }

    /// Packed multiply: only the upper lane of each operand feeds the
    /// product, which widens into the full 64-bit register.
    pub fn multiply(&self, x: &u32x2) -> (r: u64x1)
        ensures
            r@ == mul_widen32_lanes(self@, x@),
    {
        proof {
            lemma_mul_bound(self.0@[1] as int, x.0@[1] as int, 0xFFFF_FFFF, 0xFFFF_FFFF);
        }
        u64x1((self.0[1] as u64) * (x.0[1] as u64))
    }
}

// ---------------------------------------------------------------------------
// Four 16-bit lanes
// ---------------------------------------------------------------------------
/// Four 16-bit lanes of one 64-bit register.
#[allow(non_camel_case_types)]
#[derive(Clone, Copy, Debug)]
pub struct u16x4(pub [u16; 4]);

impl View for u16x4 {
    type V = Seq<u16>;

    open spec fn view(&self) -> Seq<u16> {
        self.0@
    }
}

impl u16x4 {
    pub fn new(data: [u16; 4]) -> (r: Self)
        ensures
            r@ == data@,
    {
        Self(data)
    }

    /// Reassembles the 64-bit register from the four lanes; bit-exact inverse
    /// of the 16-bit reinterpretation.
    pub fn to_u64x1(&self) -> (r: u64x1)
        ensures
            r@ == from_lanes16(self@),
    {
        let d = &self.0;
        u64x1(
            (d[0] as u64) | ((d[1] as u64) << 16) | ((d[2] as u64) << 32) | ((d[3] as u64) << 48),
        )
    }

    /// Renders the reassembled register as sixteen uppercase hexadecimal digits.
    pub fn to_hex(&self) -> (s: String)
        ensures
            s@ == hex_str(from_lanes16(self@)),
    {
        self.to_u64x1().to_hex()
    }

    /// Lane-wise wrapping addition: each lane wraps modulo 2^16 on its own;
    /// no carry crosses into the neighbouring lane.
    pub fn overflowing_add(&self, x: &u16x4) -> (r: u16x4)
        ensures
            r@ == wrap_add16_lanes(self@, x@),
    {
        let a = &self.0;
        let b = &x.0;
        let r = u16x4(
            [
                a[0].wrapping_add(b[0]),
                a[1].wrapping_add(b[1]),
                a[2].wrapping_add(b[2]),
                a[3].wrapping_add(b[3]),
            ],
        );
        proof {
            assert(r@ =~= wrap_add16_lanes(self@, x@));
        }
        r
    }

    /// Lane-wise saturating addition: each lane is clamped at 2^16 - 1.
    pub fn saturating_add(&self, x: &u16x4) -> (r: u16x4)
        ensures
            r@ == sat_add16_lanes(self@, x@),
    {
        let a = &self.0;
        let b = &x.0;
        let r = u16x4(
            [
                a[0].saturating_add(b[0]),
                a[1].saturating_add(b[1]),
                a[2].saturating_add(b[2]),
                a[3].saturating_add(b[3]),
            ],
        );
        proof {
            assert(r@ =~= sat_add16_lanes(self@, x@));
        }
        r
    }

    /// Adds one to every lane, wrapping around at the lane maximum.
    pub fn overflowing_increment(&self) -> (r: Self)
        ensures
            r@ == wrap_inc16_lanes(self@),
    {
        let a = &self.0;
        let r = Self(
            [
                a[0].wrapping_add(1),
                a[1].wrapping_add(1),
                a[2].wrapping_add(1),
                a[3].wrapping_add(1),
            ],
        );
        proof {
            assert(r@ =~= wrap_inc16_lanes(self@));
        }
        r
    }

    /// Adds one to every lane, stopping at the lane maximum.
    pub fn saturating_increment(&self) -> (r: Self)
        ensures
            r@ == sat_inc16_lanes(self@),
    {
        let a = &self.0;
        let r = Self(
            [
                a[0].saturating_add(1),
                a[1].saturating_add(1),
                a[2].saturating_add(1),
                a[3].saturating_add(1),
            ],
        );
        proof {
            assert(r@ =~= sat_inc16_lanes(self@));
        }
        r
    }

    /// Packed multiply: of each adjacent lane pair only the lower-indexed
    /// lane feeds the product, widened into a 32-bit lane.
    pub fn multiply(&self, x: &u16x4) -> (r: u32x2)
        ensures
            r@ == mul_widen16_lanes(self@, x@),
    {
        let a = &self.0;
        let b = &x.0;
        proof {
            lemma_mul_bound(a@[0] as int, b@[0] as int, 0xFFFF, 0xFFFF);
            lemma_mul_bound(a@[2] as int, b@[2] as int, 0xFFFF, 0xFFFF);
        }
        let r = u32x2([(a[0] as u32) * (b[0] as u32), (a[2] as u32) * (b[2] as u32)]);
        proof {
            assert(r@ =~= mul_widen16_lanes(self@, x@));
        }
        r
    }
}

// ---------------------------------------------------------------------------
// Eight 8-bit lanes
// ---------------------------------------------------------------------------
/// Eight 8-bit lanes of one 64-bit register.
#[allow(non_camel_case_types)]
#[derive(Clone, Copy, Debug)]
pub struct u8x8(pub [u8; 8]);

impl View for u8x8 {
    type V = Seq<u8>;

    open spec fn view(&self) -> Seq<u8> {
        self.0@
    }
}

impl u8x8 {
    pub fn new(data: [u8; 8]) -> (r: Self)
        ensures
            r@ == data@,
    {
        Self(data)
    }

    /// Reassembles the 64-bit register from the eight lanes; bit-exact inverse
    /// of the 8-bit reinterpretation.
    pub fn to_u64x1(&self) -> (r: u64x1)
        ensures
            r@ == from_lanes8(self@),
    {
        let d = &self.0;
        u64x1(
            (d[0] as u64) | ((d[1] as u64) << 8) | ((d[2] as u64) << 16) | ((d[3] as u64) << 24)
                | ((d[4] as u64) << 32) | ((d[5] as u64) << 40) | ((d[6] as u64) << 48)
                | ((d[7] as u64) << 56),
        )
    }

    /// Renders the reassembled register as sixteen uppercase hexadecimal digits.
    pub fn to_hex(&self) -> (s: String)
        ensures
            s@ == hex_str(from_lanes8(self@)),
    {
        self.to_u64x1().to_hex()
    }

    /// Lane-wise wrapping addition: each lane wraps modulo 2^8 on its own;
    /// no carry crosses into the neighbouring lane.
    pub fn overflowing_add(&self, x: &u8x8) -> (r: u8x8)
        ensures
            r@ == wrap_add8_lanes(self@, x@),
    {
        let a = &self.0;
        let b = &x.0;
        let r = u8x8(
            [
                a[0].wrapping_add(b[0]),
                a[1].wrapping_add(b[1]),
                a[2].wrapping_add(b[2]),
                a[3].wrapping_add(b[3]),
                a[4].wrapping_add(b[4]),
                a[5].wrapping_add(b[5]),
                a[6].wrapping_add(b[6]),
                a[7].wrapping_add(b[7]),
            ],
        );
        proof {
            lemma_wrap_add8_forms(a@[0], b@[0]);
            lemma_wrap_add8_forms(a@[1], b@[1]);
            lemma_wrap_add8_forms(a@[2], b@[2]);
            lemma_wrap_add8_forms(a@[3], b@[3]);
            lemma_wrap_add8_forms(a@[4], b@[4]);
            lemma_wrap_add8_forms(a@[5], b@[5]);
            lemma_wrap_add8_forms(a@[6], b@[6]);
            lemma_wrap_add8_forms(a@[7], b@[7]);
            assert(r@ =~= wrap_add8_lanes(self@, x@));
        }
        r
    }

    /// Lane-wise saturating addition: each lane is clamped at 2^8 - 1.
    pub fn saturating_add(&self, x: &Self) -> (r: Self)
        ensures
            r@ == sat_add8_lanes(self@, x@),
    {
        let a = &self.0;
        let b = &x.0;
        let r = Self(
            [
                a[0].saturating_add(b[0]),
                a[1].saturating_add(b[1]),
                a[2].saturating_add(b[2]),
                a[3].saturating_add(b[3]),
                a[4].saturating_add(b[4]),
                a[5].saturating_add(b[5]),
                a[6].saturating_add(b[6]),
                a[7].saturating_add(b[7]),
            ],
        );
        proof {
            assert(r@ =~= sat_add8_lanes(self@, x@));
        }
        r
    }

    /// Adds one to every lane, wrapping around at the lane maximum.
    pub fn overflowing_increment(&self) -> (r: Self)
        ensures
            r@ == wrap_inc8_lanes(self@),
    {
        let a = &self.0;
        let r = Self(
            [
                a[0].wrapping_add(1),
                a[1].wrapping_add(1),
                a[2].wrapping_add(1),
                a[3].wrapping_add(1),
                a[4].wrapping_add(1),
                a[5].wrapping_add(1),
                a[6].wrapping_add(1),
                a[7].wrapping_add(1),
            ],
        );
        proof {
            assert(r@ =~= wrap_inc8_lanes(self@));
        }
        r
    }

    /// Adds one to every lane, stopping at the lane maximum.
    pub fn saturating_increment(&self) -> (r: Self)
        ensures
            r@ == sat_inc8_lanes(self@),
    {
        let a = &self.0;
        let r = Self(
            [
                a[0].saturating_add(1),
                a[1].saturating_add(1),
                a[2].saturating_add(1),
                a[3].saturating_add(1),
                a[4].saturating_add(1),
                a[5].saturating_add(1),
                a[6].saturating_add(1),
                a[7].saturating_add(1),
            ],
        );
        proof {
            assert(r@ =~= sat_inc8_lanes(self@));
        }
        r
    }

    /// Packed multiply: of each adjacent lane pair only the lower-indexed
    /// lane feeds the product, widened into a 16-bit lane.
    pub fn multiply(&self, x: &Self) -> (r: u16x4)
        ensures
            r@ == mul_widen8_lanes(self@, x@),
    {
        let a = &self.0;
        let b = &x.0;
        proof {
            lemma_mul_bound(a@[0] as int, b@[0] as int, 0xFF, 0xFF);
            lemma_mul_bound(a@[2] as int, b@[2] as int, 0xFF, 0xFF);
            lemma_mul_bound(a@[4] as int, b@[4] as int, 0xFF, 0xFF);
            lemma_mul_bound(a@[6] as int, b@[6] as int, 0xFF, 0xFF);
        }
        let r = u16x4(
            [
                (a[0] as u16) * (b[0] as u16),
                (a[2] as u16) * (b[2] as u16),
                (a[4] as u16) * (b[4] as u16),
                (a[6] as u16) * (b[6] as u16),
            ],
        );
        proof {
            assert(r@ =~= mul_widen8_lanes(self@, x@));
        }
        r
    }
}

/// Bridges the branching form of a wrapping 8-bit sum, as the executable
/// addition leaves it, with the modular form `(a + b) mod 2^8`.
proof fn lemma_wrap_add8_forms(a: u8, b: u8)
    ensures
        wrap_add8(a, b) == (if a + b > 0xFF {
            (a + b - 0x100) as u8
        } else {
            (a + b) as u8
        }),
{
    if a + b > 0xFF {
        assert((a + b) % 0x100 == a + b - 0x100);
    } else {
        assert((a + b) % 0x100 == a + b);
    }
}

/// The product of two values is bounded by the product of their bounds.
proof fn lemma_mul_bound(a: int, b: int, amax: int, bmax: int)
    by (nonlinear_arith)
    requires
        0 <= a <= amax,
        0 <= b <= bmax,
    ensures
        0 <= a * b <= amax * bmax,
{
}

// ---------------------------------------------------------------------------
// The operation enumeration
// ---------------------------------------------------------------------------
/// The packed operations: suffix `B`, `W`, `D`, `Q` picks 8-, 16-, 32- or
/// 64-bit lanes; prefix `PADD` is wrapping add, `PADDS` saturating add,
/// `PINC` wrapping increment, `PINCS` saturating increment and `PMULL` the
/// packed multiply. There is no 64-bit packed multiply.
#[derive(Clone, Copy, PartialEq, Eq, Structural, Debug)]
pub enum Operations {
    PADDB,
    PADDSB,
    PINCB,
    PINCSB,
    PMULLB,
    PADDW,
    PADDSW,
    PINCW,
    PINCSW,
    PMULLW,
    PADDD,
    PADDSD,
    PINCD,
    PINCSD,
    PMULLD,
    PADDQ,
    PADDSQ,
    PINCQ,
    PINCSQ,
}

/// True of the increment family: the unary operations that take each
/// register on its own and return two independent results.
pub open spec fn is_increment_op(op: Operations) -> bool {
    match op {
        Operations::PINCB | Operations::PINCSB | Operations::PINCW | Operations::PINCSW
            | Operations::PINCD | Operations::PINCSD | Operations::PINCQ
            | Operations::PINCSQ => true,
        _ => false,
    }
}

impl Operations {
    /// Whether the operation reads the second register: the increment family
    /// does not, every other operation does.
    pub fn requires_mm2(&self) -> (r: bool)
        ensures
            r == !is_increment_op(*self),
    {
        match self {
            Operations::PINCB | Operations::PINCSB | Operations::PINCW | Operations::PINCSW
                | Operations::PINCD | Operations::PINCSD | Operations::PINCQ
                | Operations::PINCSQ => false,
            _ => true,
        }
    }
}

impl Default for Operations {
    fn default() -> (r: Self)
        ensures
            r == Operations::PADDB,
    {
        Operations::PADDB
    }
}

} // verus!
