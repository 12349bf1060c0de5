//! The arithmetic of the processor on single bytes: what each operation
//! yields, stated over the integers, and the code that computes it.

use vstd::prelude::*;

verus! {

/// The number that `byte` stands for in two's complement: `-128` to `127`.
pub open spec fn signed(byte: u8) -> int {
    if byte < 0x80 {
        byte as int
    } else {
        byte as int - 256
    }
}

/// The byte that holds `value` modulo 256.
pub open spec fn low_byte(value: int) -> u8 {
    (value % 256) as u8
}

/// The 16-bit number that holds `value` modulo 65536.
pub open spec fn wrap16(value: int) -> u16 {
    (value % 65536) as u16
}

/// The 16-bit number with low byte `low` and high byte `high`.
pub open spec fn word(low: u8, high: u8) -> u16 {
    (low as int + 256 * high as int) as u16
}

/// `1` for a flag that is set, `0` for one that is clear.
pub open spec fn bit(flag: bool) -> int {
    if flag {
        1
    } else {
        0
    }
}

/// The outcome of an addition or subtraction.
#[derive(Clone, Copy, Debug, PartialEq, Eq, Structural)]
pub struct Sum {
    /// The low eight bits of the result.
    pub value: u8,
    /// The carry out of bit 7.
    pub carry: bool,
    /// Whether the result, read as a signed number, does not fit in a byte.
    pub overflow: bool,
}

/// The outcome of a shift or rotation by one bit.
#[derive(Clone, Copy, Debug, PartialEq, Eq, Structural)]
pub struct Shifted {
    /// The byte after the shift.
    pub value: u8,
    /// The bit that was shifted out.
    pub carry: bool,
}

/// The four ways to move the bits of a byte by one place.
#[derive(Clone, Copy, Debug, PartialEq, Eq, Structural)]
pub enum Shift {
    /// To the left; bit 0 becomes clear.
    Left,
    /// To the right; bit 7 becomes clear.
    Right,
    /// To the left; bit 0 becomes the carry.
    RotateLeft,
    /// To the right; bit 7 becomes the carry.
    RotateRight,
}

/// `a + m + carry`: the sum modulo 256, whether the unsigned sum passed 255,
/// and whether the signed sum left the range `-128` to `127`.
pub open spec fn add_with_carry_spec(a: u8, m: u8, carry: bool) -> Sum {
    let unsigned_sum = a as int + m as int + bit(carry);
    let signed_sum = signed(a) + signed(m) + bit(carry);
    Sum {
        value: low_byte(unsigned_sum),
        carry: unsigned_sum > 255,
        overflow: signed_sum < -128 || signed_sum > 127,
    }
}

/// `a - m - (1 - carry)`: the difference modulo 256, whether no borrow was
/// needed, and whether the signed difference left the range `-128` to `127`.
pub open spec fn subtract_with_borrow_spec(a: u8, m: u8, carry: bool) -> Sum {
    let unsigned_difference = a as int - m as int - (1 - bit(carry));
    let signed_difference = signed(a) - signed(m) - (1 - bit(carry));
    Sum {
        value: low_byte(unsigned_difference),
        carry: unsigned_difference >= 0,
        overflow: signed_difference < -128 || signed_difference > 127,
    }
}

/// `value` moved by one bit as `kind` says, with `carry` as the bit that a
/// rotation moves in.
pub open spec fn shift_spec(kind: Shift, value: u8, carry: bool) -> Shifted {
    match kind {
        Shift::Left => Shifted { value: low_byte(2 * value as int), carry: value >= 0x80 },
        Shift::Right => Shifted { value: (value as int / 2) as u8, carry: value as int % 2 == 1 },
        Shift::RotateLeft => Shifted {
            value: low_byte(2 * value as int + bit(carry)),
            carry: value >= 0x80,
        },
        Shift::RotateRight => Shifted {
            value: (value as int / 2 + 128 * bit(carry)) as u8,
            carry: value as int % 2 == 1,
        },
    }
}

/// Adds `m` and the carry to `a`.
pub fn add_with_carry(a: u8, m: u8, carry: bool) -> (sum: Sum)
    ensures
        sum == add_with_carry_spec(a, m, carry),
{
    let carry_in: u16 = if carry {
        1
    } else {
        0
    };
    let wide: u16 = a as u16 + m as u16 + carry_in;
    let value: u8 = (wide & 0xff) as u8;
    let overflow = (a ^ value) & (m ^ value) & 0x80 != 0;
    proof {
        assert(wide & 0xff == wide % 256) by (bit_vector);
        assert(((a ^ value) & (m ^ value) & 0x80 != 0) == ((a < 0x80) == (m < 0x80) && (a < 0x80)
            != (value < 0x80))) by (bit_vector);
    }
    Sum { value, carry: wide > 0xff, overflow }
}

/// Subtracts `m` and the borrow, which is the carry inverted, from `a`.
pub fn subtract_with_borrow(a: u8, m: u8, carry: bool) -> (difference: Sum)
    ensures
        difference == subtract_with_borrow_spec(a, m, carry),
{
    let complement: u8 = !m;
    proof {
        assert(!m == 255 - m) by (bit_vector);
    }
    add_with_carry(a, complement, carry)
}

/// Moves the bits of `value` by one place.
pub fn shift(kind: Shift, value: u8, carry: bool) -> (shifted: Shifted)
    ensures
        shifted == shift_spec(kind, value, carry),
{
    let carry_in: u8 = if carry {
        1
    } else {
        0
    };
    proof {
        assert((value << 1u8) == (value as int * 2) % 256) by (bit_vector);
        assert((value >> 1u8) == value / 2) by (bit_vector);
        assert(carry_in <= 1 ==> ((value << 1u8) | carry_in) == (value as int * 2 + carry_in) % 256)
            by (bit_vector);
        assert(carry_in <= 1 ==> ((value >> 1u8) | (carry_in << 7u8)) == value / 2 + 128
            * carry_in) by (bit_vector);
        assert((value & 0x80 != 0) == (value >= 0x80)) by (bit_vector);
        assert((value & 0x01 != 0) == (value % 2 == 1)) by (bit_vector);
    }
    match kind {
        Shift::Left => Shifted { value: value << 1u8, carry: value & 0x80 != 0 },
        Shift::Right => Shifted { value: value >> 1u8, carry: value & 0x01 != 0 },
        Shift::RotateLeft => Shifted { value: (value << 1u8) | carry_in, carry: value & 0x80 != 0 },
        Shift::RotateRight => Shifted {
            value: (value >> 1u8) | (carry_in << 7u8),
            carry: value & 0x01 != 0,
        },
    }
}

/// The 16-bit number with low byte `low` and high byte `high`.
pub fn make_word(low: u8, high: u8) -> (value: u16)
    ensures
        value == word(low, high),
{
    (high as u16) * 256 + low as u16
}

/// The low byte of `value`.
pub fn low_of(value: u16) -> (low: u8)
    ensures
        low as int == value as int % 256,
{
    (value % 256) as u8
}

/// The high byte of `value`.
pub fn high_of(value: u16) -> (high: u8)
    ensures
        high as int == value as int / 256,
{
    (value / 256) as u8
}

/// The address that lies `offset`, read as a signed number, after `base`;
/// addresses wrap around at 65536.
pub fn displace(base: u16, offset: u8) -> (target: u16)
    ensures
        target == wrap16(base as int + signed(offset)),
{
    if offset < 0x80 {
        base.wrapping_add(offset as u16)
    } else {
        base.wrapping_sub(0x100 - offset as u16)
    }
}

/// `value + 1` modulo 256.
pub fn increment(value: u8) -> (next: u8)
    ensures
        next == low_byte(value + 1),
{
    value.wrapping_add(1)
}

/// `value - 1` modulo 256.
pub fn decrement(value: u8) -> (previous: u8)
    ensures
        previous == low_byte(value - 1),
{
    value.wrapping_sub(1)
}

/// `a - m` modulo 256.
pub fn difference(a: u8, m: u8) -> (d: u8)
    ensures
        d == low_byte(a - m),
{
    a.wrapping_sub(m)
}

/// The address after `address`; addresses wrap around at 65536.
pub fn following(address: u16) -> (next: u16)
    ensures
        next == wrap16(address + 1),
{
    address.wrapping_add(1)
}

/// The address before `address`; addresses wrap around at 65536.
pub fn preceding(address: u16) -> (previous: u16)
    ensures
        previous == wrap16(address - 1),
{
    address.wrapping_sub(1)
}

} // verus!
