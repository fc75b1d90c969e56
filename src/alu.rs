use vstd::prelude::*;

verus! {

/// Bits of the processor status register.
pub const CARRY: u8 = 0x01;
pub const ZERO: u8 = 0x02;
pub const IRQB: u8 = 0x04;
pub const DECIMAL: u8 = 0x08;
pub const BREAK: u8 = 0x10;
pub const USER: u8 = 0x20;
pub const OVERFLOW: u8 = 0x40;
pub const NEGATIVE: u8 = 0x80;

/// `p` with flag `f` set when `on`, cleared otherwise.
pub open spec fn with_flag(p: u8, f: u8, on: bool) -> u8 {
    if on {
        p | f
    } else {
        p & !f
    }
}

/// `p` with Zero and Negative taken from `v`.
pub open spec fn with_nz(p: u8, v: u8) -> u8 {
    with_flag(with_flag(p, ZERO, v == 0), NEGATIVE, v & 0x80 == 0x80)
}

/// Binary add with carry: `(A, P)` after `A + op + C`.
pub open spec fn adc_binary(a: u8, op: u8, p: u8) -> (u8, u8) {
    let op1 = a as u16;
    let op2 = op as u16;
    let sum = (op1 + op2 + (p & CARRY) as u16) as u16;
    let r = sum as u8;
    (
        r,
        with_flag(
            with_flag(with_nz(p, r), CARRY, sum & 0x100 == 0x100),
            OVERFLOW,
            ((sum ^ op1) & (sum ^ op2)) & 0x80 == 0x80,
        ),
    )
}

/// Decimal add with carry on BCD operands, with nibble correction.
pub open spec fn adc_decimal(a: u8, op: u8, p: u8) -> (u8, u8) {
    let op1 = a as u16;
    let op2 = op as u16;
    let low = ((op1 & 0xf) + (op2 & 0xf) + (p & CARRY) as u16) as u16;
    let low = if low > 9 { (low + 0x06) as u16 } else { low };
    let sum = (low + (op1 & 0xf0) + (op2 & 0xf0)) as u16;
    let sum = if (sum >> 4) > 9 { (sum + 0x60) as u16 } else { sum };
    let r = sum as u8;
    (
        r,
        with_nz(
            with_flag(
                with_flag(p, OVERFLOW, ((sum ^ op1) & (sum ^ op2)) & 0x80 == 0x80),
                CARRY,
                sum & 0xFF00 != 0,
            ),
            r,
        ),
    )
}

/// Binary subtract with borrow: add of the complemented operand.
pub open spec fn sbc_binary(a: u8, op: u8, p: u8) -> (u8, u8) {
    adc_binary(a, !op, p)
}

/// Decimal subtract with borrow: nine's complement, then a decimal add.
pub open spec fn sbc_decimal(a: u8, op: u8, p: u8) -> (u8, u8) {
    let op1 = a as u16;
    let n = 0x99u16.wrapping_sub(op as u16);
    let n = if n & 0x0f > 9 { n.wrapping_add(0x06) } else { n };
    let n = if (n >> 4) > 9 { n.wrapping_add(0x60) } else { n };
    let carry_in: u16 = if p & CARRY == 0 { 0 } else { 1 };
    let sum = (op1 & 0x0f).wrapping_add(n & 0x0f).wrapping_add(carry_in);
    let sum = if sum > 9 { sum.wrapping_add(0x06) } else { sum };
    let sum = sum.wrapping_add(op1 & 0xf0).wrapping_add(n & 0xf0);
    let sum = if (sum >> 4) > 9 { sum.wrapping_add(0x60) } else { sum };
    let r = (sum & 0xff) as u8;
    (
        r,
        with_nz(
            with_flag(
                with_flag(p, OVERFLOW, ((sum ^ op1) & (sum ^ n)) & 0x80 == 0x80),
                CARRY,
                sum & 0xFF00 != 0,
            ),
            r,
        ),
    )
}

/// Flags after comparing `reg` with `op`.
pub open spec fn compare(reg: u8, op: u8, p: u8) -> u8 {
    with_nz(with_flag(p, CARRY, reg >= op), reg.wrapping_sub(op))
}

/// Shift left; bit 7 goes to Carry.
pub open spec fn asl(v: u8, p: u8) -> (u8, u8) {
    let r = ((v as u16) << 1) as u8;
    (r, with_nz(with_flag(p, CARRY, v & 0x80 == 0x80), r))
}

/// Shift right; bit 0 goes to Carry.
pub open spec fn lsr(v: u8, p: u8) -> (u8, u8) {
    let r = v >> 1;
    (r, with_nz(with_flag(p, CARRY, v & 0x01 == 0x01), r))
}

/// Rotate left through Carry.
pub open spec fn rol(v: u8, p: u8) -> (u8, u8) {
    let r = (((v as u16) << 1) as u8) | (p & 1);
    (r, with_nz(with_flag(p, CARRY, v & 0x80 == 0x80), r))
}

/// Rotate right through Carry.
pub open spec fn ror(v: u8, p: u8) -> (u8, u8) {
    let r = (v >> 1) | ((p & 1) << 7);
    (r, with_nz(with_flag(p, CARRY, v & 0x01 == 0x01), r))
}

/// Flags after BIT: Zero from `a & op`; with a memory operand also
/// Overflow and Negative from bits 6 and 7 of `op`.
pub open spec fn bit_test(a: u8, op: u8, p: u8, immediate: bool) -> u8 {
    let z = with_flag(p, ZERO, a & op == 0);
    if immediate {
        z
    } else {
        with_flag(with_flag(z, OVERFLOW, op & 0x40 == 0x40), NEGATIVE, op & 0x80 == 0x80)
    }
}

pub fn set_flag(p: u8, f: u8, on: bool) -> (r: u8)
    ensures
        r == with_flag(p, f, on),
{
    if on {
        p | f
    } else {
        p & !f
    }
}

pub fn set_nz(p: u8, v: u8) -> (r: u8)
    ensures
        r == with_nz(p, v),
{
    set_flag(set_flag(p, ZERO, v == 0), NEGATIVE, v & 0x80 == 0x80)
}

pub fn add_binary(a: u8, op: u8, p: u8) -> (r: (u8, u8))
    ensures
        r == adc_binary(a, op, p),
{
    let op1 = a as u16;
    let op2 = op as u16;
    let sum = op1 + op2 + (p & CARRY) as u16;
    let r = sum as u8;
    (
        r,
        set_flag(
            set_flag(set_nz(p, r), CARRY, sum & 0x100 == 0x100),
            OVERFLOW,
            ((sum ^ op1) & (sum ^ op2)) & 0x80 == 0x80,
        ),
    )
}

pub fn add_decimal(a: u8, op: u8, p: u8) -> (r: (u8, u8))
    ensures
        r == adc_decimal(a, op, p),
{
    let op1 = a as u16;
    let op2 = op as u16;
    assert((op1 & 0xf) <= 0xf && (op2 & 0xf) <= 0xf && (p & CARRY) <= 1) by (bit_vector);
    assert((op1 & 0xf0) <= 0xf0 && (op2 & 0xf0) <= 0xf0) by (bit_vector);
    let mut low = (op1 & 0xf) + (op2 & 0xf) + (p & CARRY) as u16;
    if low > 9 {
        low = low + 0x06;
    }
    let mut sum = low + (op1 & 0xf0) + (op2 & 0xf0);
    if (sum >> 4) > 9 {
        sum = sum + 0x60;
    }
    let r = sum as u8;
    (
        r,
        set_nz(
            set_flag(
                set_flag(p, OVERFLOW, ((sum ^ op1) & (sum ^ op2)) & 0x80 == 0x80),
                CARRY,
                sum & 0xFF00 != 0,
            ),
            r,
        ),
    )
}

pub fn subtract_decimal(a: u8, op: u8, p: u8) -> (r: (u8, u8))
    ensures
        r == sbc_decimal(a, op, p),
{
    let op1 = a as u16;
    let mut n = 0x99u16.wrapping_sub(op as u16);
    if n & 0x0f > 9 {
        n = n.wrapping_add(0x06);
    }
    if (n >> 4) > 9 {
        n = n.wrapping_add(0x60);
    }
    let carry_in: u16 = if p & CARRY == 0 { 0 } else { 1 };
    let mut sum = (op1 & 0x0f).wrapping_add(n & 0x0f).wrapping_add(carry_in);
    if sum > 9 {
        sum = sum.wrapping_add(0x06);
    }
    sum = sum.wrapping_add(op1 & 0xf0).wrapping_add(n & 0xf0);
    if (sum >> 4) > 9 {
        sum = sum.wrapping_add(0x60);
    }
    let r = (sum & 0xff) as u8;
    (
        r,
        set_nz(
            set_flag(
                set_flag(p, OVERFLOW, ((sum ^ op1) & (sum ^ n)) & 0x80 == 0x80),
                CARRY,
                sum & 0xFF00 != 0,
            ),
            r,
        ),
    )
}

pub fn compare_flags(reg: u8, op: u8, p: u8) -> (r: u8)
    ensures
        r == compare(reg, op, p),
{
    set_nz(set_flag(p, CARRY, reg >= op), reg.wrapping_sub(op))
}

pub fn shift_left(v: u8, p: u8) -> (r: (u8, u8))
    ensures
        r == asl(v, p),
{
    let r = ((v as u16) << 1) as u8;
    (r, set_nz(set_flag(p, CARRY, v & 0x80 == 0x80), r))
}

pub fn shift_right(v: u8, p: u8) -> (r: (u8, u8))
    ensures
        r == lsr(v, p),
{
    let r = v >> 1;
    (r, set_nz(set_flag(p, CARRY, v & 0x01 == 0x01), r))
}

pub fn rotate_left(v: u8, p: u8) -> (r: (u8, u8))
    ensures
        r == rol(v, p),
{
    let r = (((v as u16) << 1) as u8) | (p & 1);
    (r, set_nz(set_flag(p, CARRY, v & 0x80 == 0x80), r))
}

pub fn rotate_right(v: u8, p: u8) -> (r: (u8, u8))
    ensures
        r == ror(v, p),
{
    assert((p & 1) <= 1) by (bit_vector);
    let r = (v >> 1) | ((p & 1) << 7);
    (r, set_nz(set_flag(p, CARRY, v & 0x01 == 0x01), r))
}

pub fn bit_flags(a: u8, op: u8, p: u8, immediate: bool) -> (r: u8)
    ensures
        r == bit_test(a, op, p, immediate),
{
    let z = set_flag(p, ZERO, a & op == 0);
    if immediate {
        z
    } else {
        set_flag(set_flag(z, OVERFLOW, op & 0x40 == 0x40), NEGATIVE, op & 0x80 == 0x80)
    }
}

} // verus!
