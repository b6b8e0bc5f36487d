//! The 8-bit ALU: additions and subtractions with their carries, the logic
//! operations, increments, rotations and shifts, and `DAA`.
use vstd::prelude::*;

use crate::cpu::registers::{flag_in, with_flag, with_flags, Flag, Registers};

verus! {

/// The eight accumulator operations of the `x8/alu` block.
#[derive(Debug, Clone, Copy, PartialEq, Eq)]
pub(crate) enum AluOp {
    Add,
    AddWithCarry,
    Subtract,
    SubtractWithCarry,
    Compare,
    And,
    Xor,
    Or,
}

/// `0` or `1`.
pub open spec fn bit_of(b: bool) -> int {
    if b { 1 } else { 0 }
}

/// `A + operand + carry_in`, with the flags it produces: `Z` on a zero
/// result, `N` clear, `H` on a carry out of bit 3, `C` on a carry out of bit 7.
pub open spec fn add_spec(r: Registers, operand: u8, carry_in: int) -> Registers {
    let total = r.a + operand + carry_in;
    let result = (total % 256) as u8;
    Registers {
        a: result,
        f: with_flags(r.f, result == 0, false, r.a % 16 + operand % 16 + carry_in > 15, total > 255),
        ..r
    }
}

/// `A - operand - carry_in`, with the flags it produces: `Z` on a zero
/// result, `N` set, `H` on a borrow from bit 4, `C` on a borrow. `CP`
/// computes the same flags and keeps `A`.
pub open spec fn subtract_spec(r: Registers, operand: u8, carry_in: int, writes_result: bool) -> Registers {
    let result = ((r.a - operand - carry_in) % 256) as u8;
    Registers {
        a: if writes_result { result } else { r.a },
        f: with_flags(r.f, result == 0, true, r.a % 16 < operand % 16 + carry_in, r.a < operand + carry_in),
        ..r
    }
}

/// A logic result stored in `A`: `Z` on zero, `N` clear, `H` as given (set
/// only by `AND`), `C` clear.
pub open spec fn logic_spec(r: Registers, result: u8, half: bool) -> Registers {
    Registers { a: result, f: with_flags(r.f, result == 0, false, half, false), ..r }
}

/// What each accumulator operation does to the registers.
pub(crate) open spec fn alu_spec(r: Registers, op: AluOp, operand: u8) -> Registers {
    let carry = bit_of(flag_in(r.f, Flag::C));
    match op {
        AluOp::Add => add_spec(r, operand, 0),
        AluOp::AddWithCarry => add_spec(r, operand, carry),
        AluOp::Subtract => subtract_spec(r, operand, 0, true),
        AluOp::SubtractWithCarry => subtract_spec(r, operand, carry, true),
        AluOp::Compare => subtract_spec(r, operand, 0, false),
        AluOp::And => logic_spec(r, r.a & operand, true),
        AluOp::Xor => logic_spec(r, r.a ^ operand, false),
        AluOp::Or => logic_spec(r, r.a | operand, false),
    }
}

/// `DAA`: turns the binary result of a BCD addition or subtraction back into
/// BCD, reading `N`, `H` and `C` to know which correction applies.
pub open spec fn daa_spec(r: Registers) -> Registers {
    let a = r.a as int;
    let n = flag_in(r.f, Flag::N);
    let h = flag_in(r.f, Flag::H);
    let c = flag_in(r.f, Flag::C);
    if !n {
        let a1 = if a % 16 > 9 || h { a + 0x06 } else { a };
        let up = a1 > 0x9F || c;
        let a2 = if up { a1 + 0x60 } else { a1 };
        let f1 = if up { with_flag(r.f, Flag::C, true) } else { r.f };
        Registers {
            a: (a2 % 256) as u8,
            f: with_flag(with_flag(f1, Flag::Z, a2 % 256 == 0), Flag::H, false),
            ..r
        }
    } else {
        let a1 = if h { a - 0x06 } else { a };
        let a2 = if c { a1 - 0x60 } else { a1 };
        Registers {
            a: (a2 % 256) as u8,
            f: with_flag(with_flag(r.f, Flag::Z, a2 % 256 == 0), Flag::H, false),
            ..r
        }
    }
}

/// Applies one accumulator operation to `registers`, using `operand` as the
/// second argument. `ADC` and `SBC` take the carry in from `C`.
pub(crate) fn apply(registers: &mut Registers, op: AluOp, operand: u8)
    ensures
        *final(registers) == alu_spec(*old(registers), op, operand),
{
    match op {
        AluOp::Add => self::add(registers, operand, 0),
        AluOp::AddWithCarry => {
            let carry_in: u8 = if registers.flag(Flag::C) { 1 } else { 0 };
            self::add(registers, operand, carry_in);
        },
        AluOp::Subtract => subtract(registers, operand, 0, true),
        AluOp::SubtractWithCarry => {
            let carry_in: u8 = if registers.flag(Flag::C) { 1 } else { 0 };
            subtract(registers, operand, carry_in, true);
        },
        AluOp::Compare => subtract(registers, operand, 0, false),
        AluOp::And => {
            let result = registers.a & operand;
            logic(registers, result, true)
        },
        AluOp::Xor => {
            let result = registers.a ^ operand;
            logic(registers, result, false)
        },
        AluOp::Or => {
            let result = registers.a | operand;
            logic(registers, result, false)
        },
    }
}

fn add(registers: &mut Registers, operand: u8, carry_in: u8)
    requires
        carry_in <= 1,
    ensures
        *final(registers) == add_spec(*old(registers), operand, carry_in as int),
{
    let accumulator = registers.a;
    let total = (accumulator as u16) + (operand as u16) + (carry_in as u16);
    let half = accumulator % 16 + operand % 16 + carry_in;

    // The low byte of the total is the result; what overflows is `C`.
    let result = (total % 256) as u8;

    registers.a = result;
    registers.set_flag(Flag::Z, result == 0);
    registers.set_flag(Flag::N, false);
    registers.set_flag(Flag::H, half > 0x0F);
    registers.set_flag(Flag::C, total > 0xFF);
}

// `writes_result` tells SUB/SBC (which write A) from CP (flags only).
fn subtract(registers: &mut Registers, operand: u8, carry_in: u8, writes_result: bool)
    requires
        carry_in <= 1,
    ensures
        *final(registers) == subtract_spec(*old(registers), operand, carry_in as int, writes_result),
{
    let accumulator = registers.a;
    let half_borrow = accumulator % 16 < operand % 16 + carry_in;
    let borrowed = (accumulator as u16) < (operand as u16) + (carry_in as u16);
    let result = accumulator.wrapping_sub(operand).wrapping_sub(carry_in);

    if writes_result {
        registers.a = result;
    }
    registers.set_flag(Flag::Z, result == 0);
    registers.set_flag(Flag::N, true);
    registers.set_flag(Flag::H, half_borrow);
    registers.set_flag(Flag::C, borrowed);
}

// For the logic column `H` is a constant handed in by `apply`, and `C` is 0.
fn logic(registers: &mut Registers, result: u8, half: bool)
    ensures
        *final(registers) == logic_spec(*old(registers), result, half),
{
    registers.a = result;
    registers.set_flag(Flag::Z, result == 0);
    registers.set_flag(Flag::N, false);
    registers.set_flag(Flag::H, half);
    registers.set_flag(Flag::C, false);
}

/// `INC r8`: returns `value + 1`; `C` is left as it was. The operand may be a
/// register or `(HL)`, so the result is returned rather than stored.
pub(crate) fn increment(registers: &mut Registers, value: u8) -> (r: u8)
    ensures
        r == (value + 1) % 256,
        *final(registers) == (Registers {
            f: with_flag(with_flag(with_flag(old(registers).f, Flag::Z, r == 0), Flag::N, false), Flag::H, value % 16 == 15),
            ..*old(registers)
        }),
{
    let result = value.wrapping_add(1);
    registers.set_flag(Flag::Z, result == 0);
    registers.set_flag(Flag::N, false);
    registers.set_flag(Flag::H, value % 16 == 0x0F);
    result
}

/// `DEC r8`: returns `value - 1`; `C` is left as it was.
pub(crate) fn decrement(registers: &mut Registers, value: u8) -> (r: u8)
    ensures
        r == (value - 1) % 256,
        *final(registers) == (Registers {
            f: with_flag(with_flag(with_flag(old(registers).f, Flag::Z, r == 0), Flag::N, true), Flag::H, value % 16 == 0),
            ..*old(registers)
        }),
{
    let result = value.wrapping_sub(1);
    registers.set_flag(Flag::Z, result == 0);
    registers.set_flag(Flag::N, true);
    registers.set_flag(Flag::H, value % 16 == 0);
    result
}

/// `CB RLC`: rotate left; bit 7 goes to bit 0 and to the carry.
pub(crate) fn rlc(value: u8) -> (r: (u8, bool))
    ensures
        r.0 == (value * 2) % 256 + value / 128,
        r.1 == (value >= 128),
{
    let carry = value >= 0x80;
    let result = (value % 128) * 2 + if carry { 1 } else { 0 };
    (result, carry)
}

/// `CB RRC`: rotate right; bit 0 goes to bit 7 and to the carry.
pub(crate) fn rrc(value: u8) -> (r: (u8, bool))
    ensures
        r.0 == value / 2 + (value % 2) * 128,
        r.1 == (value % 2 == 1),
{
    let carry = value % 2 == 1;
    let result = value / 2 + if carry { 0x80 } else { 0 };
    (result, carry)
}

/// `CB RL`: rotate left through the carry; `carry_in` is the old `C`.
pub(crate) fn rl(value: u8, carry_in: bool) -> (r: (u8, bool))
    ensures
        r.0 == (value * 2) % 256 + bit_of(carry_in),
        r.1 == (value >= 128),
{
    let carry = value >= 0x80;
    let result = (value % 128) * 2 + if carry_in { 1 } else { 0 };
    (result, carry)
}

/// `CB RR`: rotate right through the carry.
pub(crate) fn rr(value: u8, carry_in: bool) -> (r: (u8, bool))
    ensures
        r.0 == value / 2 + bit_of(carry_in) * 128,
        r.1 == (value % 2 == 1),
{
    let carry = value % 2 == 1;
    let result = value / 2 + if carry_in { 0x80 } else { 0 };
    (result, carry)
}

/// `CB SLA`: shift left, bit 0 becomes 0.
pub(crate) fn sla(value: u8) -> (r: (u8, bool))
    ensures
        r.0 == (value * 2) % 256,
        r.1 == (value >= 128),
{
    let carry = value >= 0x80;
    let result = (value % 128) * 2;
    (result, carry)
}

/// `CB SRA`: shift right, bit 7 kept (sign extension).
pub(crate) fn sra(value: u8) -> (r: (u8, bool))
    ensures
        r.0 == value / 2 + if value >= 128 { 128int } else { 0int },
        r.1 == (value % 2 == 1),
{
    let carry = value % 2 == 1;
    let result = value / 2 + if value >= 0x80 { 0x80 } else { 0 };
    (result, carry)
}

/// `CB SWAP`: exchanges the two nibbles; the carry is always clear.
pub(crate) fn swap(value: u8) -> (r: (u8, bool))
    ensures
        r.0 == (value % 16) * 16 + value / 16,
        !r.1,
{
    let result = (value % 16) * 16 + value / 16;
    (result, false)
}

/// `CB SRL`: shift right, bit 7 becomes 0.
pub(crate) fn srl(value: u8) -> (r: (u8, bool))
    ensures
        r.0 == value / 2,
        r.1 == (value % 2 == 1),
{
    let carry = value % 2 == 1;
    let result = value / 2;
    (result, carry)
}

/// `RLCA`: like `RLC A`, but `Z` is always clear.
pub(crate) fn rlca(registers: &mut Registers)
    ensures
        final(registers).a == (old(registers).a * 2) % 256 + old(registers).a / 128,
        final(registers).f == with_flags(old(registers).f, false, false, false, old(registers).a >= 128),
        final(registers).b == old(registers).b && final(registers).c == old(registers).c,
        final(registers).d == old(registers).d && final(registers).e == old(registers).e,
        final(registers).h == old(registers).h && final(registers).l == old(registers).l,
        final(registers).sp == old(registers).sp && final(registers).pc == old(registers).pc,
{
    let (result, carry_out) = rlc(registers.a);
    registers.a = result;
    registers.set_flag(Flag::Z, false);
    registers.set_flag(Flag::N, false);
    registers.set_flag(Flag::H, false);
    registers.set_flag(Flag::C, carry_out);
}

/// `RRCA`: like `RRC A`, but `Z` is always clear.
pub(crate) fn rrca(registers: &mut Registers)
    ensures
        final(registers).a == old(registers).a / 2 + (old(registers).a % 2) * 128,
        final(registers).f == with_flags(old(registers).f, false, false, false, old(registers).a % 2 == 1),
        final(registers).b == old(registers).b && final(registers).c == old(registers).c,
        final(registers).d == old(registers).d && final(registers).e == old(registers).e,
        final(registers).h == old(registers).h && final(registers).l == old(registers).l,
        final(registers).sp == old(registers).sp && final(registers).pc == old(registers).pc,
{
    let (result, carry_out) = rrc(registers.a);
    registers.a = result;
    registers.set_flag(Flag::Z, false);
    registers.set_flag(Flag::N, false);
    registers.set_flag(Flag::H, false);
    registers.set_flag(Flag::C, carry_out);
}

/// `RLA`: rotate `A` left through the carry; `Z` is always clear.
pub(crate) fn rla(registers: &mut Registers)
    ensures
        final(registers).a == (old(registers).a * 2) % 256 + bit_of(flag_in(old(registers).f, Flag::C)),
        final(registers).f == with_flags(old(registers).f, false, false, false, old(registers).a >= 128),
        final(registers).b == old(registers).b && final(registers).c == old(registers).c,
        final(registers).d == old(registers).d && final(registers).e == old(registers).e,
        final(registers).h == old(registers).h && final(registers).l == old(registers).l,
        final(registers).sp == old(registers).sp && final(registers).pc == old(registers).pc,
{
    let carry_in = registers.flag(Flag::C);
    let (result, carry_out) = rl(registers.a, carry_in);
    registers.a = result;
    registers.set_flag(Flag::Z, false);
    registers.set_flag(Flag::N, false);
    registers.set_flag(Flag::H, false);
    registers.set_flag(Flag::C, carry_out);
}

/// `RRA`: rotate `A` right through the carry; `Z` is always clear.
pub(crate) fn rra(registers: &mut Registers)
    ensures
        final(registers).a == old(registers).a / 2 + bit_of(flag_in(old(registers).f, Flag::C)) * 128,
        final(registers).f == with_flags(old(registers).f, false, false, false, old(registers).a % 2 == 1),
        final(registers).b == old(registers).b && final(registers).c == old(registers).c,
        final(registers).d == old(registers).d && final(registers).e == old(registers).e,
        final(registers).h == old(registers).h && final(registers).l == old(registers).l,
        final(registers).sp == old(registers).sp && final(registers).pc == old(registers).pc,
{
    let carry_in = registers.flag(Flag::C);
    let (result, carry_out) = rr(registers.a, carry_in);
    registers.a = result;
    registers.set_flag(Flag::Z, false);
    registers.set_flag(Flag::N, false);
    registers.set_flag(Flag::H, false);
    registers.set_flag(Flag::C, carry_out);
}

/// `DAA`: the decimal adjustment after a BCD addition or subtraction.
pub(crate) fn daa(registers: &mut Registers)
    ensures
        *final(registers) == daa_spec(*old(registers)),
{
    let mut a = registers.a as u16;
    let n = registers.flag(Flag::N);
    let h = registers.flag(Flag::H);
    let c = registers.flag(Flag::C);
    let ghost a0 = a as int;
    let ghost exact: int;

    if !n {
        if a % 16 > 9 || h {
            a = a + 0x06;
        }
        if a > 0x9F || c {
            a = a + 0x60;
            registers.set_flag(Flag::C, true);
        }
        proof {
            exact = a as int;
        }
    } else {
        if h {
            a = a.wrapping_sub(0x06);
        }
        proof {
            exact = if h { a0 - 0x06 } else { a0 };
            assert(a as int % 256 == exact % 256) by {
                lemma_wrap_mod(a as int, exact);
            }
        }
        if c {
            let ghost before = a as int;
            a = a.wrapping_sub(0x60);
            proof {
                lemma_wrap_mod(a as int, before - 0x60);
                lemma_wrap_mod(before, exact);
                lemma_mod_shift(before, exact, 0x60);
                exact = exact - 0x60;
                assert(a as int % 256 == exact % 256);
            }
        }
    }

    registers.a = (a % 256) as u8;
    registers.set_flag(Flag::Z, a % 256 == 0);
    registers.set_flag(Flag::H, false);
    proof {
        assert((a % 256) as int == exact % 256);
    }
}

/// Two integers that differ by a multiple of 65536 agree modulo 256.
proof fn lemma_wrap_mod(x: int, y: int)
    requires
        x == y || x == y + 65536,
    ensures
        x % 256 == y % 256,
{
    vstd::arithmetic::div_mod::lemma_mod_add_multiples_vanish(y, 256);
    assert(y + 65536 == y + 256 * 256);
    vstd::arithmetic::div_mod::lemma_mod_multiples_vanish(256, y, 256);
}

/// Congruence modulo 256 survives subtracting the same amount from both sides.
proof fn lemma_mod_shift(x: int, y: int, d: int)
    requires
        x % 256 == y % 256,
    ensures
        (x - d) % 256 == (y - d) % 256,
{
    vstd::arithmetic::div_mod::lemma_sub_mod_noop(x, d, 256);
    vstd::arithmetic::div_mod::lemma_sub_mod_noop(y, d, 256);
}

/// Whether both nibbles of `x` are decimal digits.
pub open spec fn is_bcd(x: u8) -> bool {
    x % 16 <= 9 && x / 16 <= 9
}

/// The number a BCD byte stands for.
pub open spec fn bcd_value(x: u8) -> int {
    (x / 16) * 10 + x % 16
}

/// The BCD byte of a number below 100.
pub open spec fn to_bcd(v: int) -> u8 {
    ((v / 10) * 16 + v % 10) as u8
}

/// `ADD`/`ADC` of two BCD bytes followed by `DAA` is decimal addition: `A`
/// holds the two low decimal digits of the sum and `C` tells whether it
/// reached 100.
pub proof fn law_daa_after_add(r: Registers, operand: u8, carry_in: bool)
    requires
        is_bcd(r.a),
        is_bcd(operand),
    ensures
        ({
            let sum = bcd_value(r.a) + bcd_value(operand) + bit_of(carry_in);
            let adjusted = daa_spec(add_spec(r, operand, bit_of(carry_in)));
            &&& adjusted.a == to_bcd(sum % 100)
            &&& flag_in(adjusted.f, Flag::C) == (sum >= 100)
        }),
{
    let cin = bit_of(carry_in);
    let added = add_spec(r, operand, cin);
    let total = r.a + operand + cin;
    crate::cpu::registers::lemma_with_flags(r.f, (total % 256) as u8 == 0, false, r.a % 16 + operand % 16 + cin > 15, total > 255);
    let a = added.a as int;
    let h = r.a % 16 + operand % 16 + cin > 15;
    let c = total > 255;
    let a1 = if a % 16 > 9 || h { a + 0x06 } else { a };
    let up = a1 > 0x9F || c;
    let f1 = if up { with_flag(added.f, Flag::C, true) } else { added.f };
    crate::cpu::registers::lemma_with_flag(added.f, Flag::C, true);
    crate::cpu::registers::lemma_with_flag(f1, Flag::Z, (if up { a1 + 0x60 } else { a1 }) % 256 == 0);
    let f2 = with_flag(f1, Flag::Z, (if up { a1 + 0x60 } else { a1 }) % 256 == 0);
    crate::cpu::registers::lemma_with_flag(f2, Flag::H, false);
    lemma_bcd_add_digits(r.a, operand, cin);
}

/// The arithmetic at the heart of [`law_daa_after_add`], on the digits.
proof fn lemma_bcd_add_digits(x: u8, y: u8, cin: int)
    requires
        is_bcd(x),
        is_bcd(y),
        0 <= cin <= 1,
    ensures
        ({
            let total = x + y + cin;
            let a = total % 256;
            let h = x % 16 + y % 16 + cin > 15;
            let c = total > 255;
            let a1 = if a % 16 > 9 || h { a + 0x06 } else { a };
            let up = a1 > 0x9F || c;
            let a2 = if up { a1 + 0x60 } else { a1 };
            let sum = bcd_value(x) + bcd_value(y) + cin;
            &&& (a2 % 256) as u8 == to_bcd(sum % 100)
            &&& (c || up) == (sum >= 100)
        }),
{
    let xh = x / 16;
    let xl = x % 16;
    let yh = y / 16;
    let yl = y % 16;
    vstd::arithmetic::div_mod::lemma_fundamental_div_mod(x as int, 16);
    vstd::arithmetic::div_mod::lemma_fundamental_div_mod(y as int, 16);
    let high = xh + yh;
    let low = xl + yl + cin;
    let total = x + y + cin;
    assert(total == 16 * high + low);
    let sum = bcd_value(x) + bcd_value(y) + cin;
    assert(sum == 10 * high + low);

    // The decimal digits of the sum.
    let carry_low = low >= 10;
    let ones = if carry_low { low - 10 } else { low };
    let tens_total = high + if carry_low { 1int } else { 0int };
    let big = tens_total >= 10;
    let tens = if big { tens_total - 10 } else { tens_total };
    assert(sum == 100 * (if big { 1int } else { 0int }) + (10 * tens + ones));
    vstd::arithmetic::div_mod::lemma_fundamental_div_mod_converse(sum, 100, if big { 1int } else { 0int }, 10 * tens + ones);
    vstd::arithmetic::div_mod::lemma_fundamental_div_mod_converse(10 * tens + ones, 10, tens, ones);
    assert(to_bcd(sum % 100) == (16 * tens + ones) as u8);

    // The binary side: the low nibble and the byte of the total.
    let q16 = low >= 16;
    let r = if q16 { low - 16 } else { low };
    let m = high + if q16 { 1int } else { 0int };
    assert(total == 16 * m + r);
    let wrap = m >= 16;
    let mb = if wrap { m - 16 } else { m };
    let a = 16 * mb + r;
    assert(total == 256 * (if wrap { 1int } else { 0int }) + a);
    vstd::arithmetic::div_mod::lemma_fundamental_div_mod_converse(total, 256, if wrap { 1int } else { 0int }, a);
    vstd::arithmetic::div_mod::lemma_fundamental_div_mod_converse(a, 16, mb, r);
    assert(total % 256 == a);
    assert(a % 16 == r);
    let h = xl + yl + cin > 15;
    assert(h == q16);
    assert((total > 255) == wrap);
    let a1 = if r > 9 || q16 { a + 0x06 } else { a };
    let up = a1 > 0x9F || wrap;
    let a2 = if up { a1 + 0x60 } else { a1 };
    assert(0 <= a2 < 512);
    let wrapped = a2 >= 256;
    vstd::arithmetic::div_mod::lemma_fundamental_div_mod_converse(a2, 256, if wrapped { 1int } else { 0int }, if wrapped { a2 - 256 } else { a2 });
    assert((x % 16 + y % 16 + cin > 15) == h);
}

} // verus!
