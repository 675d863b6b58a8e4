//! Results and flags of the arithmetic, logic, rotate and bit instructions,
//! stated over integers.
use vstd::prelude::*;
use crate::flags::FlagsRegister;

verus! {

pub open spec fn carry_in(f: FlagsRegister) -> int {
    if f.carry {
        1
    } else {
        0
    }
}

/// ADD (carry in 0) and ADC (carry in 0 or 1).
pub open spec fn add8(a: u8, v: u8, cin: int) -> (u8, FlagsRegister) {
    let sum = a + v + cin;
    (
        (sum % 256) as u8,
        FlagsRegister {
            zero: sum % 256 == 0,
            negative: false,
            half_carry: a % 16 + v % 16 + cin > 15,
            carry: sum > 255,
        },
    )
}

/// SUB (borrow in 0) and SBC (borrow in 0 or 1).
pub open spec fn sub8(a: u8, v: u8, cin: int) -> (u8, FlagsRegister) {
    let diff = a - v - cin;
    (
        (diff % 256) as u8,
        FlagsRegister {
            zero: diff % 256 == 0,
            negative: true,
            half_carry: a % 16 < v % 16 + cin,
            carry: a < v + cin,
        },
    )
}

pub open spec fn logic_flags(r: u8, half_carry: bool) -> FlagsRegister {
    FlagsRegister { zero: r == 0, negative: false, half_carry: half_carry, carry: false }
}

/// The eight accumulator operations selected by bits 5..3 of the opcode:
/// ADD, ADC, SUB, SBC, AND, XOR, OR, CP. CP keeps A and sets the flags of SUB.
pub open spec fn alu8(op: int, a: u8, v: u8, f: FlagsRegister) -> (u8, FlagsRegister) {
    if op == 0 {
        add8(a, v, 0)
    } else if op == 1 {
        add8(a, v, carry_in(f))
    } else if op == 2 {
        sub8(a, v, 0)
    } else if op == 3 {
        sub8(a, v, carry_in(f))
    } else if op == 4 {
        (a & v, logic_flags(a & v, true))
    } else if op == 5 {
        (a ^ v, logic_flags(a ^ v, false))
    } else if op == 6 {
        (a | v, logic_flags(a | v, false))
    } else {
        (a, sub8(a, v, 0).1)
    }
}

/// INC r8: C untouched.
pub open spec fn inc8(v: u8, f: FlagsRegister) -> (u8, FlagsRegister) {
    let r = ((v + 1) % 256) as u8;
    (r, FlagsRegister { zero: r == 0, negative: false, half_carry: v % 16 == 15, carry: f.carry })
}

/// DEC r8: C untouched.
pub open spec fn dec8(v: u8, f: FlagsRegister) -> (u8, FlagsRegister) {
    let r = ((v + 255) % 256) as u8;
    (r, FlagsRegister { zero: r == 0, negative: true, half_carry: v % 16 == 0, carry: f.carry })
}

/// ADD HL,rr: Z untouched, H from bit 11, C from bit 15.
pub open spec fn add16(hl: u16, v: u16, f: FlagsRegister) -> (u16, FlagsRegister) {
    (
        ((hl + v) % 0x10000) as u16,
        FlagsRegister {
            zero: f.zero,
            negative: false,
            half_carry: hl % 0x1000 + v % 0x1000 > 0xFFF,
            carry: hl + v > 0xFFFF,
        },
    )
}

/// DAA: decimal adjust of A after a BCD addition or subtraction.
pub open spec fn daa(a: u8, f: FlagsRegister) -> (u8, FlagsRegister) {
    let low = f.half_carry || (!f.negative && a % 16 > 9);
    let high = f.carry || (!f.negative && a > 0x99);
    let adjust = (if low { 6int } else { 0int }) + (if high { 0x60int } else { 0int });
    let r = (if f.negative { (a - adjust) % 256 } else { (a + adjust) % 256 }) as u8;
    (r, FlagsRegister { zero: r == 0, negative: f.negative, half_carry: false, carry: high })
}

/// Result and carry out of the rotates and shifts selected by bits 5..3 of a
/// CB opcode: RLC, RRC, RL, RR, SLA, SRA, SWAP, SRL.
pub open spec fn shift_result(op: int, v: u8, f: FlagsRegister) -> (u8, bool) {
    if op == 0 {
        (((v * 2) % 256 + v / 128) as u8, v >= 128)
    } else if op == 1 {
        ((v / 2 + (v % 2) * 128) as u8, v % 2 == 1)
    } else if op == 2 {
        (((v * 2) % 256 + carry_in(f)) as u8, v >= 128)
    } else if op == 3 {
        ((v / 2 + carry_in(f) * 128) as u8, v % 2 == 1)
    } else if op == 4 {
        (((v * 2) % 256) as u8, v >= 128)
    } else if op == 5 {
        ((v / 2 + (v / 128) * 128) as u8, v % 2 == 1)
    } else if op == 6 {
        (((v % 16) * 16 + v / 16) as u8, false)
    } else {
        ((v / 2) as u8, v % 2 == 1)
    }
}

/// CB rotates and shifts: Z from the result, N and H cleared, C the bit shifted out.
pub open spec fn shift8(op: int, v: u8, f: FlagsRegister) -> (u8, FlagsRegister) {
    let (r, c) = shift_result(op, v, f);
    (r, FlagsRegister { zero: r == 0, negative: false, half_carry: false, carry: c })
}

/// RLCA, RRCA, RLA, RRA (op 0..3): as the CB forms on A, with Z forced to 0.
pub open spec fn rotate_a(op: int, a: u8, f: FlagsRegister) -> (u8, FlagsRegister) {
    let (r, c) = shift_result(op, a, f);
    (r, FlagsRegister { zero: false, negative: false, half_carry: false, carry: c })
}

/// BIT b: Z is the complement of the bit, N=0, H=1, C untouched.
pub open spec fn bit_flags(bit: u8, v: u8, f: FlagsRegister) -> FlagsRegister
    recommends
        bit < 8,
{
    FlagsRegister { zero: (v >> bit) & 1 == 0, negative: false, half_carry: true, carry: f.carry }
}

pub open spec fn res_bit(bit: u8, v: u8) -> u8
    recommends
        bit < 8,
{
    v & !(1u8 << bit)
}

pub open spec fn set_bit(bit: u8, v: u8) -> u8
    recommends
        bit < 8,
{
    v | (1u8 << bit)
}

} // verus!
