use vstd::prelude::*;
use crate::alu::{
    add16, add8, alu8, bit_flags, carry_in, daa, dec8, inc8, res_bit, rotate_a, set_bit, shift8,
    sub8,
};
use crate::clock::Clock;
use crate::flags::FlagsRegister;
use crate::memory::{Memory, MemoryView};

verus! {

pub open spec fn word(high: u8, low: u8) -> u16 {
    (high as int * 256 + low as int) as u16
}

pub open spec fn high_byte(v: u16) -> u8 {
    (v / 256) as u8
}

pub open spec fn low_byte(v: u16) -> u8 {
    (v % 256) as u8
}

pub open spec fn wrap16(x: int) -> u16 {
    (x % 0x10000) as u16
}

/// An 8-bit signed offset widened to 16 bits (two's complement).
pub open spec fn sign_extend(v: u8) -> u16 {
    if v >= 128 {
        (v as int + 0xFF00) as u16
    } else {
        v as u16
    }
}

/// Abstract state of the machine as the CPU sees it.
pub ghost struct CpuView {
    pub a: u8,
    pub f: FlagsRegister,
    pub b: u8,
    pub c: u8,
    pub d: u8,
    pub e: u8,
    pub h: u8,
    pub l: u8,
    pub sp: u16,
    pub pc: u16,
    pub mem: MemoryView,
    pub ticks: u128,
    pub halted: bool,
    pub ime: bool,
}

impl CpuView {
    pub open spec fn bc(self) -> u16 {
        word(self.b, self.c)
    }

    pub open spec fn de(self) -> u16 {
        word(self.d, self.e)
    }

    pub open spec fn hl(self) -> u16 {
        word(self.h, self.l)
    }

    /// AF as pushed: F's byte form in the low half.
    pub open spec fn af(self) -> u16 {
        word(self.a, self.f.spec_to_byte())
    }

    pub open spec fn with_bc(self, v: u16) -> CpuView {
        CpuView { b: high_byte(v), c: low_byte(v), ..self }
    }

    pub open spec fn with_de(self, v: u16) -> CpuView {
        CpuView { d: high_byte(v), e: low_byte(v), ..self }
    }

    pub open spec fn with_hl(self, v: u16) -> CpuView {
        CpuView { h: high_byte(v), l: low_byte(v), ..self }
    }

    /// AF from a popped word; the low nibble of F is dropped.
    pub open spec fn with_af(self, v: u16) -> CpuView {
        CpuView { a: high_byte(v), f: FlagsRegister::spec_from_byte(low_byte(v)), ..self }
    }

    /// The register pairs of the 16-bit loads and arithmetic: BC, DE, HL, SP.
    pub open spec fn rp(self, p: int) -> u16 {
        if p == 0 {
            self.bc()
        } else if p == 1 {
            self.de()
        } else if p == 2 {
            self.hl()
        } else {
            self.sp
        }
    }

    pub open spec fn with_rp(self, p: int, v: u16) -> CpuView {
        if p == 0 {
            self.with_bc(v)
        } else if p == 1 {
            self.with_de(v)
        } else if p == 2 {
            self.with_hl(v)
        } else {
            CpuView { sp: v, ..self }
        }
    }

    /// The register pairs of PUSH and POP: BC, DE, HL, AF.
    pub open spec fn rp2(self, p: int) -> u16 {
        if p == 3 {
            self.af()
        } else {
            self.rp(p)
        }
    }

    pub open spec fn with_rp2(self, p: int, v: u16) -> CpuView {
        if p == 3 {
            self.with_af(v)
        } else {
            self.with_rp(p, v)
        }
    }

    /// Operand `r` of the 8-bit instructions: B, C, D, E, H, L, (HL), A.
    pub open spec fn r8(self, r: int) -> u8 {
        if r == 0 {
            self.b
        } else if r == 1 {
            self.c
        } else if r == 2 {
            self.d
        } else if r == 3 {
            self.e
        } else if r == 4 {
            self.h
        } else if r == 5 {
            self.l
        } else if r == 6 {
            self.mem.read(self.hl())
        } else {
            self.a
        }
    }

    pub open spec fn with_r8(self, r: int, v: u8) -> CpuView {
        if r == 0 {
            CpuView { b: v, ..self }
        } else if r == 1 {
            CpuView { c: v, ..self }
        } else if r == 2 {
            CpuView { d: v, ..self }
        } else if r == 3 {
            CpuView { e: v, ..self }
        } else if r == 4 {
            CpuView { h: v, ..self }
        } else if r == 5 {
            CpuView { l: v, ..self }
        } else if r == 6 {
            CpuView { mem: self.mem.write(self.hl(), v), ..self }
        } else {
            CpuView { a: v, ..self }
        }
    }

    pub open spec fn with_flags(self, f: FlagsRegister) -> CpuView {
        CpuView { f: f, ..self }
    }

    pub open spec fn with_a_flags(self, r: (u8, FlagsRegister)) -> CpuView {
        CpuView { a: r.0, f: r.1, ..self }
    }

    pub open spec fn write(self, addr: u16, v: u8) -> CpuView {
        CpuView { mem: self.mem.write(addr, v), ..self }
    }

    /// PUSH: high byte at SP-1, low byte at SP-2, SP lowered by 2.
    pub open spec fn push(self, v: u16) -> CpuView {
        let sp1 = wrap16(self.sp + 0xFFFF);
        let sp2 = wrap16(self.sp + 0xFFFE);
        CpuView { sp: sp2, mem: self.mem.write(sp1, high_byte(v)).write(sp2, low_byte(v)), ..self }
    }

    /// The word on top of the stack.
    pub open spec fn top(self) -> u16 {
        word(self.mem.read(wrap16(self.sp + 1)), self.mem.read(self.sp))
    }

    pub open spec fn popped(self) -> CpuView {
        CpuView { sp: wrap16(self.sp + 2), ..self }
    }

    /// The byte and the little-endian word at PC.
    pub open spec fn imm8(self) -> u8 {
        self.mem.read(self.pc)
    }

    pub open spec fn imm16(self) -> u16 {
        self.mem.read_word(self.pc)
    }

    pub open spec fn advance(self, n: int) -> CpuView {
        CpuView { pc: wrap16(self.pc + n), ..self }
    }

    pub open spec fn jump(self, target: u16) -> CpuView {
        CpuView { pc: target, ..self }
    }

    /// Branch conditions: NZ, Z, NC, C.
    pub open spec fn condition(self, cc: int) -> bool {
        if cc == 0 {
            !self.f.zero
        } else if cc == 1 {
            self.f.zero
        } else if cc == 2 {
            !self.f.carry
        } else {
            self.f.carry
        }
    }
}

/// The LR35902 processor together with the memory and clock it drives.
pub struct CPU {
    a: u8,
    f: FlagsRegister,
    b: u8,
    c: u8,
    d: u8,
    e: u8,
    h: u8,
    l: u8,
    sp: u16,
    pc: u16,
    memory: Memory,
    clock: Clock,
    halted: bool,
    ime: bool,
}

impl View for CPU {
    type V = CpuView;

    closed spec fn view(&self) -> CpuView {
        CpuView {
            a: self.a,
            f: self.f,
            b: self.b,
            c: self.c,
            d: self.d,
            e: self.e,
            h: self.h,
            l: self.l,
            sp: self.sp,
            pc: self.pc,
            mem: self.memory@,
            ticks: self.clock@,
            halted: self.halted,
            ime: self.ime,
        }
    }
}

/// Register values the boot program leaves behind.
pub open spec fn post_boot_registers(s: CpuView) -> bool {
    &&& s.a == 0x01
    &&& s.f.spec_to_byte() == 0xB0
    &&& s.b == 0x00
    &&& s.c == 0x13
    &&& s.d == 0x00
    &&& s.e == 0xD8
    &&& s.h == 0x01
    &&& s.l == 0x4D
    &&& s.sp == 0xFFFE
    &&& s.pc == 0x0100
}

impl CPU {
    pub open spec fn wf(&self) -> bool {
        self@.mem.wf()
    }

    /// A machine in the state the boot program leaves, with cleared memory.
    pub fn new() -> (r: Self)
        ensures
            r.wf(),
            post_boot_registers(r@),
            r@.f == (FlagsRegister { zero: true, negative: false, half_carry: true, carry: true }),
            !r@.halted,
            !r@.ime,
            r@.ticks == 0,
            r@.mem == MemoryView::initial(),
    {
        let memory = Memory::new();
        let r = Self {
            a: 0x01,
            f: FlagsRegister { zero: true, negative: false, half_carry: true, carry: true },
            b: 0x00,
            c: 0x13,
            d: 0x00,
            e: 0xD8,
            h: 0x01,
            l: 0x4D,
            sp: 0xFFFE,
            pc: 0x0100,
            memory,
            clock: Clock::new(),
            halted: false,
            ime: false,
        };
        assert(((1u8 << 7u8) | (0u8 << 6u8) | (1u8 << 5u8) | (1u8 << 4u8)) == 0xB0u8) by (bit_vector);
        r
    }

    /// Maps a cartridge image at 0x0000..0x7FFF.
    pub fn load_rom(&mut self, rom_data: Vec<u8>)
        requires
            old(self).wf(),
        ensures
            final(self).wf(),
            final(self)@ == (CpuView { mem: MemoryView { rom: rom_data@, ..old(self)@.mem }, ..old(self)@ }),
    {
        self.memory.load_rom(rom_data);
    }

    /// Installs a 256-byte boot program: the overlay is mapped, every register
    /// is cleared and execution starts at 0x0000. Any other length is refused
    /// and nothing changes.
    pub fn load_boot_rom(&mut self, boot_data: &[u8])
        requires
            old(self).wf(),
        ensures
            final(self).wf(),
            boot_data@.len() == 256 ==> final(self)@ == (CpuView {
                a: 0,
                f: FlagsRegister { zero: false, negative: false, half_carry: false, carry: false },
                b: 0,
                c: 0,
                d: 0,
                e: 0,
                h: 0,
                l: 0,
                sp: 0,
                pc: 0,
                mem: MemoryView { boot_rom: boot_data@, boot_rom_enabled: true, ..old(self)@.mem },
                ..old(self)@
            }),
            boot_data@.len() != 256 ==> final(self)@ == old(self)@,
    {
        if boot_data.len() != 256 {
            return;
        }
        self.memory.load_boot_rom(boot_data);
        self.a = 0;
        self.f = FlagsRegister::init();
        self.b = 0;
        self.c = 0;
        self.d = 0;
        self.e = 0;
        self.h = 0;
        self.l = 0;
        self.sp = 0;
        self.pc = 0;
    }

    fn fetch_byte(&mut self) -> (r: u8)
        requires
            old(self).wf(),
        ensures
            r == old(self)@.imm8(),
            final(self)@ == old(self)@.advance(1),
    {
        let byte = self.memory.read(self.pc);
        self.pc = self.pc.wrapping_add(1);
        byte
    }

    fn fetch_word(&mut self) -> (r: u16)
        requires
            old(self).wf(),
        ensures
            r == old(self)@.imm16(),
            final(self)@ == old(self)@.advance(2),
    {
        let low = self.fetch_byte() as u16;
        let high = self.fetch_byte() as u16;
        high * 256 + low
    }

    fn read_r8(&self, reg: u8) -> (r: u8)
        requires
            self.wf(),
            reg < 8,
        ensures
            r == self@.r8(reg as int),
    {
        match reg {
            0 => self.b,
            1 => self.c,
            2 => self.d,
            3 => self.e,
            4 => self.h,
            5 => self.l,
            6 => self.memory.read(self.get_hl()),
            _ => self.a,
        }
    }

    fn write_r8(&mut self, reg: u8, value: u8)
        requires
            old(self).wf(),
            reg < 8,
        ensures
            final(self).wf(),
            final(self)@ == old(self)@.with_r8(reg as int, value),
    {
        match reg {
            0 => self.b = value,
            1 => self.c = value,
            2 => self.d = value,
            3 => self.e = value,
            4 => self.h = value,
            5 => self.l = value,
            6 => {
                let addr = self.get_hl();
                self.memory.write(addr, value);
            },
            _ => self.a = value,
        }
    }

    fn get_bc(&self) -> (r: u16)
        ensures
            r == self@.bc(),
    {
        self.b as u16 * 256 + self.c as u16
    }

    fn set_bc(&mut self, value: u16)
        ensures
            final(self)@ == old(self)@.with_bc(value),
    {
        self.b = (value / 256) as u8;
        self.c = (value % 256) as u8;
    }

    fn get_de(&self) -> (r: u16)
        ensures
            r == self@.de(),
    {
        self.d as u16 * 256 + self.e as u16
    }

    fn set_de(&mut self, value: u16)
        ensures
            final(self)@ == old(self)@.with_de(value),
    {
        self.d = (value / 256) as u8;
        self.e = (value % 256) as u8;
    }

    fn get_hl(&self) -> (r: u16)
        ensures
            r == self@.hl(),
    {
        self.h as u16 * 256 + self.l as u16
    }

    fn set_hl(&mut self, value: u16)
        ensures
            final(self)@ == old(self)@.with_hl(value),
    {
        self.h = (value / 256) as u8;
        self.l = (value % 256) as u8;
    }

    fn get_rp(&self, p: u8) -> (r: u16)
        requires
            p < 4,
        ensures
            r == self@.rp(p as int),
    {
        match p {
            0 => self.get_bc(),
            1 => self.get_de(),
            2 => self.get_hl(),
            _ => self.sp,
        }
    }

    fn set_rp(&mut self, p: u8, value: u16)
        requires
            p < 4,
        ensures
            final(self)@ == old(self)@.with_rp(p as int, value),
    {
        match p {
            0 => self.set_bc(value),
            1 => self.set_de(value),
            2 => self.set_hl(value),
            _ => self.sp = value,
        }
    }

    fn push_stack(&mut self, value: u16)
        requires
            old(self).wf(),
        ensures
            final(self).wf(),
            final(self)@ == old(self)@.push(value),
    {
        self.sp = self.sp.wrapping_sub(1);
        self.memory.write(self.sp, (value / 256) as u8);
        self.sp = self.sp.wrapping_sub(1);
        self.memory.write(self.sp, (value % 256) as u8);
    }

    fn pop_stack(&mut self) -> (r: u16)
        requires
            old(self).wf(),
        ensures
            r == old(self)@.top(),
            final(self)@ == old(self)@.popped(),
    {
        let low = self.memory.read(self.sp) as u16;
        self.sp = self.sp.wrapping_add(1);
        let high = self.memory.read(self.sp) as u16;
        self.sp = self.sp.wrapping_add(1);
        high * 256 + low
    }

    // ALU operations
    fn alu_inc(&mut self, value: u8) -> (r: u8)
        ensures
            (r, final(self)@.f) == inc8(value, old(self)@.f),
            final(self)@ == old(self)@.with_flags(final(self)@.f),
    {
        let result = value.wrapping_add(1);
        self.f.zero = result == 0;
        self.f.negative = false;
        self.f.half_carry = value % 16 == 15;
        result
    }

    fn alu_dec(&mut self, value: u8) -> (r: u8)
        ensures
            (r, final(self)@.f) == dec8(value, old(self)@.f),
            final(self)@ == old(self)@.with_flags(final(self)@.f),
    {
        let result = value.wrapping_sub(1);
        self.f.zero = result == 0;
        self.f.negative = true;
        self.f.half_carry = value % 16 == 0;
        result
    }

    fn alu_add(&mut self, value: u8)
        ensures
            final(self)@ == old(self)@.with_a_flags(add8(old(self)@.a, value, 0)),
    {
        let sum: u16 = self.a as u16 + value as u16;
        self.f.zero = sum % 256 == 0;
        self.f.negative = false;
        self.f.half_carry = self.a % 16 + value % 16 > 15;
        self.f.carry = sum > 255;
        self.a = (sum % 256) as u8;
    }

    fn alu_adc(&mut self, value: u8)
        ensures
            final(self)@ == old(self)@.with_a_flags(
                add8(old(self)@.a, value, carry_in(old(self)@.f)),
            ),
    {
        let carry: u8 = if self.f.carry { 1 } else { 0 };
        let sum: u16 = self.a as u16 + value as u16 + carry as u16;
        self.f.zero = sum % 256 == 0;
        self.f.negative = false;
        self.f.half_carry = self.a % 16 + value % 16 + carry > 15;
        self.f.carry = sum > 255;
        self.a = (sum % 256) as u8;
    }

    fn alu_sub(&mut self, value: u8)
        ensures
            final(self)@ == old(self)@.with_a_flags(sub8(old(self)@.a, value, 0)),
    {
        let a = self.a;
        let result = a.wrapping_sub(value);
        self.f.zero = result == 0;
        self.f.negative = true;
        self.f.half_carry = a % 16 < value % 16;
        self.f.carry = a < value;
        self.a = result;
    }

    fn alu_sbc(&mut self, value: u8)
        ensures
            final(self)@ == old(self)@.with_a_flags(
                sub8(old(self)@.a, value, carry_in(old(self)@.f)),
            ),
    {
        let a = self.a;
        let carry: u8 = if self.f.carry { 1 } else { 0 };
        let result: u8 = ((a as u16 + 512 - value as u16 - carry as u16) % 256) as u8;
        self.f.zero = result == 0;
        self.f.negative = true;
        self.f.half_carry = a % 16 < value % 16 + carry;
        self.f.carry = (a as u16) < value as u16 + carry as u16;
        self.a = result;
    }

    fn alu_and(&mut self, value: u8)
        ensures
            final(self)@ == old(self)@.with_a_flags(alu8(4, old(self)@.a, value, old(self)@.f)),
    {
        self.a = self.a & value;
        self.f.zero = self.a == 0;
        self.f.negative = false;
        self.f.half_carry = true;
        self.f.carry = false;
    }

    fn alu_or(&mut self, value: u8)
        ensures
            final(self)@ == old(self)@.with_a_flags(alu8(6, old(self)@.a, value, old(self)@.f)),
    {
        self.a = self.a | value;
        self.f.zero = self.a == 0;
        self.f.negative = false;
        self.f.half_carry = false;
        self.f.carry = false;
    }

    fn alu_xor(&mut self, value: u8)
        ensures
            final(self)@ == old(self)@.with_a_flags(alu8(5, old(self)@.a, value, old(self)@.f)),
    {
        self.a = self.a ^ value;
        self.f.zero = self.a == 0;
        self.f.negative = false;
        self.f.half_carry = false;
        self.f.carry = false;
    }

    fn alu_cp(&mut self, value: u8)
        ensures
            final(self)@ == old(self)@.with_flags(sub8(old(self)@.a, value, 0).1),
    {
        let a = self.a;
        let result = a.wrapping_sub(value);
        self.f.zero = result == 0;
        self.f.negative = true;
        self.f.half_carry = a % 16 < value % 16;
        self.f.carry = a < value;
    }

    /// The accumulator operation selected by `op` (ADD, ADC, SUB, SBC, AND, XOR, OR, CP).
    fn alu_op(&mut self, op: u8, value: u8)
        requires
            op < 8,
        ensures
            final(self)@ == old(self)@.with_a_flags(alu8(op as int, old(self)@.a, value, old(self)@.f)),
    {
        match op {
            0 => self.alu_add(value),
            1 => self.alu_adc(value),
            2 => self.alu_sub(value),
            3 => self.alu_sbc(value),
            4 => self.alu_and(value),
            5 => self.alu_xor(value),
            6 => self.alu_or(value),
            _ => self.alu_cp(value),
        }
    }

    fn alu_add_hl(&mut self, hl: u16, value: u16) -> (r: u16)
        ensures
            (r, final(self)@.f) == add16(hl, value, old(self)@.f),
            final(self)@ == old(self)@.with_flags(final(self)@.f),
    {
        let sum: u32 = hl as u32 + value as u32;
        self.f.negative = false;
        self.f.half_carry = hl % 0x1000 + value % 0x1000 > 0xFFF;
        self.f.carry = sum > 0xFFFF;
        (sum % 0x10000) as u16
    }

    fn alu_daa(&mut self)
        ensures
            final(self)@ == old(self)@.with_a_flags(daa(old(self)@.a, old(self)@.f)),
    {
        let a = self.a;
        let mut adjust: u8 = 0;
        if self.f.half_carry || (!self.f.negative && a % 16 > 9) {
            adjust = adjust + 0x06;
        }
        if self.f.carry || (!self.f.negative && a > 0x99) {
            adjust = adjust + 0x60;
            self.f.carry = true;
        }
        if self.f.negative {
            self.a = a.wrapping_sub(adjust);
        } else {
            self.a = a.wrapping_add(adjust);
        }
        self.f.zero = self.a == 0;
        self.f.half_carry = false;
    }
}


/// Flags of ADD SP,r8 and LD HL,SP+r8: unsigned carries out of bits 3 and 7 of
/// the low byte sum.
pub open spec fn sp_offset_flags(sp: u16, off: u8) -> FlagsRegister {
    FlagsRegister {
        zero: false,
        negative: false,
        half_carry: sp % 16 + off % 16 > 15,
        carry: sp % 256 + off > 255,
    }
}

impl CpuView {
    pub open spec fn write_word(self, addr: u16, v: u16) -> CpuView {
        CpuView { mem: self.mem.write_word(addr, v), ..self }
    }

    /// PC moved by a signed offset.
    pub open spec fn relative(self, off: u8) -> CpuView {
        CpuView { pc: wrap16(self.pc + sign_extend(off)), ..self }
    }

    /// CB-prefixed instruction `op`, with PC already past both opcode bytes.
    pub open spec fn execute_cb_spec(self, op: u8) -> (CpuView, u8) {
        let x = op / 64;
        let y = (op / 8) % 8;
        let z = (op % 8) as int;
        let v = self.r8(z);
        if x == 0 {
            let (r, f) = shift8(y as int, v, self.f);
            (self.with_flags(f).with_r8(z, r), if z == 6 { 16 } else { 8 })
        } else if x == 1 {
            (self.with_flags(bit_flags(y, v, self.f)), if z == 6 { 12 } else { 8 })
        } else if x == 2 {
            (self.with_r8(z, res_bit(y, v)), if z == 6 { 16 } else { 8 })
        } else {
            (self.with_r8(z, set_bit(y, v)), if z == 6 { 16 } else { 8 })
        }
    }

    /// NOP, LD (a16),SP, STOP, JR r8 and JR cc,r8 (`z` = 0).
    pub open spec fn misc_jump_spec(self, y: int) -> (CpuView, u8) {
        if y == 0 {
            (self, 4)
        } else if y == 1 {
            (self.advance(2).write_word(self.imm16(), self.sp), 20)
        } else if y == 2 {
            (self.advance(1), 4)
        } else if y == 3 {
            (self.advance(1).relative(self.imm8()), 12)
        } else if self.condition(y - 4) {
            (self.advance(1).relative(self.imm8()), 12)
        } else {
            (self.advance(1), 8)
        }
    }

    /// LD rr,d16 and ADD HL,rr (`z` = 1).
    pub open spec fn load16_add_hl_spec(self, y: int) -> (CpuView, u8) {
        let p = y / 2;
        if y % 2 == 0 {
            (self.advance(2).with_rp(p, self.imm16()), 12)
        } else {
            let (r, f) = add16(self.hl(), self.rp(p), self.f);
            (self.with_flags(f).with_hl(r), 8)
        }
    }

    /// LD (BC),A, LD (DE),A, LD (HL+),A, LD (HL-),A and the loads back into A (`z` = 2).
    pub open spec fn indirect_a_spec(self, y: int) -> (CpuView, u8) {
        let p = y / 2;
        let addr = if p == 0 {
            self.bc()
        } else if p == 1 {
            self.de()
        } else {
            self.hl()
        };
        let s1 = if p == 2 {
            self.with_hl(wrap16(self.hl() + 1))
        } else if p == 3 {
            self.with_hl(wrap16(self.hl() + 0xFFFF))
        } else {
            self
        };
        if y % 2 == 0 {
            (s1.write(addr, self.a), 8)
        } else {
            (CpuView { a: self.mem.read(addr), ..s1 }, 8)
        }
    }

    /// INC rr and DEC rr (`z` = 3); no flags change.
    pub open spec fn inc_dec16_spec(self, y: int) -> (CpuView, u8) {
        let p = y / 2;
        if y % 2 == 0 {
            (self.with_rp(p, wrap16(self.rp(p) + 1)), 8)
        } else {
            (self.with_rp(p, wrap16(self.rp(p) + 0xFFFF)), 8)
        }
    }

    /// INC r (`z` = 4), DEC r (`z` = 5) and LD r,d8 (`z` = 6).
    pub open spec fn r8_ops_spec(self, y: int, z: int) -> (CpuView, u8) {
        if z == 4 {
            let (r, f) = inc8(self.r8(y), self.f);
            (self.with_flags(f).with_r8(y, r), if y == 6 { 12 } else { 4 })
        } else if z == 5 {
            let (r, f) = dec8(self.r8(y), self.f);
            (self.with_flags(f).with_r8(y, r), if y == 6 { 12 } else { 4 })
        } else {
            (self.advance(1).with_r8(y, self.imm8()), if y == 6 { 12 } else { 8 })
        }
    }

    /// RLCA, RRCA, RLA, RRA, DAA, CPL, SCF, CCF (`z` = 7).
    pub open spec fn accumulator_misc_spec(self, y: int) -> (CpuView, u8) {
        if y < 4 {
            (self.with_a_flags(rotate_a(y, self.a, self.f)), 4)
        } else if y == 4 {
            (self.with_a_flags(daa(self.a, self.f)), 4)
        } else if y == 5 {
            (
                CpuView {
                    a: !self.a,
                    f: FlagsRegister { negative: true, half_carry: true, ..self.f },
                    ..self
                },
                4,
            )
        } else if y == 6 {
            (
                self.with_flags(
                    FlagsRegister { negative: false, half_carry: false, carry: true, ..self.f },
                ),
                4,
            )
        } else {
            (
                self.with_flags(
                    FlagsRegister {
                        negative: false,
                        half_carry: false,
                        carry: !self.f.carry,
                        ..self.f
                    },
                ),
                4,
            )
        }
    }

    /// Opcodes 0x00..=0x3F: `y` is bits 5..3, `z` bits 2..0.
    pub open spec fn block0_spec(self, y: int, z: int) -> (CpuView, u8) {
        if z == 0 {
            self.misc_jump_spec(y)
        } else if z == 1 {
            self.load16_add_hl_spec(y)
        } else if z == 2 {
            self.indirect_a_spec(y)
        } else if z == 3 {
            self.inc_dec16_spec(y)
        } else if z <= 6 {
            self.r8_ops_spec(y, z)
        } else {
            self.accumulator_misc_spec(y)
        }
    }

    /// Opcodes 0xC0..=0xFF: `y` is bits 5..3, `z` bits 2..0.
    pub open spec fn block3_spec(self, y: int, z: int) -> (CpuView, u8) {
        let p = y / 2;
        let q = y % 2;
        if z == 0 {
            if y < 4 {
                if self.condition(y) {
                    (self.popped().jump(self.top()), 20)
                } else {
                    (self, 8)
                }
            } else if y == 4 {
                (self.advance(1).write((0xFF00 + self.imm8()) as u16, self.a), 12)
            } else if y == 5 {
                (
                    CpuView {
                        sp: wrap16(self.sp + sign_extend(self.imm8())),
                        ..self.advance(1).with_flags(sp_offset_flags(self.sp, self.imm8()))
                    },
                    16,
                )
            } else if y == 6 {
                (CpuView { a: self.mem.read((0xFF00 + self.imm8()) as u16), ..self.advance(1) }, 12)
            } else {
                (
                    self.advance(1).with_flags(sp_offset_flags(self.sp, self.imm8())).with_hl(
                        wrap16(self.sp + sign_extend(self.imm8())),
                    ),
                    12,
                )
            }
        } else if z == 1 {
            if q == 0 {
                (self.popped().with_rp2(p, self.top()), 12)
            } else if p == 0 {
                (self.popped().jump(self.top()), 16)
            } else if p == 1 {
                (CpuView { ime: true, ..self.popped().jump(self.top()) }, 16)
            } else if p == 2 {
                (self.jump(self.hl()), 4)
            } else {
                (CpuView { sp: self.hl(), ..self }, 8)
            }
        } else if z == 2 {
            if y < 4 {
                if self.condition(y) {
                    (self.advance(2).jump(self.imm16()), 16)
                } else {
                    (self.advance(2), 12)
                }
            } else if y == 4 {
                (self.write((0xFF00 + self.c) as u16, self.a), 8)
            } else if y == 5 {
                (self.advance(2).write(self.imm16(), self.a), 16)
            } else if y == 6 {
                (CpuView { a: self.mem.read((0xFF00 + self.c) as u16), ..self }, 8)
            } else {
                (CpuView { a: self.mem.read(self.imm16()), ..self.advance(2) }, 16)
            }
        } else if z == 3 {
            if y == 0 {
                (self.advance(2).jump(self.imm16()), 16)
            } else if y == 1 {
                self.advance(1).execute_cb_spec(self.imm8())
            } else if y == 6 {
                (CpuView { ime: false, ..self }, 4)
            } else if y == 7 {
                // EI takes effect at once, without the one-instruction delay.
                (CpuView { ime: true, ..self }, 4)
            } else {
                (self, 4)
            }
        } else if z == 4 {
            if y < 4 {
                if self.condition(y) {
                    (self.advance(2).push(self.advance(2).pc).jump(self.imm16()), 24)
                } else {
                    (self.advance(2), 12)
                }
            } else {
                (self, 4)
            }
        } else if z == 5 {
            if q == 0 {
                (self.push(self.rp2(p)), 16)
            } else if p == 0 {
                (self.advance(2).push(self.advance(2).pc).jump(self.imm16()), 24)
            } else {
                (self, 4)
            }
        } else if z == 6 {
            (self.advance(1).with_a_flags(alu8(y, self.a, self.imm8(), self.f)), 8)
        } else {
            (self.push(self.pc).jump((y * 8) as u16), 16)
        }
    }

    /// Unprefixed instruction `op`, with PC already past the opcode byte; the
    /// new state and the T-cycles taken.
    pub open spec fn execute_spec(self, op: u8) -> (CpuView, u8) {
        let x = op / 64;
        let y = ((op / 8) % 8) as int;
        let z = (op % 8) as int;
        if x == 0 {
            self.block0_spec(y, z)
        } else if x == 1 {
            if op == 0x76 {
                // HALT; PC is not held back when an interrupt is already pending.
                (CpuView { halted: true, ..self }, 4)
            } else {
                (self.with_r8(y, self.r8(z)), if y == 6 || z == 6 { 8 } else { 4 })
            }
        } else if x == 2 {
            (self.with_a_flags(alu8(y, self.a, self.r8(z), self.f)), if z == 6 { 8 } else { 4 })
        } else {
            self.block3_spec(y, z)
        }
    }
}

impl CPU {
    fn alu_shift(&mut self, op: u8, value: u8) -> (r: u8)
        requires
            op < 8,
        ensures
            (r, final(self)@.f) == shift8(op as int, value, old(self)@.f),
            final(self)@ == old(self)@.with_flags(final(self)@.f),
    {
        match op {
            0 => self.alu_rlc(value),
            1 => self.alu_rrc(value),
            2 => self.alu_rl(value),
            3 => self.alu_rr(value),
            4 => self.alu_sla(value),
            5 => self.alu_sra(value),
            6 => self.alu_swap(value),
            _ => self.alu_srl(value),
        }
    }

    fn set_shift_flags(&mut self, result: u8, carry: bool)
        ensures
            final(self)@ == old(self)@.with_flags(
                FlagsRegister { zero: result == 0, negative: false, half_carry: false, carry: carry },
            ),
    {
        self.f.zero = result == 0;
        self.f.negative = false;
        self.f.half_carry = false;
        self.f.carry = carry;
    }

    fn alu_rlc(&mut self, value: u8) -> (r: u8)
        ensures
            (r, final(self)@.f) == shift8(0, value, old(self)@.f),
            final(self)@ == old(self)@.with_flags(final(self)@.f),
    {
        let result = ((value as u16 * 2) % 256 + value as u16 / 128) as u8;
        self.set_shift_flags(result, value >= 128);
        result
    }

    fn alu_rrc(&mut self, value: u8) -> (r: u8)
        ensures
            (r, final(self)@.f) == shift8(1, value, old(self)@.f),
            final(self)@ == old(self)@.with_flags(final(self)@.f),
    {
        let result = (value / 2 + (value % 2) * 128) as u8;
        self.set_shift_flags(result, value % 2 == 1);
        result
    }

    fn alu_rl(&mut self, value: u8) -> (r: u8)
        ensures
            (r, final(self)@.f) == shift8(2, value, old(self)@.f),
            final(self)@ == old(self)@.with_flags(final(self)@.f),
    {
        let carry: u16 = if self.f.carry { 1 } else { 0 };
        let result = ((value as u16 * 2) % 256 + carry) as u8;
        self.set_shift_flags(result, value >= 128);
        result
    }

    fn alu_rr(&mut self, value: u8) -> (r: u8)
        ensures
            (r, final(self)@.f) == shift8(3, value, old(self)@.f),
            final(self)@ == old(self)@.with_flags(final(self)@.f),
    {
        let carry: u8 = if self.f.carry { 1 } else { 0 };
        let result = value / 2 + carry * 128;
        self.set_shift_flags(result, value % 2 == 1);
        result
    }

    fn alu_sla(&mut self, value: u8) -> (r: u8)
        ensures
            (r, final(self)@.f) == shift8(4, value, old(self)@.f),
            final(self)@ == old(self)@.with_flags(final(self)@.f),
    {
        let result = ((value as u16 * 2) % 256) as u8;
        self.set_shift_flags(result, value >= 128);
        result
    }

    fn alu_sra(&mut self, value: u8) -> (r: u8)
        ensures
            (r, final(self)@.f) == shift8(5, value, old(self)@.f),
            final(self)@ == old(self)@.with_flags(final(self)@.f),
    {
        let result = value / 2 + (value / 128) * 128;
        self.set_shift_flags(result, value % 2 == 1);
        result
    }

    fn alu_swap(&mut self, value: u8) -> (r: u8)
        ensures
            (r, final(self)@.f) == shift8(6, value, old(self)@.f),
            final(self)@ == old(self)@.with_flags(final(self)@.f),
    {
        let result = (value % 16) * 16 + value / 16;
        self.set_shift_flags(result, false);
        result
    }

    fn alu_srl(&mut self, value: u8) -> (r: u8)
        ensures
            (r, final(self)@.f) == shift8(7, value, old(self)@.f),
            final(self)@ == old(self)@.with_flags(final(self)@.f),
    {
        let result = value / 2;
        self.set_shift_flags(result, value % 2 == 1);
        result
    }

    fn alu_bit(&mut self, bit: u8, value: u8)
        requires
            bit < 8,
        ensures
            final(self)@ == old(self)@.with_flags(bit_flags(bit, value, old(self)@.f)),
    {
        self.f.zero = (value >> bit) & 1 == 0;
        self.f.negative = false;
        self.f.half_carry = true;
    }

    fn execute_cb(&mut self, opcode: u8) -> (r: u8)
        requires
            old(self).wf(),
        ensures
            final(self).wf(),
            (final(self)@, r) == old(self)@.execute_cb_spec(opcode),
    {
        let reg = opcode % 8;
        let bit = (opcode / 8) % 8;
        let value = self.read_r8(reg);
        if opcode < 0x40 {
            let result = self.alu_shift(bit, value);
            self.write_r8(reg, result);
            if reg == 6 { 16 } else { 8 }
        } else if opcode < 0x80 {
            self.alu_bit(bit, value);
            if reg == 6 { 12 } else { 8 }
        } else if opcode < 0xC0 {
            self.write_r8(reg, value & !(1u8 << bit));
            if reg == 6 { 16 } else { 8 }
        } else {
            self.write_r8(reg, value | (1u8 << bit));
            if reg == 6 { 16 } else { 8 }
        }
    }
}


impl CPU {
    /// Adds a signed offset to PC (JR).
    fn jump_relative(&mut self, offset: u8)
        ensures
            final(self)@ == old(self)@.relative(offset),
    {
        let step: u16 = if offset >= 128 { offset as u16 + 0xFF00 } else { offset as u16 };
        self.pc = self.pc.wrapping_add(step);
    }

    /// SP plus a signed offset, with the flags of ADD SP,r8.
    fn sp_plus_offset(&mut self, offset: u8) -> (r: u16)
        ensures
            r == wrap16(old(self)@.sp + sign_extend(offset)),
            final(self)@ == old(self)@.with_flags(sp_offset_flags(old(self)@.sp, offset)),
    {
        let step: u16 = if offset >= 128 { offset as u16 + 0xFF00 } else { offset as u16 };
        self.f.zero = false;
        self.f.negative = false;
        self.f.half_carry = self.sp % 16 + offset as u16 % 16 > 15;
        self.f.carry = self.sp % 256 + offset as u16 > 255;
        self.sp.wrapping_add(step)
    }

    fn condition(&self, cc: u8) -> (r: bool)
        requires
            cc < 4,
        ensures
            r == self@.condition(cc as int),
    {
        match cc {
            0 => !self.f.zero,
            1 => self.f.zero,
            2 => !self.f.carry,
            _ => self.f.carry,
        }
    }

    /// NOP, LD (a16),SP, STOP and the relative jumps.
    fn execute_block0_z0(&mut self, y: u8, z: u8) -> (r: u8)
        requires
            old(self).wf(),
            y < 8,
            z == 0,
        ensures
            final(self).wf(),
            (final(self)@, r) == old(self)@.misc_jump_spec(y as int),
    {
        if y == 0 {
            // NOP
            4
        } else if y == 1 {
            // LD (a16), SP
            let addr = self.fetch_word();
            self.memory.write_word(addr, self.sp);
            20
        } else if y == 2 {
            // STOP takes a padding byte
            self.fetch_byte();
            4
        } else if y == 3 {
            // JR r8
            let offset = self.fetch_byte();
            self.jump_relative(offset);
            12
        } else {
            // JR cc, r8
            let offset = self.fetch_byte();
            if self.condition(y - 4) {
                self.jump_relative(offset);
                12
            } else {
                8
            }
        }
    }

    /// LD rr,d16 and ADD HL,rr.
    fn execute_load16_add_hl(&mut self, y: u8, z: u8) -> (r: u8)
        requires
            old(self).wf(),
            y < 8,
            z == 1,
        ensures
            final(self).wf(),
            (final(self)@, r) == old(self)@.load16_add_hl_spec(y as int),
    {
        let p = y / 2;
        let q = y % 2;
        if q == 0 {
            // LD rr, d16
            let value = self.fetch_word();
            self.set_rp(p, value);
            12
        } else {
            // ADD HL, rr
            let hl = self.get_hl();
            let value = self.get_rp(p);
            let result = self.alu_add_hl(hl, value);
            self.set_hl(result);
            8
        }
    }

    /// Loads between A and (BC), (DE), (HL+), (HL-).
    fn execute_indirect_a(&mut self, y: u8, z: u8) -> (r: u8)
        requires
            old(self).wf(),
            y < 8,
            z == 2,
        ensures
            final(self).wf(),
            (final(self)@, r) == old(self)@.indirect_a_spec(y as int),
    {
        let p = y / 2;
        let q = y % 2;
        // LD (BC)/(DE)/(HL+)/(HL-), A and the loads back into A
        let addr = if p == 0 {
            self.get_bc()
        } else if p == 1 {
            self.get_de()
        } else {
            self.get_hl()
        };
        if p == 2 {
            self.set_hl(addr.wrapping_add(1));
        } else if p == 3 {
            self.set_hl(addr.wrapping_sub(1));
        }
        if q == 0 {
            self.memory.write(addr, self.a);
        } else {
            self.a = self.memory.read(addr);
        }
        8
    }

    /// INC rr and DEC rr.
    fn execute_inc_dec16(&mut self, y: u8, z: u8) -> (r: u8)
        requires
            old(self).wf(),
            y < 8,
            z == 3,
        ensures
            final(self).wf(),
            (final(self)@, r) == old(self)@.inc_dec16_spec(y as int),
    {
        let p = y / 2;
        let q = y % 2;
        // INC rr / DEC rr
        let value = self.get_rp(p);
        if q == 0 {
            self.set_rp(p, value.wrapping_add(1));
        } else {
            self.set_rp(p, value.wrapping_sub(1));
        }
        8
    }

    fn execute_block0_pairs(&mut self, y: u8, z: u8) -> (r: u8)
        requires
            old(self).wf(),
            y < 8,
            1 <= z <= 3,
        ensures
            final(self).wf(),
            (final(self)@, r) == old(self)@.block0_spec(y as int, z as int),
    {
        if z == 1 {
            self.execute_load16_add_hl(y, z)
        } else if z == 2 {
            self.execute_indirect_a(y, z)
        } else {
            self.execute_inc_dec16(y, z)
        }
    }

    /// INC r, DEC r and LD r,d8.
    fn execute_block0_r8(&mut self, y: u8, z: u8) -> (r: u8)
        requires
            old(self).wf(),
            y < 8,
            4 <= z <= 6,
        ensures
            final(self).wf(),
            (final(self)@, r) == old(self)@.r8_ops_spec(y as int, z as int),
    {
        if z == 4 {
            // INC r
            let value = self.read_r8(y);
            let result = self.alu_inc(value);
            self.write_r8(y, result);
            if y == 6 { 12 } else { 4 }
        } else if z == 5 {
            // DEC r
            let value = self.read_r8(y);
            let result = self.alu_dec(value);
            self.write_r8(y, result);
            if y == 6 { 12 } else { 4 }
        } else {
            // LD r, d8
            let value = self.fetch_byte();
            self.write_r8(y, value);
            if y == 6 { 12 } else { 8 }
        }
    }

    /// Rotates of A, DAA, CPL, SCF, CCF.
    fn execute_block0_z7(&mut self, y: u8, z: u8) -> (r: u8)
        requires
            old(self).wf(),
            y < 8,
            z == 7,
        ensures
            final(self).wf(),
            (final(self)@, r) == old(self)@.accumulator_misc_spec(y as int),
    {
        if y < 4 {
            // RLCA, RRCA, RLA, RRA
            let result = self.alu_shift(y, self.a);
            self.a = result;
            self.f.zero = false;
            4
        } else if y == 4 {
            self.alu_daa();
            4
        } else if y == 5 {
            // CPL
            self.a = !self.a;
            self.f.negative = true;
            self.f.half_carry = true;
            4
        } else if y == 6 {
            // SCF
            self.f.negative = false;
            self.f.half_carry = false;
            self.f.carry = true;
            4
        } else {
            // CCF
            self.f.negative = false;
            self.f.half_carry = false;
            self.f.carry = !self.f.carry;
            4
        }
    }

    fn execute_block0(&mut self, y: u8, z: u8) -> (r: u8)
        requires
            old(self).wf(),
            y < 8,
            z < 8,
        ensures
            final(self).wf(),
            (final(self)@, r) == old(self)@.block0_spec(y as int, z as int),
    {
        if z == 0 {
            self.execute_block0_z0(y, z)
        } else if z <= 3 {
            self.execute_block0_pairs(y, z)
        } else if z <= 6 {
            self.execute_block0_r8(y, z)
        } else {
            self.execute_block0_z7(y, z)
        }
    }

    fn execute_block3(&mut self, y: u8, z: u8) -> (r: u8)
        requires
            old(self).wf(),
            y < 8,
            z < 8,
        ensures
            final(self).wf(),
            (final(self)@, r) == old(self)@.block3_spec(y as int, z as int),
    {
        let p = y / 2;
        let q = y % 2;
        if z == 0 {
            if y < 4 {
                // RET cc
                if self.condition(y) {
                    self.pc = self.pop_stack();
                    20
                } else {
                    8
                }
            } else if y == 4 {
                // LDH (a8), A
                let offset = self.fetch_byte() as u16;
                self.memory.write(0xFF00 + offset, self.a);
                12
            } else if y == 5 {
                // ADD SP, r8
                let offset = self.fetch_byte();
                self.sp = self.sp_plus_offset(offset);
                16
            } else if y == 6 {
                // LDH A, (a8)
                let offset = self.fetch_byte() as u16;
                self.a = self.memory.read(0xFF00 + offset);
                12
            } else {
                // LD HL, SP+r8
                let offset = self.fetch_byte();
                let value = self.sp_plus_offset(offset);
                self.set_hl(value);
                12
            }
        } else if z == 1 {
            if q == 0 {
                // POP rr
                let value = self.pop_stack();
                if p == 3 {
                    self.a = (value / 256) as u8;
                    self.f = FlagsRegister::from_byte((value % 256) as u8);
                } else {
                    self.set_rp(p, value);
                }
                12
            } else if p == 0 {
                // RET
                self.pc = self.pop_stack();
                16
            } else if p == 1 {
                // RETI
                self.pc = self.pop_stack();
                self.ime = true;
                16
            } else if p == 2 {
                // JP (HL)
                self.pc = self.get_hl();
                4
            } else {
                // LD SP, HL
                self.sp = self.get_hl();
                8
            }
        } else if z == 2 {
            if y < 4 {
                // JP cc, a16
                let addr = self.fetch_word();
                if self.condition(y) {
                    self.pc = addr;
                    16
                } else {
                    12
                }
            } else if y == 4 {
                // LD (C), A
                self.memory.write(0xFF00 + self.c as u16, self.a);
                8
            } else if y == 5 {
                // LD (a16), A
                let addr = self.fetch_word();
                self.memory.write(addr, self.a);
                16
            } else if y == 6 {
                // LD A, (C)
                self.a = self.memory.read(0xFF00 + self.c as u16);
                8
            } else {
                // LD A, (a16)
                let addr = self.fetch_word();
                self.a = self.memory.read(addr);
                16
            }
        } else if z == 3 {
            if y == 0 {
                // JP a16
                self.pc = self.fetch_word();
                16
            } else if y == 1 {
                let cb_op = self.fetch_byte();
                self.execute_cb(cb_op)
            } else if y == 6 {
                // DI
                self.ime = false;
                4
            } else if y == 7 {
                // EI
                self.ime = true;
                4
            } else {
                // 0xD3, 0xDB, 0xE3, 0xEB: no instruction
                4
            }
        } else if z == 4 {
            if y < 4 {
                // CALL cc, a16
                let addr = self.fetch_word();
                if self.condition(y) {
                    self.push_stack(self.pc);
                    self.pc = addr;
                    24
                } else {
                    12
                }
            } else {
                // 0xE4, 0xEC, 0xF4, 0xFC: no instruction
                4
            }
        } else if z == 5 {
            if q == 0 {
                // PUSH rr
                let value = if p == 3 {
                    self.a as u16 * 256 + self.f.to_byte() as u16
                } else {
                    self.get_rp(p)
                };
                self.push_stack(value);
                16
            } else if p == 0 {
                // CALL a16
                let addr = self.fetch_word();
                self.push_stack(self.pc);
                self.pc = addr;
                24
            } else {
                // 0xDD, 0xED, 0xFD: no instruction
                4
            }
        } else if z == 6 {
            // ALU A, d8
            let value = self.fetch_byte();
            self.alu_op(y, value);
            8
        } else {
            // RST
            self.push_stack(self.pc);
            self.pc = y as u16 * 8;
            16
        }
    }

    /// Executes unprefixed opcode `opcode` (already fetched) and returns its T-cycles.
    fn execute(&mut self, opcode: u8) -> (r: u8)
        requires
            old(self).wf(),
        ensures
            final(self).wf(),
            (final(self)@, r) == old(self)@.execute_spec(opcode),
    {
        let y = (opcode / 8) % 8;
        let z = opcode % 8;
        if opcode < 0x40 {
            self.execute_block0(y, z)
        } else if opcode < 0x80 {
            if opcode == 0x76 {
                // HALT
                self.halted = true;
                4
            } else {
                // LD r, r'
                let value = self.read_r8(z);
                self.write_r8(y, value);
                if y == 6 || z == 6 { 8 } else { 4 }
            }
        } else if opcode < 0xC0 {
            // ALU A, r
            let value = self.read_r8(z);
            self.alu_op(y, value);
            if z == 6 { 8 } else { 4 }
        } else {
            self.execute_block3(y, z)
        }
    }
}


/// Index of the lowest set bit among bits 0..4 (VBlank first, Joypad last).
pub open spec fn lowest_pending(p: u8) -> u8 {
    if p & 0x01 != 0 {
        0
    } else if p & 0x02 != 0 {
        1
    } else if p & 0x04 != 0 {
        2
    } else if p & 0x08 != 0 {
        3
    } else {
        4
    }
}

/// Handler address of interrupt source `bit`: 0x40, 0x48, 0x50, 0x58, 0x60.
pub open spec fn interrupt_vector(bit: u8) -> u16 {
    (0x40 + 8 * bit) as u16
}

impl CpuView {
    /// Interrupts both requested (IF) and enabled (IE).
    pub open spec fn pending(self) -> u8 {
        self.mem.ie & self.mem.read(0xFF0F) & 0x1F
    }

    /// Interrupt check at the start of a step: any pending interrupt ends HALT;
    /// with IME set the lowest pending one is serviced in 20 T-cycles.
    pub open spec fn dispatch_spec(self) -> (CpuView, u8) {
        let pending = self.pending();
        if pending == 0 {
            (self, 0)
        } else if !self.ime {
            (CpuView { halted: false, ..self }, 0)
        } else {
            let bit = lowest_pending(pending);
            let s1 = CpuView { halted: false, ime: false, ..self }.write(
                0xFF0F,
                self.mem.read(0xFF0F) & !(1u8 << bit),
            );
            (s1.push(self.pc).jump(interrupt_vector(bit)), 20)
        }
    }

    /// One `step`: interrupt service, or 4 idle cycles while halted, or one
    /// fetched instruction; then the timers and the clock advance by its cycles.
    pub open spec fn step_spec(self) -> (CpuView, u8) {
        let (s1, c1) = self.dispatch_spec();
        let (s2, cycles) = if c1 > 0 {
            (s1, c1)
        } else if s1.halted {
            (s1, 4u8)
        } else {
            s1.advance(1).execute_spec(s1.imm8())
        };
        (
            CpuView {
                mem: s2.mem.ticked(cycles),
                ticks: s2.ticks.wrapping_add(cycles as u128),
                ..s2
            },
            cycles,
        )
    }
}

impl CPU {
    /// Services a pending interrupt if any; returns the cycles spent (20 or 0).
    fn handle_interrupts(&mut self) -> (r: u8)
        requires
            old(self).wf(),
        ensures
            final(self).wf(),
            (final(self)@, r) == old(self)@.dispatch_spec(),
    {
        let ie = self.memory.read(0xFFFF);
        let if_reg = self.memory.read(0xFF0F);
        let pending = ie & if_reg & 0x1F;
        if pending == 0 {
            return 0;
        }
        // A pending interrupt ends HALT even while IME is off.
        self.halted = false;
        if !self.ime {
            return 0;
        }
        self.ime = false;
        let bit: u8 = if pending & 0x01 != 0 {
            0
        } else if pending & 0x02 != 0 {
            1
        } else if pending & 0x04 != 0 {
            2
        } else if pending & 0x08 != 0 {
            3
        } else {
            4
        };
        self.memory.write(0xFF0F, if_reg & !(1u8 << bit));
        self.push_stack(self.pc);
        self.pc = 0x40 + 8 * bit as u16;
        20
    }

    /// Runs one step of the machine and returns the T-cycles it took.
    pub fn step(&mut self) -> (r: u8)
        requires
            old(self).wf(),
        ensures
            final(self).wf(),
            (final(self)@, r) == old(self)@.step_spec(),
    {
        let interrupt_cycles = self.handle_interrupts();
        let cycles = if interrupt_cycles > 0 {
            interrupt_cycles
        } else if self.halted {
            4
        } else {
            let opcode = self.fetch_byte();
            self.execute(opcode)
        };
        self.memory.update_timers(cycles);
        self.clock.tick(cycles);
        cycles
    }

    pub fn get_pc(&self) -> (r: u16)
        ensures
            r == self@.pc,
    {
        self.pc
    }

    pub fn get_ticks(&self) -> (r: u128)
        ensures
            r == self@.ticks,
    {
        self.clock.get_ticks()
    }

    pub fn get_memory(&self) -> (r: &Memory)
        ensures
            r@ == self@.mem,
    {
        &self.memory
    }

    pub fn get_memory_mut(&mut self) -> (r: &mut Memory)
        ensures
            r@ == old(self)@.mem,
            final(self)@ == (CpuView { mem: final(r)@, ..old(self)@ }),
    {
        &mut self.memory
    }
}


impl CPU {
    pub fn get_a(&self) -> (r: u8)
        ensures
            r == self@.a,
    {
        self.a
    }

    pub fn get_b(&self) -> (r: u8)
        ensures
            r == self@.b,
    {
        self.b
    }

    pub fn get_c(&self) -> (r: u8)
        ensures
            r == self@.c,
    {
        self.c
    }

    pub fn get_d(&self) -> (r: u8)
        ensures
            r == self@.d,
    {
        self.d
    }

    pub fn get_e(&self) -> (r: u8)
        ensures
            r == self@.e,
    {
        self.e
    }

    pub fn get_h(&self) -> (r: u8)
        ensures
            r == self@.h,
    {
        self.h
    }

    pub fn get_l(&self) -> (r: u8)
        ensures
            r == self@.l,
    {
        self.l
    }

    pub fn get_f(&self) -> (r: FlagsRegister)
        ensures
            r == self@.f,
    {
        self.f
    }

    pub fn get_sp(&self) -> (r: u16)
        ensures
            r == self@.sp,
    {
        self.sp
    }

    pub fn is_halted(&self) -> (r: bool)
        ensures
            r == self@.halted,
    {
        self.halted
    }

    pub fn get_ime(&self) -> (r: bool)
        ensures
            r == self@.ime,
    {
        self.ime
    }
}


/// Documented T-cycles of unprefixed opcode `op` (other than the 0xCB prefix),
/// by instruction group; `taken` selects the count of a conditional branch.
pub open spec fn documented_cycles(op: u8, taken: bool) -> u8 {
    let y = (op / 8) % 8;
    let z = op % 8;
    if 0x40 <= op < 0x80 {
        // LD r,r' (8 with (HL)), HALT
        if op != 0x76 && (y == 6 || z == 6) { 8 } else { 4 }
    } else if 0x80 <= op < 0xC0 {
        // ALU A,r (8 with (HL))
        if z == 6 { 8 } else { 4 }
    } else if op == 0x08 {
        20
    } else if op == 0x18 {
        12
    } else if op == 0x20 || op == 0x28 || op == 0x30 || op == 0x38 {
        // JR cc
        if taken { 12 } else { 8 }
    } else if op < 0x40 && z == 1 {
        // LD rr,d16 / ADD HL,rr
        if y % 2 == 0 { 12 } else { 8 }
    } else if op < 0x40 && (z == 2 || z == 3) {
        8
    } else if op < 0x40 && (z == 4 || z == 5) {
        // INC/DEC r, 12 on (HL)
        if y == 6 { 12 } else { 4 }
    } else if op < 0x40 && z == 6 {
        // LD r,d8, 12 for LD (HL),d8
        if y == 6 { 12 } else { 8 }
    } else if op < 0x40 {
        4
    } else if op == 0xC0 || op == 0xC8 || op == 0xD0 || op == 0xD8 {
        // RET cc
        if taken { 20 } else { 8 }
    } else if op == 0xC2 || op == 0xCA || op == 0xD2 || op == 0xDA {
        // JP cc,a16
        if taken { 16 } else { 12 }
    } else if op == 0xC4 || op == 0xCC || op == 0xD4 || op == 0xDC {
        // CALL cc,a16
        if taken { 24 } else { 12 }
    } else if op == 0xCD {
        24
    } else if op == 0xC3 || op == 0xC9 || op == 0xD9 || op == 0xE8 || op == 0xEA || op == 0xFA {
        16
    } else if z == 5 && y % 2 == 0 {
        // PUSH
        16
    } else if z == 7 {
        // RST
        16
    } else if z == 1 && y % 2 == 0 {
        // POP
        12
    } else if op == 0xE0 || op == 0xF0 || op == 0xF8 {
        12
    } else if z == 6 || op == 0xE2 || op == 0xF2 || op == 0xF9 {
        // ALU A,d8; LD (C),A; LD A,(C); LD SP,HL
        8
    } else {
        // JP (HL), DI, EI and the unused opcodes
        4
    }
}

/// Whether the conditional branch `op` (JR/RET/JP/CALL cc) would be taken in `s`.
pub open spec fn branch_taken(s: CpuView, op: u8) -> bool {
    let cc = ((op / 8) % 8) as int;
    if op < 0x40 {
        s.condition(cc - 4)
    } else {
        s.condition(cc)
    }
}

/// Documented T-cycles of CB-prefixed opcode `op`: 8 on a register, 16 on
/// (HL), 12 for BIT b,(HL).
pub open spec fn documented_cb_cycles(op: u8) -> u8 {
    if op % 8 != 6 {
        8
    } else if 0x40 <= op < 0x80 {
        12
    } else {
        16
    }
}

proof fn lemma_block0_cycles(s: CpuView, op: u8)
    requires
        op < 0x40,
    ensures
        s.execute_spec(op).1 == documented_cycles(op, branch_taken(s, op)),
{
    let y = ((op / 8) % 8) as int;
    let z = (op % 8) as int;
    assert(s.execute_spec(op) == s.block0_spec(y, z));
    if z == 0 {
        assert(s.block0_spec(y, z) == s.misc_jump_spec(y));
    } else if z == 1 {
        assert(s.block0_spec(y, z) == s.load16_add_hl_spec(y));
    } else if z == 2 {
        assert(s.block0_spec(y, z) == s.indirect_a_spec(y));
    } else if z == 3 {
        assert(s.block0_spec(y, z) == s.inc_dec16_spec(y));
    } else if z <= 6 {
        assert(s.block0_spec(y, z) == s.r8_ops_spec(y, z));
    } else {
        assert(s.block0_spec(y, z) == s.accumulator_misc_spec(y));
    }
}

#[verifier::rlimit(40)]
proof fn lemma_block3_cycles(s: CpuView, op: u8)
    requires
        op >= 0xC0,
        op != 0xCB,
    ensures
        s.execute_spec(op).1 == documented_cycles(op, branch_taken(s, op)),
{
    let y = ((op / 8) % 8) as int;
    let z = (op % 8) as int;
    assert(s.execute_spec(op) == s.block3_spec(y, z));
    if z == 0 {
    } else if z == 1 {
    } else if z == 2 {
    } else if z == 3 {
    } else if z == 4 {
    } else if z == 5 {
    } else if z == 6 {
    } else {
    }
}

/// Every unprefixed instruction takes its documented cycle count.
pub proof fn lemma_execute_cycles(s: CpuView, op: u8)
    requires
        op != 0xCB,
    ensures
        s.execute_spec(op).1 == documented_cycles(op, branch_taken(s, op)),
{
    if op < 0x40 {
        lemma_block0_cycles(s, op);
    } else if op >= 0xC0 {
        lemma_block3_cycles(s, op);
    }
}

/// A step that fetches an instruction returns its documented cycle count: the
/// table's count for an unprefixed opcode, the CB table's count after 0xCB.
pub proof fn lemma_step_cycles(s: CpuView)
    requires
        s.pending() == 0,
        !s.halted,
    ensures
        s.imm8() != 0xCB ==> s.step_spec().1 == documented_cycles(
            s.imm8(),
            branch_taken(s.advance(1), s.imm8()),
        ),
        s.imm8() == 0xCB ==> s.step_spec().1 == documented_cb_cycles(s.advance(1).imm8()),
{
    if s.imm8() != 0xCB {
        lemma_execute_cycles(s.advance(1), s.imm8());
    }
}

/// Servicing an interrupt clears IME, lowers SP by 2, jumps to the source's
/// vector and takes 20 cycles; the serviced IF bit is then clear, unless the
/// return address itself was pushed onto the IF register.
pub proof fn lemma_interrupt_dispatch(s: CpuView)
    requires
        s.mem.wf(),
        s.ime,
        s.pending() != 0,
    ensures
        !s.step_spec().0.ime,
        s.step_spec().1 == 20,
        s.step_spec().0.sp == wrap16(s.sp + 0xFFFE),
        s.step_spec().0.pc == interrupt_vector(lowest_pending(s.pending())),
        wrap16(s.sp + 0xFFFF) != 0xFF0F && wrap16(s.sp + 0xFFFE) != 0xFF0F ==> s.dispatch_spec().0.mem.read(
            0xFF0F,
        ) & (1u8 << lowest_pending(s.pending())) == 0,
{
    let bit = lowest_pending(s.pending());
    let r = s.mem.read(0xFF0F);
    assert((r & !(1u8 << bit)) & (1u8 << bit) == 0) by (bit_vector);
}

} // verus!
