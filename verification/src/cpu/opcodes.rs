//! The unprefixed opcodes: loads, arithmetic, logic, rotates on A, and
//! control flow.  Each function states the instruction's exact effect on
//! the registers, flags, program counter, bus and m-cycle cost; decoders
//! hand it the opcode byte where a register field must be resolved.

use vstd::prelude::*;
use crate::cpu::Cpu;
use crate::CoreError;
use crate::cpu::add_val;
use crate::cpu::add_flags;
use crate::cpu::sub_val;
use crate::cpu::sub_flags;
use crate::cpu::logic_flags;
use crate::mmu::Mmu;
use crate::register::CpuRegisters;
use crate::register::FlagRegister;
use crate::register::Register16;
use crate::register::Register8;
use crate::register::RegisterAF;
use crate::register::is_r8_code;
use crate::util::wrap_add8;
use crate::util::wrap_sub8;
use crate::util::wrap_add16;
use crate::util::wrap_sub16;

verus! {

impl Cpu {
    /// Reads the operand byte after the opcode.
    fn fetch_imm8(&self) -> (r: u8)
        requires
            self.wf(),
        ensures
            r == self.imm8(),
    {
        self.mmu.read(self.registers.pc.read().wrapping_add(1))
    }

    /// Reads the operand word after the opcode, low byte first.
    fn fetch_imm16(&self) -> (r: u16)
        requires
            self.wf(),
        ensures
            r == self.imm16(),
    {
        let low = self.mmu.read(self.registers.pc.read().wrapping_add(1));
        let high = self.mmu.read(self.registers.pc.read().wrapping_add(2));
        (high as u16) * 256 + low as u16
    }

    /// Adds to the accumulator, from the register named by the opcode's low three bits.
    pub fn add_a_r8(&mut self, opcode: u8)
        requires
            old(self).wf(),
            old(self).delay == 0,
            is_r8_code(opcode % 8),
        ensures
            final(self).wf(),
            Cpu::add_a_r8_post(*old(self), *final(self), opcode),
    {
        let arg = self.registers.get_r8(opcode % 8);
        let a = self.registers.af.high.read();
        let v = a.wrapping_add(arg);
        self.registers.af.high.write(v);
        self.registers.af.low = FlagRegister {
            z: v == 0,
            n: false,
            h: a % 16 + arg % 16 >= 0x10,
            c: (a as u16) + (arg as u16) >= 0x100,
        };
        self.registers.pc.add_wrapping(1);
        self.delay = 1;
    }

    /// Adds to the accumulator, from the immediate operand.
    pub fn add_a_u8(&mut self)
        requires
            old(self).wf(),
            old(self).delay == 0,
        ensures
            final(self).wf(),
            Cpu::add_a_u8_post(*old(self), *final(self)),
    {
        let arg = self.fetch_imm8();
        let a = self.registers.af.high.read();
        let v = a.wrapping_add(arg);
        self.registers.af.high.write(v);
        self.registers.af.low = FlagRegister {
            z: v == 0,
            n: false,
            h: a % 16 + arg % 16 >= 0x10,
            c: (a as u16) + (arg as u16) >= 0x100,
        };
        self.registers.pc.add_wrapping(2);
        self.delay = 2;
    }

    /// Adds to the accumulator, from the byte at the address in HL.
    pub fn add_a_ptr_hl(&mut self)
        requires
            old(self).wf(),
            old(self).delay == 0,
        ensures
            final(self).wf(),
            Cpu::add_a_ptr_hl_post(*old(self), *final(self)),
    {
        let arg = self.mmu.read(self.registers.hl.read());
        let a = self.registers.af.high.read();
        let v = a.wrapping_add(arg);
        self.registers.af.high.write(v);
        self.registers.af.low = FlagRegister {
            z: v == 0,
            n: false,
            h: a % 16 + arg % 16 >= 0x10,
            c: (a as u16) + (arg as u16) >= 0x100,
        };
        self.registers.pc.add_wrapping(1);
        self.delay = 2;
    }

    /// Adds with the carry flag to the accumulator, from the register named by the opcode's low three bits.
    pub fn adc_a_r8(&mut self, opcode: u8)
        requires
            old(self).wf(),
            old(self).delay == 0,
            is_r8_code(opcode % 8),
        ensures
            final(self).wf(),
            Cpu::adc_a_r8_post(*old(self), *final(self), opcode),
    {
        let arg = self.registers.get_r8(opcode % 8);
        let a = self.registers.af.high.read();
        let cin: u8 = if self.registers.af.low.c {
            1
        } else {
            0
        };
        let v = a.wrapping_add(arg).wrapping_add(cin);
        self.registers.af.high.write(v);
        self.registers.af.low = FlagRegister {
            z: v == 0,
            n: false,
            h: a % 16 + arg % 16 + cin >= 0x10,
            c: (a as u16) + (arg as u16) + (cin as u16) >= 0x100,
        };
        self.registers.pc.add_wrapping(1);
        self.delay = 1;
    }

    /// Adds with the carry flag to the accumulator, from the immediate operand.
    pub fn adc_a_u8(&mut self)
        requires
            old(self).wf(),
            old(self).delay == 0,
        ensures
            final(self).wf(),
            Cpu::adc_a_u8_post(*old(self), *final(self)),
    {
        let arg = self.fetch_imm8();
        let a = self.registers.af.high.read();
        let cin: u8 = if self.registers.af.low.c {
            1
        } else {
            0
        };
        let v = a.wrapping_add(arg).wrapping_add(cin);
        self.registers.af.high.write(v);
        self.registers.af.low = FlagRegister {
            z: v == 0,
            n: false,
            h: a % 16 + arg % 16 + cin >= 0x10,
            c: (a as u16) + (arg as u16) + (cin as u16) >= 0x100,
        };
        self.registers.pc.add_wrapping(2);
        self.delay = 2;
    }

    /// Adds with the carry flag to the accumulator, from the byte at the address in HL.
    pub fn adc_a_ptr_hl(&mut self)
        requires
            old(self).wf(),
            old(self).delay == 0,
        ensures
            final(self).wf(),
            Cpu::adc_a_ptr_hl_post(*old(self), *final(self)),
    {
        let arg = self.mmu.read(self.registers.hl.read());
        let a = self.registers.af.high.read();
        let cin: u8 = if self.registers.af.low.c {
            1
        } else {
            0
        };
        let v = a.wrapping_add(arg).wrapping_add(cin);
        self.registers.af.high.write(v);
        self.registers.af.low = FlagRegister {
            z: v == 0,
            n: false,
            h: a % 16 + arg % 16 + cin >= 0x10,
            c: (a as u16) + (arg as u16) + (cin as u16) >= 0x100,
        };
        self.registers.pc.add_wrapping(1);
        self.delay = 2;
    }

    /// Subtracts from the accumulator, from the register named by the opcode's low three bits.
    pub fn sub_a_r8(&mut self, opcode: u8)
        requires
            old(self).wf(),
            old(self).delay == 0,
            is_r8_code(opcode % 8),
        ensures
            final(self).wf(),
            Cpu::sub_a_r8_post(*old(self), *final(self), opcode),
    {
        let arg = self.registers.get_r8(opcode % 8);
        let a = self.registers.af.high.read();
        let v = a.wrapping_sub(arg);
        self.registers.af.high.write(v);
        self.registers.af.low = FlagRegister { z: v == 0, n: true, h: a % 16 < arg % 16, c: a < arg };
        self.registers.pc.add_wrapping(1);
        self.delay = 1;
    }

    /// Subtracts from the accumulator, from the immediate operand.
    pub fn sub_a_u8(&mut self)
        requires
            old(self).wf(),
            old(self).delay == 0,
        ensures
            final(self).wf(),
            Cpu::sub_a_u8_post(*old(self), *final(self)),
    {
        let arg = self.fetch_imm8();
        let a = self.registers.af.high.read();
        let v = a.wrapping_sub(arg);
        self.registers.af.high.write(v);
        self.registers.af.low = FlagRegister { z: v == 0, n: true, h: a % 16 < arg % 16, c: a < arg };
        self.registers.pc.add_wrapping(2);
        self.delay = 2;
    }

    /// Subtracts from the accumulator, from the byte at the address in HL.
    pub fn sub_a_ptr_hl(&mut self)
        requires
            old(self).wf(),
            old(self).delay == 0,
        ensures
            final(self).wf(),
            Cpu::sub_a_ptr_hl_post(*old(self), *final(self)),
    {
        let arg = self.mmu.read(self.registers.hl.read());
        let a = self.registers.af.high.read();
        let v = a.wrapping_sub(arg);
        self.registers.af.high.write(v);
        self.registers.af.low = FlagRegister { z: v == 0, n: true, h: a % 16 < arg % 16, c: a < arg };
        self.registers.pc.add_wrapping(1);
        self.delay = 2;
    }

    /// Subtracts with the carry flag from the accumulator, from the register named by the opcode's low three bits.
    pub fn sbc_a_r8(&mut self, opcode: u8)
        requires
            old(self).wf(),
            old(self).delay == 0,
            is_r8_code(opcode % 8),
        ensures
            final(self).wf(),
            Cpu::sbc_a_r8_post(*old(self), *final(self), opcode),
    {
        let arg = self.registers.get_r8(opcode % 8);
        let a = self.registers.af.high.read();
        let cin: u8 = if self.registers.af.low.c {
            1
        } else {
            0
        };
        let v = a.wrapping_sub(arg).wrapping_sub(cin);
        self.registers.af.high.write(v);
        self.registers.af.low = FlagRegister {
            z: v == 0,
            n: true,
            h: ((a % 16) as u16) < (arg % 16) as u16 + cin as u16,
            c: (a as u16) < arg as u16 + cin as u16,
        };
        self.registers.pc.add_wrapping(1);
        self.delay = 1;
    }

    /// Subtracts with the carry flag from the accumulator, from the immediate operand.
    pub fn sbc_a_u8(&mut self)
        requires
            old(self).wf(),
            old(self).delay == 0,
        ensures
            final(self).wf(),
            Cpu::sbc_a_u8_post(*old(self), *final(self)),
    {
        let arg = self.fetch_imm8();
        let a = self.registers.af.high.read();
        let cin: u8 = if self.registers.af.low.c {
            1
        } else {
            0
        };
        let v = a.wrapping_sub(arg).wrapping_sub(cin);
        self.registers.af.high.write(v);
        self.registers.af.low = FlagRegister {
            z: v == 0,
            n: true,
            h: ((a % 16) as u16) < (arg % 16) as u16 + cin as u16,
            c: (a as u16) < arg as u16 + cin as u16,
        };
        self.registers.pc.add_wrapping(2);
        self.delay = 2;
    }

    /// Subtracts with the carry flag from the accumulator, from the byte at the address in HL.
    pub fn sbc_a_ptr_hl(&mut self)
        requires
            old(self).wf(),
            old(self).delay == 0,
        ensures
            final(self).wf(),
            Cpu::sbc_a_ptr_hl_post(*old(self), *final(self)),
    {
        let arg = self.mmu.read(self.registers.hl.read());
        let a = self.registers.af.high.read();
        let cin: u8 = if self.registers.af.low.c {
            1
        } else {
            0
        };
        let v = a.wrapping_sub(arg).wrapping_sub(cin);
        self.registers.af.high.write(v);
        self.registers.af.low = FlagRegister {
            z: v == 0,
            n: true,
            h: ((a % 16) as u16) < (arg % 16) as u16 + cin as u16,
            c: (a as u16) < arg as u16 + cin as u16,
        };
        self.registers.pc.add_wrapping(1);
        self.delay = 2;
    }

    /// Bitwise-ANDs into the accumulator, from the register named by the opcode's low three bits.
    pub fn and_a_r8(&mut self, opcode: u8)
        requires
            old(self).wf(),
            old(self).delay == 0,
            is_r8_code(opcode % 8),
        ensures
            final(self).wf(),
            Cpu::and_a_r8_post(*old(self), *final(self), opcode),
    {
        let arg = self.registers.get_r8(opcode % 8);
        let a = self.registers.af.high.read();
        let v = a & arg;
        self.registers.af.high.write(v);
        self.registers.af.low = FlagRegister { z: v == 0, n: false, h: true, c: false };
        self.registers.pc.add_wrapping(1);
        self.delay = 1;
    }

    /// Bitwise-ANDs into the accumulator, from the immediate operand.
    pub fn and_a_u8(&mut self)
        requires
            old(self).wf(),
            old(self).delay == 0,
        ensures
            final(self).wf(),
            Cpu::and_a_u8_post(*old(self), *final(self)),
    {
        let arg = self.fetch_imm8();
        let a = self.registers.af.high.read();
        let v = a & arg;
        self.registers.af.high.write(v);
        self.registers.af.low = FlagRegister { z: v == 0, n: false, h: true, c: false };
        self.registers.pc.add_wrapping(2);
        self.delay = 2;
    }

    /// Bitwise-ANDs into the accumulator, from the byte at the address in HL.
    pub fn and_a_ptr_hl(&mut self)
        requires
            old(self).wf(),
            old(self).delay == 0,
        ensures
            final(self).wf(),
            Cpu::and_a_ptr_hl_post(*old(self), *final(self)),
    {
        let arg = self.mmu.read(self.registers.hl.read());
        let a = self.registers.af.high.read();
        let v = a & arg;
        self.registers.af.high.write(v);
        self.registers.af.low = FlagRegister { z: v == 0, n: false, h: true, c: false };
        self.registers.pc.add_wrapping(1);
        self.delay = 2;
    }

    /// Bitwise-XORs into the accumulator, from the register named by the opcode's low three bits.
    pub fn xor_a_r8(&mut self, opcode: u8)
        requires
            old(self).wf(),
            old(self).delay == 0,
            is_r8_code(opcode % 8),
        ensures
            final(self).wf(),
            Cpu::xor_a_r8_post(*old(self), *final(self), opcode),
    {
        let arg = self.registers.get_r8(opcode % 8);
        let a = self.registers.af.high.read();
        let v = a ^ arg;
        self.registers.af.high.write(v);
        self.registers.af.low = FlagRegister { z: v == 0, n: false, h: false, c: false };
        self.registers.pc.add_wrapping(1);
        self.delay = 1;
    }

    /// Bitwise-XORs into the accumulator, from the immediate operand.
    pub fn xor_a_u8(&mut self)
        requires
            old(self).wf(),
            old(self).delay == 0,
        ensures
            final(self).wf(),
            Cpu::xor_a_u8_post(*old(self), *final(self)),
    {
        let arg = self.fetch_imm8();
        let a = self.registers.af.high.read();
        let v = a ^ arg;
        self.registers.af.high.write(v);
        self.registers.af.low = FlagRegister { z: v == 0, n: false, h: false, c: false };
        self.registers.pc.add_wrapping(2);
        self.delay = 2;
    }

    /// Bitwise-XORs into the accumulator, from the byte at the address in HL.
    pub fn xor_a_ptr_hl(&mut self)
        requires
            old(self).wf(),
            old(self).delay == 0,
        ensures
            final(self).wf(),
            Cpu::xor_a_ptr_hl_post(*old(self), *final(self)),
    {
        let arg = self.mmu.read(self.registers.hl.read());
        let a = self.registers.af.high.read();
        let v = a ^ arg;
        self.registers.af.high.write(v);
        self.registers.af.low = FlagRegister { z: v == 0, n: false, h: false, c: false };
        self.registers.pc.add_wrapping(1);
        self.delay = 2;
    }

    /// Bitwise-ORs into the accumulator, from the register named by the opcode's low three bits.
    pub fn or_a_r8(&mut self, opcode: u8)
        requires
            old(self).wf(),
            old(self).delay == 0,
            is_r8_code(opcode % 8),
        ensures
            final(self).wf(),
            Cpu::or_a_r8_post(*old(self), *final(self), opcode),
    {
        let arg = self.registers.get_r8(opcode % 8);
        let a = self.registers.af.high.read();
        let v = a | arg;
        self.registers.af.high.write(v);
        self.registers.af.low = FlagRegister { z: v == 0, n: false, h: false, c: false };
        self.registers.pc.add_wrapping(1);
        self.delay = 1;
    }

    /// Bitwise-ORs into the accumulator, from the immediate operand.
    pub fn or_a_u8(&mut self)
        requires
            old(self).wf(),
            old(self).delay == 0,
        ensures
            final(self).wf(),
            Cpu::or_a_u8_post(*old(self), *final(self)),
    {
        let arg = self.fetch_imm8();
        let a = self.registers.af.high.read();
        let v = a | arg;
        self.registers.af.high.write(v);
        self.registers.af.low = FlagRegister { z: v == 0, n: false, h: false, c: false };
        self.registers.pc.add_wrapping(2);
        self.delay = 2;
    }

    /// Bitwise-ORs into the accumulator, from the byte at the address in HL.
    pub fn or_a_ptr_hl(&mut self)
        requires
            old(self).wf(),
            old(self).delay == 0,
        ensures
            final(self).wf(),
            Cpu::or_a_ptr_hl_post(*old(self), *final(self)),
    {
        let arg = self.mmu.read(self.registers.hl.read());
        let a = self.registers.af.high.read();
        let v = a | arg;
        self.registers.af.high.write(v);
        self.registers.af.low = FlagRegister { z: v == 0, n: false, h: false, c: false };
        self.registers.pc.add_wrapping(1);
        self.delay = 2;
    }

    /// Compares against the accumulator, setting only the flags, from the register named by the opcode's low three bits.
    pub fn cp_a_r8(&mut self, opcode: u8)
        requires
            old(self).wf(),
            old(self).delay == 0,
            is_r8_code(opcode % 8),
        ensures
            final(self).wf(),
            Cpu::cp_a_r8_post(*old(self), *final(self), opcode),
    {
        let arg = self.registers.get_r8(opcode % 8);
        let a = self.registers.af.high.read();
        self.registers.af.low = FlagRegister { z: a == arg, n: true, h: a % 16 < arg % 16, c: a < arg };
        self.registers.pc.add_wrapping(1);
        self.delay = 1;
    }

    /// Compares against the accumulator, setting only the flags, from the immediate operand.
    pub fn cp_a_u8(&mut self)
        requires
            old(self).wf(),
            old(self).delay == 0,
        ensures
            final(self).wf(),
            Cpu::cp_a_u8_post(*old(self), *final(self)),
    {
        let arg = self.fetch_imm8();
        let a = self.registers.af.high.read();
        self.registers.af.low = FlagRegister { z: a == arg, n: true, h: a % 16 < arg % 16, c: a < arg };
        self.registers.pc.add_wrapping(2);
        self.delay = 2;
    }

    /// Compares against the accumulator, setting only the flags, from the byte at the address in HL.
    pub fn cp_a_ptr_hl(&mut self)
        requires
            old(self).wf(),
            old(self).delay == 0,
        ensures
            final(self).wf(),
            Cpu::cp_a_ptr_hl_post(*old(self), *final(self)),
    {
        let arg = self.mmu.read(self.registers.hl.read());
        let a = self.registers.af.high.read();
        self.registers.af.low = FlagRegister { z: a == arg, n: true, h: a % 16 < arg % 16, c: a < arg };
        self.registers.pc.add_wrapping(1);
        self.delay = 2;
    }

    /// Loads the immediate word into the `ss`-family register named by
    /// opcode bits 5..4.
    pub fn ld_r16_u16(&mut self, opcode: u8)
        requires
            old(self).wf(),
            old(self).delay == 0,
        ensures
            final(self).wf(),
            Cpu::ld_r16_u16_post(*old(self), *final(self), opcode),
    {
        let arg = self.fetch_imm16();
        self.registers.set_r16(opcode / 16 % 4, arg);
        self.registers.pc.add_wrapping(3);
        self.delay = 3;
    }

    /// Loads the immediate byte into the register named by opcode bits
    /// 5..3.
    pub fn ld_r8_u8(&mut self, opcode: u8)
        requires
            old(self).wf(),
            old(self).delay == 0,
            is_r8_code(opcode / 8 % 8),
        ensures
            final(self).wf(),
            Cpu::ld_r8_u8_post(*old(self), *final(self), opcode),
    {
        let arg = self.fetch_imm8();
        self.registers.set_r8(opcode / 8 % 8, arg);
        self.registers.pc.add_wrapping(2);
        self.delay = 2;
    }

    /// Copies one register into another, source in the low three opcode
    /// bits, destination in bits 5..3.
    pub fn ld_r8_r8(&mut self, opcode: u8)
        requires
            old(self).wf(),
            old(self).delay == 0,
            is_r8_code(opcode / 8 % 8),
            is_r8_code(opcode % 8),
        ensures
            final(self).wf(),
            Cpu::ld_r8_r8_post(*old(self), *final(self), opcode),
    {
        let v = self.registers.get_r8(opcode % 8);
        self.registers.set_r8(opcode / 8 % 8, v);
        self.registers.pc.add_wrapping(1);
        self.delay = 1;
    }

    /// Loads a register from the byte at the address in HL.
    pub fn ld_r8_ptr_hl(&mut self, opcode: u8)
        requires
            old(self).wf(),
            old(self).delay == 0,
            is_r8_code(opcode / 8 % 8),
        ensures
            final(self).wf(),
            Cpu::ld_r8_ptr_hl_post(*old(self), *final(self), opcode),
    {
        let v = self.mmu.read(self.registers.hl.read());
        self.registers.set_r8(opcode / 8 % 8, v);
        self.registers.pc.add_wrapping(1);
        self.delay = 2;
    }

    /// Stores a register at the address in HL.
    pub fn ld_ptr_hl_r(&mut self, opcode: u8)
        requires
            old(self).wf(),
            old(self).delay == 0,
            is_r8_code(opcode % 8),
        ensures
            final(self).wf(),
            Cpu::ld_ptr_hl_r_post(*old(self), *final(self), opcode),
    {
        let v = self.registers.get_r8(opcode % 8);
        let addr = self.registers.hl.read();
        self.mmu.write(addr, v);
        self.registers.pc.add_wrapping(1);
        self.delay = 2;
    }

    /// Stores the immediate byte at the address in HL.
    pub fn ld_ptr_hl_u8(&mut self)
        requires
            old(self).wf(),
            old(self).delay == 0,
        ensures
            final(self).wf(),
            Cpu::ld_ptr_hl_u8_post(*old(self), *final(self)),
    {
        let arg = self.fetch_imm8();
        let addr = self.registers.hl.read();
        self.mmu.write(addr, arg);
        self.registers.pc.add_wrapping(2);
        self.delay = 3;
    }

    /// Loads the accumulator from the address in BC.
    pub fn ld_a_ptr_bc(&mut self)
        requires
            old(self).wf(),
            old(self).delay == 0,
        ensures
            final(self).wf(),
            Cpu::ld_a_ptr_bc_post(*old(self), *final(self)),
    {
        let v = self.mmu.read(self.registers.bc.read());
        self.registers.af.high.write(v);
        self.registers.pc.add_wrapping(1);
        self.delay = 2;
    }

    /// Loads the accumulator from the address in DE.
    pub fn ld_a_ptr_de(&mut self)
        requires
            old(self).wf(),
            old(self).delay == 0,
        ensures
            final(self).wf(),
            Cpu::ld_a_ptr_de_post(*old(self), *final(self)),
    {
        let v = self.mmu.read(self.registers.de.read());
        self.registers.af.high.write(v);
        self.registers.pc.add_wrapping(1);
        self.delay = 2;
    }

    /// Stores the accumulator at the address in BC.
    pub fn ld_ptr_bc_a(&mut self)
        requires
            old(self).wf(),
            old(self).delay == 0,
        ensures
            final(self).wf(),
            Cpu::ld_ptr_bc_a_post(*old(self), *final(self)),
    {
        let addr = self.registers.bc.read();
        let v = self.registers.af.high.read();
        self.mmu.write(addr, v);
        self.registers.pc.add_wrapping(1);
        self.delay = 2;
    }

    /// Stores the accumulator at the address in DE.
    pub fn ld_ptr_de_a(&mut self)
        requires
            old(self).wf(),
            old(self).delay == 0,
        ensures
            final(self).wf(),
            Cpu::ld_ptr_de_a_post(*old(self), *final(self)),
    {
        let addr = self.registers.de.read();
        let v = self.registers.af.high.read();
        self.mmu.write(addr, v);
        self.registers.pc.add_wrapping(1);
        self.delay = 2;
    }

    /// Loads the accumulator from the address in HL, then increments HL.
    pub fn ld_a_ptr_hli(&mut self)
        requires
            old(self).wf(),
            old(self).delay == 0,
        ensures
            final(self).wf(),
            Cpu::ld_a_ptr_hli_post(*old(self), *final(self)),
    {
        let v = self.mmu.read(self.registers.hl.read());
        self.registers.af.high.write(v);
        self.registers.hl.add_wrapping(1);
        self.registers.pc.add_wrapping(1);
        self.delay = 2;
    }

    /// Loads the accumulator from the address in HL, then decrements HL.
    pub fn ld_a_ptr_hld(&mut self)
        requires
            old(self).wf(),
            old(self).delay == 0,
        ensures
            final(self).wf(),
            Cpu::ld_a_ptr_hld_post(*old(self), *final(self)),
    {
        let v = self.mmu.read(self.registers.hl.read());
        self.registers.af.high.write(v);
        self.registers.hl.sub_wrapping(1);
        self.registers.pc.add_wrapping(1);
        self.delay = 2;
    }

    /// Stores the accumulator at the address in HL, then increments HL.
    pub fn ld_ptr_hli_a(&mut self)
        requires
            old(self).wf(),
            old(self).delay == 0,
        ensures
            final(self).wf(),
            Cpu::ld_ptr_hli_a_post(*old(self), *final(self)),
    {
        let addr = self.registers.hl.read();
        let v = self.registers.af.high.read();
        self.mmu.write(addr, v);
        self.registers.hl.add_wrapping(1);
        self.registers.pc.add_wrapping(1);
        self.delay = 2;
    }

    /// Stores the accumulator at the address in HL, then decrements HL.
    pub fn ld_ptr_hld_a(&mut self)
        requires
            old(self).wf(),
            old(self).delay == 0,
        ensures
            final(self).wf(),
            Cpu::ld_ptr_hld_a_post(*old(self), *final(self)),
    {
        let addr = self.registers.hl.read();
        let v = self.registers.af.high.read();
        self.mmu.write(addr, v);
        self.registers.hl.sub_wrapping(1);
        self.registers.pc.add_wrapping(1);
        self.delay = 2;
    }

    /// Loads the accumulator from the immediate address.
    pub fn ld_a_ptr_u16(&mut self)
        requires
            old(self).wf(),
            old(self).delay == 0,
        ensures
            final(self).wf(),
            Cpu::ld_a_ptr_u16_post(*old(self), *final(self)),
    {
        let addr = self.fetch_imm16();
        let v = self.mmu.read(addr);
        self.registers.af.high.write(v);
        self.registers.pc.add_wrapping(3);
        self.delay = 4;
    }

    /// Stores the accumulator at the immediate address.
    pub fn ld_ptr_u16_a(&mut self)
        requires
            old(self).wf(),
            old(self).delay == 0,
        ensures
            final(self).wf(),
            Cpu::ld_ptr_u16_a_post(*old(self), *final(self)),
    {
        let addr = self.fetch_imm16();
        let v = self.registers.af.high.read();
        self.mmu.write(addr, v);
        self.registers.pc.add_wrapping(3);
        self.delay = 4;
    }

    /// Loads the accumulator from the high page at 0xFF00 plus the
    /// immediate offset.
    pub fn ld_a_ptr_ff00_u8(&mut self)
        requires
            old(self).wf(),
            old(self).delay == 0,
        ensures
            final(self).wf(),
            Cpu::ld_a_ptr_ff00_u8_post(*old(self), *final(self)),
    {
        let off = self.fetch_imm8();
        let v = self.mmu.read(0xff00 + off as u16);
        self.registers.af.high.write(v);
        self.registers.pc.add_wrapping(2);
        self.delay = 3;
    }

    /// Stores the accumulator in the high page at 0xFF00 plus the
    /// immediate offset.
    pub fn ld_ptr_ff00_u8_a(&mut self)
        requires
            old(self).wf(),
            old(self).delay == 0,
        ensures
            final(self).wf(),
            Cpu::ld_ptr_ff00_u8_a_post(*old(self), *final(self)),
    {
        let off = self.fetch_imm8();
        let v = self.registers.af.high.read();
        self.mmu.write(0xff00 + off as u16, v);
        self.registers.pc.add_wrapping(2);
        self.delay = 3;
    }

    /// Loads the accumulator from the high page at 0xFF00 plus C.
    pub fn ld_a_ptr_ff00_c(&mut self)
        requires
            old(self).wf(),
            old(self).delay == 0,
        ensures
            final(self).wf(),
            Cpu::ld_a_ptr_ff00_c_post(*old(self), *final(self)),
    {
        let v = self.mmu.read(0xff00 + self.registers.bc.low.read() as u16);
        self.registers.af.high.write(v);
        self.registers.pc.add_wrapping(1);
        self.delay = 2;
    }

    /// Stores the accumulator in the high page at 0xFF00 plus C.
    pub fn ld_ptr_ff00_c_a(&mut self)
        requires
            old(self).wf(),
            old(self).delay == 0,
        ensures
            final(self).wf(),
            Cpu::ld_ptr_ff00_c_a_post(*old(self), *final(self)),
    {
        let v = self.registers.af.high.read();
        self.mmu.write(0xff00 + self.registers.bc.low.read() as u16, v);
        self.registers.pc.add_wrapping(1);
        self.delay = 2;
    }

    /// Stores the stack pointer at the immediate address, low byte first.
    #[verifier::rlimit(60)]
    pub fn ld_ptr_u16_sp(&mut self)
        requires
            old(self).wf(),
            old(self).delay == 0,
        ensures
            final(self).wf(),
            Cpu::ld_ptr_u16_sp_post(*old(self), *final(self)),
    {
        let addr = self.fetch_imm16();
        let low = self.registers.sp.low.read();
        let high = self.registers.sp.high.read();
        self.mmu.write(addr, low);
        let ghost mid = self.mmu;
        self.mmu.write(addr.wrapping_add(1), high);
        self.registers.pc.add_wrapping(3);
        self.delay = 5;
        proof {
            assert(Mmu::write_post(
                old(self).mmu,
                mid,
                old(self).imm16(),
                (old(self).registers.sp.value() % 256) as u8,
            ) && Mmu::write_post(
                mid,
                self.mmu,
                wrap_add16(old(self).imm16(), 1),
                (old(self).registers.sp.value() / 256) as u8,
            ));
        }
    }

    /// Copies HL into the stack pointer.
    pub fn ld_sp_hl(&mut self)
        requires
            old(self).wf(),
            old(self).delay == 0,
        ensures
            final(self).wf(),
            Cpu::ld_sp_hl_post(*old(self), *final(self)),
    {
        let v = self.registers.hl.read();
        self.registers.sp.write(v);
        self.registers.pc.add_wrapping(1);
        self.delay = 2;
    }

    /// Increments a register: Z and H from the result, N cleared, C kept.
    pub fn inc_r8(&mut self, opcode: u8)
        requires
            old(self).wf(),
            old(self).delay == 0,
            is_r8_code(opcode / 8 % 8),
        ensures
            final(self).wf(),
            Cpu::inc_r8_post(*old(self), *final(self), opcode),
    {
        let v = self.registers.get_r8(opcode / 8 % 8);
        let nv = v.wrapping_add(1);
        self.registers.set_r8(opcode / 8 % 8, nv);
        self.registers.af.low = FlagRegister {
            z: nv == 0,
            n: false,
            h: v % 16 == 15,
            c: self.registers.af.low.c,
        };
        self.registers.pc.add_wrapping(1);
        self.delay = 1;
    }

    /// Decrements a register: Z and H from the result, N set, C kept.
    pub fn dec_r8(&mut self, opcode: u8)
        requires
            old(self).wf(),
            old(self).delay == 0,
            is_r8_code(opcode / 8 % 8),
        ensures
            final(self).wf(),
            Cpu::dec_r8_post(*old(self), *final(self), opcode),
    {
        let v = self.registers.get_r8(opcode / 8 % 8);
        let nv = v.wrapping_sub(1);
        self.registers.set_r8(opcode / 8 % 8, nv);
        self.registers.af.low = FlagRegister {
            z: nv == 0,
            n: true,
            h: v % 16 == 0,
            c: self.registers.af.low.c,
        };
        self.registers.pc.add_wrapping(1);
        self.delay = 1;
    }

    /// Increments the byte at the address in HL: Z and H from the
    /// result, N cleared, C kept.
    pub fn inc_ptr_hl(&mut self)
        requires
            old(self).wf(),
            old(self).delay == 0,
        ensures
            final(self).wf(),
            Cpu::inc_ptr_hl_post(*old(self), *final(self)),
    {
        let addr = self.registers.hl.read();
        let v = self.mmu.read(addr);
        let nv = v.wrapping_add(1);
        self.mmu.write(addr, nv);
        self.registers.af.low = FlagRegister {
            z: nv == 0,
            n: false,
            h: v % 16 == 15,
            c: self.registers.af.low.c,
        };
        self.registers.pc.add_wrapping(1);
        self.delay = 3;
    }

    /// Decrements the byte at the address in HL: Z and H from the
    /// result, N set, C kept.
    pub fn dec_ptr_hl(&mut self)
        requires
            old(self).wf(),
            old(self).delay == 0,
        ensures
            final(self).wf(),
            Cpu::dec_ptr_hl_post(*old(self), *final(self)),
    {
        let addr = self.registers.hl.read();
        let v = self.mmu.read(addr);
        let nv = v.wrapping_sub(1);
        self.mmu.write(addr, nv);
        self.registers.af.low = FlagRegister {
            z: nv == 0,
            n: true,
            h: v % 16 == 0,
            c: self.registers.af.low.c,
        };
        self.registers.pc.add_wrapping(1);
        self.delay = 3;
    }

    /// Increments an `ss`-family register pair; no flags change.
    pub fn inc_r16(&mut self, opcode: u8)
        requires
            old(self).wf(),
            old(self).delay == 0,
        ensures
            final(self).wf(),
            Cpu::inc_r16_post(*old(self), *final(self), opcode),
    {
        let v = self.registers.get_r16(opcode / 16 % 4);
        self.registers.set_r16(opcode / 16 % 4, v.wrapping_add(1));
        self.registers.pc.add_wrapping(1);
        self.delay = 2;
    }

    /// Decrements an `ss`-family register pair; no flags change.
    pub fn dec_r16(&mut self, opcode: u8)
        requires
            old(self).wf(),
            old(self).delay == 0,
        ensures
            final(self).wf(),
            Cpu::dec_r16_post(*old(self), *final(self), opcode),
    {
        let v = self.registers.get_r16(opcode / 16 % 4);
        self.registers.set_r16(opcode / 16 % 4, v.wrapping_sub(1));
        self.registers.pc.add_wrapping(1);
        self.delay = 2;
    }

    /// Adds an `ss`-family pair into HL: N cleared, H on carry out of
    /// bit 11, C on carry out of bit 15, Z kept.
    pub fn add_hl_rr(&mut self, opcode: u8)
        requires
            old(self).wf(),
            old(self).delay == 0,
        ensures
            final(self).wf(),
            Cpu::add_hl_rr_post(*old(self), *final(self), opcode),
    {
        let hl = self.registers.hl.read();
        let v = self.registers.get_r16(opcode / 16 % 4);
        self.registers.hl.write(hl.wrapping_add(v));
        self.registers.af.low = FlagRegister {
            z: self.registers.af.low.z,
            n: false,
            h: hl % 0x1000 + v % 0x1000 >= 0x1000,
            c: (hl as u32) + (v as u32) >= 0x10000,
        };
        self.registers.pc.add_wrapping(1);
        self.delay = 2;
    }

    /// The target of a relative jump: the address after the operand plus
    /// the signed offset.
    pub open spec fn rel_target(pc: u16, off: u8) -> u16 {
        if off < 128 {
            wrap_add16(wrap_add16(pc, 2), off as u16)
        } else {
            wrap_sub16(wrap_add16(pc, 2), (256 - off) as u16)
        }
    }

    /// The signed-offset stack-pointer sum and its flags, as ADD SP,e and
    /// LD HL,SP+e compute them: H and C from the unsigned low byte.
    pub open spec fn sp_offset_val(sp: u16, off: u8) -> u16 {
        if off < 128 {
            wrap_add16(sp, off as u16)
        } else {
            wrap_sub16(sp, (256 - off) as u16)
        }
    }

    pub open spec fn sp_offset_flags(sp: u16, off: u8) -> FlagRegister {
        FlagRegister {
            z: false,
            n: false,
            h: sp % 16 + off % 16 >= 0x10,
            c: sp % 256 + off >= 0x100,
        }
    }

    /// Adds the signed immediate to the stack pointer.
    pub fn add_sp_i8(&mut self)
        requires
            old(self).wf(),
            old(self).delay == 0,
        ensures
            final(self).wf(),
            Cpu::add_sp_i8_post(*old(self), *final(self)),
    {
        let off = self.fetch_imm8();
        let sp = self.registers.sp.read();
        let nv = if off < 128 {
            sp.wrapping_add(off as u16)
        } else {
            sp.wrapping_sub(256 - off as u16)
        };
        self.registers.af.low = FlagRegister {
            z: false,
            n: false,
            h: sp % 16 + (off % 16) as u16 >= 0x10,
            c: sp % 256 + off as u16 >= 0x100,
        };
        self.registers.sp.write(nv);
        self.registers.pc.add_wrapping(2);
        self.delay = 4;
    }

    /// Loads HL with the stack pointer plus the signed immediate.
    pub fn ld_hl_sp_i8(&mut self)
        requires
            old(self).wf(),
            old(self).delay == 0,
        ensures
            final(self).wf(),
            Cpu::ld_hl_sp_i8_post(*old(self), *final(self)),
    {
        let off = self.fetch_imm8();
        let sp = self.registers.sp.read();
        let nv = if off < 128 {
            sp.wrapping_add(off as u16)
        } else {
            sp.wrapping_sub(256 - off as u16)
        };
        self.registers.af.low = FlagRegister {
            z: false,
            n: false,
            h: sp % 16 + (off % 16) as u16 >= 0x10,
            c: sp % 256 + off as u16 >= 0x100,
        };
        self.registers.hl.write(nv);
        self.registers.pc.add_wrapping(2);
        self.delay = 3;
    }

    /// The decimal adjustment of the accumulator after an addition or
    /// subtraction, from the N, H and C flags: the adjusted value and the
    /// new carry.
    pub open spec fn daa_result(a: u8, n: bool, h: bool, c: bool) -> (u8, bool) {
        if n {
            let a1: u8 = if c {
                wrap_sub8(a, 0x60)
            } else {
                a
            };
            let a2: u8 = if h {
                wrap_sub8(a1, 0x06)
            } else {
                a1
            };
            (a2, c)
        } else {
            let adjust_c = c || a > 0x99;
            let a1: u8 = if adjust_c {
                wrap_add8(a, 0x60)
            } else {
                a
            };
            let a2: u8 = if h || a1 % 16 > 0x09 {
                wrap_add8(a1, 0x06)
            } else {
                a1
            };
            (a2, adjust_c)
        }
    }

    /// Adjusts the accumulator toward its decimal reading using the
    /// N, H and C state; Z from the result, H cleared.
    pub fn daa(&mut self)
        requires
            old(self).wf(),
            old(self).delay == 0,
        ensures
            final(self).wf(),
            Cpu::daa_post(*old(self), *final(self)),
    {
        let f = self.registers.af.low;
        let a = self.registers.af.high.read();
        let mut na = a;
        let mut nc = f.c;
        if f.n {
            if f.c {
                na = na.wrapping_sub(0x60);
            }
            if f.h {
                na = na.wrapping_sub(0x06);
            }
        } else {
            if f.c || a > 0x99 {
                na = na.wrapping_add(0x60);
                nc = true;
            }
            if f.h || na % 16 > 0x09 {
                na = na.wrapping_add(0x06);
            }
        }
        self.registers.af.high.write(na);
        self.registers.af.low = FlagRegister { z: na == 0, n: f.n, h: false, c: nc };
        self.registers.pc.add_wrapping(1);
        self.delay = 1;
    }

    /// Complements the accumulator; N and H set.
    pub fn cpl(&mut self)
        requires
            old(self).wf(),
            old(self).delay == 0,
        ensures
            final(self).wf(),
            Cpu::cpl_post(*old(self), *final(self)),
    {
        let a = self.registers.af.high.read();
        self.registers.af.high.write(255 - a);
        self.registers.af.low = FlagRegister {
            n: true,
            h: true,
            ..self.registers.af.low
        };
        self.registers.pc.add_wrapping(1);
        self.delay = 1;
    }

    /// Sets the carry flag; N and H cleared.
    pub fn scf(&mut self)
        requires
            old(self).wf(),
            old(self).delay == 0,
        ensures
            final(self).wf(),
            Cpu::scf_post(*old(self), *final(self)),
    {
        self.registers.af.low = FlagRegister { z: self.registers.af.low.z, n: false, h: false, c: true };
        self.registers.pc.add_wrapping(1);
        self.delay = 1;
    }

    /// Complements the carry flag; N and H cleared.
    pub fn ccf(&mut self)
        requires
            old(self).wf(),
            old(self).delay == 0,
        ensures
            final(self).wf(),
            Cpu::ccf_post(*old(self), *final(self)),
    {
        self.registers.af.low = FlagRegister {
            z: self.registers.af.low.z,
            n: false,
            h: false,
            c: !self.registers.af.low.c,
        };
        self.registers.pc.add_wrapping(1);
        self.delay = 1;
    }

    /// Rotates the accumulator left, bit 7 into both carry and bit 0;
    /// Z cleared.
    pub fn rlca(&mut self)
        requires
            old(self).wf(),
            old(self).delay == 0,
        ensures
            final(self).wf(),
            Cpu::rlca_post(*old(self), *final(self)),
    {
        let a = self.registers.af.high.read();
        self.registers.af.high.write(a % 128 * 2 + a / 128);
        self.registers.af.low = FlagRegister { z: false, n: false, h: false, c: a >= 0x80 };
        self.registers.pc.add_wrapping(1);
        self.delay = 1;
    }

    /// Rotates the accumulator right, bit 0 into both carry and bit 7;
    /// Z cleared.
    pub fn rrca(&mut self)
        requires
            old(self).wf(),
            old(self).delay == 0,
        ensures
            final(self).wf(),
            Cpu::rrca_post(*old(self), *final(self)),
    {
        let a = self.registers.af.high.read();
        self.registers.af.high.write(a / 2 + a % 2 * 128);
        self.registers.af.low = FlagRegister { z: false, n: false, h: false, c: a % 2 == 1 };
        self.registers.pc.add_wrapping(1);
        self.delay = 1;
    }

    /// Rotates the accumulator left through the carry flag; Z cleared.
    pub fn rla(&mut self)
        requires
            old(self).wf(),
            old(self).delay == 0,
        ensures
            final(self).wf(),
            Cpu::rla_post(*old(self), *final(self)),
    {
        let a = self.registers.af.high.read();
        let cin: u8 = if self.registers.af.low.c {
            1
        } else {
            0
        };
        self.registers.af.high.write(a % 128 * 2 + cin);
        self.registers.af.low = FlagRegister { z: false, n: false, h: false, c: a >= 0x80 };
        self.registers.pc.add_wrapping(1);
        self.delay = 1;
    }

    /// Rotates the accumulator right through the carry flag; Z cleared.
    pub fn rra(&mut self)
        requires
            old(self).wf(),
            old(self).delay == 0,
        ensures
            final(self).wf(),
            Cpu::rra_post(*old(self), *final(self)),
    {
        let a = self.registers.af.high.read();
        let cin: u8 = if self.registers.af.low.c {
            128
        } else {
            0
        };
        self.registers.af.high.write(a / 2 + cin);
        self.registers.af.low = FlagRegister { z: false, n: false, h: false, c: a % 2 == 1 };
        self.registers.pc.add_wrapping(1);
        self.delay = 1;
    }

    /// Does nothing for one m-cycle.
    pub fn nop(&mut self)
        requires
            old(self).wf(),
            old(self).delay == 0,
        ensures
            final(self).wf(),
            Cpu::nop_post(*old(self), *final(self)),
    {
        self.registers.pc.add_wrapping(1);
        self.delay = 1;
    }

    /// Jumps to the immediate address.
    pub fn jp_u16(&mut self)
        requires
            old(self).wf(),
            old(self).delay == 0,
        ensures
            final(self).wf(),
            Cpu::jp_u16_post(*old(self), *final(self)),
    {
        let addr = self.fetch_imm16();
        self.registers.pc.write(addr);
        self.delay = 4;
    }

    /// Jumps to the address in HL.
    pub fn jp_hl(&mut self)
        requires
            old(self).wf(),
            old(self).delay == 0,
        ensures
            final(self).wf(),
            Cpu::jp_hl_post(*old(self), *final(self)),
    {
        let addr = self.registers.hl.read();
        self.registers.pc.write(addr);
        self.delay = 1;
    }

    /// Jumps to the immediate address when the condition named by opcode
    /// bits 4..3 holds; a taken jump costs one extra m-cycle.
    pub fn jp_cond_u16(&mut self, opcode: u8)
        requires
            old(self).wf(),
            old(self).delay == 0,
        ensures
            final(self).wf(),
            Cpu::jp_cond_u16_post(*old(self), *final(self), opcode),
    {
        let addr = self.fetch_imm16();
        if self.registers.get_cond(opcode / 8 % 4) {
            self.registers.pc.write(addr);
            self.delay = 4;
        } else {
            self.registers.pc.add_wrapping(3);
            self.delay = 3;
        }
    }

    /// Jumps by the signed immediate offset.
    pub fn jr_i8(&mut self)
        requires
            old(self).wf(),
            old(self).delay == 0,
        ensures
            final(self).wf(),
            Cpu::jr_i8_post(*old(self), *final(self)),
    {
        let off = self.fetch_imm8();
        let base = self.registers.pc.read().wrapping_add(2);
        let target = if off < 128 {
            base.wrapping_add(off as u16)
        } else {
            base.wrapping_sub(256 - off as u16)
        };
        self.registers.pc.write(target);
        self.delay = 3;
    }

    /// Jumps by the signed immediate offset when the condition named by
    /// opcode bits 4..3 holds; a taken jump costs one extra m-cycle.
    pub fn jr_cond_i8(&mut self, opcode: u8)
        requires
            old(self).wf(),
            old(self).delay == 0,
        ensures
            final(self).wf(),
            Cpu::jr_cond_i8_post(*old(self), *final(self), opcode),
    {
        let off = self.fetch_imm8();
        if self.registers.get_cond(opcode / 8 % 4) {
            let base = self.registers.pc.read().wrapping_add(2);
            let target = if off < 128 {
                base.wrapping_add(off as u16)
            } else {
                base.wrapping_sub(256 - off as u16)
            };
            self.registers.pc.write(target);
            self.delay = 3;
        } else {
            self.registers.pc.add_wrapping(2);
            self.delay = 2;
        }
    }

    /// Calls the immediate address: the return address is pushed and the
    /// program counter jumps.
    pub fn call_u16(&mut self)
        requires
            old(self).wf(),
            old(self).delay == 0,
        ensures
            final(self).wf(),
            Cpu::call_u16_post(*old(self), *final(self)),
    {
        let addr = self.fetch_imm16();
        let ret = self.registers.pc.read().wrapping_add(3);
        self.push_word(ret);
        self.registers.pc.write(addr);
        self.delay = 6;
    }

    /// Calls the immediate address when the condition named by opcode
    /// bits 4..3 holds.
    pub fn call_cond_u16(&mut self, opcode: u8)
        requires
            old(self).wf(),
            old(self).delay == 0,
        ensures
            final(self).wf(),
            Cpu::call_cond_u16_post(*old(self), *final(self), opcode),
    {
        if !self.registers.get_cond(opcode / 8 % 4) {
            self.registers.pc.add_wrapping(3);
            self.delay = 3;
            return ;
        }
        let addr = self.fetch_imm16();
        let ret = self.registers.pc.read().wrapping_add(3);
        self.push_word(ret);
        self.registers.pc.write(addr);
        self.delay = 6;
    }

    /// Calls one of the eight restart vectors named by opcode bits 5..3.
    pub fn rst(&mut self, opcode: u8)
        requires
            old(self).wf(),
            old(self).delay == 0,
        ensures
            final(self).wf(),
            Cpu::rst_post(*old(self), *final(self), opcode),
    {
        let target = (opcode / 8 % 8) as u16 * 8;
        let ret = self.registers.pc.read().wrapping_add(1);
        self.push_word(ret);
        self.registers.pc.write(target);
        self.delay = 4;
    }

    /// Returns: the program counter is popped from the stack.
    pub fn ret(&mut self)
        requires
            old(self).wf(),
            old(self).delay == 0,
        ensures
            final(self).wf(),
            Cpu::ret_post(*old(self), *final(self)),
    {
        let sp = self.registers.sp.read();
        let low = self.mmu.read(sp);
        let high = self.mmu.read(sp.wrapping_add(1));
        self.registers.pc.write((high as u16) * 256 + low as u16);
        self.registers.sp.write(sp.wrapping_add(2));
        self.delay = 4;
    }

    /// Returns when the condition named by opcode bits 4..3 holds.
    pub fn ret_cond(&mut self, opcode: u8)
        requires
            old(self).wf(),
            old(self).delay == 0,
        ensures
            final(self).wf(),
            Cpu::ret_cond_post(*old(self), *final(self), opcode),
    {
        if !self.registers.get_cond(opcode / 8 % 4) {
            self.registers.pc.add_wrapping(1);
            self.delay = 2;
            return ;
        }
        let sp = self.registers.sp.read();
        let low = self.mmu.read(sp);
        let high = self.mmu.read(sp.wrapping_add(1));
        self.registers.pc.write((high as u16) * 256 + low as u16);
        self.registers.sp.write(sp.wrapping_add(2));
        self.delay = 5;
    }

    /// Returns and enables interrupts at once.
    pub fn reti(&mut self)
        requires
            old(self).wf(),
            old(self).delay == 0,
        ensures
            final(self).wf(),
            Cpu::reti_post(*old(self), *final(self)),
    {
        let sp = self.registers.sp.read();
        let low = self.mmu.read(sp);
        let high = self.mmu.read(sp.wrapping_add(1));
        self.registers.pc.write((high as u16) * 256 + low as u16);
        self.registers.sp.write(sp.wrapping_add(2));
        self.ime = true;
        self.delay = 4;
    }

    /// Pushes the `qq`-family pair named by opcode bits 5..4.
    pub fn push_r16(&mut self, opcode: u8)
        requires
            old(self).wf(),
            old(self).delay == 0,
        ensures
            final(self).wf(),
            Cpu::push_r16_post(*old(self), *final(self), opcode),
    {
        let v = self.registers.get_r16_qq(opcode / 16 % 4);
        self.push_word(v);
        self.registers.pc.add_wrapping(1);
        self.delay = 4;
    }

    /// Pops into the `qq`-family pair named by opcode bits 5..4; a pop
    /// into AF drops the low nibble of the flags byte.
    pub fn pop_r16(&mut self, opcode: u8)
        requires
            old(self).wf(),
            old(self).delay == 0,
        ensures
            final(self).wf(),
            Cpu::pop_r16_post(*old(self), *final(self), opcode),
    {
        let sp = self.registers.sp.read();
        let low = self.mmu.read(sp);
        let high = self.mmu.read(sp.wrapping_add(1));
        self.registers.set_r16_qq(opcode / 16 % 4, (high as u16) * 256 + low as u16);
        self.registers.sp.write(sp.wrapping_add(2));
        self.registers.pc.add_wrapping(1);
        self.delay = 3;
    }

    /// Clears the master interrupt enable at once, cancelling any pending
    /// EI.
    pub fn di(&mut self)
        requires
            old(self).wf(),
            old(self).delay == 0,
        ensures
            final(self).wf(),
            Cpu::di_post(*old(self), *final(self)),
    {
        self.ime = false;
        self.ei_delay = 0;
        self.registers.pc.add_wrapping(1);
        self.delay = 1;
    }

    /// Starts the one-instruction EI delay: IME turns on after the next
    /// instruction.
    pub fn ei(&mut self)
        requires
            old(self).wf(),
            old(self).delay == 0,
        ensures
            final(self).wf(),
            Cpu::ei_post(*old(self), *final(self)),
    {
        self.ei_delay = 2;
        self.registers.pc.add_wrapping(1);
        self.delay = 1;
    }

    /// Suspends the CPU until an interrupt is pending.  The HALT-bug
    /// quirk (an extra fetch when IME is off with an interrupt already
    /// pending) is deliberately not modelled.
    pub fn halt(&mut self)
        requires
            old(self).wf(),
            old(self).delay == 0,
        ensures
            final(self).wf(),
            Cpu::halt_post(*old(self), *final(self)),
    {
        self.halted = true;
        self.registers.pc.add_wrapping(1);
        self.delay = 1;
    }


    /// The exact effect of one decoded instruction: which opcode function
    /// the encoding selects, and that function's stated result.  The
    /// CB prefix reads its operand byte and defers to the CB table.
    pub open spec fn exec_post(pre: Cpu, post: Cpu, opcode: u8) -> bool {
        if 0x40 <= opcode <= 0x7f {
            if opcode == 0x76 {
                Cpu::halt_post(pre, post)
            } else if opcode % 8 == 6 {
                Cpu::ld_r8_ptr_hl_post(pre, post, opcode)
            } else if opcode / 8 % 8 == 6 {
                Cpu::ld_ptr_hl_r_post(pre, post, opcode)
            } else {
                Cpu::ld_r8_r8_post(pre, post, opcode)
            }
        } else if 0x80 <= opcode <= 0xbf {
            let fam = opcode / 8 % 8;
            if opcode % 8 == 6 {
                if fam == 0 {
                    Cpu::add_a_ptr_hl_post(pre, post)
                } else if fam == 1 {
                    Cpu::adc_a_ptr_hl_post(pre, post)
                } else if fam == 2 {
                    Cpu::sub_a_ptr_hl_post(pre, post)
                } else if fam == 3 {
                    Cpu::sbc_a_ptr_hl_post(pre, post)
                } else if fam == 4 {
                    Cpu::and_a_ptr_hl_post(pre, post)
                } else if fam == 5 {
                    Cpu::xor_a_ptr_hl_post(pre, post)
                } else if fam == 6 {
                    Cpu::or_a_ptr_hl_post(pre, post)
                } else {
                    Cpu::cp_a_ptr_hl_post(pre, post)
                }
            } else {
                if fam == 0 {
                    Cpu::add_a_r8_post(pre, post, opcode)
                } else if fam == 1 {
                    Cpu::adc_a_r8_post(pre, post, opcode)
                } else if fam == 2 {
                    Cpu::sub_a_r8_post(pre, post, opcode)
                } else if fam == 3 {
                    Cpu::sbc_a_r8_post(pre, post, opcode)
                } else if fam == 4 {
                    Cpu::and_a_r8_post(pre, post, opcode)
                } else if fam == 5 {
                    Cpu::xor_a_r8_post(pre, post, opcode)
                } else if fam == 6 {
                    Cpu::or_a_r8_post(pre, post, opcode)
                } else {
                    Cpu::cp_a_r8_post(pre, post, opcode)
                }
            }
        } else if opcode == 0x00 {
            Cpu::nop_post(pre, post)
        } else if opcode == 0x01 || opcode == 0x11 || opcode == 0x21 || opcode == 0x31 {
            Cpu::ld_r16_u16_post(pre, post, opcode)
        } else if opcode == 0x02 {
            Cpu::ld_ptr_bc_a_post(pre, post)
        } else if opcode == 0x12 {
            Cpu::ld_ptr_de_a_post(pre, post)
        } else if opcode == 0x03 || opcode == 0x13 || opcode == 0x23 || opcode == 0x33 {
            Cpu::inc_r16_post(pre, post, opcode)
        } else if opcode == 0x0b || opcode == 0x1b || opcode == 0x2b || opcode == 0x3b {
            Cpu::dec_r16_post(pre, post, opcode)
        } else if opcode == 0x34 {
            Cpu::inc_ptr_hl_post(pre, post)
        } else if opcode == 0x35 {
            Cpu::dec_ptr_hl_post(pre, post)
        } else if opcode < 0x40 && opcode % 8 == 4 {
            Cpu::inc_r8_post(pre, post, opcode)
        } else if opcode < 0x40 && opcode % 8 == 5 {
            Cpu::dec_r8_post(pre, post, opcode)
        } else if opcode == 0x36 {
            Cpu::ld_ptr_hl_u8_post(pre, post)
        } else if opcode < 0x40 && opcode % 8 == 6 {
            Cpu::ld_r8_u8_post(pre, post, opcode)
        } else if opcode == 0x07 {
            Cpu::rlca_post(pre, post)
        } else if opcode == 0x0f {
            Cpu::rrca_post(pre, post)
        } else if opcode == 0x17 {
            Cpu::rla_post(pre, post)
        } else if opcode == 0x1f {
            Cpu::rra_post(pre, post)
        } else if opcode == 0x08 {
            Cpu::ld_ptr_u16_sp_post(pre, post)
        } else if opcode == 0x09 || opcode == 0x19 || opcode == 0x29 || opcode == 0x39 {
            Cpu::add_hl_rr_post(pre, post, opcode)
        } else if opcode == 0x0a {
            Cpu::ld_a_ptr_bc_post(pre, post)
        } else if opcode == 0x1a {
            Cpu::ld_a_ptr_de_post(pre, post)
        } else if opcode == 0x18 {
            Cpu::jr_i8_post(pre, post)
        } else if opcode == 0x20 || opcode == 0x30 || opcode == 0x28 || opcode == 0x38 {
            Cpu::jr_cond_i8_post(pre, post, opcode)
        } else if opcode == 0x22 {
            Cpu::ld_ptr_hli_a_post(pre, post)
        } else if opcode == 0x32 {
            Cpu::ld_ptr_hld_a_post(pre, post)
        } else if opcode == 0x2a {
            Cpu::ld_a_ptr_hli_post(pre, post)
        } else if opcode == 0x3a {
            Cpu::ld_a_ptr_hld_post(pre, post)
        } else if opcode == 0x27 {
            Cpu::daa_post(pre, post)
        } else if opcode == 0x2f {
            Cpu::cpl_post(pre, post)
        } else if opcode == 0x37 {
            Cpu::scf_post(pre, post)
        } else if opcode == 0x3f {
            Cpu::ccf_post(pre, post)
        } else if opcode == 0xc6 {
            Cpu::add_a_u8_post(pre, post)
        } else if opcode == 0xce {
            Cpu::adc_a_u8_post(pre, post)
        } else if opcode == 0xd6 {
            Cpu::sub_a_u8_post(pre, post)
        } else if opcode == 0xde {
            Cpu::sbc_a_u8_post(pre, post)
        } else if opcode == 0xe6 {
            Cpu::and_a_u8_post(pre, post)
        } else if opcode == 0xee {
            Cpu::xor_a_u8_post(pre, post)
        } else if opcode == 0xf6 {
            Cpu::or_a_u8_post(pre, post)
        } else if opcode == 0xfe {
            Cpu::cp_a_u8_post(pre, post)
        } else if opcode == 0xc0 || opcode == 0xd0 || opcode == 0xc8 || opcode == 0xd8 {
            Cpu::ret_cond_post(pre, post, opcode)
        } else if opcode == 0xc9 {
            Cpu::ret_post(pre, post)
        } else if opcode == 0xd9 {
            Cpu::reti_post(pre, post)
        } else if opcode == 0xc1 || opcode == 0xd1 || opcode == 0xe1 || opcode == 0xf1 {
            Cpu::pop_r16_post(pre, post, opcode)
        } else if opcode == 0xc5 || opcode == 0xd5 || opcode == 0xe5 || opcode == 0xf5 {
            Cpu::push_r16_post(pre, post, opcode)
        } else if opcode == 0xc2 || opcode == 0xd2 || opcode == 0xca || opcode == 0xda {
            Cpu::jp_cond_u16_post(pre, post, opcode)
        } else if opcode == 0xc3 {
            Cpu::jp_u16_post(pre, post)
        } else if opcode == 0xe9 {
            Cpu::jp_hl_post(pre, post)
        } else if opcode == 0xc4 || opcode == 0xd4 || opcode == 0xcc || opcode == 0xdc {
            Cpu::call_cond_u16_post(pre, post, opcode)
        } else if opcode == 0xcd {
            Cpu::call_u16_post(pre, post)
        } else if opcode == 0xc7 || opcode == 0xd7 || opcode == 0xe7 || opcode == 0xf7
            || opcode == 0xcf || opcode == 0xdf || opcode == 0xef || opcode == 0xff {
            Cpu::rst_post(pre, post, opcode)
        } else if opcode == 0xe0 {
            Cpu::ld_ptr_ff00_u8_a_post(pre, post)
        } else if opcode == 0xf0 {
            Cpu::ld_a_ptr_ff00_u8_post(pre, post)
        } else if opcode == 0xe2 {
            Cpu::ld_ptr_ff00_c_a_post(pre, post)
        } else if opcode == 0xf2 {
            Cpu::ld_a_ptr_ff00_c_post(pre, post)
        } else if opcode == 0xea {
            Cpu::ld_ptr_u16_a_post(pre, post)
        } else if opcode == 0xfa {
            Cpu::ld_a_ptr_u16_post(pre, post)
        } else if opcode == 0xe8 {
            Cpu::add_sp_i8_post(pre, post)
        } else if opcode == 0xf8 {
            Cpu::ld_hl_sp_i8_post(pre, post)
        } else if opcode == 0xf9 {
            Cpu::ld_sp_hl_post(pre, post)
        } else if opcode == 0xf3 {
            Cpu::di_post(pre, post)
        } else if opcode == 0xfb {
            Cpu::ei_post(pre, post)
        } else if opcode == 0xcb {
            Cpu::exec_cb_post(pre, post, pre.imm8())
        } else {
            false
        }
    }

    /// The exact effect of one CB-prefixed instruction, by operand byte.
    pub open spec fn exec_cb_post(pre: Cpu, post: Cpu, cb: u8) -> bool {
        let fam = cb / 64;
        let sub = cb / 8 % 8;
        if fam == 0 {
            if cb % 8 == 6 {
                if sub == 0 {
                    Cpu::rlc_ptr_hl_post(pre, post)
                } else if sub == 1 {
                    Cpu::rrc_ptr_hl_post(pre, post)
                } else if sub == 2 {
                    Cpu::rl_ptr_hl_post(pre, post)
                } else if sub == 3 {
                    Cpu::rr_ptr_hl_post(pre, post)
                } else if sub == 4 {
                    Cpu::sla_ptr_hl_post(pre, post)
                } else if sub == 5 {
                    Cpu::sra_ptr_hl_post(pre, post)
                } else if sub == 6 {
                    Cpu::swap_ptr_hl_post(pre, post)
                } else {
                    Cpu::srl_ptr_hl_post(pre, post)
                }
            } else {
                if sub == 0 {
                    Cpu::rlc_r8_post(pre, post, cb)
                } else if sub == 1 {
                    Cpu::rrc_r8_post(pre, post, cb)
                } else if sub == 2 {
                    Cpu::rl_r8_post(pre, post, cb)
                } else if sub == 3 {
                    Cpu::rr_r8_post(pre, post, cb)
                } else if sub == 4 {
                    Cpu::sla_r8_post(pre, post, cb)
                } else if sub == 5 {
                    Cpu::sra_r8_post(pre, post, cb)
                } else if sub == 6 {
                    Cpu::swap_r8_post(pre, post, cb)
                } else {
                    Cpu::srl_r8_post(pre, post, cb)
                }
            }
        } else if fam == 1 {
            if cb % 8 == 6 {
                Cpu::bit_b_ptr_hl_post(pre, post, cb)
            } else {
                Cpu::bit_b_r8_post(pre, post, cb)
            }
        } else if fam == 2 {
            if cb % 8 == 6 {
                Cpu::res_b_ptr_hl_post(pre, post, cb)
            } else {
                Cpu::res_b_r8_post(pre, post, cb)
            }
        } else {
            if cb % 8 == 6 {
                Cpu::set_b_ptr_hl_post(pre, post, cb)
            } else {
                Cpu::set_b_r8_post(pre, post, cb)
            }
        }
    }

    /// Decodes and runs one instruction.  Every implemented opcode
    /// dispatches to its own function, whose contract states the exact
    /// effect; the eleven unused encodings, and STOP (0x10), which this
    /// core does not support, stop the machine with the offending byte
    /// and change nothing.
    #[verifier::rlimit(100)]
    #[verifier::spinoff_prover]
    pub fn execute(&mut self, opcode: u8) -> (r: Result<(), CoreError>)
        requires
            old(self).wf(),
            old(self).delay == 0,
        ensures
            final(self).wf(),
            r is Err <==> is_unsupported_opcode(opcode),
            r matches Err(e) ==> e == CoreError::IllegalOpcode(opcode) && *final(self) == *old(
                self,
            ),
            r is Ok ==> Cpu::exec_post(*old(self), *final(self), opcode),
    {
        match opcode {
            0x00 => self.nop(),
            0x01 | 0x11 | 0x21 | 0x31 => self.ld_r16_u16(opcode),
            0x02 => self.ld_ptr_bc_a(),
            0x12 => self.ld_ptr_de_a(),
            0x03 | 0x13 | 0x23 | 0x33 => self.inc_r16(opcode),
            0x0b | 0x1b | 0x2b | 0x3b => self.dec_r16(opcode),
            0x04 | 0x14 | 0x24 | 0x0c | 0x1c | 0x2c | 0x3c => self.inc_r8(opcode),
            0x05 | 0x15 | 0x25 | 0x0d | 0x1d | 0x2d | 0x3d => self.dec_r8(opcode),
            0x34 => self.inc_ptr_hl(),
            0x35 => self.dec_ptr_hl(),
            0x06 | 0x16 | 0x26 | 0x0e | 0x1e | 0x2e | 0x3e => self.ld_r8_u8(opcode),
            0x36 => self.ld_ptr_hl_u8(),
            0x07 => self.rlca(),
            0x0f => self.rrca(),
            0x17 => self.rla(),
            0x1f => self.rra(),
            0x08 => self.ld_ptr_u16_sp(),
            0x09 | 0x19 | 0x29 | 0x39 => self.add_hl_rr(opcode),
            0x0a => self.ld_a_ptr_bc(),
            0x1a => self.ld_a_ptr_de(),
            0x18 => self.jr_i8(),
            0x20 | 0x30 | 0x28 | 0x38 => self.jr_cond_i8(opcode),
            0x22 => self.ld_ptr_hli_a(),
            0x32 => self.ld_ptr_hld_a(),
            0x2a => self.ld_a_ptr_hli(),
            0x3a => self.ld_a_ptr_hld(),
            0x27 => self.daa(),
            0x2f => self.cpl(),
            0x37 => self.scf(),
            0x3f => self.ccf(),
            0x76 => self.halt(),
            0x40..=0x45 | 0x47..=0x4d | 0x4f | 0x50..=0x55 | 0x57..=0x5d | 0x5f | 0x60..=0x65
                | 0x67..=0x6d | 0x6f | 0x78..=0x7d | 0x7f => self.ld_r8_r8(opcode),
            0x46 | 0x56 | 0x66 | 0x4e | 0x5e | 0x6e | 0x7e => self.ld_r8_ptr_hl(opcode),
            0x70..=0x75 | 0x77 => self.ld_ptr_hl_r(opcode),
            0x80..=0x85 | 0x87 => self.add_a_r8(opcode),
            0x88..=0x8d | 0x8f => self.adc_a_r8(opcode),
            0x90..=0x95 | 0x97 => self.sub_a_r8(opcode),
            0x98..=0x9d | 0x9f => self.sbc_a_r8(opcode),
            0xa0..=0xa5 | 0xa7 => self.and_a_r8(opcode),
            0xa8..=0xad | 0xaf => self.xor_a_r8(opcode),
            0xb0..=0xb5 | 0xb7 => self.or_a_r8(opcode),
            0xb8..=0xbd | 0xbf => self.cp_a_r8(opcode),
            0x86 => self.add_a_ptr_hl(),
            0x8e => self.adc_a_ptr_hl(),
            0x96 => self.sub_a_ptr_hl(),
            0x9e => self.sbc_a_ptr_hl(),
            0xa6 => self.and_a_ptr_hl(),
            0xae => self.xor_a_ptr_hl(),
            0xb6 => self.or_a_ptr_hl(),
            0xbe => self.cp_a_ptr_hl(),
            0xc6 => self.add_a_u8(),
            0xce => self.adc_a_u8(),
            0xd6 => self.sub_a_u8(),
            0xde => self.sbc_a_u8(),
            0xe6 => self.and_a_u8(),
            0xee => self.xor_a_u8(),
            0xf6 => self.or_a_u8(),
            0xfe => self.cp_a_u8(),
            0xc0 | 0xd0 | 0xc8 | 0xd8 => self.ret_cond(opcode),
            0xc9 => self.ret(),
            0xd9 => self.reti(),
            0xc1 | 0xd1 | 0xe1 | 0xf1 => self.pop_r16(opcode),
            0xc5 | 0xd5 | 0xe5 | 0xf5 => self.push_r16(opcode),
            0xc2 | 0xd2 | 0xca | 0xda => self.jp_cond_u16(opcode),
            0xc3 => self.jp_u16(),
            0xe9 => self.jp_hl(),
            0xc4 | 0xd4 | 0xcc | 0xdc => self.call_cond_u16(opcode),
            0xcd => self.call_u16(),
            0xc7 | 0xd7 | 0xe7 | 0xf7 | 0xcf | 0xdf | 0xef | 0xff => self.rst(opcode),
            0xe0 => self.ld_ptr_ff00_u8_a(),
            0xf0 => self.ld_a_ptr_ff00_u8(),
            0xe2 => self.ld_ptr_ff00_c_a(),
            0xf2 => self.ld_a_ptr_ff00_c(),
            0xea => self.ld_ptr_u16_a(),
            0xfa => self.ld_a_ptr_u16(),
            0xe8 => self.add_sp_i8(),
            0xf8 => self.ld_hl_sp_i8(),
            0xf9 => self.ld_sp_hl(),
            0xf3 => self.di(),
            0xfb => self.ei(),
            0xcb => {
                let cb = self.fetch_imm8();
                self.execute_cb(cb);
            },
            _ => {
                return Err(CoreError::IllegalOpcode(opcode));
            },
        }
        Ok(())
    }

    /// Runs one CB-prefixed instruction; every encoding is meaningful.
    fn execute_cb(&mut self, cb: u8)
        requires
            old(self).wf(),
            old(self).delay == 0,
        ensures
            final(self).wf(),
            Cpu::exec_cb_post(*old(self), *final(self), cb),
    {
        let fam = cb / 64;
        let reg = cb % 8;
        if fam == 0 {
            let sub = cb / 8 % 8;
            if reg == 6 {
                match sub {
                    0 => self.rlc_ptr_hl(),
                    1 => self.rrc_ptr_hl(),
                    2 => self.rl_ptr_hl(),
                    3 => self.rr_ptr_hl(),
                    4 => self.sla_ptr_hl(),
                    5 => self.sra_ptr_hl(),
                    6 => self.swap_ptr_hl(),
                    _ => self.srl_ptr_hl(),
                }
            } else {
                match sub {
                    0 => self.rlc_r8(cb),
                    1 => self.rrc_r8(cb),
                    2 => self.rl_r8(cb),
                    3 => self.rr_r8(cb),
                    4 => self.sla_r8(cb),
                    5 => self.sra_r8(cb),
                    6 => self.swap_r8(cb),
                    _ => self.srl_r8(cb),
                }
            }
        } else if fam == 1 {
            if reg == 6 {
                self.bit_b_ptr_hl(cb);
            } else {
                self.bit_b_r8(cb);
            }
        } else if fam == 2 {
            if reg == 6 {
                self.res_b_ptr_hl(cb);
            } else {
                self.res_b_r8(cb);
            }
        } else {
            if reg == 6 {
                self.set_b_ptr_hl(cb);
            } else {
                self.set_b_r8(cb);
            }
        }
    }
    /// The exact effect of `add_a_r8`, as its contract states it.
    pub open spec fn add_a_r8_post(pre: Cpu, post: Cpu, opcode: u8) -> bool {
        post == pre.with_acc(
            add_val(pre.acc(), pre.registers.r8(opcode % 8), 0),
            add_flags(pre.acc(), pre.registers.r8(opcode % 8), 0),
            1,
            1,
        )
    }

    /// The exact effect of `add_a_u8`, as its contract states it.
    pub open spec fn add_a_u8_post(pre: Cpu, post: Cpu) -> bool {
        post == pre.with_acc(
            add_val(pre.acc(), pre.imm8(), 0),
            add_flags(pre.acc(), pre.imm8(), 0),
            2,
            2,
        )
    }

    /// The exact effect of `add_a_ptr_hl`, as its contract states it.
    pub open spec fn add_a_ptr_hl_post(pre: Cpu, post: Cpu) -> bool {
        post == pre.with_acc(
            add_val(pre.acc(), pre.mem(pre.registers.hl.value()), 0),
            add_flags(pre.acc(), pre.mem(pre.registers.hl.value()), 0),
            1,
            2,
        )
    }

    /// The exact effect of `adc_a_r8`, as its contract states it.
    pub open spec fn adc_a_r8_post(pre: Cpu, post: Cpu, opcode: u8) -> bool {
        post == pre.with_acc(
            add_val(pre.acc(), pre.registers.r8(opcode % 8), if pre.flags().c { 1u8 } else { 0u8 }),
            add_flags(pre.acc(), pre.registers.r8(opcode % 8), if pre.flags().c { 1u8 } else { 0u8 }),
            1,
            1,
        )
    }

    /// The exact effect of `adc_a_u8`, as its contract states it.
    pub open spec fn adc_a_u8_post(pre: Cpu, post: Cpu) -> bool {
        post == pre.with_acc(
            add_val(pre.acc(), pre.imm8(), if pre.flags().c { 1u8 } else { 0u8 }),
            add_flags(pre.acc(), pre.imm8(), if pre.flags().c { 1u8 } else { 0u8 }),
            2,
            2,
        )
    }

    /// The exact effect of `adc_a_ptr_hl`, as its contract states it.
    pub open spec fn adc_a_ptr_hl_post(pre: Cpu, post: Cpu) -> bool {
        post == pre.with_acc(
            add_val(pre.acc(), pre.mem(pre.registers.hl.value()), if pre.flags().c { 1u8 } else { 0u8 }),
            add_flags(pre.acc(), pre.mem(pre.registers.hl.value()), if pre.flags().c { 1u8 } else { 0u8 }),
            1,
            2,
        )
    }

    /// The exact effect of `sub_a_r8`, as its contract states it.
    pub open spec fn sub_a_r8_post(pre: Cpu, post: Cpu, opcode: u8) -> bool {
        post == pre.with_acc(
            sub_val(pre.acc(), pre.registers.r8(opcode % 8), 0),
            sub_flags(pre.acc(), pre.registers.r8(opcode % 8), 0),
            1,
            1,
        )
    }

    /// The exact effect of `sub_a_u8`, as its contract states it.
    pub open spec fn sub_a_u8_post(pre: Cpu, post: Cpu) -> bool {
        post == pre.with_acc(
            sub_val(pre.acc(), pre.imm8(), 0),
            sub_flags(pre.acc(), pre.imm8(), 0),
            2,
            2,
        )
    }

    /// The exact effect of `sub_a_ptr_hl`, as its contract states it.
    pub open spec fn sub_a_ptr_hl_post(pre: Cpu, post: Cpu) -> bool {
        post == pre.with_acc(
            sub_val(pre.acc(), pre.mem(pre.registers.hl.value()), 0),
            sub_flags(pre.acc(), pre.mem(pre.registers.hl.value()), 0),
            1,
            2,
        )
    }

    /// The exact effect of `sbc_a_r8`, as its contract states it.
    pub open spec fn sbc_a_r8_post(pre: Cpu, post: Cpu, opcode: u8) -> bool {
        post == pre.with_acc(
            sub_val(pre.acc(), pre.registers.r8(opcode % 8), if pre.flags().c { 1u8 } else { 0u8 }),
            sub_flags(pre.acc(), pre.registers.r8(opcode % 8), if pre.flags().c { 1u8 } else { 0u8 }),
            1,
            1,
        )
    }

    /// The exact effect of `sbc_a_u8`, as its contract states it.
    pub open spec fn sbc_a_u8_post(pre: Cpu, post: Cpu) -> bool {
        post == pre.with_acc(
            sub_val(pre.acc(), pre.imm8(), if pre.flags().c { 1u8 } else { 0u8 }),
            sub_flags(pre.acc(), pre.imm8(), if pre.flags().c { 1u8 } else { 0u8 }),
            2,
            2,
        )
    }

    /// The exact effect of `sbc_a_ptr_hl`, as its contract states it.
    pub open spec fn sbc_a_ptr_hl_post(pre: Cpu, post: Cpu) -> bool {
        post == pre.with_acc(
            sub_val(pre.acc(), pre.mem(pre.registers.hl.value()), if pre.flags().c { 1u8 } else { 0u8 }),
            sub_flags(pre.acc(), pre.mem(pre.registers.hl.value()), if pre.flags().c { 1u8 } else { 0u8 }),
            1,
            2,
        )
    }

    /// The exact effect of `and_a_r8`, as its contract states it.
    pub open spec fn and_a_r8_post(pre: Cpu, post: Cpu, opcode: u8) -> bool {
        post == pre.with_acc(
            (pre.acc() & pre.registers.r8(opcode % 8)),
            logic_flags(pre.acc() & pre.registers.r8(opcode % 8), true),
            1,
            1,
        )
    }

    /// The exact effect of `and_a_u8`, as its contract states it.
    pub open spec fn and_a_u8_post(pre: Cpu, post: Cpu) -> bool {
        post == pre.with_acc(
            (pre.acc() & pre.imm8()),
            logic_flags(pre.acc() & pre.imm8(), true),
            2,
            2,
        )
    }

    /// The exact effect of `and_a_ptr_hl`, as its contract states it.
    pub open spec fn and_a_ptr_hl_post(pre: Cpu, post: Cpu) -> bool {
        post == pre.with_acc(
            (pre.acc() & pre.mem(pre.registers.hl.value())),
            logic_flags(pre.acc() & pre.mem(pre.registers.hl.value()), true),
            1,
            2,
        )
    }

    /// The exact effect of `xor_a_r8`, as its contract states it.
    pub open spec fn xor_a_r8_post(pre: Cpu, post: Cpu, opcode: u8) -> bool {
        post == pre.with_acc(
            (pre.acc() ^ pre.registers.r8(opcode % 8)),
            logic_flags(pre.acc() ^ pre.registers.r8(opcode % 8), false),
            1,
            1,
        )
    }

    /// The exact effect of `xor_a_u8`, as its contract states it.
    pub open spec fn xor_a_u8_post(pre: Cpu, post: Cpu) -> bool {
        post == pre.with_acc(
            (pre.acc() ^ pre.imm8()),
            logic_flags(pre.acc() ^ pre.imm8(), false),
            2,
            2,
        )
    }

    /// The exact effect of `xor_a_ptr_hl`, as its contract states it.
    pub open spec fn xor_a_ptr_hl_post(pre: Cpu, post: Cpu) -> bool {
        post == pre.with_acc(
            (pre.acc() ^ pre.mem(pre.registers.hl.value())),
            logic_flags(pre.acc() ^ pre.mem(pre.registers.hl.value()), false),
            1,
            2,
        )
    }

    /// The exact effect of `or_a_r8`, as its contract states it.
    pub open spec fn or_a_r8_post(pre: Cpu, post: Cpu, opcode: u8) -> bool {
        post == pre.with_acc(
            (pre.acc() | pre.registers.r8(opcode % 8)),
            logic_flags(pre.acc() | pre.registers.r8(opcode % 8), false),
            1,
            1,
        )
    }

    /// The exact effect of `or_a_u8`, as its contract states it.
    pub open spec fn or_a_u8_post(pre: Cpu, post: Cpu) -> bool {
        post == pre.with_acc(
            (pre.acc() | pre.imm8()),
            logic_flags(pre.acc() | pre.imm8(), false),
            2,
            2,
        )
    }

    /// The exact effect of `or_a_ptr_hl`, as its contract states it.
    pub open spec fn or_a_ptr_hl_post(pre: Cpu, post: Cpu) -> bool {
        post == pre.with_acc(
            (pre.acc() | pre.mem(pre.registers.hl.value())),
            logic_flags(pre.acc() | pre.mem(pre.registers.hl.value()), false),
            1,
            2,
        )
    }

    /// The exact effect of `cp_a_r8`, as its contract states it.
    pub open spec fn cp_a_r8_post(pre: Cpu, post: Cpu, opcode: u8) -> bool {
        post == pre.with_flags(
            
            sub_flags(pre.acc(), pre.registers.r8(opcode % 8), 0),
            1,
            1,
        )
    }

    /// The exact effect of `cp_a_u8`, as its contract states it.
    pub open spec fn cp_a_u8_post(pre: Cpu, post: Cpu) -> bool {
        post == pre.with_flags(
            
            sub_flags(pre.acc(), pre.imm8(), 0),
            2,
            2,
        )
    }

    /// The exact effect of `cp_a_ptr_hl`, as its contract states it.
    pub open spec fn cp_a_ptr_hl_post(pre: Cpu, post: Cpu) -> bool {
        post == pre.with_flags(
            
            sub_flags(pre.acc(), pre.mem(pre.registers.hl.value()), 0),
            1,
            2,
        )
    }

    /// The exact effect of `ld_r16_u16`, as its contract states it.
    pub open spec fn ld_r16_u16_post(pre: Cpu, post: Cpu, opcode: u8) -> bool {
        post == pre.with_regs(
            pre.registers.with_r16(opcode / 16 % 4, pre.imm16()).with_pc_add(3),
            3,
        )
    }

    /// The exact effect of `ld_r8_u8`, as its contract states it.
    pub open spec fn ld_r8_u8_post(pre: Cpu, post: Cpu, opcode: u8) -> bool {
        post == pre.with_regs(
            pre.registers.with_r8(opcode / 8 % 8, pre.imm8()).with_pc_add(2),
            2,
        )
    }

    /// The exact effect of `ld_r8_r8`, as its contract states it.
    pub open spec fn ld_r8_r8_post(pre: Cpu, post: Cpu, opcode: u8) -> bool {
        post == pre.with_regs(
            pre.registers.with_r8(
                opcode / 8 % 8,
                pre.registers.r8(opcode % 8),
            ).with_pc_add(1),
            1,
        )
    }

    /// The exact effect of `ld_r8_ptr_hl`, as its contract states it.
    pub open spec fn ld_r8_ptr_hl_post(pre: Cpu, post: Cpu, opcode: u8) -> bool {
        post == pre.with_regs(
            pre.registers.with_r8(
                opcode / 8 % 8,
                pre.mem(pre.registers.hl.value()),
            ).with_pc_add(1),
            2,
        )
    }

    /// The exact effect of `ld_ptr_hl_r`, as its contract states it.
    pub open spec fn ld_ptr_hl_r_post(pre: Cpu, post: Cpu, opcode: u8) -> bool {
        &&& Mmu::write_post(
            pre.mmu,
            post.mmu,
            pre.registers.hl.value(),
            pre.registers.r8(opcode % 8),
        )
        &&& post == (Cpu {
            mmu: post.mmu,
            registers: pre.registers.with_pc_add(1),
            delay: 2usize,
            ..pre
        })
    }

    /// The exact effect of `ld_ptr_hl_u8`, as its contract states it.
    pub open spec fn ld_ptr_hl_u8_post(pre: Cpu, post: Cpu) -> bool {
        &&& Mmu::write_post(
            pre.mmu,
            post.mmu,
            pre.registers.hl.value(),
            pre.imm8(),
        )
        &&& post == (Cpu {
            mmu: post.mmu,
            registers: pre.registers.with_pc_add(2),
            delay: 3usize,
            ..pre
        })
    }

    /// The exact effect of `ld_a_ptr_bc`, as its contract states it.
    pub open spec fn ld_a_ptr_bc_post(pre: Cpu, post: Cpu) -> bool {
        post == pre.with_acc(
            pre.mem(pre.registers.bc.value()),
            pre.flags(),
            1,
            2,
        )
    }

    /// The exact effect of `ld_a_ptr_de`, as its contract states it.
    pub open spec fn ld_a_ptr_de_post(pre: Cpu, post: Cpu) -> bool {
        post == pre.with_acc(
            pre.mem(pre.registers.de.value()),
            pre.flags(),
            1,
            2,
        )
    }

    /// The exact effect of `ld_ptr_bc_a`, as its contract states it.
    pub open spec fn ld_ptr_bc_a_post(pre: Cpu, post: Cpu) -> bool {
        &&& Mmu::write_post(
            pre.mmu,
            post.mmu,
            pre.registers.bc.value(),
            pre.acc(),
        )
        &&& post == (Cpu {
            mmu: post.mmu,
            registers: pre.registers.with_pc_add(1),
            delay: 2usize,
            ..pre
        })
    }

    /// The exact effect of `ld_ptr_de_a`, as its contract states it.
    pub open spec fn ld_ptr_de_a_post(pre: Cpu, post: Cpu) -> bool {
        &&& Mmu::write_post(
            pre.mmu,
            post.mmu,
            pre.registers.de.value(),
            pre.acc(),
        )
        &&& post == (Cpu {
            mmu: post.mmu,
            registers: pre.registers.with_pc_add(1),
            delay: 2usize,
            ..pre
        })
    }

    /// The exact effect of `ld_a_ptr_hli`, as its contract states it.
    pub open spec fn ld_a_ptr_hli_post(pre: Cpu, post: Cpu) -> bool {
        post == pre.with_regs(
            CpuRegisters {
                af: RegisterAF {
                    high: Register8(pre.mem(pre.registers.hl.value())),
                    ..pre.registers.af
                },
                hl: Register16::from_value(wrap_add16(pre.registers.hl.value(), 1)),
                ..pre.registers
            }.with_pc_add(1),
            2,
        )
    }

    /// The exact effect of `ld_a_ptr_hld`, as its contract states it.
    pub open spec fn ld_a_ptr_hld_post(pre: Cpu, post: Cpu) -> bool {
        post == pre.with_regs(
            CpuRegisters {
                af: RegisterAF {
                    high: Register8(pre.mem(pre.registers.hl.value())),
                    ..pre.registers.af
                },
                hl: Register16::from_value(wrap_sub16(pre.registers.hl.value(), 1)),
                ..pre.registers
            }.with_pc_add(1),
            2,
        )
    }

    /// The exact effect of `ld_ptr_hli_a`, as its contract states it.
    pub open spec fn ld_ptr_hli_a_post(pre: Cpu, post: Cpu) -> bool {
        &&& Mmu::write_post(
            pre.mmu,
            post.mmu,
            pre.registers.hl.value(),
            pre.acc(),
        )
        &&& post == (Cpu {
            mmu: post.mmu,
            registers: (CpuRegisters {
                hl: Register16::from_value(wrap_add16(pre.registers.hl.value(), 1)),
                ..pre.registers
            }).with_pc_add(1),
            delay: 2usize,
            ..pre
        })
    }

    /// The exact effect of `ld_ptr_hld_a`, as its contract states it.
    pub open spec fn ld_ptr_hld_a_post(pre: Cpu, post: Cpu) -> bool {
        &&& Mmu::write_post(
            pre.mmu,
            post.mmu,
            pre.registers.hl.value(),
            pre.acc(),
        )
        &&& post == (Cpu {
            mmu: post.mmu,
            registers: (CpuRegisters {
                hl: Register16::from_value(wrap_sub16(pre.registers.hl.value(), 1)),
                ..pre.registers
            }).with_pc_add(1),
            delay: 2usize,
            ..pre
        })
    }

    /// The exact effect of `ld_a_ptr_u16`, as its contract states it.
    pub open spec fn ld_a_ptr_u16_post(pre: Cpu, post: Cpu) -> bool {
        post == pre.with_acc(
            pre.mem(pre.imm16()),
            pre.flags(),
            3,
            4,
        )
    }

    /// The exact effect of `ld_ptr_u16_a`, as its contract states it.
    pub open spec fn ld_ptr_u16_a_post(pre: Cpu, post: Cpu) -> bool {
        &&& Mmu::write_post(pre.mmu, post.mmu, pre.imm16(), pre.acc())
        &&& post == (Cpu {
            mmu: post.mmu,
            registers: pre.registers.with_pc_add(3),
            delay: 4usize,
            ..pre
        })
    }

    /// The exact effect of `ld_a_ptr_ff00_u8`, as its contract states it.
    pub open spec fn ld_a_ptr_ff00_u8_post(pre: Cpu, post: Cpu) -> bool {
        post == pre.with_acc(
            pre.mem((0xff00 + pre.imm8()) as u16),
            pre.flags(),
            2,
            3,
        )
    }

    /// The exact effect of `ld_ptr_ff00_u8_a`, as its contract states it.
    pub open spec fn ld_ptr_ff00_u8_a_post(pre: Cpu, post: Cpu) -> bool {
        &&& Mmu::write_post(
            pre.mmu,
            post.mmu,
            (0xff00 + pre.imm8()) as u16,
            pre.acc(),
        )
        &&& post == (Cpu {
            mmu: post.mmu,
            registers: pre.registers.with_pc_add(2),
            delay: 3usize,
            ..pre
        })
    }

    /// The exact effect of `ld_a_ptr_ff00_c`, as its contract states it.
    pub open spec fn ld_a_ptr_ff00_c_post(pre: Cpu, post: Cpu) -> bool {
        post == pre.with_acc(
            pre.mem((0xff00 + pre.registers.bc.low.0) as u16),
            pre.flags(),
            1,
            2,
        )
    }

    /// The exact effect of `ld_ptr_ff00_c_a`, as its contract states it.
    pub open spec fn ld_ptr_ff00_c_a_post(pre: Cpu, post: Cpu) -> bool {
        &&& Mmu::write_post(
            pre.mmu,
            post.mmu,
            (0xff00 + pre.registers.bc.low.0) as u16,
            pre.acc(),
        )
        &&& post == (Cpu {
            mmu: post.mmu,
            registers: pre.registers.with_pc_add(1),
            delay: 2usize,
            ..pre
        })
    }

    /// The exact effect of `ld_ptr_u16_sp`, as its contract states it.
    pub open spec fn ld_ptr_u16_sp_post(pre: Cpu, post: Cpu) -> bool {
        &&& exists|m: Mmu|
            Mmu::write_post(
                pre.mmu,
                m,
                pre.imm16(),
                (pre.registers.sp.value() % 256) as u8,
            ) && #[trigger] Mmu::write_post(
                m,
                post.mmu,
                wrap_add16(pre.imm16(), 1),
                (pre.registers.sp.value() / 256) as u8,
            )
        &&& post == (Cpu {
            mmu: post.mmu,
            registers: pre.registers.with_pc_add(3),
            delay: 5usize,
            ..pre
        })
    }

    /// The exact effect of `ld_sp_hl`, as its contract states it.
    pub open spec fn ld_sp_hl_post(pre: Cpu, post: Cpu) -> bool {
        post == pre.with_regs(
            (CpuRegisters {
                sp: Register16::from_value(pre.registers.hl.value()),
                ..pre.registers
            }).with_pc_add(1),
            2,
        )
    }

    /// The exact effect of `inc_r8`, as its contract states it.
    pub open spec fn inc_r8_post(pre: Cpu, post: Cpu, opcode: u8) -> bool {
        ({
            let v = pre.registers.r8(opcode / 8 % 8);
            post == pre.with_regs(
                (CpuRegisters {
                    af: RegisterAF {
                        low: FlagRegister {
                            z: wrap_add8(v, 1) == 0,
                            n: false,
                            h: v % 16 == 15,
                            c: pre.flags().c,
                        },
                        ..pre.registers.with_r8(opcode / 8 % 8, wrap_add8(v, 1)).af
                    },
                    ..pre.registers.with_r8(opcode / 8 % 8, wrap_add8(v, 1))
                }).with_pc_add(1),
                1,
            )
        })
    }

    /// The exact effect of `dec_r8`, as its contract states it.
    pub open spec fn dec_r8_post(pre: Cpu, post: Cpu, opcode: u8) -> bool {
        ({
            let v = pre.registers.r8(opcode / 8 % 8);
            post == pre.with_regs(
                (CpuRegisters {
                    af: RegisterAF {
                        low: FlagRegister {
                            z: wrap_sub8(v, 1) == 0,
                            n: true,
                            h: v % 16 == 0,
                            c: pre.flags().c,
                        },
                        ..pre.registers.with_r8(opcode / 8 % 8, wrap_sub8(v, 1)).af
                    },
                    ..pre.registers.with_r8(opcode / 8 % 8, wrap_sub8(v, 1))
                }).with_pc_add(1),
                1,
            )
        })
    }

    /// The exact effect of `inc_ptr_hl`, as its contract states it.
    pub open spec fn inc_ptr_hl_post(pre: Cpu, post: Cpu) -> bool {
        ({
            let v = pre.mem(pre.registers.hl.value());
            &&& Mmu::write_post(
                pre.mmu,
                post.mmu,
                pre.registers.hl.value(),
                wrap_add8(v, 1),
            )
            &&& post == (Cpu {
                mmu: post.mmu,
                registers: (CpuRegisters {
                    af: RegisterAF {
                        low: FlagRegister {
                            z: wrap_add8(v, 1) == 0,
                            n: false,
                            h: v % 16 == 15,
                            c: pre.flags().c,
                        },
                        ..pre.registers.af
                    },
                    ..pre.registers
                }).with_pc_add(1),
                delay: 3usize,
                ..pre
            })
        })
    }

    /// The exact effect of `dec_ptr_hl`, as its contract states it.
    pub open spec fn dec_ptr_hl_post(pre: Cpu, post: Cpu) -> bool {
        ({
            let v = pre.mem(pre.registers.hl.value());
            &&& Mmu::write_post(
                pre.mmu,
                post.mmu,
                pre.registers.hl.value(),
                wrap_sub8(v, 1),
            )
            &&& post == (Cpu {
                mmu: post.mmu,
                registers: (CpuRegisters {
                    af: RegisterAF {
                        low: FlagRegister {
                            z: wrap_sub8(v, 1) == 0,
                            n: true,
                            h: v % 16 == 0,
                            c: pre.flags().c,
                        },
                        ..pre.registers.af
                    },
                    ..pre.registers
                }).with_pc_add(1),
                delay: 3usize,
                ..pre
            })
        })
    }

    /// The exact effect of `inc_r16`, as its contract states it.
    pub open spec fn inc_r16_post(pre: Cpu, post: Cpu, opcode: u8) -> bool {
        post == pre.with_regs(
            pre.registers.with_r16(
                opcode / 16 % 4,
                wrap_add16(pre.registers.r16(opcode / 16 % 4), 1),
            ).with_pc_add(1),
            2,
        )
    }

    /// The exact effect of `dec_r16`, as its contract states it.
    pub open spec fn dec_r16_post(pre: Cpu, post: Cpu, opcode: u8) -> bool {
        post == pre.with_regs(
            pre.registers.with_r16(
                opcode / 16 % 4,
                wrap_sub16(pre.registers.r16(opcode / 16 % 4), 1),
            ).with_pc_add(1),
            2,
        )
    }

    /// The exact effect of `add_hl_rr`, as its contract states it.
    pub open spec fn add_hl_rr_post(pre: Cpu, post: Cpu, opcode: u8) -> bool {
        ({
            let hl = pre.registers.hl.value();
            let v = pre.registers.r16(opcode / 16 % 4);
            post == pre.with_regs(
                (CpuRegisters {
                    hl: Register16::from_value(wrap_add16(hl, v)),
                    af: RegisterAF {
                        low: FlagRegister {
                            z: pre.flags().z,
                            n: false,
                            h: hl % 0x1000 + v % 0x1000 >= 0x1000,
                            c: hl + v >= 0x10000,
                        },
                        ..pre.registers.af
                    },
                    ..pre.registers
                }).with_pc_add(1),
                2,
            )
        })
    }

    /// The exact effect of `add_sp_i8`, as its contract states it.
    pub open spec fn add_sp_i8_post(pre: Cpu, post: Cpu) -> bool {
        post == pre.with_regs(
            (CpuRegisters {
                sp: Register16::from_value(
                    Cpu::sp_offset_val(pre.registers.sp.value(), pre.imm8()),
                ),
                af: RegisterAF {
                    low: Cpu::sp_offset_flags(pre.registers.sp.value(), pre.imm8()),
                    ..pre.registers.af
                },
                ..pre.registers
            }).with_pc_add(2),
            4,
        )
    }

    /// The exact effect of `ld_hl_sp_i8`, as its contract states it.
    pub open spec fn ld_hl_sp_i8_post(pre: Cpu, post: Cpu) -> bool {
        post == pre.with_regs(
            (CpuRegisters {
                hl: Register16::from_value(
                    Cpu::sp_offset_val(pre.registers.sp.value(), pre.imm8()),
                ),
                af: RegisterAF {
                    low: Cpu::sp_offset_flags(pre.registers.sp.value(), pre.imm8()),
                    ..pre.registers.af
                },
                ..pre.registers
            }).with_pc_add(2),
            3,
        )
    }

    /// The exact effect of `daa`, as its contract states it.
    pub open spec fn daa_post(pre: Cpu, post: Cpu) -> bool {
        ({
            let (a, c) = Cpu::daa_result(
                pre.acc(),
                pre.flags().n,
                pre.flags().h,
                pre.flags().c,
            );
            post == pre.with_acc(
                a,
                FlagRegister { z: a == 0, n: pre.flags().n, h: false, c: c },
                1,
                1,
            )
        })
    }

    /// The exact effect of `cpl`, as its contract states it.
    pub open spec fn cpl_post(pre: Cpu, post: Cpu) -> bool {
        post == pre.with_acc(
            (255 - pre.acc()) as u8,
            FlagRegister { n: true, h: true, ..pre.flags() },
            1,
            1,
        )
    }

    /// The exact effect of `scf`, as its contract states it.
    pub open spec fn scf_post(pre: Cpu, post: Cpu) -> bool {
        post == pre.with_flags(
            FlagRegister { z: pre.flags().z, n: false, h: false, c: true },
            1,
            1,
        )
    }

    /// The exact effect of `ccf`, as its contract states it.
    pub open spec fn ccf_post(pre: Cpu, post: Cpu) -> bool {
        post == pre.with_flags(
            FlagRegister {
                z: pre.flags().z,
                n: false,
                h: false,
                c: !pre.flags().c,
            },
            1,
            1,
        )
    }

    /// The exact effect of `rlca`, as its contract states it.
    pub open spec fn rlca_post(pre: Cpu, post: Cpu) -> bool {
        post == pre.with_acc(
            crate::cpu::rlc_val(pre.acc()),
            FlagRegister { z: false, n: false, h: false, c: pre.acc() >= 0x80 },
            1,
            1,
        )
    }

    /// The exact effect of `rrca`, as its contract states it.
    pub open spec fn rrca_post(pre: Cpu, post: Cpu) -> bool {
        post == pre.with_acc(
            crate::cpu::rrc_val(pre.acc()),
            FlagRegister { z: false, n: false, h: false, c: pre.acc() % 2 == 1 },
            1,
            1,
        )
    }

    /// The exact effect of `rla`, as its contract states it.
    pub open spec fn rla_post(pre: Cpu, post: Cpu) -> bool {
        post == pre.with_acc(
            crate::cpu::rl_val(pre.acc(), pre.flags().c),
            FlagRegister { z: false, n: false, h: false, c: pre.acc() >= 0x80 },
            1,
            1,
        )
    }

    /// The exact effect of `rra`, as its contract states it.
    pub open spec fn rra_post(pre: Cpu, post: Cpu) -> bool {
        post == pre.with_acc(
            crate::cpu::rr_val(pre.acc(), pre.flags().c),
            FlagRegister { z: false, n: false, h: false, c: pre.acc() % 2 == 1 },
            1,
            1,
        )
    }

    /// The exact effect of `nop`, as its contract states it.
    pub open spec fn nop_post(pre: Cpu, post: Cpu) -> bool {
        post == pre.with_regs(pre.registers.with_pc_add(1), 1)
    }

    /// The exact effect of `jp_u16`, as its contract states it.
    pub open spec fn jp_u16_post(pre: Cpu, post: Cpu) -> bool {
        post == pre.with_regs(
            CpuRegisters {
                pc: Register16::from_value(pre.imm16()),
                ..pre.registers
            },
            4,
        )
    }

    /// The exact effect of `jp_hl`, as its contract states it.
    pub open spec fn jp_hl_post(pre: Cpu, post: Cpu) -> bool {
        post == pre.with_regs(
            CpuRegisters {
                pc: Register16::from_value(pre.registers.hl.value()),
                ..pre.registers
            },
            1,
        )
    }

    /// The exact effect of `jp_cond_u16`, as its contract states it.
    pub open spec fn jp_cond_u16_post(pre: Cpu, post: Cpu, opcode: u8) -> bool {
        &&& pre.registers.cond(opcode / 8 % 4) ==> post == pre.with_regs(
            CpuRegisters {
                pc: Register16::from_value(pre.imm16()),
                ..pre.registers
            },
            4,
        )
        &&& !pre.registers.cond(opcode / 8 % 4) ==> post == pre.with_regs(
            pre.registers.with_pc_add(3),
            3,
        )
    }

    /// The exact effect of `jr_i8`, as its contract states it.
    pub open spec fn jr_i8_post(pre: Cpu, post: Cpu) -> bool {
        post == pre.with_regs(
            CpuRegisters {
                pc: Register16::from_value(Cpu::rel_target(pre.pc(), pre.imm8())),
                ..pre.registers
            },
            3,
        )
    }

    /// The exact effect of `jr_cond_i8`, as its contract states it.
    pub open spec fn jr_cond_i8_post(pre: Cpu, post: Cpu, opcode: u8) -> bool {
        &&& pre.registers.cond(opcode / 8 % 4) ==> post == pre.with_regs(
            CpuRegisters {
                pc: Register16::from_value(Cpu::rel_target(pre.pc(), pre.imm8())),
                ..pre.registers
            },
            3,
        )
        &&& !pre.registers.cond(opcode / 8 % 4) ==> post == pre.with_regs(
            pre.registers.with_pc_add(2),
            2,
        )
    }

    /// The exact effect of `call_u16`, as its contract states it.
    pub open spec fn call_u16_post(pre: Cpu, post: Cpu) -> bool {
        &&& Cpu::push_post(
            pre,
            Cpu {
                registers: CpuRegisters {
                    pc: pre.registers.pc,
                    ..post.registers
                },
                delay: 0usize,
                ..post
            },
            wrap_add16(pre.pc(), 3),
        )
        &&& post.pc() == pre.imm16()
        &&& post.delay == 6
    }

    /// The exact effect of `call_cond_u16`, as its contract states it.
    pub open spec fn call_cond_u16_post(pre: Cpu, post: Cpu, opcode: u8) -> bool {
        &&& pre.registers.cond(opcode / 8 % 4) ==> {
            &&& Cpu::push_post(
                pre,
                Cpu {
                    registers: CpuRegisters {
                        pc: pre.registers.pc,
                        ..post.registers
                    },
                    delay: 0usize,
                    ..post
                },
                wrap_add16(pre.pc(), 3),
            )
            &&& post.pc() == pre.imm16()
            &&& post.delay == 6
        }
        &&& !pre.registers.cond(opcode / 8 % 4) ==> post == pre.with_regs(
            pre.registers.with_pc_add(3),
            3,
        )
    }

    /// The exact effect of `rst`, as its contract states it.
    pub open spec fn rst_post(pre: Cpu, post: Cpu, opcode: u8) -> bool {
        &&& Cpu::push_post(
            pre,
            Cpu {
                registers: CpuRegisters {
                    pc: pre.registers.pc,
                    ..post.registers
                },
                delay: 0usize,
                ..post
            },
            wrap_add16(pre.pc(), 1),
        )
        &&& post.pc() == (opcode / 8 % 8) * 8
        &&& post.delay == 4
    }

    /// The exact effect of `ret`, as its contract states it.
    pub open spec fn ret_post(pre: Cpu, post: Cpu) -> bool {
        post == pre.with_regs(
            CpuRegisters {
                pc: Register16::from_value(pre.stack_top()),
                sp: Register16::from_value(wrap_add16(pre.registers.sp.value(), 2)),
                ..pre.registers
            },
            4,
        )
    }

    /// The exact effect of `ret_cond`, as its contract states it.
    pub open spec fn ret_cond_post(pre: Cpu, post: Cpu, opcode: u8) -> bool {
        &&& pre.registers.cond(opcode / 8 % 4) ==> post == pre.with_regs(
            CpuRegisters {
                pc: Register16::from_value(pre.stack_top()),
                sp: Register16::from_value(wrap_add16(pre.registers.sp.value(), 2)),
                ..pre.registers
            },
            5,
        )
        &&& !pre.registers.cond(opcode / 8 % 4) ==> post == pre.with_regs(
            pre.registers.with_pc_add(1),
            2,
        )
    }

    /// The exact effect of `reti`, as its contract states it.
    pub open spec fn reti_post(pre: Cpu, post: Cpu) -> bool {
        post == (Cpu {
            registers: CpuRegisters {
                pc: Register16::from_value(pre.stack_top()),
                sp: Register16::from_value(wrap_add16(pre.registers.sp.value(), 2)),
                ..pre.registers
            },
            delay: 4usize,
            ime: true,
            ..pre
        })
    }

    /// The exact effect of `push_r16`, as its contract states it.
    pub open spec fn push_r16_post(pre: Cpu, post: Cpu, opcode: u8) -> bool {
        &&& Cpu::push_post(
            pre,
            Cpu {
                registers: CpuRegisters {
                    pc: pre.registers.pc,
                    ..post.registers
                },
                delay: 0usize,
                ..post
            },
            pre.registers.r16_qq(opcode / 16 % 4),
        )
        &&& post.pc() == wrap_add16(pre.pc(), 1)
        &&& post.delay == 4
    }

    /// The exact effect of `pop_r16`, as its contract states it.
    pub open spec fn pop_r16_post(pre: Cpu, post: Cpu, opcode: u8) -> bool {
        post == pre.with_regs(
            (CpuRegisters {
                sp: Register16::from_value(wrap_add16(pre.registers.sp.value(), 2)),
                ..pre.registers.with_r16_qq(opcode / 16 % 4, pre.stack_top())
            }).with_pc_add(1),
            3,
        )
    }

    /// The exact effect of `di`, as its contract states it.
    pub open spec fn di_post(pre: Cpu, post: Cpu) -> bool {
        post == (Cpu {
            registers: pre.registers.with_pc_add(1),
            delay: 1usize,
            ime: false,
            ei_delay: 0u8,
            ..pre
        })
    }

    /// The exact effect of `ei`, as its contract states it.
    pub open spec fn ei_post(pre: Cpu, post: Cpu) -> bool {
        post == (Cpu {
            registers: pre.registers.with_pc_add(1),
            delay: 1usize,
            ei_delay: 2u8,
            ..pre
        })
    }

    /// The exact effect of `halt`, as its contract states it.
    pub open spec fn halt_post(pre: Cpu, post: Cpu) -> bool {
        post == (Cpu {
            registers: pre.registers.with_pc_add(1),
            delay: 1usize,
            halted: true,
            ..pre
        })
    }
}

/// The encodings with no meaning on this CPU, plus STOP (0x10), which
/// this core does not support.
pub open spec fn is_unsupported_opcode(op: u8) -> bool {
    op == 0x10 || op == 0xd3 || op == 0xdb || op == 0xdd || op == 0xe3 || op == 0xe4 || op == 0xeb
        || op == 0xec || op == 0xed || op == 0xf4 || op == 0xfc || op == 0xfd
}

} // verus!
