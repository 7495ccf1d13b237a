//! The CB-prefixed opcodes: rotates, shifts, the nibble swap, and the
//! single-bit test, set and reset operations, on a register or on the
//! byte at the address in HL.  Each function takes the CB operand byte
//! and states the instruction's exact effect, including the m-cycle cost
//! of the whole two-byte instruction.

use vstd::prelude::*;
use crate::cpu::Cpu;
use crate::cpu::bit_pow;
use crate::cpu::bit_pow_x;
use crate::cpu::with_bit_set;
use crate::cpu::with_bit_clear;
use crate::cpu::lemma_bit_bound;
use crate::cpu::rlc_val;
use crate::cpu::rrc_val;
use crate::cpu::rl_val;
use crate::cpu::rr_val;
use crate::cpu::sla_val;
use crate::cpu::sra_val;
use crate::cpu::srl_val;
use crate::cpu::swap_val;
use crate::mmu::Mmu;
use crate::register::CpuRegisters;
use crate::register::FlagRegister;
use crate::register::RegisterAF;
use crate::register::is_r8_code;

verus! {

impl Cpu {

    /// Rotates left, bit 7 into both carry and bit 0, on the register named by the operand's low three bits.
    pub fn rlc_r8(&mut self, opcode: u8)
        requires
            old(self).wf(),
            old(self).delay == 0,
            is_r8_code(opcode % 8),
        ensures
            final(self).wf(),
            Cpu::rlc_r8_post(*old(self), *final(self), opcode),
    {
        let v = self.registers.get_r8(opcode % 8);
        let nv: u8 = v % 128 * 2 + v / 128;
        self.registers.set_r8(opcode % 8, nv);
        self.registers.af.low = FlagRegister { z: nv == 0, n: false, h: false, c: v >= 0x80 };
        self.registers.pc.add_wrapping(2);
        self.delay = 2;
    }

    /// Rotates left, bit 7 into both carry and bit 0, on the byte at the address in HL.
    pub fn rlc_ptr_hl(&mut self)
        requires
            old(self).wf(),
            old(self).delay == 0,
        ensures
            final(self).wf(),
            Cpu::rlc_ptr_hl_post(*old(self), *final(self)),
    {
        let addr = self.registers.hl.read();
        let v = self.mmu.read(addr);
        let nv: u8 = v % 128 * 2 + v / 128;
        self.mmu.write(addr, nv);
        self.registers.af.low = FlagRegister { z: nv == 0, n: false, h: false, c: v >= 0x80 };
        self.registers.pc.add_wrapping(2);
        self.delay = 4;
    }

    /// Rotates right, bit 0 into both carry and bit 7, on the register named by the operand's low three bits.
    pub fn rrc_r8(&mut self, opcode: u8)
        requires
            old(self).wf(),
            old(self).delay == 0,
            is_r8_code(opcode % 8),
        ensures
            final(self).wf(),
            Cpu::rrc_r8_post(*old(self), *final(self), opcode),
    {
        let v = self.registers.get_r8(opcode % 8);
        let nv: u8 = v / 2 + v % 2 * 128;
        self.registers.set_r8(opcode % 8, nv);
        self.registers.af.low = FlagRegister { z: nv == 0, n: false, h: false, c: v % 2 == 1 };
        self.registers.pc.add_wrapping(2);
        self.delay = 2;
    }

    /// Rotates right, bit 0 into both carry and bit 7, on the byte at the address in HL.
    pub fn rrc_ptr_hl(&mut self)
        requires
            old(self).wf(),
            old(self).delay == 0,
        ensures
            final(self).wf(),
            Cpu::rrc_ptr_hl_post(*old(self), *final(self)),
    {
        let addr = self.registers.hl.read();
        let v = self.mmu.read(addr);
        let nv: u8 = v / 2 + v % 2 * 128;
        self.mmu.write(addr, nv);
        self.registers.af.low = FlagRegister { z: nv == 0, n: false, h: false, c: v % 2 == 1 };
        self.registers.pc.add_wrapping(2);
        self.delay = 4;
    }

    /// Rotates left through the carry flag, on the register named by the operand's low three bits.
    pub fn rl_r8(&mut self, opcode: u8)
        requires
            old(self).wf(),
            old(self).delay == 0,
            is_r8_code(opcode % 8),
        ensures
            final(self).wf(),
            Cpu::rl_r8_post(*old(self), *final(self), opcode),
    {
        let v = self.registers.get_r8(opcode % 8);
        let cin: u8 = if self.registers.af.low.c {
            1
        } else {
            0
        };
        let nv: u8 = v % 128 * 2 + cin;
        self.registers.set_r8(opcode % 8, nv);
        self.registers.af.low = FlagRegister { z: nv == 0, n: false, h: false, c: v >= 0x80 };
        self.registers.pc.add_wrapping(2);
        self.delay = 2;
    }

    /// Rotates left through the carry flag, on the byte at the address in HL.
    pub fn rl_ptr_hl(&mut self)
        requires
            old(self).wf(),
            old(self).delay == 0,
        ensures
            final(self).wf(),
            Cpu::rl_ptr_hl_post(*old(self), *final(self)),
    {
        let addr = self.registers.hl.read();
        let v = self.mmu.read(addr);
        let cin: u8 = if self.registers.af.low.c {
            1
        } else {
            0
        };
        let nv: u8 = v % 128 * 2 + cin;
        self.mmu.write(addr, nv);
        self.registers.af.low = FlagRegister { z: nv == 0, n: false, h: false, c: v >= 0x80 };
        self.registers.pc.add_wrapping(2);
        self.delay = 4;
    }

    /// Rotates right through the carry flag, on the register named by the operand's low three bits.
    pub fn rr_r8(&mut self, opcode: u8)
        requires
            old(self).wf(),
            old(self).delay == 0,
            is_r8_code(opcode % 8),
        ensures
            final(self).wf(),
            Cpu::rr_r8_post(*old(self), *final(self), opcode),
    {
        let v = self.registers.get_r8(opcode % 8);
        let cin: u8 = if self.registers.af.low.c {
            128
        } else {
            0
        };
        let nv: u8 = v / 2 + cin;
        self.registers.set_r8(opcode % 8, nv);
        self.registers.af.low = FlagRegister { z: nv == 0, n: false, h: false, c: v % 2 == 1 };
        self.registers.pc.add_wrapping(2);
        self.delay = 2;
    }

    /// Rotates right through the carry flag, on the byte at the address in HL.
    pub fn rr_ptr_hl(&mut self)
        requires
            old(self).wf(),
            old(self).delay == 0,
        ensures
            final(self).wf(),
            Cpu::rr_ptr_hl_post(*old(self), *final(self)),
    {
        let addr = self.registers.hl.read();
        let v = self.mmu.read(addr);
        let cin: u8 = if self.registers.af.low.c {
            128
        } else {
            0
        };
        let nv: u8 = v / 2 + cin;
        self.mmu.write(addr, nv);
        self.registers.af.low = FlagRegister { z: nv == 0, n: false, h: false, c: v % 2 == 1 };
        self.registers.pc.add_wrapping(2);
        self.delay = 4;
    }

    /// Shifts left into the carry flag, on the register named by the operand's low three bits.
    pub fn sla_r8(&mut self, opcode: u8)
        requires
            old(self).wf(),
            old(self).delay == 0,
            is_r8_code(opcode % 8),
        ensures
            final(self).wf(),
            Cpu::sla_r8_post(*old(self), *final(self), opcode),
    {
        let v = self.registers.get_r8(opcode % 8);
        let nv: u8 = v % 128 * 2;
        self.registers.set_r8(opcode % 8, nv);
        self.registers.af.low = FlagRegister { z: nv == 0, n: false, h: false, c: v >= 0x80 };
        self.registers.pc.add_wrapping(2);
        self.delay = 2;
    }

    /// Shifts left into the carry flag, on the byte at the address in HL.
    pub fn sla_ptr_hl(&mut self)
        requires
            old(self).wf(),
            old(self).delay == 0,
        ensures
            final(self).wf(),
            Cpu::sla_ptr_hl_post(*old(self), *final(self)),
    {
        let addr = self.registers.hl.read();
        let v = self.mmu.read(addr);
        let nv: u8 = v % 128 * 2;
        self.mmu.write(addr, nv);
        self.registers.af.low = FlagRegister { z: nv == 0, n: false, h: false, c: v >= 0x80 };
        self.registers.pc.add_wrapping(2);
        self.delay = 4;
    }

    /// Shifts right keeping bit 7, bit 0 into the carry flag, on the register named by the operand's low three bits.
    pub fn sra_r8(&mut self, opcode: u8)
        requires
            old(self).wf(),
            old(self).delay == 0,
            is_r8_code(opcode % 8),
        ensures
            final(self).wf(),
            Cpu::sra_r8_post(*old(self), *final(self), opcode),
    {
        let v = self.registers.get_r8(opcode % 8);
        let nv: u8 = v / 2 + v / 128 * 128;
        self.registers.set_r8(opcode % 8, nv);
        self.registers.af.low = FlagRegister { z: nv == 0, n: false, h: false, c: v % 2 == 1 };
        self.registers.pc.add_wrapping(2);
        self.delay = 2;
    }

    /// Shifts right keeping bit 7, bit 0 into the carry flag, on the byte at the address in HL.
    pub fn sra_ptr_hl(&mut self)
        requires
            old(self).wf(),
            old(self).delay == 0,
        ensures
            final(self).wf(),
            Cpu::sra_ptr_hl_post(*old(self), *final(self)),
    {
        let addr = self.registers.hl.read();
        let v = self.mmu.read(addr);
        let nv: u8 = v / 2 + v / 128 * 128;
        self.mmu.write(addr, nv);
        self.registers.af.low = FlagRegister { z: nv == 0, n: false, h: false, c: v % 2 == 1 };
        self.registers.pc.add_wrapping(2);
        self.delay = 4;
    }

    /// Shifts right, bit 0 into the carry flag, on the register named by the operand's low three bits.
    pub fn srl_r8(&mut self, opcode: u8)
        requires
            old(self).wf(),
            old(self).delay == 0,
            is_r8_code(opcode % 8),
        ensures
            final(self).wf(),
            Cpu::srl_r8_post(*old(self), *final(self), opcode),
    {
        let v = self.registers.get_r8(opcode % 8);
        let nv: u8 = v / 2;
        self.registers.set_r8(opcode % 8, nv);
        self.registers.af.low = FlagRegister { z: nv == 0, n: false, h: false, c: v % 2 == 1 };
        self.registers.pc.add_wrapping(2);
        self.delay = 2;
    }

    /// Shifts right, bit 0 into the carry flag, on the byte at the address in HL.
    pub fn srl_ptr_hl(&mut self)
        requires
            old(self).wf(),
            old(self).delay == 0,
        ensures
            final(self).wf(),
            Cpu::srl_ptr_hl_post(*old(self), *final(self)),
    {
        let addr = self.registers.hl.read();
        let v = self.mmu.read(addr);
        let nv: u8 = v / 2;
        self.mmu.write(addr, nv);
        self.registers.af.low = FlagRegister { z: nv == 0, n: false, h: false, c: v % 2 == 1 };
        self.registers.pc.add_wrapping(2);
        self.delay = 4;
    }

    /// Swaps the two nibbles; carry cleared, on the register named by the operand's low three bits.
    pub fn swap_r8(&mut self, opcode: u8)
        requires
            old(self).wf(),
            old(self).delay == 0,
            is_r8_code(opcode % 8),
        ensures
            final(self).wf(),
            Cpu::swap_r8_post(*old(self), *final(self), opcode),
    {
        let v = self.registers.get_r8(opcode % 8);
        let nv: u8 = v % 16 * 16 + v / 16;
        self.registers.set_r8(opcode % 8, nv);
        self.registers.af.low = FlagRegister { z: nv == 0, n: false, h: false, c: false };
        self.registers.pc.add_wrapping(2);
        self.delay = 2;
    }

    /// Swaps the two nibbles; carry cleared, on the byte at the address in HL.
    pub fn swap_ptr_hl(&mut self)
        requires
            old(self).wf(),
            old(self).delay == 0,
        ensures
            final(self).wf(),
            Cpu::swap_ptr_hl_post(*old(self), *final(self)),
    {
        let addr = self.registers.hl.read();
        let v = self.mmu.read(addr);
        let nv: u8 = v % 16 * 16 + v / 16;
        self.mmu.write(addr, nv);
        self.registers.af.low = FlagRegister { z: nv == 0, n: false, h: false, c: false };
        self.registers.pc.add_wrapping(2);
        self.delay = 4;
    }

    /// Tests bit `b` (operand bits 5..3) of a register: Z is the
    /// complement of the bit, H set, N cleared, C kept.
    pub fn bit_b_r8(&mut self, opcode: u8)
        requires
            old(self).wf(),
            old(self).delay == 0,
            is_r8_code(opcode % 8),
        ensures
            final(self).wf(),
            Cpu::bit_b_r8_post(*old(self), *final(self), opcode),
    {
        let v = self.registers.get_r8(opcode % 8);
        let p = bit_pow_x(opcode / 8 % 8);
        self.registers.af.low = FlagRegister {
            z: v / p % 2 == 0,
            n: false,
            h: true,
            c: self.registers.af.low.c,
        };
        self.registers.pc.add_wrapping(2);
        self.delay = 2;
    }

    /// Tests bit `b` of the byte at the address in HL.
    pub fn bit_b_ptr_hl(&mut self, opcode: u8)
        requires
            old(self).wf(),
            old(self).delay == 0,
        ensures
            final(self).wf(),
            Cpu::bit_b_ptr_hl_post(*old(self), *final(self), opcode),
    {
        let v = self.mmu.read(self.registers.hl.read());
        let p = bit_pow_x(opcode / 8 % 8);
        self.registers.af.low = FlagRegister {
            z: v / p % 2 == 0,
            n: false,
            h: true,
            c: self.registers.af.low.c,
        };
        self.registers.pc.add_wrapping(2);
        self.delay = 3;
    }

    /// Sets bit `b` of a register; no flags change.
    pub fn set_b_r8(&mut self, opcode: u8)
        requires
            old(self).wf(),
            old(self).delay == 0,
            is_r8_code(opcode % 8),
        ensures
            final(self).wf(),
            Cpu::set_b_r8_post(*old(self), *final(self), opcode),
    {
        let v = self.registers.get_r8(opcode % 8);
        let p = bit_pow_x(opcode / 8 % 8);
        proof {
            lemma_bit_bound(v, opcode / 8 % 8);
        }
        let nv = if v / p % 2 == 1 {
            v
        } else {
            v + p
        };
        self.registers.set_r8(opcode % 8, nv);
        self.registers.pc.add_wrapping(2);
        self.delay = 2;
    }

    /// Clears bit `b` of a register; no flags change.
    pub fn res_b_r8(&mut self, opcode: u8)
        requires
            old(self).wf(),
            old(self).delay == 0,
            is_r8_code(opcode % 8),
        ensures
            final(self).wf(),
            Cpu::res_b_r8_post(*old(self), *final(self), opcode),
    {
        let v = self.registers.get_r8(opcode % 8);
        let p = bit_pow_x(opcode / 8 % 8);
        proof {
            lemma_bit_bound(v, opcode / 8 % 8);
        }
        let nv = if v / p % 2 == 1 {
            v - p
        } else {
            v
        };
        self.registers.set_r8(opcode % 8, nv);
        self.registers.pc.add_wrapping(2);
        self.delay = 2;
    }

    /// Sets bit `b` of the byte at the address in HL; no flags change.
    pub fn set_b_ptr_hl(&mut self, opcode: u8)
        requires
            old(self).wf(),
            old(self).delay == 0,
        ensures
            final(self).wf(),
            Cpu::set_b_ptr_hl_post(*old(self), *final(self), opcode),
    {
        let addr = self.registers.hl.read();
        let v = self.mmu.read(addr);
        let p = bit_pow_x(opcode / 8 % 8);
        proof {
            lemma_bit_bound(v, opcode / 8 % 8);
        }
        let nv = if v / p % 2 == 1 {
            v
        } else {
            v + p
        };
        self.mmu.write(addr, nv);
        self.registers.pc.add_wrapping(2);
        self.delay = 4;
    }

    /// Clears bit `b` of the byte at the address in HL; no flags change.
    pub fn res_b_ptr_hl(&mut self, opcode: u8)
        requires
            old(self).wf(),
            old(self).delay == 0,
        ensures
            final(self).wf(),
            Cpu::res_b_ptr_hl_post(*old(self), *final(self), opcode),
    {
        let addr = self.registers.hl.read();
        let v = self.mmu.read(addr);
        let p = bit_pow_x(opcode / 8 % 8);
        proof {
            lemma_bit_bound(v, opcode / 8 % 8);
        }
        let nv = if v / p % 2 == 1 {
            v - p
        } else {
            v
        };
        self.mmu.write(addr, nv);
        self.registers.pc.add_wrapping(2);
        self.delay = 4;
    }

    /// The exact effect of `rlc_r8`, as its contract states it.
    pub open spec fn rlc_r8_post(pre: Cpu, post: Cpu, opcode: u8) -> bool {
        ({
            let v = pre.registers.r8(opcode % 8);
            post == pre.with_regs(
                (CpuRegisters {
                    af: RegisterAF {
                        low: FlagRegister {
                            z: rlc_val(v) == 0,
                            n: false,
                            h: false,
                            c: v >= 0x80,
                        },
                        ..pre.registers.with_r8(opcode % 8, rlc_val(v)).af
                    },
                    ..pre.registers.with_r8(opcode % 8, rlc_val(v))
                }).with_pc_add(2),
                2,
            )
        })
    }

    /// The exact effect of `rlc_ptr_hl`, as its contract states it.
    pub open spec fn rlc_ptr_hl_post(pre: Cpu, post: Cpu) -> bool {
        ({
            let v = pre.mem(pre.registers.hl.value());
            &&& Mmu::write_post(
                pre.mmu,
                post.mmu,
                pre.registers.hl.value(),
                rlc_val(v),
            )
            &&& post == (Cpu {
                mmu: post.mmu,
                registers: (CpuRegisters {
                    af: RegisterAF {
                        low: FlagRegister {
                            z: rlc_val(v) == 0,
                            n: false,
                            h: false,
                            c: v >= 0x80,
                        },
                        ..pre.registers.af
                    },
                    ..pre.registers
                }).with_pc_add(2),
                delay: 4usize,
                ..pre
            })
        })
    }

    /// The exact effect of `rrc_r8`, as its contract states it.
    pub open spec fn rrc_r8_post(pre: Cpu, post: Cpu, opcode: u8) -> bool {
        ({
            let v = pre.registers.r8(opcode % 8);
            post == pre.with_regs(
                (CpuRegisters {
                    af: RegisterAF {
                        low: FlagRegister {
                            z: rrc_val(v) == 0,
                            n: false,
                            h: false,
                            c: v % 2 == 1,
                        },
                        ..pre.registers.with_r8(opcode % 8, rrc_val(v)).af
                    },
                    ..pre.registers.with_r8(opcode % 8, rrc_val(v))
                }).with_pc_add(2),
                2,
            )
        })
    }

    /// The exact effect of `rrc_ptr_hl`, as its contract states it.
    pub open spec fn rrc_ptr_hl_post(pre: Cpu, post: Cpu) -> bool {
        ({
            let v = pre.mem(pre.registers.hl.value());
            &&& Mmu::write_post(
                pre.mmu,
                post.mmu,
                pre.registers.hl.value(),
                rrc_val(v),
            )
            &&& post == (Cpu {
                mmu: post.mmu,
                registers: (CpuRegisters {
                    af: RegisterAF {
                        low: FlagRegister {
                            z: rrc_val(v) == 0,
                            n: false,
                            h: false,
                            c: v % 2 == 1,
                        },
                        ..pre.registers.af
                    },
                    ..pre.registers
                }).with_pc_add(2),
                delay: 4usize,
                ..pre
            })
        })
    }

    /// The exact effect of `rl_r8`, as its contract states it.
    pub open spec fn rl_r8_post(pre: Cpu, post: Cpu, opcode: u8) -> bool {
        ({
            let v = pre.registers.r8(opcode % 8);
            post == pre.with_regs(
                (CpuRegisters {
                    af: RegisterAF {
                        low: FlagRegister {
                            z: rl_val(v, pre.flags().c) == 0,
                            n: false,
                            h: false,
                            c: v >= 0x80,
                        },
                        ..pre.registers.with_r8(opcode % 8, rl_val(v, pre.flags().c)).af
                    },
                    ..pre.registers.with_r8(opcode % 8, rl_val(v, pre.flags().c))
                }).with_pc_add(2),
                2,
            )
        })
    }

    /// The exact effect of `rl_ptr_hl`, as its contract states it.
    pub open spec fn rl_ptr_hl_post(pre: Cpu, post: Cpu) -> bool {
        ({
            let v = pre.mem(pre.registers.hl.value());
            &&& Mmu::write_post(
                pre.mmu,
                post.mmu,
                pre.registers.hl.value(),
                rl_val(v, pre.flags().c),
            )
            &&& post == (Cpu {
                mmu: post.mmu,
                registers: (CpuRegisters {
                    af: RegisterAF {
                        low: FlagRegister {
                            z: rl_val(v, pre.flags().c) == 0,
                            n: false,
                            h: false,
                            c: v >= 0x80,
                        },
                        ..pre.registers.af
                    },
                    ..pre.registers
                }).with_pc_add(2),
                delay: 4usize,
                ..pre
            })
        })
    }

    /// The exact effect of `rr_r8`, as its contract states it.
    pub open spec fn rr_r8_post(pre: Cpu, post: Cpu, opcode: u8) -> bool {
        ({
            let v = pre.registers.r8(opcode % 8);
            post == pre.with_regs(
                (CpuRegisters {
                    af: RegisterAF {
                        low: FlagRegister {
                            z: rr_val(v, pre.flags().c) == 0,
                            n: false,
                            h: false,
                            c: v % 2 == 1,
                        },
                        ..pre.registers.with_r8(opcode % 8, rr_val(v, pre.flags().c)).af
                    },
                    ..pre.registers.with_r8(opcode % 8, rr_val(v, pre.flags().c))
                }).with_pc_add(2),
                2,
            )
        })
    }

    /// The exact effect of `rr_ptr_hl`, as its contract states it.
    pub open spec fn rr_ptr_hl_post(pre: Cpu, post: Cpu) -> bool {
        ({
            let v = pre.mem(pre.registers.hl.value());
            &&& Mmu::write_post(
                pre.mmu,
                post.mmu,
                pre.registers.hl.value(),
                rr_val(v, pre.flags().c),
            )
            &&& post == (Cpu {
                mmu: post.mmu,
                registers: (CpuRegisters {
                    af: RegisterAF {
                        low: FlagRegister {
                            z: rr_val(v, pre.flags().c) == 0,
                            n: false,
                            h: false,
                            c: v % 2 == 1,
                        },
                        ..pre.registers.af
                    },
                    ..pre.registers
                }).with_pc_add(2),
                delay: 4usize,
                ..pre
            })
        })
    }

    /// The exact effect of `sla_r8`, as its contract states it.
    pub open spec fn sla_r8_post(pre: Cpu, post: Cpu, opcode: u8) -> bool {
        ({
            let v = pre.registers.r8(opcode % 8);
            post == pre.with_regs(
                (CpuRegisters {
                    af: RegisterAF {
                        low: FlagRegister {
                            z: sla_val(v) == 0,
                            n: false,
                            h: false,
                            c: v >= 0x80,
                        },
                        ..pre.registers.with_r8(opcode % 8, sla_val(v)).af
                    },
                    ..pre.registers.with_r8(opcode % 8, sla_val(v))
                }).with_pc_add(2),
                2,
            )
        })
    }

    /// The exact effect of `sla_ptr_hl`, as its contract states it.
    pub open spec fn sla_ptr_hl_post(pre: Cpu, post: Cpu) -> bool {
        ({
            let v = pre.mem(pre.registers.hl.value());
            &&& Mmu::write_post(
                pre.mmu,
                post.mmu,
                pre.registers.hl.value(),
                sla_val(v),
            )
            &&& post == (Cpu {
                mmu: post.mmu,
                registers: (CpuRegisters {
                    af: RegisterAF {
                        low: FlagRegister {
                            z: sla_val(v) == 0,
                            n: false,
                            h: false,
                            c: v >= 0x80,
                        },
                        ..pre.registers.af
                    },
                    ..pre.registers
                }).with_pc_add(2),
                delay: 4usize,
                ..pre
            })
        })
    }

    /// The exact effect of `sra_r8`, as its contract states it.
    pub open spec fn sra_r8_post(pre: Cpu, post: Cpu, opcode: u8) -> bool {
        ({
            let v = pre.registers.r8(opcode % 8);
            post == pre.with_regs(
                (CpuRegisters {
                    af: RegisterAF {
                        low: FlagRegister {
                            z: sra_val(v) == 0,
                            n: false,
                            h: false,
                            c: v % 2 == 1,
                        },
                        ..pre.registers.with_r8(opcode % 8, sra_val(v)).af
                    },
                    ..pre.registers.with_r8(opcode % 8, sra_val(v))
                }).with_pc_add(2),
                2,
            )
        })
    }

    /// The exact effect of `sra_ptr_hl`, as its contract states it.
    pub open spec fn sra_ptr_hl_post(pre: Cpu, post: Cpu) -> bool {
        ({
            let v = pre.mem(pre.registers.hl.value());
            &&& Mmu::write_post(
                pre.mmu,
                post.mmu,
                pre.registers.hl.value(),
                sra_val(v),
            )
            &&& post == (Cpu {
                mmu: post.mmu,
                registers: (CpuRegisters {
                    af: RegisterAF {
                        low: FlagRegister {
                            z: sra_val(v) == 0,
                            n: false,
                            h: false,
                            c: v % 2 == 1,
                        },
                        ..pre.registers.af
                    },
                    ..pre.registers
                }).with_pc_add(2),
                delay: 4usize,
                ..pre
            })
        })
    }

    /// The exact effect of `srl_r8`, as its contract states it.
    pub open spec fn srl_r8_post(pre: Cpu, post: Cpu, opcode: u8) -> bool {
        ({
            let v = pre.registers.r8(opcode % 8);
            post == pre.with_regs(
                (CpuRegisters {
                    af: RegisterAF {
                        low: FlagRegister {
                            z: srl_val(v) == 0,
                            n: false,
                            h: false,
                            c: v % 2 == 1,
                        },
                        ..pre.registers.with_r8(opcode % 8, srl_val(v)).af
                    },
                    ..pre.registers.with_r8(opcode % 8, srl_val(v))
                }).with_pc_add(2),
                2,
            )
        })
    }

    /// The exact effect of `srl_ptr_hl`, as its contract states it.
    pub open spec fn srl_ptr_hl_post(pre: Cpu, post: Cpu) -> bool {
        ({
            let v = pre.mem(pre.registers.hl.value());
            &&& Mmu::write_post(
                pre.mmu,
                post.mmu,
                pre.registers.hl.value(),
                srl_val(v),
            )
            &&& post == (Cpu {
                mmu: post.mmu,
                registers: (CpuRegisters {
                    af: RegisterAF {
                        low: FlagRegister {
                            z: srl_val(v) == 0,
                            n: false,
                            h: false,
                            c: v % 2 == 1,
                        },
                        ..pre.registers.af
                    },
                    ..pre.registers
                }).with_pc_add(2),
                delay: 4usize,
                ..pre
            })
        })
    }

    /// The exact effect of `swap_r8`, as its contract states it.
    pub open spec fn swap_r8_post(pre: Cpu, post: Cpu, opcode: u8) -> bool {
        ({
            let v = pre.registers.r8(opcode % 8);
            post == pre.with_regs(
                (CpuRegisters {
                    af: RegisterAF {
                        low: FlagRegister {
                            z: swap_val(v) == 0,
                            n: false,
                            h: false,
                            c: false,
                        },
                        ..pre.registers.with_r8(opcode % 8, swap_val(v)).af
                    },
                    ..pre.registers.with_r8(opcode % 8, swap_val(v))
                }).with_pc_add(2),
                2,
            )
        })
    }

    /// The exact effect of `swap_ptr_hl`, as its contract states it.
    pub open spec fn swap_ptr_hl_post(pre: Cpu, post: Cpu) -> bool {
        ({
            let v = pre.mem(pre.registers.hl.value());
            &&& Mmu::write_post(
                pre.mmu,
                post.mmu,
                pre.registers.hl.value(),
                swap_val(v),
            )
            &&& post == (Cpu {
                mmu: post.mmu,
                registers: (CpuRegisters {
                    af: RegisterAF {
                        low: FlagRegister {
                            z: swap_val(v) == 0,
                            n: false,
                            h: false,
                            c: false,
                        },
                        ..pre.registers.af
                    },
                    ..pre.registers
                }).with_pc_add(2),
                delay: 4usize,
                ..pre
            })
        })
    }

    /// The exact effect of `bit_b_r8`, as its contract states it.
    pub open spec fn bit_b_r8_post(pre: Cpu, post: Cpu, opcode: u8) -> bool {
        post == pre.with_flags(
            FlagRegister {
                z: pre.registers.r8(opcode % 8) / bit_pow(opcode / 8 % 8) % 2 == 0,
                n: false,
                h: true,
                c: pre.flags().c,
            },
            2,
            2,
        )
    }

    /// The exact effect of `bit_b_ptr_hl`, as its contract states it.
    pub open spec fn bit_b_ptr_hl_post(pre: Cpu, post: Cpu, opcode: u8) -> bool {
        post == pre.with_flags(
            FlagRegister {
                z: pre.mem(pre.registers.hl.value()) / bit_pow(opcode / 8 % 8) % 2
                    == 0,
                n: false,
                h: true,
                c: pre.flags().c,
            },
            2,
            3,
        )
    }

    /// The exact effect of `set_b_r8`, as its contract states it.
    pub open spec fn set_b_r8_post(pre: Cpu, post: Cpu, opcode: u8) -> bool {
        post == pre.with_regs(
            pre.registers.with_r8(
                opcode % 8,
                with_bit_set(pre.registers.r8(opcode % 8), opcode / 8 % 8),
            ).with_pc_add(2),
            2,
        )
    }

    /// The exact effect of `res_b_r8`, as its contract states it.
    pub open spec fn res_b_r8_post(pre: Cpu, post: Cpu, opcode: u8) -> bool {
        post == pre.with_regs(
            pre.registers.with_r8(
                opcode % 8,
                with_bit_clear(pre.registers.r8(opcode % 8), opcode / 8 % 8),
            ).with_pc_add(2),
            2,
        )
    }

    /// The exact effect of `set_b_ptr_hl`, as its contract states it.
    pub open spec fn set_b_ptr_hl_post(pre: Cpu, post: Cpu, opcode: u8) -> bool {
        &&& Mmu::write_post(
            pre.mmu,
            post.mmu,
            pre.registers.hl.value(),
            with_bit_set(pre.mem(pre.registers.hl.value()), opcode / 8 % 8),
        )
        &&& post == (Cpu {
            mmu: post.mmu,
            registers: pre.registers.with_pc_add(2),
            delay: 4usize,
            ..pre
        })
    }

    /// The exact effect of `res_b_ptr_hl`, as its contract states it.
    pub open spec fn res_b_ptr_hl_post(pre: Cpu, post: Cpu, opcode: u8) -> bool {
        &&& Mmu::write_post(
            pre.mmu,
            post.mmu,
            pre.registers.hl.value(),
            with_bit_clear(pre.mem(pre.registers.hl.value()), opcode / 8 % 8),
        )
        &&& post == (Cpu {
            mmu: post.mmu,
            registers: pre.registers.with_pc_add(2),
            delay: 4usize,
            ..pre
        })
    }
}

} // verus!
