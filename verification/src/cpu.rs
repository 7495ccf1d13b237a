//! The Sharp-LR35902-compatible interpreter and the top-level machine.
//!
//! The machine advances one master-clock tick at a time: the system
//! counter and timer, the audio unit, the pixel unit, and - on every
//! fourth tick - one byte of an armed OAM DMA transfer and one CPU
//! m-cycle.  The CPU step spends the delay cycles of the instruction in
//! flight, polls interrupts at instruction boundaries, and otherwise
//! decodes and executes one opcode; every instruction's exact effect is
//! stated on its own function in the opcode modules.

pub mod opcodes;
pub mod opcodes_cb;

use vstd::prelude::*;
use crate::CoreError;
use crate::mmu::Mmu;
use crate::mmu::IoRegisters;
use crate::register::CpuRegisters;
use crate::register::FlagRegister;
use crate::register::Register16;
use crate::register::Register8;
use crate::register::RegisterAF;
use crate::util::wrap_add16;
use crate::util::wrap_sub16;

verus! {

/// The interpreter together with the whole machine behind its bus.
pub struct Cpu {
    pub registers: CpuRegisters,
    pub mmu: Mmu,
    /// Remaining m-cycles of the instruction in flight.
    pub delay: usize,
    /// M-cycles executed since reset, wrapping.
    pub cycles: usize,
    /// The master interrupt enable.
    pub ime: bool,
    /// Set by HALT until an interrupt is pending.
    pub halted: bool,
    /// Remaining bytes of the OAM DMA transfer, 0 when idle; armed at 161
    /// for two lead-in cycles before the 160 byte copies.
    pub dma_idx: u8,
    /// Counts down the one-instruction delay of EI before IME turns on.
    pub ei_delay: u8,
}

/// An IF/IE bit value: 1 V-Blank, 2 LCD-STAT, 4 Timer, 8 Serial, 16
/// Joypad.
pub open spec fn set_bit(x: u8, bitval: u8) -> u8 {
    if x / bitval % 2 == 1 {
        x
    } else {
        (x + bitval) as u8
    }
}

/// Sets one interrupt bit, arithmetic form: adds `bitval` unless already
/// present.
pub fn set_bit_x(x: u8, bitval: u8) -> (r: u8)
    requires
        bitval == 1 || bitval == 2 || bitval == 4 || bitval == 8 || bitval == 16,
    ensures
        r == set_bit(x, bitval),
{
    if x / bitval % 2 == 1 {
        x
    } else {
        x + bitval
    }
}

/// The 8-bit sum `a + b + cin`, wrapping.
pub open spec fn add_val(a: u8, b: u8, cin: u8) -> u8 {
    crate::util::wrap_add8(crate::util::wrap_add8(a, b), cin)
}

/// The flags of `a + b + cin`: Z when the truncated sum is zero, N
/// clear, H when the low nibbles with carry-in reach 0x10, C when the
/// full sum reaches 0x100.
pub open spec fn add_flags(a: u8, b: u8, cin: u8) -> FlagRegister {
    FlagRegister {
        z: add_val(a, b, cin) == 0,
        n: false,
        h: a % 16 + b % 16 + cin >= 0x10,
        c: a + b + cin >= 0x100,
    }
}

/// The 8-bit difference `a - b - cin`, wrapping.
pub open spec fn sub_val(a: u8, b: u8, cin: u8) -> u8 {
    crate::util::wrap_sub8(crate::util::wrap_sub8(a, b), cin)
}

/// The flags of `a - b - cin`: Z when the truncated difference is zero,
/// N set, H on a low-nibble borrow, C on a full borrow.
pub open spec fn sub_flags(a: u8, b: u8, cin: u8) -> FlagRegister {
    FlagRegister {
        z: sub_val(a, b, cin) == 0,
        n: true,
        h: a % 16 < b % 16 + cin,
        c: (a as int) < b + cin,
    }
}

/// The flags of the bitwise accumulator operations: Z from the result, C
/// clear, H set only by AND.
pub open spec fn logic_flags(result: u8, h: bool) -> FlagRegister {
    FlagRegister { z: result == 0, n: false, h: h, c: false }
}






/// The machine state at an instruction boundary, before the interrupt
/// poll: the m-cycle counted, the delay window spent, and the EI latch
/// one step older - IME turns on as the armed latch expires.
pub open spec fn boundary_state(pre: Cpu) -> Cpu {
    let c = Cpu { cycles: crate::util::wrap_add_usize(pre.cycles, 1), delay: 0usize, ..pre };
    if pre.ei_delay > 0 {
        Cpu { ei_delay: (pre.ei_delay - 1) as u8, ime: pre.ime || pre.ei_delay == 1, ..c }
    } else {
        c
    }
}

/// The five interrupt sources both pending and enabled: the low five
/// bits of IE AND IF.
pub open spec fn pending_ints(c: Cpu) -> u8 {
    (c.mmu.ie & c.mmu.io.interrupt) % 32
}

/// The handler address and IF bit value of the lowest-indexed pending
/// source: V-Blank before LCD-STAT before Timer before Serial before
/// Joypad.
pub open spec fn int_target(p: u8) -> (u16, u8) {
    if p % 2 == 1 {
        (0x40u16, 1u8)
    } else if p / 2 % 2 == 1 {
        (0x48u16, 2u8)
    } else if p / 4 % 2 == 1 {
        (0x50u16, 4u8)
    } else if p / 8 % 2 == 1 {
        (0x58u16, 8u8)
    } else {
        (0x60u16, 16u8)
    }
}

/// Flag determinism of the 8-bit adder and subtractor: for all operands,
/// ADD sets H exactly when the low-nibble sum reaches 0x10 and C exactly
/// when the full sum reaches 0x100; SUB sets H exactly on a low-nibble
/// borrow and C exactly when the subtrahend exceeds the accumulator; Z
/// reflects the wrapped result, and N records the operation kind.
pub proof fn lemma_flag_determinism(a: u8, b: u8)
    ensures
        add_flags(a, b, 0).h <==> a % 16 + b % 16 >= 0x10,
        add_flags(a, b, 0).c <==> a + b >= 0x100,
        add_flags(a, b, 0).z <==> (a + b) % 256 == 0,
        !add_flags(a, b, 0).n,
        sub_flags(a, b, 0).h <==> a % 16 < b % 16,
        sub_flags(a, b, 0).c <==> a < b,
        sub_flags(a, b, 0).z <==> a == b,
        sub_flags(a, b, 0).n,
{
}

/// Setting a clear bit fits in a byte, and a set bit can be subtracted.
pub proof fn lemma_bit_bound(v: u8, b: u8)
    ensures
        v / bit_pow(b) % 2 == 0 ==> v + bit_pow(b) <= 255,
        v / bit_pow(b) % 2 == 1 ==> v >= bit_pow(b),
{
    let p = bit_pow(b);
    if b == 0 {
        assert(p == 1 && (v / 1 % 2 == 0 ==> v + 1 <= 255) && (v / 1 % 2 == 1 ==> v >= 1));
    } else if b == 1 {
        assert(p == 2 && (v / 2 % 2 == 0 ==> v + 2 <= 255) && (v / 2 % 2 == 1 ==> v >= 2));
    } else if b == 2 {
        assert(p == 4 && (v / 4 % 2 == 0 ==> v + 4 <= 255) && (v / 4 % 2 == 1 ==> v >= 4));
    } else if b == 3 {
        assert(p == 8 && (v / 8 % 2 == 0 ==> v + 8 <= 255) && (v / 8 % 2 == 1 ==> v >= 8));
    } else if b == 4 {
        assert(p == 16 && (v / 16 % 2 == 0 ==> v + 16 <= 255) && (v / 16 % 2 == 1 ==> v >= 16));
    } else if b == 5 {
        assert(p == 32 && (v / 32 % 2 == 0 ==> v + 32 <= 255) && (v / 32 % 2 == 1 ==> v >= 32));
    } else if b == 6 {
        assert(p == 64 && (v / 64 % 2 == 0 ==> v + 64 <= 255) && (v / 64 % 2 == 1 ==> v >= 64));
    } else {
        assert(p == 128 && (v / 128 % 2 == 0 ==> v + 128 <= 255) && (v / 128 % 2 == 1 ==> v
            >= 128));
    }
}

/// Two to the `b`-th for a 3-bit index: the weight of bit `b`.
pub open spec fn bit_pow(b: u8) -> u8 {
    if b == 0 {
        1
    } else if b == 1 {
        2
    } else if b == 2 {
        4
    } else if b == 3 {
        8
    } else if b == 4 {
        16
    } else if b == 5 {
        32
    } else if b == 6 {
        64
    } else {
        128
    }
}

/// The weight of bit `b`, as a table.
pub fn bit_pow_x(b: u8) -> (r: u8)
    ensures
        r == bit_pow(b),
{
    match b {
        0 => 1,
        1 => 2,
        2 => 4,
        3 => 8,
        4 => 16,
        5 => 32,
        6 => 64,
        _ => 128,
    }
}

/// `v` with bit `b` set, arithmetic form.
pub open spec fn with_bit_set(v: u8, b: u8) -> u8 {
    if v / bit_pow(b) % 2 == 1 {
        v
    } else {
        (v + bit_pow(b)) as u8
    }
}

/// `v` with bit `b` cleared, arithmetic form.
pub open spec fn with_bit_clear(v: u8, b: u8) -> u8 {
    if v / bit_pow(b) % 2 == 1 {
        (v - bit_pow(b)) as u8
    } else {
        v
    }
}

/// The rotate and shift value functions shared by the accumulator forms
/// and the CB-prefixed forms, in arithmetic form: bit 7 is `v / 128`,
/// bit 0 is `v % 2`.
pub open spec fn rlc_val(v: u8) -> u8 {
    (v % 128 * 2 + v / 128) as u8
}

pub open spec fn rrc_val(v: u8) -> u8 {
    (v / 2 + v % 2 * 128) as u8
}

pub open spec fn rl_val(v: u8, c: bool) -> u8 {
    (v % 128 * 2 + if c {
        1int
    } else {
        0int
    }) as u8
}

pub open spec fn rr_val(v: u8, c: bool) -> u8 {
    (v / 2 + if c {
        128int
    } else {
        0int
    }) as u8
}

pub open spec fn sla_val(v: u8) -> u8 {
    (v % 128 * 2) as u8
}

pub open spec fn sra_val(v: u8) -> u8 {
    (v / 2 + v / 128 * 128) as u8
}

pub open spec fn srl_val(v: u8) -> u8 {
    v / 2
}

pub open spec fn swap_val(v: u8) -> u8 {
    (v % 16 * 16 + v / 16) as u8
}

impl Cpu {
    pub open spec fn wf(self) -> bool {
        self.mmu.wf()
    }

    /// The machine with the accumulator and flags replaced, the program
    /// counter advanced, and the instruction cost set.
    pub open spec fn with_acc(self, a: u8, f: FlagRegister, pc_add: u16, cost: int) -> Cpu {
        Cpu {
            registers: CpuRegisters {
                af: RegisterAF { high: Register8(a), low: f },
                pc: Register16::from_value(wrap_add16(self.registers.pc.value(), pc_add)),
                ..self.registers
            },
            delay: cost as usize,
            ..self
        }
    }

    /// The machine with only flags replaced, the program counter
    /// advanced, and the instruction cost set.
    pub open spec fn with_flags(self, f: FlagRegister, pc_add: u16, cost: int) -> Cpu {
        Cpu {
            registers: CpuRegisters {
                af: RegisterAF { low: f, ..self.registers.af },
                pc: Register16::from_value(wrap_add16(self.registers.pc.value(), pc_add)),
                ..self.registers
            },
            delay: cost as usize,
            ..self
        }
    }

    /// The machine with the register file replaced and the instruction
    /// cost set.
    pub open spec fn with_regs(self, regs: CpuRegisters, cost: int) -> Cpu {
        Cpu { registers: regs, delay: cost as usize, ..self }
    }

    /// The accumulator.
    pub open spec fn acc(self) -> u8 {
        self.registers.af.high.0
    }

    /// The flags.
    pub open spec fn flags(self) -> FlagRegister {
        self.registers.af.low
    }

    /// The program counter's value.
    pub open spec fn pc(self) -> u16 {
        self.registers.pc.value()
    }

    /// The byte the bus shows at `addr`.
    pub open spec fn mem(self, addr: u16) -> u8 {
        self.mmu.read_spec(addr)
    }

    /// The operand byte after the opcode.
    pub open spec fn imm8(self) -> u8 {
        self.mem(wrap_add16(self.pc(), 1))
    }

    /// The operand word after the opcode, low byte first.
    pub open spec fn imm16(self) -> u16 {
        (self.mem(wrap_add16(self.pc(), 2)) * 256 + self.mem(wrap_add16(self.pc(), 1))) as u16
    }

    /// How a 16-bit stack push changes the machine: the two halves of
    /// `val` land below the old stack pointer, high byte first, through
    /// the bus write rules, and SP drops by two.
    pub open spec fn push_post(pre: Cpu, post: Cpu, val: u16) -> bool {
        let sp = pre.registers.sp.value();
        &&& exists|m: Mmu|
            Mmu::write_post(pre.mmu, m, wrap_sub16(sp, 1), (val / 256) as u8) && #[trigger] Mmu::write_post(
                m,
                post.mmu,
                wrap_sub16(sp, 2),
                (val % 256) as u8,
            )
        &&& post == (Cpu {
            mmu: post.mmu,
            registers: CpuRegisters {
                sp: Register16::from_value(wrap_sub16(sp, 2)),
                ..pre.registers
            },
            ..pre
        })
    }

    /// Pushes a 16-bit value, high byte first, moving SP down by two.
    pub fn push_word(&mut self, val: u16)
        requires
            old(self).wf(),
        ensures
            final(self).wf(),
            Cpu::push_post(*old(self), *final(self), val),
    {
        let sp = self.registers.sp.read();
        self.mmu.write(sp.wrapping_sub(1), (val / 256) as u8);
        let ghost mid = self.mmu;
        self.mmu.write(sp.wrapping_sub(2), (val % 256) as u8);
        self.registers.sp.write(sp.wrapping_sub(2));
        proof {
            assert(Mmu::write_post(old(self).mmu, mid, wrap_sub16(sp, 1), (val / 256) as u8)
                && Mmu::write_post(mid, self.mmu, wrap_sub16(sp, 2), (val % 256) as u8));
        }
    }

    /// The 16-bit value on top of the stack: low byte at SP, high byte
    /// above it.
    pub open spec fn stack_top(self) -> u16 {
        (self.mem(wrap_add16(self.registers.sp.value(), 1)) * 256 + self.mem(
            self.registers.sp.value(),
        )) as u16
    }
}


impl Cpu {
    /// Builds the machine from a ROM image and a 256-byte boot image.
    /// Fails exactly when the cartridge header does.
    pub fn new(rom: Vec<u8>, boot: Vec<u8>) -> (r: Result<Cpu, CoreError>)
        ensures
            r is Ok <==> crate::mbc::CartridgeHeader::accepts(rom@),
            r matches Err(e) ==> Mmu::header_err(rom@, e),
            r matches Ok(c) ==> {
                &&& c.wf()
                &&& c.delay == 0 && c.cycles == 0 && !c.ime && !c.halted && c.dma_idx == 0
                &&& c.ei_delay == 0
                &&& c.registers.pc.value() == 0 && c.registers.sp.value() == 0
                &&& c.mmu.io == (IoRegisters { joyp: 0u8, sc: 0u8, interrupt: 0u8, dma: 0u8, bank: 0u8 })
                &&& c.mmu.timer == (crate::timer::Timer {
                    sys: 0u16,
                    tima: 0u8,
                    tma: 0u8,
                    tac: 0u8,
                    overflow_pending: false,
                })
                &&& !c.mmu.dma_requested
                &&& forall|i: int|
                    0 <= i < 256 ==> (#[trigger] c.mmu.boot@[i]) == crate::mbc::padded_byte(
                        boot@,
                        i,
                    )
                &&& forall|i: int| 0 <= i < 0x2000 ==> (#[trigger] c.mmu.wram@[i]) == 0
            },
    {
        let mmu = match Mmu::new(rom, boot) {
            Ok(m) => m,
            Err(e) => {
                return Err(e);
            },
        };
        Ok(
            Cpu {
                registers: CpuRegisters::new(),
                mmu,
                delay: 0,
                cycles: 0,
                ime: false,
                halted: false,
                dma_idx: 0,
                ei_delay: 0,
            },
        )
    }

    /// Builds the machine in the state the boot ROM leaves it in, with
    /// the boot image already unmapped: registers at their published
    /// post-boot values and the program counter at the cartridge entry
    /// point 0x0100.
    pub fn new_fastboot(rom: Vec<u8>, boot: Vec<u8>) -> (r: Result<Cpu, CoreError>)
        ensures
            r is Ok <==> crate::mbc::CartridgeHeader::accepts(rom@),
            r matches Ok(c) ==> {
                &&& c.wf()
                &&& c.registers.af.value() == 0x01b0 && c.registers.bc.value() == 0x0013
                &&& c.registers.de.value() == 0x00d8 && c.registers.hl.value() == 0x014d
                &&& c.registers.pc.value() == 0x0100 && c.registers.sp.value() == 0xfffe
                &&& c.mmu.io.bank == 0xff && c.mmu.timer.sys == 0xabcc
                &&& c.mmu.timer.tima == 0 && c.mmu.timer.tma == 0 && c.mmu.timer.tac == 0
                &&& !c.mmu.timer.overflow_pending && !c.mmu.dma_requested
                &&& forall|i: int| 0 <= i < 0x2000 ==> (#[trigger] c.mmu.wram@[i]) == 0
                &&& c.delay == 0 && !c.ime && !c.halted && c.dma_idx == 0 && c.ei_delay == 0
            },
    {
        let mut cpu = match Cpu::new(rom, boot) {
            Ok(c) => c,
            Err(e) => {
                return Err(e);
            },
        };
        cpu.registers.af.write(0x01b0);
        cpu.registers.bc.write(0x0013);
        cpu.registers.de.write(0x00d8);
        cpu.registers.hl.write(0x014d);
        cpu.registers.pc.write(0x0100);
        cpu.registers.sp.write(0xfffe);
        cpu.mmu.io.bank = 0xff;
        cpu.mmu.timer.sys = 0xabcc;
        proof {
            crate::register::lemma_af_round_trip(0x01b0);
            assert(0xb0u8 & 0xf0 == 0xb0) by (bit_vector);
        }
        Ok(cpu)
    }

    /// The exact effect of servicing one interrupt, as `call_interrupt`'s
    /// contract states it: the IF bit cleared, IME dropped, HALT
    /// released, the interrupted program counter pushed through the bus,
    /// the handler entered, and five m-cycles spent.
    pub open spec fn service_post(pre: Cpu, post: Cpu, addr: u16, b: u8) -> bool {
        &&& Cpu::push_post(
            Cpu {
                mmu: Mmu {
                    io: IoRegisters {
                        interrupt: clear_int_bit(pre.mmu.io.interrupt, b),
                        ..pre.mmu.io
                    },
                    ..pre.mmu
                },
                ime: false,
                halted: false,
                ..pre
            },
            Cpu {
                registers: CpuRegisters { pc: pre.registers.pc, ..post.registers },
                delay: 0usize,
                ..post
            },
            pre.pc(),
        )
        &&& post.pc() == addr
        &&& post.delay == 5
        &&& !post.ime
        &&& !post.halted
    }

    /// Services the interrupt with handler `addr` and IF bit `b`: the
    /// pending bit clears, IME drops, the interrupted program counter is
    /// pushed, execution continues at the handler, HALT is released, and
    /// the sequence costs five m-cycles.
    pub fn call_interrupt(&mut self, addr: u16, b: u8)
        requires
            old(self).wf(),
            old(self).delay == 0,
            b == 1 || b == 2 || b == 4 || b == 8 || b == 16,
        ensures
            final(self).wf(),
            Cpu::service_post(*old(self), *final(self), addr, b),
    {
        let iflags = self.mmu.io.interrupt;
        proof {
            if b == 1 {
            } else if b == 2 {
                assert(iflags / 2 % 2 == 1 ==> iflags >= 2);
            } else if b == 4 {
                assert(iflags / 4 % 2 == 1 ==> iflags >= 4);
            } else if b == 8 {
                assert(iflags / 8 % 2 == 1 ==> iflags >= 8);
            } else {
                assert(iflags / 16 % 2 == 1 ==> iflags >= 16);
            }
        }
        self.mmu.io.interrupt = if iflags / b % 2 == 1 {
            iflags - b
        } else {
            iflags
        };
        self.ime = false;
        self.halted = false;
        let ret = self.registers.pc.read();
        self.push_word(ret);
        self.registers.pc.write(addr);
        self.delay = 5;
    }

    /// One CPU m-cycle.  An instruction still in its delay window spends
    /// one cycle; at an instruction boundary the EI latch matures, a
    /// pending enabled interrupt is serviced (lowest bit first: V-Blank,
    /// LCD-STAT, Timer, Serial, Joypad), a halted CPU waits for a pending
    /// interrupt, and otherwise one opcode is decoded and executed - its
    /// exact effect is the contract of the matching opcode function.  An
    /// opcode with no meaning stops the machine with the offending byte.
    #[verifier::rlimit(100)]
    #[verifier::spinoff_prover]
    pub fn cycle(&mut self) -> (r: Result<(), CoreError>)
        requires
            old(self).wf(),
        ensures
            final(self).wf(),
            old(self).delay > 1 ==> r is Ok && *final(self) == (Cpu {
                delay: (old(self).delay - 1) as usize,
                cycles: crate::util::wrap_add_usize(old(self).cycles, 1),
                ..*old(self)
            }),
            old(self).delay <= 1 ==> ({
                let b = boundary_state(*old(self));
                let p = pending_ints(b);
                if b.ime && p != 0 {
                    r is Ok && Cpu::service_post(b, *final(self), int_target(p).0, int_target(p).1)
                } else if b.halted {
                    r is Ok && *final(self) == (Cpu { halted: p == 0, ..b })
                } else {
                    let opcode = b.mem(b.pc());
                    &&& (r is Err <==> crate::cpu::opcodes::is_unsupported_opcode(opcode))
                    &&& (r is Ok ==> Cpu::exec_post(b, *final(self), opcode))
                    &&& (r matches Err(e) ==> e == CoreError::IllegalOpcode(opcode)
                        && *final(self) == b)
                }
            }),
    {
        self.cycles = self.cycles.wrapping_add(1);
        if self.delay > 1 {
            self.delay = self.delay - 1;
            return Ok(());
        }
        self.delay = 0;
        if self.ei_delay > 0 {
            self.ei_delay = self.ei_delay - 1;
            if self.ei_delay == 0 {
                self.ime = true;
            }
        }
        let pending = (self.mmu.ie & self.mmu.io.interrupt) % 32;
        proof {
            crate::util::lemma_u8_and_le_mask(self.mmu.ie, self.mmu.io.interrupt);
        }
        if self.ime && pending != 0 {
            if pending % 2 == 1 {
                self.call_interrupt(0x40, 1);
            } else if pending / 2 % 2 == 1 {
                self.call_interrupt(0x48, 2);
            } else if pending / 4 % 2 == 1 {
                self.call_interrupt(0x50, 4);
            } else if pending / 8 % 2 == 1 {
                self.call_interrupt(0x58, 8);
            } else {
                self.call_interrupt(0x60, 16);
            }
            return Ok(());
        }
        if self.halted {
            if pending != 0 {
                self.halted = false;
            }
            return Ok(());
        }
        let opcode = self.mmu.read(self.registers.pc.read());
        self.execute(opcode)
    }

    /// One armed DMA step, run once per m-cycle: a fresh request arms the
    /// engine at 161; the two lead-in cycles only count down; then each
    /// cycle copies byte `160 - index` from the source page to OAM.
    pub fn dma_step(&mut self)
        requires
            old(self).wf(),
        ensures
            final(self).wf(),
            ({
                let armed = Cpu {
                    mmu: Mmu { dma_requested: false, ..old(self).mmu },
                    dma_idx: if old(self).mmu.dma_requested {
                        161u8
                    } else {
                        old(self).dma_idx
                    },
                    ..*old(self)
                };
                if armed.dma_idx > 160 {
                    *final(self) == (Cpu { dma_idx: (armed.dma_idx - 1) as u8, ..armed })
                } else if armed.dma_idx > 0 {
                    let offset = (160 - armed.dma_idx) as u16;
                    let src = (armed.mmu.io.dma * 256 + offset) as u16;
                    &&& Mmu::write_post(
                        armed.mmu,
                        final(self).mmu,
                        (0xfe00 + offset) as u16,
                        armed.mmu.read_spec(src),
                    )
                    &&& *final(self) == (Cpu {
                        mmu: final(self).mmu,
                        dma_idx: (armed.dma_idx - 1) as u8,
                        ..armed
                    })
                } else {
                    *final(self) == armed
                }
            }),
    {
        if self.mmu.dma_requested {
            self.dma_idx = 161;
            self.mmu.dma_requested = false;
        }
        if self.dma_idx > 160 {
            self.dma_idx = self.dma_idx - 1;
        } else if self.dma_idx > 0 {
            let offset: u16 = (160 - self.dma_idx) as u16;
            let src: u16 = (self.mmu.io.dma as u16) * 256 + offset;
            let v = self.mmu.read(src);
            self.mmu.write(0xfe00 + offset, v);
            self.dma_idx = self.dma_idx - 1;
        }
    }

    /// One master-clock tick, in the published order: the system counter
    /// and timer advance (raising IF bit 2 on a matured overflow); the
    /// audio unit runs its fast path on m-cycle boundaries and its
    /// sequencer on the falling edge of counter bit 12; the pixel unit
    /// runs one dot, and its latched V-Blank and STAT lines land in IF
    /// bits 0 and 1; on every fourth tick the DMA engine moves one byte
    /// and the CPU runs one m-cycle.  Each phase's exact effect is the
    /// contract of the function it calls.  The error of an illegal
    /// opcode is handed through, and the machine must not be stepped
    /// after it.
    pub fn step_master_tick(&mut self) -> (r: Result<(), CoreError>)
        requires
            old(self).wf(),
        ensures
            final(self).wf(),
            r matches Err(e) ==> e matches CoreError::IllegalOpcode(_),
            ({
                let sys1 = wrap_add16(old(self).mmu.timer.sys, 1);
                sys1 % 4 != 0 ==> {
                    &&& r is Ok
                    &&& final(self).registers == old(self).registers
                    &&& final(self).delay == old(self).delay
                    &&& final(self).cycles == old(self).cycles
                    &&& final(self).mmu.timer == crate::timer::Timer::tick_spec(
                        old(self).mmu.timer,
                    ).0
                    &&& final(self).mmu.wram == old(self).mmu.wram
                    &&& final(self).mmu.hram == old(self).mmu.hram
                    &&& final(self).mmu.cartridge == old(self).mmu.cartridge
                    &&& final(self).mmu.io.bank == old(self).mmu.io.bank
                    &&& final(self).ime == old(self).ime
                    &&& final(self).halted == old(self).halted
                }
            }),
    {
        let raise_timer = self.mmu.timer.tick();
        if raise_timer {
            self.mmu.io.interrupt = set_bit_x(self.mmu.io.interrupt, 4);
        }
        let sys = self.mmu.timer.sys;
        self.mmu.apu.clock(sys);
        self.mmu.ppu.clock();
        let (vblank, stat) = self.mmu.ppu.take_interrupts();
        if vblank {
            self.mmu.io.interrupt = set_bit_x(self.mmu.io.interrupt, 1);
        }
        if stat {
            self.mmu.io.interrupt = set_bit_x(self.mmu.io.interrupt, 2);
        }
        if sys % 4 == 0 {
            self.dma_step();
            self.cycle()
        } else {
            Ok(())
        }
    }

    /// A copy of the current frame for the host.
    pub fn frame(&self) -> (r: Vec<u8>)
        requires
            self.wf(),
        ensures
            r@.len() == 23040,
            self.mmu.ppu.lcdc >= 0x80 ==> r@ == self.mmu.ppu.screen@,
            self.mmu.ppu.lcdc < 0x80 ==> forall|i: int| 0 <= i < 23040 ==> (#[trigger] r@[i]) == 0,
    {
        self.mmu.ppu.frame()
    }

    /// Stores the host's button snapshot; the JOYP register reads it.
    pub fn set_buttons(&mut self, buttons: crate::buttons::Buttons)
        requires
            old(self).wf(),
        ensures
            final(self).wf(),
            *final(self) == (Cpu {
                mmu: Mmu { buttons: buttons, ..old(self).mmu },
                ..*old(self)
            }),
    {
        self.mmu.buttons = buttons;
    }

    /// The current stereo sample pair, scaled by 120.
    pub fn sample(&self) -> (r: (i16, i16))
        requires
            self.wf(),
        ensures
            r.0 == self.mmu.apu.mix_spec().0,
            r.1 == self.mmu.apu.mix_spec().1,
            -480 <= r.0 <= 480 && -480 <= r.1 <= 480,
    {
        self.mmu.apu.sample()
    }
}

/// `x` with interrupt bit value `b` removed, arithmetic form.
pub open spec fn clear_int_bit(x: u8, b: u8) -> u8 {
    if x / b % 2 == 1 {
        (x - b) as u8
    } else {
        x
    }
}

} // verus!
