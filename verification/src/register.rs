//! The CPU register file: 8-bit registers, the flag register, 16-bit pairs,
//! and the decoder views that resolve the standard 3-bit `r8` and 2-bit
//! `r16` encodings.

use vstd::prelude::*;

verus! {

/// A plain 8-bit register.
#[derive(Clone, Copy, Debug, PartialEq, Eq, Structural)]
pub struct Register8(pub u8);

impl Register8 {
    pub fn read(&self) -> (r: u8)
        ensures
            r == self.0,
    {
        self.0
    }

    pub fn write(&mut self, val: u8)
        ensures
            *final(self) == (Register8 { 0: val }),
    {
        self.0 = val;
    }
}

/// The flag register F.  Bits 7..4 are Z, N, H, C; bits 3..0 always read 0.
#[derive(Clone, Copy, Debug, PartialEq, Eq, Structural)]
pub struct FlagRegister {
    pub z: bool,
    pub n: bool,
    pub h: bool,
    pub c: bool,
}

impl FlagRegister {
    /// The byte a flag set reads back as: high nibble Z N H C, low nibble 0.
    pub open spec fn byte(self) -> u8 {
        ((if self.z { 0x80int } else { 0int }) + (if self.n { 0x40int } else { 0int }) + (
        if self.h {
            0x20int
        } else {
            0int
        }) + (if self.c { 0x10int } else { 0int })) as u8
    }

    /// The flag set encoded by a byte; bits 3..0 are discarded.
    pub open spec fn from_byte(v: u8) -> FlagRegister {
        FlagRegister {
            z: v & 0x80 != 0,
            n: v & 0x40 != 0,
            h: v & 0x20 != 0,
            c: v & 0x10 != 0,
        }
    }

    pub fn clear() -> (r: FlagRegister)
        ensures
            r == (FlagRegister { z: false, n: false, h: false, c: false }),
    {
        FlagRegister { z: false, n: false, h: false, c: false }
    }

    pub fn read(&self) -> (r: u8)
        ensures
            r == self.byte(),
    {
        let mut x: u8 = 0;
        if self.z {
            x = x + 0x80;
        }
        if self.n {
            x = x + 0x40;
        }
        if self.h {
            x = x + 0x20;
        }
        if self.c {
            x = x + 0x10;
        }
        x
    }

    pub fn write(&mut self, val: u8)
        ensures
            *final(self) == FlagRegister::from_byte(val),
    {
        self.z = val & 0x80 != 0;
        self.n = val & 0x40 != 0;
        self.h = val & 0x20 != 0;
        self.c = val & 0x10 != 0;
    }
}

/// Writing a flag byte and reading it back keeps exactly bits 7..4: the low
/// nibble of F is forced to zero.
pub proof fn lemma_flag_byte_round_trip(v: u8)
    ensures
        FlagRegister::from_byte(v).byte() == v & 0xf0,
{
    let f = FlagRegister::from_byte(v);
    assert(((if (v & 0x80 != 0) { 0x80int } else { 0int }) + (if (v & 0x40 != 0) {
        0x40int
    } else {
        0int
    }) + (if (v & 0x20 != 0) { 0x20int } else { 0int }) + (if (v & 0x10 != 0) {
        0x10int
    } else {
        0int
    })) as u8 == v & 0xf0) by (bit_vector);
}

/// A flag set survives the trip through its byte form unchanged.
pub proof fn lemma_flags_from_byte_round_trip(f: FlagRegister)
    ensures
        FlagRegister::from_byte(f.byte()) == f,
{
    let z = f.z;
    let n = f.n;
    let h = f.h;
    let c = f.c;
    let b = ((if z { 0x80int } else { 0int }) + (if n { 0x40int } else { 0int }) + (if h {
        0x20int
    } else {
        0int
    }) + (if c { 0x10int } else { 0int })) as u8;
    assert((b & 0x80 != 0) == z && (b & 0x40 != 0) == n && (b & 0x20 != 0) == h && (b & 0x10 != 0)
        == c) by (bit_vector)
        requires
            b == ((if z { 0x80int } else { 0int }) + (if n { 0x40int } else { 0int }) + (if h {
                0x20int
            } else {
                0int
            }) + (if c { 0x10int } else { 0int })) as u8,
    ;
}

/// A 16-bit register made of two byte halves.
#[derive(Clone, Copy, Debug, PartialEq, Eq, Structural)]
pub struct Register16 {
    pub high: Register8,
    pub low: Register8,
}

impl Register16 {
    /// The 16-bit value of the pair.
    pub open spec fn value(self) -> u16 {
        (self.high.0 * 256 + self.low.0) as u16
    }

    /// The pair that encodes a 16-bit value.
    pub open spec fn from_value(val: u16) -> Register16 {
        Register16 { high: Register8((val / 256) as u8), low: Register8((val % 256) as u8) }
    }

    pub fn zero() -> (r: Register16)
        ensures
            r == Register16::from_value(0),
            r.value() == 0,
    {
        Register16 { high: Register8(0), low: Register8(0) }
    }

    pub fn read(&self) -> (r: u16)
        ensures
            r == self.value(),
    {
        (self.high.0 as u16) * 256 + (self.low.0 as u16)
    }

    pub fn write(&mut self, val: u16)
        ensures
            *final(self) == Register16::from_value(val),
            final(self).value() == val,
    {
        self.high.0 = (val / 256) as u8;
        self.low.0 = (val % 256) as u8;
    }

    /// Adds `n` to the pair, wrapping at 2^16.
    pub fn add_wrapping(&mut self, n: u16)
        ensures
            *final(self) == Register16::from_value(crate::util::wrap_add16(old(self).value(), n)),
            final(self).value() == crate::util::wrap_add16(old(self).value(), n),
    {
        let v = self.read().wrapping_add(n);
        self.write(v);
    }

    /// Subtracts `n` from the pair, wrapping at 0.
    pub fn sub_wrapping(&mut self, n: u16)
        ensures
            *final(self) == Register16::from_value(crate::util::wrap_sub16(old(self).value(), n)),
            final(self).value() == crate::util::wrap_sub16(old(self).value(), n),
    {
        let v = self.read().wrapping_sub(n);
        self.write(v);
    }
}

/// Every 16-bit value survives the trip through a register pair.
pub proof fn lemma_r16_round_trip(val: u16)
    ensures
        Register16::from_value(val).value() == val,
{
}

/// The accumulator together with the flag register, read and written as AF.
#[derive(Clone, Copy, Debug, PartialEq, Eq, Structural)]
pub struct RegisterAF {
    pub high: Register8,
    pub low: FlagRegister,
}

impl RegisterAF {
    /// The 16-bit value of AF; the low nibble is the flags' zero nibble.
    pub open spec fn value(self) -> u16 {
        (self.high.0 * 256 + self.low.byte()) as u16
    }

    /// The AF pair encoded by a 16-bit value; bits 3..0 are discarded.
    pub open spec fn from_value(val: u16) -> RegisterAF {
        RegisterAF {
            high: Register8((val / 256) as u8),
            low: FlagRegister::from_byte((val % 256) as u8),
        }
    }

    pub fn zero() -> (r: RegisterAF)
        ensures
            r == (RegisterAF {
                high: Register8(0),
                low: FlagRegister { z: false, n: false, h: false, c: false },
            }),
    {
        RegisterAF { high: Register8(0), low: FlagRegister::clear() }
    }

    pub fn read(&self) -> (r: u16)
        ensures
            r == self.value(),
    {
        (self.high.0 as u16) * 256 + (self.low.read() as u16)
    }

    pub fn write(&mut self, val: u16)
        ensures
            *final(self) == RegisterAF::from_value(val),
    {
        self.high.0 = (val / 256) as u8;
        self.low.write((val % 256) as u8);
    }
}

/// Writing AF and reading it back forces the low nibble of F to zero and
/// keeps every other bit.
pub proof fn lemma_af_round_trip(val: u16)
    ensures
        RegisterAF::from_value(val).value() == (val / 256) * 256 + ((val % 256) & 0xf0),
{
    lemma_flag_byte_round_trip((val % 256) as u8);
}

/// The full register file of the interpreter.
#[derive(Clone, Copy, Debug, PartialEq, Eq, Structural)]
pub struct CpuRegisters {
    pub af: RegisterAF,
    pub bc: Register16,
    pub de: Register16,
    pub hl: Register16,
    pub sp: Register16,
    pub pc: Register16,
}

/// Whether `code` names a byte register in the 3-bit `r8` encoding.  Index 6
/// is the `(HL)` memory slot, which is not a register: decoders dispatch it
/// to the bus instead.
pub open spec fn is_r8_code(code: u8) -> bool {
    code < 8 && code != 6
}

impl CpuRegisters {
    pub fn new() -> (r: CpuRegisters)
        ensures
            r.af == (RegisterAF {
                high: Register8(0),
                low: FlagRegister { z: false, n: false, h: false, c: false },
            }),
            r.bc.value() == 0 && r.de.value() == 0 && r.hl.value() == 0,
            r.sp.value() == 0 && r.pc.value() == 0,
    {
        CpuRegisters {
            af: RegisterAF::zero(),
            bc: Register16::zero(),
            de: Register16::zero(),
            hl: Register16::zero(),
            sp: Register16::zero(),
            pc: Register16::zero(),
        }
    }


    /// The register file with the program counter advanced, wrapping.
    pub open spec fn with_pc_add(self, n: u16) -> CpuRegisters {
        CpuRegisters {
            pc: Register16::from_value(crate::util::wrap_add16(self.pc.value(), n)),
            ..self
        }
    }

    /// The byte register selected by an `r8` code.
    pub open spec fn r8(self, code: u8) -> u8 {
        if code == 0 {
            self.bc.high.0
        } else if code == 1 {
            self.bc.low.0
        } else if code == 2 {
            self.de.high.0
        } else if code == 3 {
            self.de.low.0
        } else if code == 4 {
            self.hl.high.0
        } else if code == 5 {
            self.hl.low.0
        } else {
            self.af.high.0
        }
    }

    /// The register file after writing `val` to the `r8` slot named `code`.
    pub open spec fn with_r8(self, code: u8, val: u8) -> CpuRegisters {
        if code == 0 {
            CpuRegisters { bc: Register16 { high: Register8(val), ..self.bc }, ..self }
        } else if code == 1 {
            CpuRegisters { bc: Register16 { low: Register8(val), ..self.bc }, ..self }
        } else if code == 2 {
            CpuRegisters { de: Register16 { high: Register8(val), ..self.de }, ..self }
        } else if code == 3 {
            CpuRegisters { de: Register16 { low: Register8(val), ..self.de }, ..self }
        } else if code == 4 {
            CpuRegisters { hl: Register16 { high: Register8(val), ..self.hl }, ..self }
        } else if code == 5 {
            CpuRegisters { hl: Register16 { low: Register8(val), ..self.hl }, ..self }
        } else {
            CpuRegisters { af: RegisterAF { high: Register8(val), ..self.af }, ..self }
        }
    }

    /// Reads the byte register selected by an `r8` code.
    pub fn get_r8(&self, code: u8) -> (r: u8)
        requires
            is_r8_code(code),
        ensures
            r == self.r8(code),
    {
        match code {
            0 => self.bc.high.0,
            1 => self.bc.low.0,
            2 => self.de.high.0,
            3 => self.de.low.0,
            4 => self.hl.high.0,
            5 => self.hl.low.0,
            _ => self.af.high.0,
        }
    }

    /// Writes the byte register selected by an `r8` code.
    pub fn set_r8(&mut self, code: u8, val: u8)
        requires
            is_r8_code(code),
        ensures
            *final(self) == old(self).with_r8(code, val),
    {
        match code {
            0 => self.bc.high.0 = val,
            1 => self.bc.low.0 = val,
            2 => self.de.high.0 = val,
            3 => self.de.low.0 = val,
            4 => self.hl.high.0 = val,
            5 => self.hl.low.0 = val,
            _ => self.af.high.0 = val,
        }
    }

    /// The 16-bit register selected by a 2-bit code of the `ss` family
    /// (BC, DE, HL, SP).
    pub open spec fn r16(self, code: u8) -> u16 {
        if code == 0 {
            self.bc.value()
        } else if code == 1 {
            self.de.value()
        } else if code == 2 {
            self.hl.value()
        } else {
            self.sp.value()
        }
    }

    /// The register file after writing `val` to an `ss`-family register.
    pub open spec fn with_r16(self, code: u8, val: u16) -> CpuRegisters {
        if code == 0 {
            CpuRegisters { bc: Register16::from_value(val), ..self }
        } else if code == 1 {
            CpuRegisters { de: Register16::from_value(val), ..self }
        } else if code == 2 {
            CpuRegisters { hl: Register16::from_value(val), ..self }
        } else {
            CpuRegisters { sp: Register16::from_value(val), ..self }
        }
    }

    /// Reads the `ss`-family 16-bit register selected by `code`.
    pub fn get_r16(&self, code: u8) -> (r: u16)
        requires
            code < 4,
        ensures
            r == self.r16(code),
    {
        match code {
            0 => self.bc.read(),
            1 => self.de.read(),
            2 => self.hl.read(),
            _ => self.sp.read(),
        }
    }

    /// Writes the `ss`-family 16-bit register selected by `code`.
    pub fn set_r16(&mut self, code: u8, val: u16)
        requires
            code < 4,
        ensures
            *final(self) == old(self).with_r16(code, val),
    {
        match code {
            0 => self.bc.write(val),
            1 => self.de.write(val),
            2 => self.hl.write(val),
            _ => self.sp.write(val),
        }
    }

    /// The 16-bit register selected by a 2-bit code of the `qq` family
    /// (BC, DE, HL, AF), as used by PUSH and POP.
    pub open spec fn r16_qq(self, code: u8) -> u16 {
        if code == 0 {
            self.bc.value()
        } else if code == 1 {
            self.de.value()
        } else if code == 2 {
            self.hl.value()
        } else {
            self.af.value()
        }
    }

    /// The register file after writing `val` to a `qq`-family register.
    /// A write to AF drops the low nibble.
    pub open spec fn with_r16_qq(self, code: u8, val: u16) -> CpuRegisters {
        if code == 0 {
            CpuRegisters { bc: Register16::from_value(val), ..self }
        } else if code == 1 {
            CpuRegisters { de: Register16::from_value(val), ..self }
        } else if code == 2 {
            CpuRegisters { hl: Register16::from_value(val), ..self }
        } else {
            CpuRegisters { af: RegisterAF::from_value(val), ..self }
        }
    }

    /// Reads the `qq`-family 16-bit register selected by `code`.
    pub fn get_r16_qq(&self, code: u8) -> (r: u16)
        requires
            code < 4,
        ensures
            r == self.r16_qq(code),
    {
        match code {
            0 => self.bc.read(),
            1 => self.de.read(),
            2 => self.hl.read(),
            _ => self.af.read(),
        }
    }

    /// Writes the `qq`-family 16-bit register selected by `code`.
    pub fn set_r16_qq(&mut self, code: u8, val: u16)
        requires
            code < 4,
        ensures
            *final(self) == old(self).with_r16_qq(code, val),
    {
        match code {
            0 => self.bc.write(val),
            1 => self.de.write(val),
            2 => self.hl.write(val),
            _ => self.af.write(val),
        }
    }

    /// The branch condition selected by a 2-bit code: NZ, Z, NC, C.
    pub open spec fn cond(self, code: u8) -> bool {
        if code == 0 {
            !self.af.low.z
        } else if code == 1 {
            self.af.low.z
        } else if code == 2 {
            !self.af.low.c
        } else {
            self.af.low.c
        }
    }

    /// Evaluates the branch condition selected by `code`.
    pub fn get_cond(&self, code: u8) -> (r: bool)
        requires
            code < 4,
        ensures
            r == self.cond(code),
    {
        match code {
            0 => !self.af.low.z,
            1 => self.af.low.z,
            2 => !self.af.low.c,
            _ => self.af.low.c,
        }
    }
}

/// Writing any `r8` slot and reading the same slot back yields the value
/// written, for every register code and value.
pub proof fn lemma_r8_round_trip(regs: CpuRegisters, code: u8, val: u8)
    requires
        is_r8_code(code),
    ensures
        regs.with_r8(code, val).r8(code) == val,
{
}

/// Writing any other `r8` slot leaves a register unchanged.
pub proof fn lemma_r8_frame(regs: CpuRegisters, code: u8, other: u8, val: u8)
    requires
        is_r8_code(code),
        is_r8_code(other),
        code != other,
    ensures
        regs.with_r8(code, val).r8(other) == regs.r8(other),
{
}

/// Writing any `ss`-family pair and reading it back yields the value
/// written.
pub proof fn lemma_r16_write_read(regs: CpuRegisters, code: u8, val: u16)
    requires
        code < 4,
    ensures
        regs.with_r16(code, val).r16(code) == val,
{
}

/// Writing AF through the `qq` family forces the low nibble of F to zero
/// and keeps bits 15..4.
pub proof fn lemma_af_write_read(regs: CpuRegisters, val: u16)
    ensures
        regs.with_r16_qq(3, val).r16_qq(3) == (val / 256) * 256 + ((val % 256) & 0xf0),
{
    lemma_af_round_trip(val);
}

} // verus!
