//! The bus: every CPU memory access is routed here, to the cartridge
//! mapper, the pixel unit's VRAM/OAM and registers, work RAM, the echo
//! region, high RAM, the I/O registers, the audio unit, the timer, or the
//! interrupt latches.  The 256-byte boot image covers 0000-00FF until the
//! guest writes a non-zero value to the BANK register (FF50).

use vstd::prelude::*;
use crate::CoreError;
use crate::apu::Apu;
use crate::buttons::Buttons;
use crate::mbc::CartridgeHeader;
use crate::mbc::Mbc;
use crate::ppu::Ppu;
use crate::timer::Timer;

verus! {

/// The plain I/O registers the bus keeps itself.
#[derive(Clone, Copy, Debug, PartialEq, Eq, Structural)]
pub struct IoRegisters {
    /// The JOYP select bits (FF00 bits 5 and 4).
    pub joyp: u8,
    /// Serial control (FF02); serial transfer is not emulated.
    pub sc: u8,
    /// The pending-interrupt latch IF (FF0F).
    pub interrupt: u8,
    /// The DMA source page (FF46).
    pub dma: u8,
    /// The boot-ROM mapping control (FF50): 0 keeps the boot image mapped.
    pub bank: u8,
}

/// The bus and everything behind it.
pub struct Mmu {
    /// The interrupt-enable latch IE (FFFF).
    pub ie: u8,
    /// 8 KiB of work RAM at C000-DFFF, echoed at E000-FDFF.
    pub wram: Vec<u8>,
    /// 127 bytes of high RAM at FF80-FFFE.
    pub hram: Vec<u8>,
    pub io: IoRegisters,
    /// The 256-byte boot image mapped over 0000-00FF while BANK is 0.
    pub boot: Vec<u8>,
    pub cartridge: CartridgeHeader,
    pub timer: Timer,
    pub ppu: Ppu,
    pub apu: Apu,
    /// The host's last button snapshot.
    pub buttons: Buttons,
    /// Set by a DMA register write until the machine arms the engine.
    pub dma_requested: bool,
}

impl Mmu {
    pub open spec fn wf(self) -> bool {
        &&& self.wram@.len() == 0x2000
        &&& self.hram@.len() == 0x7f
        &&& self.boot@.len() == 256
        &&& self.cartridge.wf()
        &&& self.ppu.wf()
        &&& self.apu.wf()
    }

    /// Builds the bus from a ROM image and a 256-byte boot image (a short
    /// one is padded with 0xFF, a long one truncated).  Fails exactly
    /// when the cartridge header does.
    pub fn new(rom: Vec<u8>, boot: Vec<u8>) -> (r: Result<Mmu, CoreError>)
        ensures
            r is Ok <==> CartridgeHeader::accepts(rom@),
            r matches Err(e) ==> Self::header_err(rom@, e),
            r matches Ok(m) ==> {
                &&& m.wf()
                &&& m.ie == 0 && m.io == (IoRegisters {
                    joyp: 0u8,
                    sc: 0u8,
                    interrupt: 0u8,
                    dma: 0u8,
                    bank: 0u8,
                })
                &&& m.timer == (Timer {
                    sys: 0u16,
                    tima: 0u8,
                    tma: 0u8,
                    tac: 0u8,
                    overflow_pending: false,
                })
                &&& !m.dma_requested
                &&& forall|i: int|
                    0 <= i < 256 ==> (#[trigger] m.boot@[i]) == crate::mbc::padded_byte(boot@, i)
                &&& forall|i: int| 0 <= i < 0x2000 ==> (#[trigger] m.wram@[i]) == 0
                &&& m.ppu.ly == 0 && m.ppu.dot == 0 && m.ppu.mode is OamScan && m.ppu.lcdc == 0
                &&& !m.apu.enabled
            },
    {
        let header = match CartridgeHeader::new(rom) {
            Ok(h) => h,
            Err(e) => {
                return Err(e);
            },
        };
        Ok(
            Mmu {
                ie: 0,
                wram: crate::ppu::zero_vec(0x2000),
                hram: crate::ppu::zero_vec(0x7f),
                io: IoRegisters { joyp: 0, sc: 0, interrupt: 0, dma: 0, bank: 0 },
                boot: crate::mbc::fit_rom(&boot, 256),
                cartridge: header,
                timer: Timer::new(),
                ppu: Ppu::new(),
                apu: Apu::new(),
                buttons: Buttons::new(),
                dma_requested: false,
            },
        )
    }

    /// Which header error a ROM image produces.
    pub open spec fn header_err(rom: Seq<u8>, e: CoreError) -> bool {
        if rom.len() < 0x150 {
            e == CoreError::RomTooSmall
        } else if !crate::mbc::mapper_supported(rom[0x147]) {
            e == CoreError::UnsupportedMapper(rom[0x147])
        } else if crate::mbc::rom_bank_count(rom[0x148]) == 0 {
            e == CoreError::UnsupportedRomSize(rom[0x148])
        } else {
            e == CoreError::UnsupportedRamSize(rom[0x149])
        }
    }

    /// What every address reads as.  The boot image covers 0000-00FF
    /// while BANK is 0; the cartridge windows go to the mapper; VRAM,
    /// OAM and the display registers go to the pixel unit; E000-FDFF
    /// echoes work RAM; FEA0-FEFF and unmapped I/O read 0xFF; JOYP
    /// composes the select bits with the chosen button nibble; the timer,
    /// audio and interrupt latches read their registers.
    pub open spec fn read_spec(self, addr: u16) -> u8 {
        if addr < 0x100 && self.io.bank == 0 {
            self.boot@[addr as int]
        } else if crate::mbc::is_cart_addr(addr) {
            self.cartridge.mbc.read_spec(addr)
        } else if 0x8000 <= addr < 0xa000 || 0xfe00 <= addr < 0xfea0 {
            self.ppu.read_spec(addr)
        } else if 0xc000 <= addr < 0xe000 {
            self.wram@[addr - 0xc000]
        } else if 0xe000 <= addr < 0xfe00 {
            self.wram@[addr - 0xe000]
        } else if 0xfea0 <= addr < 0xff00 {
            0xff
        } else if addr == 0xff00 {
            ((self.io.joyp / 16 % 4) * 16 + self.buttons.joyp_nibble(self.io.joyp / 16 % 4)) as u8
        } else if addr == 0xff02 {
            self.io.sc
        } else if addr == 0xff04 {
            (self.timer.sys / 256) as u8
        } else if addr == 0xff05 {
            self.timer.tima
        } else if addr == 0xff06 {
            self.timer.tma
        } else if addr == 0xff07 {
            self.timer.tac
        } else if addr == 0xff0f {
            self.io.interrupt
        } else if crate::apu::is_apu_addr(addr) {
            self.apu.read_spec(addr)
        } else if Ppu::owns_addr(addr) {
            self.ppu.read_spec(addr)
        } else if addr == 0xff46 {
            self.io.dma
        } else if 0xff80 <= addr < 0xffff {
            self.hram@[addr - 0xff80]
        } else if addr == 0xffff {
            self.ie
        } else {
            0xff
        }
    }

    pub fn read(&self, addr: u16) -> (r: u8)
        requires
            self.wf(),
        ensures
            r == self.read_spec(addr),
    {
        if addr < 0x100 && self.io.bank == 0 {
            self.boot[addr as usize]
        } else if addr < 0x8000 || (0xa000 <= addr && addr < 0xc000) {
            self.cartridge.mbc.read(addr)
        } else if (0x8000 <= addr && addr < 0xa000) || (0xfe00 <= addr && addr < 0xfea0) {
            self.ppu.read(addr)
        } else if 0xc000 <= addr && addr < 0xe000 {
            self.wram[(addr - 0xc000) as usize]
        } else if 0xe000 <= addr && addr < 0xfe00 {
            self.wram[(addr - 0xe000) as usize]
        } else if 0xfea0 <= addr && addr < 0xff00 {
            0xff
        } else if addr == 0xff00 {
            let sel = self.io.joyp / 16 % 4;
            sel * 16 + self.buttons.as_joyp(sel)
        } else if addr == 0xff02 {
            self.io.sc
        } else if addr == 0xff04 {
            self.timer.div()
        } else if addr == 0xff05 {
            self.timer.tima
        } else if addr == 0xff06 {
            self.timer.tma
        } else if addr == 0xff07 {
            self.timer.tac
        } else if addr == 0xff0f {
            self.io.interrupt
        } else if (0xff10 <= addr && addr <= 0xff14) || (0xff16 <= addr && addr <= 0xff1e) || (
        0xff20 <= addr && addr <= 0xff26) || (0xff30 <= addr && addr <= 0xff3f) {
            self.apu.read(addr)
        } else if (0xff40 <= addr && addr <= 0xff45) || (0xff47 <= addr && addr <= 0xff4b) {
            self.ppu.read(addr)
        } else if addr == 0xff46 {
            self.io.dma
        } else if 0xff80 <= addr && addr < 0xffff {
            self.hram[(addr - 0xff80) as usize]
        } else if addr == 0xffff {
            self.ie
        } else {
            0xff
        }
    }

    /// How a write changes the bus.  The cartridge windows go to the
    /// mapper; VRAM, OAM and display registers to the pixel unit; work
    /// RAM and its echo store the byte; FEA0-FEFF and unmapped I/O
    /// discard it; JOYP keeps only the select bits; a DIV write clears
    /// the system counter; a DMA write stores the page and requests the
    /// transfer; LY and SB are read-only or ignored; the audio registers
    /// follow the audio unit's own write rules.
    pub open spec fn write_post(pre: Mmu, post: Mmu, addr: u16, val: u8) -> bool {
        if crate::mbc::is_cart_addr(addr) {
            &&& Mbc::write_post(pre.cartridge.mbc, post.cartridge.mbc, addr, val)
            &&& post.cartridge == (CartridgeHeader { mbc: post.cartridge.mbc, ..pre.cartridge })
            &&& post == (Mmu { cartridge: post.cartridge, ..pre })
        } else if 0x8000 <= addr < 0xa000 {
            &&& post.ppu.vram@ == pre.ppu.vram@.update(addr - 0x8000, val)
            &&& post.ppu == (Ppu { vram: post.ppu.vram, ..pre.ppu })
            &&& post == (Mmu { ppu: post.ppu, ..pre })
        } else if 0xfe00 <= addr < 0xfea0 {
            &&& post.ppu.oam@ == pre.ppu.oam@.update(addr - 0xfe00, val)
            &&& post.ppu == (Ppu { oam: post.ppu.oam, ..pre.ppu })
            &&& post == (Mmu { ppu: post.ppu, ..pre })
        } else if 0xc000 <= addr < 0xe000 {
            &&& post.wram@ == pre.wram@.update(addr - 0xc000, val)
            &&& post == (Mmu { wram: post.wram, ..pre })
        } else if 0xe000 <= addr < 0xfe00 {
            &&& post.wram@ == pre.wram@.update(addr - 0xe000, val)
            &&& post == (Mmu { wram: post.wram, ..pre })
        } else if addr == 0xff00 {
            post == (Mmu { io: IoRegisters { joyp: (val / 16 % 4 * 16) as u8, ..pre.io }, ..pre })
        } else if addr == 0xff02 {
            post == (Mmu { io: IoRegisters { sc: val, ..pre.io }, ..pre })
        } else if addr == 0xff04 {
            post == (Mmu { timer: Timer { sys: 0u16, ..pre.timer }, ..pre })
        } else if addr == 0xff05 {
            post == (Mmu { timer: Timer { tima: val, ..pre.timer }, ..pre })
        } else if addr == 0xff06 {
            post == (Mmu { timer: Timer { tma: val, ..pre.timer }, ..pre })
        } else if addr == 0xff07 {
            post == (Mmu { timer: Timer { tac: val, ..pre.timer }, ..pre })
        } else if addr == 0xff0f {
            post == (Mmu { io: IoRegisters { interrupt: val, ..pre.io }, ..pre })
        } else if crate::apu::is_apu_addr(addr) {
            &&& post == (Mmu { apu: post.apu, ..pre })
            &&& !pre.apu.enabled && !crate::apu::writable_off(addr) ==> post.apu == pre.apu
            &&& addr == 0xff26 && val < 0x80 ==> post.apu.ch3.wave == pre.apu.ch3.wave
            &&& addr == 0xff26 ==> post.apu.enabled == (val >= 0x80)
        } else if 0xff40 <= addr <= 0xff45 || 0xff47 <= addr <= 0xff4b {
            &&& post == (Mmu { ppu: post.ppu, ..pre })
            &&& post.ppu == (if addr == 0xff40 {
                Ppu { lcdc: val, ..pre.ppu }
            } else if addr == 0xff41 {
                Ppu { stat: (val / 8 % 16 * 8) as u8, ..pre.ppu }
            } else if addr == 0xff42 {
                Ppu { scy: val, ..pre.ppu }
            } else if addr == 0xff43 {
                Ppu { scx: val, ..pre.ppu }
            } else if addr == 0xff44 {
                pre.ppu
            } else if addr == 0xff45 {
                Ppu { lyc: val, ..pre.ppu }
            } else if addr == 0xff47 {
                Ppu { bgp: val, ..pre.ppu }
            } else if addr == 0xff48 {
                Ppu { obp0: val, ..pre.ppu }
            } else if addr == 0xff49 {
                Ppu { obp1: val, ..pre.ppu }
            } else if addr == 0xff4a {
                Ppu { wy: val, ..pre.ppu }
            } else {
                Ppu { wx: val, ..pre.ppu }
            })
        } else if addr == 0xff46 {
            post == (Mmu { io: IoRegisters { dma: val, ..pre.io }, dma_requested: true, ..pre })
        } else if addr == 0xff50 {
            post == (Mmu { io: IoRegisters { bank: val, ..pre.io }, ..pre })
        } else if 0xff80 <= addr < 0xffff {
            &&& post.hram@ == pre.hram@.update(addr - 0xff80, val)
            &&& post == (Mmu { hram: post.hram, ..pre })
        } else if addr == 0xffff {
            post == (Mmu { ie: val, ..pre })
        } else {
            post == pre
        }
    }

    #[verifier::rlimit(100)]
    #[verifier::spinoff_prover]
    pub fn write(&mut self, addr: u16, val: u8)
        requires
            old(self).wf(),
        ensures
            final(self).wf(),
            Mmu::write_post(*old(self), *final(self), addr, val),
    {
        if addr < 0x8000 || (0xa000 <= addr && addr < 0xc000) {
            self.cartridge.mbc.write(addr, val);
        } else if (0x8000 <= addr && addr < 0xa000) || (0xfe00 <= addr && addr < 0xfea0) {
            self.ppu.write(addr, val);
        } else if 0xc000 <= addr && addr < 0xe000 {
            self.wram.set((addr - 0xc000) as usize, val);
        } else if 0xe000 <= addr && addr < 0xfe00 {
            self.wram.set((addr - 0xe000) as usize, val);
        } else if 0xfea0 <= addr && addr < 0xff00 {
            // prohibited region: writes are discarded
        } else if addr == 0xff00 {
            self.io.joyp = val / 16 % 4 * 16;
        } else if addr == 0xff02 {
            self.io.sc = val;
        } else if addr == 0xff04 {
            self.timer.write_div();
        } else if addr == 0xff05 {
            self.timer.write_tima(val);
        } else if addr == 0xff06 {
            self.timer.write_tma(val);
        } else if addr == 0xff07 {
            self.timer.write_tac(val);
        } else if addr == 0xff0f {
            self.io.interrupt = val;
        } else if (0xff10 <= addr && addr <= 0xff14) || (0xff16 <= addr && addr <= 0xff1e) || (
        0xff20 <= addr && addr <= 0xff26) || (0xff30 <= addr && addr <= 0xff3f) {
            self.apu.write(addr, val);
            proof {
                reveal(crate::apu::Apu::write_post);
            }
        } else if (0xff40 <= addr && addr <= 0xff45) || (0xff47 <= addr && addr <= 0xff4b) {
            self.ppu.write(addr, val);
        } else if addr == 0xff46 {
            self.io.dma = val;
            self.dma_requested = true;
        } else if addr == 0xff50 {
            self.io.bank = val;
        } else if 0xff80 <= addr && addr < 0xffff {
            self.hram.set((addr - 0xff80) as usize, val);
        } else if addr == 0xffff {
            self.ie = val;
        }
    }
}

} // verus!
