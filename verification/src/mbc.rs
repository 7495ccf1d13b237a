//! Cartridges and their memory-bank controllers.
//!
//! The header names a mapper variant, a ROM bank count (16 KiB banks) and a
//! RAM bank count (8 KiB banks).  Every mapper presents the same two-method
//! capability: a byte read and a byte write over the cartridge windows
//! 0000-7FFF and A000-BFFF.  Bank selectors are reduced modulo the
//! configured bank count before indexing.

use vstd::prelude::*;
use crate::CoreError;

verus! {

broadcast use crate::util::lemma_u8_and_le_mask;

/// The ROM window addresses plus the external-RAM window: the only
/// addresses the bus routes to a cartridge.
pub open spec fn is_cart_addr(addr: u16) -> bool {
    addr < 0x8000 || (0xa000 <= addr && addr < 0xc000)
}

/// A well-formed stack of memory banks: `n` banks of `size` bytes each.
pub open spec fn banks_wf(v: Seq<Vec<u8>>, n: int, size: int) -> bool {
    &&& v.len() == n
    &&& forall|i: int| 0 <= i < n ==> (#[trigger] v[i])@.len() == size
}

/// Builds `n` ROM banks of 16 KiB from a linear image.
fn chunk_rom(data: &Vec<u8>, n: usize) -> (r: Vec<Vec<u8>>)
    requires
        data@.len() == n * 0x4000,
        n <= 512,
    ensures
        banks_wf(r@, n as int, 0x4000),
        forall|i: int, k: int|
            0 <= i < n && 0 <= k < 0x4000 ==> (#[trigger] r@[i]@[k]) == data@[i * 0x4000 + k],
{
    let mut r: Vec<Vec<u8>> = Vec::new();
    let mut i: usize = 0;
    while i < n
        invariant
            i <= n,
            n <= 512,
            data@.len() == n * 0x4000,
            r@.len() == i,
            forall|b: int| 0 <= b < i ==> (#[trigger] r@[b])@.len() == 0x4000,
            forall|b: int, k: int|
                0 <= b < i && 0 <= k < 0x4000 ==> (#[trigger] r@[b]@[k]) == data@[b * 0x4000 + k],
        decreases n - i,
    {
        let mut bank: Vec<u8> = Vec::new();
        let mut k: usize = 0;
        while k < 0x4000
            invariant
                i < n,
                n <= 512,
                k <= 0x4000,
                data@.len() == n * 0x4000,
                bank@.len() == k,
                forall|j: int| 0 <= j < k ==> (#[trigger] bank@[j]) == data@[i * 0x4000 + j],
            decreases 0x4000 - k,
        {
            bank.push(data[i * 0x4000 + k]);
            k = k + 1;
        }
        r.push(bank);
        i = i + 1;
    }
    r
}

/// Builds `n` zero-filled RAM banks of 8 KiB.
fn zero_banks(n: usize) -> (r: Vec<Vec<u8>>)
    requires
        n <= 16,
    ensures
        banks_wf(r@, n as int, 0x2000),
        forall|i: int, k: int| 0 <= i < n && 0 <= k < 0x2000 ==> (#[trigger] r@[i]@[k]) == 0,
{
    let mut r: Vec<Vec<u8>> = Vec::new();
    let mut i: usize = 0;
    while i < n
        invariant
            i <= n,
            r@.len() == i,
            forall|b: int| 0 <= b < i ==> (#[trigger] r@[b])@.len() == 0x2000,
            forall|b: int, k: int| 0 <= b < i && 0 <= k < 0x2000 ==> (#[trigger] r@[b]@[k]) == 0,
        decreases n - i,
    {
        let mut bank: Vec<u8> = Vec::new();
        let mut k: usize = 0;
        while k < 0x2000
            invariant
                k <= 0x2000,
                bank@.len() == k,
                forall|j: int| 0 <= j < k ==> (#[trigger] bank@[j]) == 0,
            decreases 0x2000 - k,
        {
            bank.push(0);
            k = k + 1;
        }
        r.push(bank);
        i = i + 1;
    }
    r
}

/// A cartridge with no banking hardware: 32 KiB of ROM and one optional
/// RAM bank, always addressable.
pub struct RomOnly {
    pub rom: Vec<Vec<u8>>,
    pub ram: Vec<Vec<u8>>,
}

impl RomOnly {
    pub open spec fn wf(self) -> bool {
        &&& banks_wf(self.rom@, 2, 0x4000)
        &&& banks_wf(self.ram@, 1, 0x2000)
    }

    pub open spec fn read_spec(self, addr: u16) -> u8 {
        if addr < 0x4000 {
            self.rom@[0]@[addr as int]
        } else if addr < 0x8000 {
            self.rom@[1]@[addr - 0x4000]
        } else {
            self.ram@[0]@[addr - 0xa000]
        }
    }

    pub fn new(rom: Vec<Vec<u8>>) -> (r: RomOnly)
        requires
            banks_wf(rom@, 2, 0x4000),
        ensures
            r.wf(),
            r.rom == rom,
    {
        RomOnly { rom, ram: zero_banks(1) }
    }

    pub fn read(&self, addr: u16) -> (r: u8)
        requires
            self.wf(),
            is_cart_addr(addr),
        ensures
            r == self.read_spec(addr),
    {
        if addr < 0x4000 {
            self.rom[0][addr as usize]
        } else if addr < 0x8000 {
            self.rom[1][(addr - 0x4000) as usize]
        } else {
            self.ram[0][(addr - 0xa000) as usize]
        }
    }

    /// How a write changes a plain cartridge: ROM writes are ignored and
    /// RAM writes land in the single bank.
    pub open spec fn write_post(pre: RomOnly, post: RomOnly, addr: u16, val: u8) -> bool {
        &&& post.rom == pre.rom
        &&& addr < 0x8000 ==> post == pre
        &&& addr >= 0xa000 ==> {
            &&& post.ram@[0]@ == pre.ram@[0]@.update(addr - 0xa000, val)
            &&& post == (RomOnly { ram: post.ram, ..pre })
        }
    }

    /// Writes to the ROM window are ignored; RAM accepts every write.
    pub fn write(&mut self, addr: u16, val: u8)
        requires
            old(self).wf(),
            is_cart_addr(addr),
        ensures
            final(self).wf(),
            RomOnly::write_post(*old(self), *final(self), addr, val),
    {
        if addr >= 0xa000 {
            let bank = &mut self.ram[0];
            bank.set((addr - 0xa000) as usize, val);
        }
    }
}

/// The MBC1 mapper: a 5-bit BANK1 selector (0 is coerced to 1), a 2-bit
/// BANK2 selector, a 1-bit addressing MODE, and a RAM-enable latch opened
/// by writing 0x0A to the low nibble of 0000-1FFF.
pub struct Mbc1 {
    pub rom: Vec<Vec<u8>>,
    pub ram: Vec<Vec<u8>>,
    pub bank1: u8,
    pub bank2: u8,
    pub ram_enable: bool,
    pub rom_banks: usize,
    pub ram_banks: usize,
    pub battery: bool,
    pub mode: u8,
}

impl Mbc1 {
    pub open spec fn wf(self) -> bool {
        &&& banks_wf(self.rom@, self.rom_banks as int, 0x4000)
        &&& banks_wf(self.ram@, self.ram_banks as int, 0x2000)
        &&& 0 < self.rom_banks <= 512
        &&& self.ram_banks <= 16
        &&& 1 <= self.bank1 < 32
        &&& self.bank2 < 4
        &&& self.mode < 2
    }

    /// The ROM bank behind the low window 0000-3FFF.
    pub open spec fn low_bank(self) -> int {
        if self.mode == 0 {
            0
        } else {
            (self.bank2 * 32) % (self.rom_banks as int)
        }
    }

    /// The ROM bank behind the high window 4000-7FFF.
    pub open spec fn high_bank(self) -> int {
        (self.bank2 * 32 + self.bank1) % (self.rom_banks as int)
    }

    /// The RAM bank behind A000-BFFF, when RAM exists.
    pub open spec fn ram_bank(self) -> int {
        if self.mode == 0 || self.ram_banks == 0 {
            0
        } else {
            (self.bank2 as int) % (self.ram_banks as int)
        }
    }

    pub open spec fn read_spec(self, addr: u16) -> u8 {
        if addr < 0x4000 {
            self.rom@[self.low_bank()]@[addr as int]
        } else if addr < 0x8000 {
            self.rom@[self.high_bank()]@[addr - 0x4000]
        } else if self.ram_enable && self.ram_banks > 0 {
            self.ram@[self.ram_bank()]@[addr - 0xa000]
        } else {
            0xff
        }
    }

    pub fn new(rom: Vec<u8>, rom_banks: usize, ram_banks: usize, battery: bool) -> (r: Mbc1)
        requires
            rom@.len() == rom_banks * 0x4000,
            0 < rom_banks <= 512,
            ram_banks <= 16,
        ensures
            r.wf(),
            banks_wf(r.rom@, rom_banks as int, 0x4000),
            forall|i: int, k: int|
                0 <= i < rom_banks && 0 <= k < 0x4000 ==> (#[trigger] r.rom@[i]@[k]) == rom@[i
                    * 0x4000 + k],
            r.bank1 == 1 && r.bank2 == 0 && r.mode == 0 && !r.ram_enable,
            r.rom_banks == rom_banks && r.ram_banks == ram_banks,
            forall|i: int, k: int|
                0 <= i < ram_banks && 0 <= k < 0x2000 ==> (#[trigger] r.ram@[i]@[k]) == 0,
    {
        Mbc1 {
            rom: chunk_rom(&rom, rom_banks),
            ram: zero_banks(ram_banks),
            bank1: 1,
            bank2: 0,
            ram_enable: false,
            rom_banks,
            ram_banks,
            battery,
            mode: 0,
        }
    }

    pub fn read(&self, addr: u16) -> (r: u8)
        requires
            self.wf(),
            is_cart_addr(addr),
        ensures
            r == self.read_spec(addr),
    {
        if addr < 0x4000 {
            let bank: usize = if self.mode == 0 {
                0
            } else {
                ((self.bank2 as usize) * 32) % self.rom_banks
            };
            self.rom[bank][addr as usize]
        } else if addr < 0x8000 {
            let bank: usize = ((self.bank2 as usize) * 32 + (self.bank1 as usize))
                % self.rom_banks;
            self.rom[bank][(addr - 0x4000) as usize]
        } else if self.ram_enable && self.ram_banks > 0 {
            let bank: usize = if self.mode == 0 {
                0
            } else {
                (self.bank2 as usize) % self.ram_banks
            };
            self.ram[bank][(addr - 0xa000) as usize]
        } else {
            0xff
        }
    }

    /// How a register or RAM write changes an MBC1 cartridge.
    pub open spec fn write_post(pre: Mbc1, post: Mbc1, addr: u16, val: u8) -> bool {
        &&& post.rom == pre.rom
        &&& addr < 0x2000 ==> post == (Mbc1 { ram_enable: (val & 0x0f) == 0x0a, ..pre })
        &&& (0x2000 <= addr < 0x4000) ==> post == (Mbc1 {
            bank1: if val & 0x1f == 0 {
                1
            } else {
                (val & 0x1f)
            },
            ..pre
        })
        &&& (0x4000 <= addr < 0x6000) ==> post == (Mbc1 { bank2: val & 0x03, ..pre })
        &&& (0x6000 <= addr < 0x8000) ==> post == (Mbc1 { mode: val & 0x01, ..pre })
        &&& (addr >= 0xa000 && pre.ram_enable && pre.ram_banks > 0) ==> {
            &&& post.ram@[pre.ram_bank()]@ == pre.ram@[pre.ram_bank()]@.update(addr - 0xa000, val)
            &&& post == (Mbc1 { ram: post.ram, ..pre })
            &&& forall|b: int|
                0 <= b < pre.ram_banks && b != pre.ram_bank() ==> (#[trigger] post.ram@[b])
                    == pre.ram@[b]
        }
        &&& (addr >= 0xa000 && !(pre.ram_enable && pre.ram_banks > 0)) ==> post == pre
    }

    /// Register writes: 0000-1FFF latches RAM-enable on low nibble 0x0A;
    /// 2000-3FFF sets BANK1 from the low five bits, coercing 0 to 1;
    /// 4000-5FFF sets BANK2 from the low two bits; 6000-7FFF sets MODE.
    /// A000-BFFF stores into the selected RAM bank while RAM is enabled and
    /// is discarded otherwise.
    pub fn write(&mut self, addr: u16, val: u8)
        requires
            old(self).wf(),
            is_cart_addr(addr),
        ensures
            final(self).wf(),
            Mbc1::write_post(*old(self), *final(self), addr, val),
    {
        if addr < 0x2000 {
            self.ram_enable = (val & 0x0f) == 0x0a;
        } else if addr < 0x4000 {
            let v = val & 0x1f;
            self.bank1 = if v == 0 {
                1
            } else {
                v
            };
        } else if addr < 0x6000 {
            self.bank2 = val & 0x03;
        } else if addr < 0x8000 {
            self.mode = val & 0x01;
        } else {
            if self.ram_enable && self.ram_banks > 0 {
                let bank: usize = if self.mode == 0 {
                    0
                } else {
                    (self.bank2 as usize) % self.ram_banks
                };
                let slot = &mut self.ram[bank];
                slot.set((addr - 0xa000) as usize, val);
            }
        }
    }
}

/// The MBC3 mapper: a 7-bit ROM bank selector (0 is coerced to 1) and a
/// RAM/RTC selector where 0x00-0x07 choose a RAM bank and 0x08-0x0C choose
/// a clock register.  This core carries no clock, so RTC reads yield 0xFF.
pub struct Mbc3 {
    pub rom: Vec<Vec<u8>>,
    pub ram: Vec<Vec<u8>>,
    pub rom_banks: usize,
    pub ram_banks: usize,
    pub battery: bool,
    pub rom_bank: u8,
    pub ram_bank: u8,
    pub ram_enable: bool,
}

impl Mbc3 {
    pub open spec fn wf(self) -> bool {
        &&& banks_wf(self.rom@, self.rom_banks as int, 0x4000)
        &&& banks_wf(self.ram@, self.ram_banks as int, 0x2000)
        &&& 0 < self.rom_banks <= 512
        &&& self.ram_banks <= 16
        &&& 1 <= self.rom_bank < 128
    }

    /// The ROM bank behind the high window 4000-7FFF.
    pub open spec fn high_bank(self) -> int {
        (self.rom_bank as int) % (self.rom_banks as int)
    }

    /// The RAM bank behind A000-BFFF, when RAM is selected and exists.
    pub open spec fn ram_slot(self) -> int {
        (self.ram_bank as int) % (self.ram_banks as int)
    }

    pub open spec fn read_spec(self, addr: u16) -> u8 {
        if addr < 0x4000 {
            self.rom@[0]@[addr as int]
        } else if addr < 0x8000 {
            self.rom@[self.high_bank()]@[addr - 0x4000]
        } else if self.ram_enable && self.ram_bank < 8 && self.ram_banks > 0 {
            self.ram@[self.ram_slot()]@[addr - 0xa000]
        } else {
            0xff
        }
    }

    pub fn new(rom: Vec<u8>, rom_banks: usize, ram_banks: usize, battery: bool) -> (r: Mbc3)
        requires
            rom@.len() == rom_banks * 0x4000,
            0 < rom_banks <= 512,
            ram_banks <= 16,
        ensures
            r.wf(),
            forall|i: int, k: int|
                0 <= i < rom_banks && 0 <= k < 0x4000 ==> (#[trigger] r.rom@[i]@[k]) == rom@[i
                    * 0x4000 + k],
            r.rom_bank == 1 && r.ram_bank == 0 && !r.ram_enable,
            r.rom_banks == rom_banks && r.ram_banks == ram_banks,
            forall|i: int, k: int|
                0 <= i < ram_banks && 0 <= k < 0x2000 ==> (#[trigger] r.ram@[i]@[k]) == 0,
    {
        Mbc3 {
            rom: chunk_rom(&rom, rom_banks),
            ram: zero_banks(ram_banks),
            rom_banks,
            ram_banks,
            battery,
            rom_bank: 1,
            ram_bank: 0,
            ram_enable: false,
        }
    }

    pub fn read(&self, addr: u16) -> (r: u8)
        requires
            self.wf(),
            is_cart_addr(addr),
        ensures
            r == self.read_spec(addr),
    {
        if addr < 0x4000 {
            self.rom[0][addr as usize]
        } else if addr < 0x8000 {
            let bank: usize = (self.rom_bank as usize) % self.rom_banks;
            self.rom[bank][(addr - 0x4000) as usize]
        } else if self.ram_enable && self.ram_bank < 8 && self.ram_banks > 0 {
            let bank: usize = (self.ram_bank as usize) % self.ram_banks;
            self.ram[bank][(addr - 0xa000) as usize]
        } else {
            0xff
        }
    }

    /// How a register or RAM write changes an MBC3 cartridge.
    pub open spec fn write_post(pre: Mbc3, post: Mbc3, addr: u16, val: u8) -> bool {
        &&& post.rom == pre.rom
        &&& addr < 0x2000 ==> post == (Mbc3 { ram_enable: (val & 0x0f) == 0x0a, ..pre })
        &&& (0x2000 <= addr < 0x4000) ==> post == (Mbc3 {
            rom_bank: if val & 0x7f == 0 {
                1
            } else {
                (val & 0x7f)
            },
            ..pre
        })
        &&& (0x4000 <= addr < 0x6000) ==> post == (Mbc3 { ram_bank: val, ..pre })
        &&& (0x6000 <= addr < 0x8000) ==> post == pre
        &&& (addr >= 0xa000 && pre.ram_enable && pre.ram_bank < 8 && pre.ram_banks > 0) ==> {
            &&& post.ram@[pre.ram_slot()]@ == pre.ram@[pre.ram_slot()]@.update(addr - 0xa000, val)
            &&& post == (Mbc3 { ram: post.ram, ..pre })
            &&& forall|b: int|
                0 <= b < pre.ram_banks && b != pre.ram_slot() ==> (#[trigger] post.ram@[b])
                    == pre.ram@[b]
        }
        &&& (addr >= 0xa000 && !(pre.ram_enable && pre.ram_bank < 8 && pre.ram_banks > 0)) ==> post
            == pre
    }

    /// Register writes: 0000-1FFF latches RAM-enable; 2000-3FFF sets the
    /// ROM bank from the low seven bits, coercing 0 to 1; 4000-5FFF sets
    /// the RAM/RTC selector; 6000-7FFF (clock latch) is accepted as a
    /// no-op.  A000-BFFF stores into the selected RAM bank while RAM is
    /// enabled and selected, and is discarded otherwise.
    pub fn write(&mut self, addr: u16, val: u8)
        requires
            old(self).wf(),
            is_cart_addr(addr),
        ensures
            final(self).wf(),
            Mbc3::write_post(*old(self), *final(self), addr, val),
    {
        if addr < 0x2000 {
            self.ram_enable = (val & 0x0f) == 0x0a;
        } else if addr < 0x4000 {
            let v = val & 0x7f;
            self.rom_bank = if v == 0 {
                1
            } else {
                v
            };
        } else if addr < 0x6000 {
            self.ram_bank = val;
        } else if addr < 0x8000 {
            // clock latch: accepted, no effect in a core without a clock
        } else {
            if self.ram_enable && self.ram_bank < 8 && self.ram_banks > 0 {
                let bank: usize = (self.ram_bank as usize) % self.ram_banks;
                let slot = &mut self.ram[bank];
                slot.set((addr - 0xa000) as usize, val);
            }
        }
    }
}

/// The MBC5 mapper: a 9-bit ROM bank selector split over two registers and
/// a 4-bit RAM bank selector.
pub struct Mbc5 {
    pub rom: Vec<Vec<u8>>,
    pub ram: Vec<Vec<u8>>,
    pub rom_bank_low: u8,
    pub rom_bank_high: u8,
    pub ram_bank: u8,
    pub ram_enable: bool,
    pub rom_banks: usize,
    pub ram_banks: usize,
    pub battery: bool,
}

impl Mbc5 {
    pub open spec fn wf(self) -> bool {
        &&& banks_wf(self.rom@, self.rom_banks as int, 0x4000)
        &&& banks_wf(self.ram@, self.ram_banks as int, 0x2000)
        &&& 0 < self.rom_banks <= 512
        &&& self.ram_banks <= 16
        &&& self.rom_bank_high < 2
        &&& self.ram_bank < 16
    }

    /// The 9-bit ROM bank selector, reduced modulo the bank count.
    pub open spec fn high_bank(self) -> int {
        (self.rom_bank_high * 256 + self.rom_bank_low) % (self.rom_banks as int)
    }

    /// The RAM bank behind A000-BFFF, when RAM exists.
    pub open spec fn ram_slot(self) -> int {
        (self.ram_bank as int) % (self.ram_banks as int)
    }

    pub open spec fn read_spec(self, addr: u16) -> u8 {
        if addr < 0x4000 {
            self.rom@[0]@[addr as int]
        } else if addr < 0x8000 {
            self.rom@[self.high_bank()]@[addr - 0x4000]
        } else if self.ram_enable && self.ram_banks > 0 {
            self.ram@[self.ram_slot()]@[addr - 0xa000]
        } else {
            0xff
        }
    }

    pub fn new(rom: Vec<u8>, rom_banks: usize, ram_banks: usize, battery: bool) -> (r: Mbc5)
        requires
            rom@.len() == rom_banks * 0x4000,
            0 < rom_banks <= 512,
            ram_banks <= 16,
        ensures
            r.wf(),
            forall|i: int, k: int|
                0 <= i < rom_banks && 0 <= k < 0x4000 ==> (#[trigger] r.rom@[i]@[k]) == rom@[i
                    * 0x4000 + k],
            r.rom_bank_low == 1 && r.rom_bank_high == 0 && r.ram_bank == 0 && !r.ram_enable,
            r.rom_banks == rom_banks && r.ram_banks == ram_banks,
            forall|i: int, k: int|
                0 <= i < ram_banks && 0 <= k < 0x2000 ==> (#[trigger] r.ram@[i]@[k]) == 0,
    {
        Mbc5 {
            rom: chunk_rom(&rom, rom_banks),
            ram: zero_banks(ram_banks),
            rom_bank_low: 1,
            rom_bank_high: 0,
            ram_bank: 0,
            ram_enable: false,
            rom_banks,
            ram_banks,
            battery,
        }
    }

    pub fn read(&self, addr: u16) -> (r: u8)
        requires
            self.wf(),
            is_cart_addr(addr),
        ensures
            r == self.read_spec(addr),
    {
        if addr < 0x4000 {
            self.rom[0][addr as usize]
        } else if addr < 0x8000 {
            let bank: usize = ((self.rom_bank_high as usize) * 256 + (self.rom_bank_low as usize))
                % self.rom_banks;
            self.rom[bank][(addr - 0x4000) as usize]
        } else if self.ram_enable && self.ram_banks > 0 {
            let bank: usize = (self.ram_bank as usize) % self.ram_banks;
            self.ram[bank][(addr - 0xa000) as usize]
        } else {
            0xff
        }
    }

    /// How a register or RAM write changes an MBC5 cartridge.
    pub open spec fn write_post(pre: Mbc5, post: Mbc5, addr: u16, val: u8) -> bool {
        &&& post.rom == pre.rom
        &&& addr < 0x2000 ==> post == (Mbc5 { ram_enable: (val & 0x0f) == 0x0a, ..pre })
        &&& (0x2000 <= addr < 0x3000) ==> post == (Mbc5 { rom_bank_low: val, ..pre })
        &&& (0x3000 <= addr < 0x4000) ==> post == (Mbc5 { rom_bank_high: val & 0x01, ..pre })
        &&& (0x4000 <= addr < 0x6000) ==> post == (Mbc5 { ram_bank: val & 0x0f, ..pre })
        &&& (0x6000 <= addr < 0x8000) ==> post == pre
        &&& (addr >= 0xa000 && pre.ram_enable && pre.ram_banks > 0) ==> {
            &&& post.ram@[pre.ram_slot()]@ == pre.ram@[pre.ram_slot()]@.update(addr - 0xa000, val)
            &&& post == (Mbc5 { ram: post.ram, ..pre })
            &&& forall|b: int|
                0 <= b < pre.ram_banks && b != pre.ram_slot() ==> (#[trigger] post.ram@[b])
                    == pre.ram@[b]
        }
        &&& (addr >= 0xa000 && !(pre.ram_enable && pre.ram_banks > 0)) ==> post == pre
    }

    /// Register writes: 0000-1FFF latches RAM-enable; 2000-2FFF sets the
    /// low eight bits of the ROM bank; 3000-3FFF sets bit 8; 4000-5FFF
    /// sets the RAM bank from the low four bits.  A000-BFFF stores into
    /// the selected RAM bank while RAM is enabled, and is discarded
    /// otherwise.
    pub fn write(&mut self, addr: u16, val: u8)
        requires
            old(self).wf(),
            is_cart_addr(addr),
        ensures
            final(self).wf(),
            Mbc5::write_post(*old(self), *final(self), addr, val),
    {
        if addr < 0x2000 {
            self.ram_enable = (val & 0x0f) == 0x0a;
        } else if addr < 0x3000 {
            self.rom_bank_low = val;
        } else if addr < 0x4000 {
            self.rom_bank_high = val & 0x01;
        } else if addr < 0x6000 {
            self.ram_bank = val & 0x0f;
        } else if addr < 0x8000 {
            // no register behind 6000-7FFF on this mapper
        } else {
            if self.ram_enable && self.ram_banks > 0 {
                let bank: usize = (self.ram_bank as usize) % self.ram_banks;
                let slot = &mut self.ram[bank];
                slot.set((addr - 0xa000) as usize, val);
            }
        }
    }
}

/// For every BANK1 selector and bank count, a read in the high window
/// 4000-7FFF comes from bank `(BANK2*32 + BANK1) mod rom_banks`, byte
/// `addr - 0x4000`; BANK1 is at least 1 because writes of 0 are coerced.
pub proof fn lemma_mbc1_high_window(m: Mbc1, k: u16)
    requires
        m.wf(),
        k < 0x4000,
    ensures
        m.read_spec((0x4000 + k) as u16) == m.rom@[(m.bank2 * 32 + m.bank1) % (
        m.rom_banks as int)]@[k as int],
        m.bank1 >= 1,
{
}


/// A cartridge mapper: the tagged variant behind every ROM/RAM access.
pub enum Mbc {
    RomOnly(RomOnly),
    Mbc1(Mbc1),
    Mbc3(Mbc3),
    Mbc5(Mbc5),
}

impl Mbc {
    pub open spec fn wf(self) -> bool {
        match self {
            Mbc::RomOnly(m) => m.wf(),
            Mbc::Mbc1(m) => m.wf(),
            Mbc::Mbc3(m) => m.wf(),
            Mbc::Mbc5(m) => m.wf(),
        }
    }

    /// What a read over the cartridge windows returns.
    pub open spec fn read_spec(self, addr: u16) -> u8 {
        match self {
            Mbc::RomOnly(m) => m.read_spec(addr),
            Mbc::Mbc1(m) => m.read_spec(addr),
            Mbc::Mbc3(m) => m.read_spec(addr),
            Mbc::Mbc5(m) => m.read_spec(addr),
        }
    }

    /// How a write changes the cartridge: the variant is kept and the
    /// mapper's own write relation holds on the payload.
    pub open spec fn write_post(pre: Mbc, post: Mbc, addr: u16, val: u8) -> bool {
        match pre {
            Mbc::RomOnly(m) => post matches Mbc::RomOnly(n) && RomOnly::write_post(
                m,
                n,
                addr,
                val,
            ),
            Mbc::Mbc1(m) => post matches Mbc::Mbc1(n) && Mbc1::write_post(m, n, addr, val),
            Mbc::Mbc3(m) => post matches Mbc::Mbc3(n) && Mbc3::write_post(m, n, addr, val),
            Mbc::Mbc5(m) => post matches Mbc::Mbc5(n) && Mbc5::write_post(m, n, addr, val),
        }
    }

    pub fn read(&self, addr: u16) -> (r: u8)
        requires
            self.wf(),
            is_cart_addr(addr),
        ensures
            r == self.read_spec(addr),
    {
        match self {
            Mbc::RomOnly(m) => m.read(addr),
            Mbc::Mbc1(m) => m.read(addr),
            Mbc::Mbc3(m) => m.read(addr),
            Mbc::Mbc5(m) => m.read(addr),
        }
    }

    pub fn write(&mut self, addr: u16, val: u8)
        requires
            old(self).wf(),
            is_cart_addr(addr),
        ensures
            final(self).wf(),
            Mbc::write_post(*old(self), *final(self), addr, val),
    {
        match self {
            Mbc::RomOnly(m) => m.write(addr, val),
            Mbc::Mbc1(m) => m.write(addr, val),
            Mbc::Mbc3(m) => m.write(addr, val),
            Mbc::Mbc5(m) => m.write(addr, val),
        }
    }
}

/// The byte at offset `i` of the ROM image after padding it out to whole
/// 16 KiB banks: missing bytes read as 0xFF.
pub open spec fn padded_byte(rom: Seq<u8>, i: int) -> u8 {
    if 0 <= i < rom.len() {
        rom[i]
    } else {
        0xff
    }
}

/// Copies a ROM image into a buffer of exactly `target` bytes, padding
/// with 0xFF and dropping any tail past `target`.
pub(crate) fn fit_rom(rom: &Vec<u8>, target: usize) -> (r: Vec<u8>)
    ensures
        r@.len() == target,
        forall|i: int| 0 <= i < target ==> (#[trigger] r@[i]) == padded_byte(rom@, i),
{
    let mut r: Vec<u8> = Vec::new();
    let mut i: usize = 0;
    while i < target
        invariant
            i <= target,
            r@.len() == i,
            forall|j: int| 0 <= j < i ==> (#[trigger] r@[j]) == padded_byte(rom@, j),
        decreases target - i,
    {
        if i < rom.len() {
            r.push(rom[i]);
        } else {
            r.push(0xff);
        }
        i = i + 1;
    }
    r
}

/// The ROM bank count declared by header byte 0x148, or 0 for a code
/// outside the published table.
pub open spec fn rom_bank_count(code: u8) -> int {
    if code == 0 {
        2
    } else if code == 1 {
        4
    } else if code == 2 {
        8
    } else if code == 3 {
        16
    } else if code == 4 {
        32
    } else if code == 5 {
        64
    } else if code == 6 {
        128
    } else if code == 7 {
        256
    } else if code == 8 {
        512
    } else {
        0
    }
}

/// The RAM bank count declared by header byte 0x149, or -1 for a code
/// outside the published table.
pub open spec fn ram_bank_count(code: u8) -> int {
    if code == 0 || code == 1 {
        0
    } else if code == 2 {
        1
    } else if code == 3 {
        4
    } else if code == 4 {
        16
    } else if code == 5 {
        8
    } else {
        -1
    }
}

/// Whether this core supports the mapper named by header byte 0x147.
pub open spec fn mapper_supported(code: u8) -> bool {
    code == 0x00 || code == 0x01 || code == 0x02 || code == 0x03 || (0x0f <= code <= 0x13) || (0x19
        <= code <= 0x1e)
}

/// Whether the mapper code declares battery-backed RAM.
pub open spec fn mapper_battery(code: u8) -> bool {
    code == 0x03 || code == 0x0f || code == 0x10 || code == 0x13 || code == 0x1b || code == 0x1e
}

/// A parsed cartridge: the header fields that matter to the core, and the
/// mapper holding the ROM and RAM banks.
pub struct CartridgeHeader {
    pub title: Vec<u8>,
    pub mapper_code: u8,
    pub rom_banks: usize,
    pub ram_banks: usize,
    pub battery: bool,
    pub mbc: Mbc,
}

impl CartridgeHeader {
    pub open spec fn wf(self) -> bool {
        self.mbc.wf()
    }

    /// Whether a ROM image has a header this core accepts.
    pub open spec fn accepts(rom: Seq<u8>) -> bool {
        &&& rom.len() >= 0x150
        &&& mapper_supported(rom[0x147])
        &&& rom_bank_count(rom[0x148]) > 0
        &&& ram_bank_count(rom[0x149]) >= 0
    }

    /// Parses the header at 0x134-0x14F and builds the mapper.  Fails, and
    /// says how, exactly on images that are too short or that declare an
    /// unsupported mapper or size code.
    pub fn new(rom: Vec<u8>) -> (r: Result<CartridgeHeader, CoreError>)
        ensures
            r is Ok <==> CartridgeHeader::accepts(rom@),
            rom@.len() < 0x150 ==> r == Result::<CartridgeHeader, CoreError>::Err(
                CoreError::RomTooSmall,
            ),
            rom@.len() >= 0x150 && !mapper_supported(rom@[0x147]) ==> r == Result::<
                CartridgeHeader,
                CoreError,
            >::Err(CoreError::UnsupportedMapper(rom@[0x147])),
            rom@.len() >= 0x150 && mapper_supported(rom@[0x147]) && rom_bank_count(rom@[0x148])
                == 0 ==> r == Result::<CartridgeHeader, CoreError>::Err(
                CoreError::UnsupportedRomSize(rom@[0x148]),
            ),
            rom@.len() >= 0x150 && mapper_supported(rom@[0x147]) && rom_bank_count(rom@[0x148]) > 0
                && ram_bank_count(rom@[0x149]) < 0 ==> r == Result::<CartridgeHeader, CoreError,
            >::Err(CoreError::UnsupportedRamSize(rom@[0x149])),
            r matches Ok(h) ==> {
                &&& h.wf()
                &&& h.mapper_code == rom@[0x147]
                &&& h.battery == mapper_battery(h.mapper_code)
                &&& h.title@.len() == 16
                &&& forall|i: int| 0 <= i < 16 ==> (#[trigger] h.title@[i]) == rom@[0x134 + i]
                &&& h.mapper_code == 0 ==> (h.mbc matches Mbc::RomOnly(m) && h.rom_banks == 2
                    && forall|i: int, k: int|
                    0 <= i < 2 && 0 <= k < 0x4000 ==> (#[trigger] m.rom@[i]@[k]) == padded_byte(
                        rom@,
                        i * 0x4000 + k,
                    ))
                &&& h.mapper_code != 0 ==> h.rom_banks == rom_bank_count(rom@[0x148])
                    && h.ram_banks == ram_bank_count(rom@[0x149])
                &&& (1 <= h.mapper_code <= 3) ==> (h.mbc matches Mbc::Mbc1(m) && m.bank1 == 1
                    && m.bank2 == 0 && m.mode == 0 && !m.ram_enable && m.rom_banks == h.rom_banks
                    && m.ram_banks == h.ram_banks && forall|i: int, k: int|
                    0 <= i < h.rom_banks && 0 <= k < 0x4000 ==> (#[trigger] m.rom@[i]@[k])
                        == padded_byte(rom@, i * 0x4000 + k))
                &&& (0x0f <= h.mapper_code <= 0x13) ==> (h.mbc matches Mbc::Mbc3(m) && m.rom_bank
                    == 1 && m.ram_bank == 0 && !m.ram_enable && m.rom_banks == h.rom_banks
                    && m.ram_banks == h.ram_banks && forall|i: int, k: int|
                    0 <= i < h.rom_banks && 0 <= k < 0x4000 ==> (#[trigger] m.rom@[i]@[k])
                        == padded_byte(rom@, i * 0x4000 + k))
                &&& (0x19 <= h.mapper_code <= 0x1e) ==> (h.mbc matches Mbc::Mbc5(m)
                    && m.rom_bank_low == 1 && m.rom_bank_high == 0 && !m.ram_enable && m.rom_banks
                    == h.rom_banks && m.ram_banks == h.ram_banks && forall|i: int, k: int|
                    0 <= i < h.rom_banks && 0 <= k < 0x4000 ==> (#[trigger] m.rom@[i]@[k])
                        == padded_byte(rom@, i * 0x4000 + k))
            },
    {
        if rom.len() < 0x150 {
            return Err(CoreError::RomTooSmall);
        }
        let mapper_code = rom[0x147];
        let supported = mapper_code == 0x00 || mapper_code == 0x01 || mapper_code == 0x02
            || mapper_code == 0x03 || (0x0f <= mapper_code && mapper_code <= 0x13) || (0x19
            <= mapper_code && mapper_code <= 0x1e);
        if !supported {
            return Err(CoreError::UnsupportedMapper(mapper_code));
        }
        let rom_code = rom[0x148];
        let declared_banks: usize = match rom_code {
            0 => 2,
            1 => 4,
            2 => 8,
            3 => 16,
            4 => 32,
            5 => 64,
            6 => 128,
            7 => 256,
            8 => 512,
            _ => 0,
        };
        if declared_banks == 0 {
            return Err(CoreError::UnsupportedRomSize(rom_code));
        }
        let ram_code = rom[0x149];
        if ram_code > 5 {
            return Err(CoreError::UnsupportedRamSize(ram_code));
        }
        let ram_banks: usize = match ram_code {
            0 => 0,
            1 => 0,
            2 => 1,
            3 => 4,
            4 => 16,
            _ => 8,
        };

        let mut title: Vec<u8> = Vec::new();
        let mut i: usize = 0;
        while i < 16
            invariant
                i <= 16,
                rom@.len() >= 0x150,
                title@.len() == i,
                forall|j: int| 0 <= j < i ==> (#[trigger] title@[j]) == rom@[0x134 + j],
            decreases 16 - i,
        {
            title.push(rom[0x134 + i]);
            i = i + 1;
        }

        let battery = mapper_code == 0x03 || mapper_code == 0x0f || mapper_code == 0x10
            || mapper_code == 0x13 || mapper_code == 0x1b || mapper_code == 0x1e;

        let (rom_banks, mbc): (usize, Mbc) = if mapper_code == 0 {
            let image = fit_rom(&rom, 2 * 0x4000);
            (2, Mbc::RomOnly(RomOnly::new(chunk_rom(&image, 2))))
        } else if mapper_code <= 3 {
            let image = fit_rom(&rom, declared_banks * 0x4000);
            (declared_banks, Mbc::Mbc1(Mbc1::new(image, declared_banks, ram_banks, battery)))
        } else if mapper_code <= 0x13 {
            let image = fit_rom(&rom, declared_banks * 0x4000);
            (declared_banks, Mbc::Mbc3(Mbc3::new(image, declared_banks, ram_banks, battery)))
        } else {
            let image = fit_rom(&rom, declared_banks * 0x4000);
            (declared_banks, Mbc::Mbc5(Mbc5::new(image, declared_banks, ram_banks, battery)))
        };

        Ok(CartridgeHeader { title, mapper_code, rom_banks, ram_banks, battery, mbc })
    }
}

} // verus!
