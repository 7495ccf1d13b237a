//! The pixel-processing unit: a dot-driven scanline renderer.
//!
//! Each master tick is one dot.  A scanline is 456 dots: an OAM scan over
//! dots 0-79 that selects up to ten objects for the line, a drawing phase
//! that emits one pixel per dot for the 160 columns, and a horizontal
//! blank to dot 455.  After line 143 the unit spends ten lines in
//! vertical blank, then wraps to line 0.  A frame is therefore exactly
//! 154 * 456 = 70224 dots.

use vstd::prelude::*;
use crate::util::bit;

verus! {

/// The mode the unit reports in STAT bits 1..0.
#[derive(Clone, Copy, Debug, PartialEq, Eq, Structural)]
pub enum Mode {
    HBlank,
    VBlank,
    OamScan,
    Drawing,
}

/// The two mode bits of STAT: HBlank 0, VBlank 1, OAMScan 2, Drawing 3.
pub open spec fn mode_bits_spec(m: Mode) -> u8 {
    match m {
        Mode::HBlank => 0,
        Mode::VBlank => 1,
        Mode::OamScan => 2,
        Mode::Drawing => 3,
    }
}

pub fn mode_bits(m: Mode) -> (r: u8)
    ensures
        r == mode_bits_spec(m),
{
    match m {
        Mode::HBlank => 0,
        Mode::VBlank => 1,
        Mode::OamScan => 2,
        Mode::Drawing => 3,
    }
}

/// One object selected during the OAM scan, with the OAM slot it came
/// from, which breaks ties between objects sharing an X coordinate.
#[derive(Clone, Copy, Debug, PartialEq, Eq, Structural)]
pub struct Object {
    pub y: u8,
    pub x: u8,
    pub tile: u8,
    pub attributes: u8,
    pub oam_index: u8,
}

/// The order objects are drawn in: by X ascending, ties broken by OAM
/// slot.  The combined key is unique per object.
pub open spec fn obj_key(o: Object) -> int {
    o.x * 64 + o.oam_index
}

/// The pixel-processing unit.
pub struct Ppu {
    /// The 160x144 grid of final 2-bit colors, row-major.
    pub screen: Vec<u8>,
    /// The dot within the current scanline, 0..455.
    pub dot: usize,
    /// The column being drawn, 0..159.
    pub lx: u8,
    /// The objects selected for the current line, in drawing order.
    pub objects: Vec<Object>,
    /// The window's internal line counter.
    pub window_y: u8,
    /// Set when the window produced a pixel on this line.
    pub window_y_update: bool,
    /// Whether LY has matched WY on this frame.
    pub wy_condition: bool,
    /// Whether the column has reached WX on this line.
    pub wx_condition: bool,
    /// Video RAM, 8 KiB at 8000-9FFF.
    pub vram: Vec<u8>,
    /// Object attribute memory, 160 bytes at FE00-FE9F.
    pub oam: Vec<u8>,
    pub lcdc: u8,
    pub stat: u8,
    pub scy: u8,
    pub scx: u8,
    /// The current scanline, 0..153.
    pub ly: u8,
    pub lyc: u8,
    pub bgp: u8,
    pub obp0: u8,
    pub obp1: u8,
    pub wy: u8,
    pub wx: u8,
    /// Latched until the machine forwards it to IF bit 0.
    pub vblank_if: bool,
    /// Latched until the machine forwards it to IF bit 1.
    pub stat_if: bool,
    pub mode: Mode,
}

impl Ppu {
    pub open spec fn wf(self) -> bool {
        &&& self.screen@.len() == 23040
        &&& self.vram@.len() == 0x2000
        &&& self.oam@.len() == 0xa0
        &&& self.dot < 456
        &&& self.ly < 154
        &&& self.lx < 160
        &&& self.objects@.len() <= 10
        &&& self.stat <= 0x78
        &&& self.mode is Drawing ==> self.ly < 144 && self.dot == 80 + self.lx
        &&& self.mode is OamScan ==> self.ly < 144 && self.dot <= 79 && self.lx == 0
        &&& self.mode is HBlank ==> self.ly < 144 && self.lx == 0
        &&& self.mode is VBlank ==> 144 <= self.ly && self.lx == 0
    }

    /// The dot's position within the 70224-dot frame.
    pub open spec fn frame_pos(self) -> int {
        self.ly * 456 + self.dot
    }

    pub fn new() -> (r: Ppu)
        ensures
            r.wf(),
            r.ly == 0 && r.dot == 0 && r.lx == 0 && r.mode is OamScan,
            r.lcdc == 0 && r.stat == 0 && !r.vblank_if && !r.stat_if,
            r.window_y == 0 && !r.wy_condition && !r.wx_condition && !r.window_y_update,
            r.scy == 0 && r.scx == 0 && r.lyc == 0 && r.bgp == 0 && r.obp0 == 0 && r.obp1 == 0,
            r.wy == 0 && r.wx == 0,
            forall|i: int| 0 <= i < 23040 ==> (#[trigger] r.screen@[i]) == 0,
            forall|i: int| 0 <= i < 0x2000 ==> (#[trigger] r.vram@[i]) == 0,
            forall|i: int| 0 <= i < 0xa0 ==> (#[trigger] r.oam@[i]) == 0,
    {
        Ppu {
            screen: zero_vec(23040),
            dot: 0,
            lx: 0,
            objects: Vec::new(),
            window_y: 0,
            window_y_update: false,
            wy_condition: false,
            wx_condition: false,
            vram: zero_vec(0x2000),
            oam: zero_vec(0xa0),
            lcdc: 0,
            stat: 0,
            scy: 0,
            scx: 0,
            ly: 0,
            lyc: 0,
            bgp: 0,
            obp0: 0,
            obp1: 0,
            wy: 0,
            wx: 0,
            vblank_if: false,
            stat_if: false,
            mode: Mode::OamScan,
        }
    }

    /// The register and memory addresses the bus routes here.
    pub open spec fn owns_addr(addr: u16) -> bool {
        (0x8000 <= addr < 0xa000) || (0xfe00 <= addr < 0xfea0) || (0xff40 <= addr <= 0xff45) || (
        0xff47 <= addr <= 0xff4b)
    }

    /// What a read returns: VRAM and OAM as stored; STAT composes the
    /// writable bits with the LY=LYC flag and the mode bits; LY is the
    /// line counter; the rest read their registers.
    pub open spec fn read_spec(self, addr: u16) -> u8 {
        if 0x8000 <= addr < 0xa000 {
            self.vram@[addr - 0x8000]
        } else if 0xfe00 <= addr < 0xfea0 {
            self.oam@[addr - 0xfe00]
        } else if addr == 0xff40 {
            self.lcdc
        } else if addr == 0xff41 {
            ((self.stat + if self.ly == self.lyc {
                4int
            } else {
                0int
            }) + mode_bits_spec(self.mode)) as u8
        } else if addr == 0xff42 {
            self.scy
        } else if addr == 0xff43 {
            self.scx
        } else if addr == 0xff44 {
            self.ly
        } else if addr == 0xff45 {
            self.lyc
        } else if addr == 0xff47 {
            self.bgp
        } else if addr == 0xff48 {
            self.obp0
        } else if addr == 0xff49 {
            self.obp1
        } else if addr == 0xff4a {
            self.wy
        } else {
            self.wx
        }
    }

    pub fn read(&self, addr: u16) -> (r: u8)
        requires
            self.wf(),
            Ppu::owns_addr(addr),
        ensures
            r == self.read_spec(addr),
    {
        if 0x8000 <= addr && addr < 0xa000 {
            self.vram[(addr - 0x8000) as usize]
        } else if 0xfe00 <= addr && addr < 0xfea0 {
            self.oam[(addr - 0xfe00) as usize]
        } else if addr == 0xff40 {
            self.lcdc
        } else if addr == 0xff41 {
            let mut v = self.stat;
            if self.ly == self.lyc {
                v = v + 4;
            }
            v + mode_bits(self.mode)
        } else if addr == 0xff42 {
            self.scy
        } else if addr == 0xff43 {
            self.scx
        } else if addr == 0xff44 {
            self.ly
        } else if addr == 0xff45 {
            self.lyc
        } else if addr == 0xff47 {
            self.bgp
        } else if addr == 0xff48 {
            self.obp0
        } else if addr == 0xff49 {
            self.obp1
        } else if addr == 0xff4a {
            self.wy
        } else {
            self.wx
        }
    }

    /// A write: VRAM and OAM store the byte; STAT keeps only its writable
    /// bits 6..3; LY is read-only; the other registers store the byte.
    pub fn write(&mut self, addr: u16, val: u8)
        requires
            old(self).wf(),
            Ppu::owns_addr(addr),
        ensures
            final(self).wf(),
            0x8000 <= addr < 0xa000 ==> {
                &&& final(self).vram@ == old(self).vram@.update(addr - 0x8000, val)
                &&& *final(self) == (Ppu { vram: final(self).vram, ..*old(self) })
            },
            0xfe00 <= addr < 0xfea0 ==> {
                &&& final(self).oam@ == old(self).oam@.update(addr - 0xfe00, val)
                &&& *final(self) == (Ppu { oam: final(self).oam, ..*old(self) })
            },
            addr == 0xff40 ==> *final(self) == (Ppu { lcdc: val, ..*old(self) }),
            addr == 0xff41 ==> *final(self) == (Ppu { stat: (val / 8 % 16 * 8) as u8, ..*old(self) }),
            addr == 0xff42 ==> *final(self) == (Ppu { scy: val, ..*old(self) }),
            addr == 0xff43 ==> *final(self) == (Ppu { scx: val, ..*old(self) }),
            addr == 0xff44 ==> *final(self) == *old(self),
            addr == 0xff45 ==> *final(self) == (Ppu { lyc: val, ..*old(self) }),
            addr == 0xff47 ==> *final(self) == (Ppu { bgp: val, ..*old(self) }),
            addr == 0xff48 ==> *final(self) == (Ppu { obp0: val, ..*old(self) }),
            addr == 0xff49 ==> *final(self) == (Ppu { obp1: val, ..*old(self) }),
            addr == 0xff4a ==> *final(self) == (Ppu { wy: val, ..*old(self) }),
            addr == 0xff4b ==> *final(self) == (Ppu { wx: val, ..*old(self) }),
    {
        if 0x8000 <= addr && addr < 0xa000 {
            self.vram.set((addr - 0x8000) as usize, val);
        } else if 0xfe00 <= addr && addr < 0xfea0 {
            self.oam.set((addr - 0xfe00) as usize, val);
        } else if addr == 0xff40 {
            self.lcdc = val;
        } else if addr == 0xff41 {
            self.stat = val / 8 % 16 * 8;
        } else if addr == 0xff42 {
            self.scy = val;
        } else if addr == 0xff43 {
            self.scx = val;
        } else if addr == 0xff44 {
            // LY is read-only
        } else if addr == 0xff45 {
            self.lyc = val;
        } else if addr == 0xff47 {
            self.bgp = val;
        } else if addr == 0xff48 {
            self.obp0 = val;
        } else if addr == 0xff49 {
            self.obp1 = val;
        } else if addr == 0xff4a {
            self.wy = val;
        } else if addr == 0xff4b {
            self.wx = val;
        }
    }

    /// A copy of the frame for the host: the screen grid while the LCD is
    /// on (LCDC bit 7), the all-zero image while it is off.
    pub fn frame(&self) -> (r: Vec<u8>)
        requires
            self.wf(),
        ensures
            r@.len() == 23040,
            self.lcdc >= 0x80 ==> r@ == self.screen@,
            self.lcdc < 0x80 ==> forall|i: int| 0 <= i < 23040 ==> (#[trigger] r@[i]) == 0,
    {
        if self.lcdc >= 0x80 {
            let mut out: Vec<u8> = Vec::new();
            let mut i: usize = 0;
            while i < 23040
                invariant
                    i <= 23040,
                    out@.len() == i,
                    self.screen@.len() == 23040,
                    forall|j: int| 0 <= j < i ==> (#[trigger] out@[j]) == self.screen@[j],
                decreases 23040 - i,
            {
                out.push(self.screen[i]);
                i = i + 1;
            }
            proof {
                assert(out@ =~= self.screen@);
            }
            out
        } else {
            zero_vec(23040)
        }
    }
}

/// A zero-filled byte vector of the given length.
pub fn zero_vec(n: usize) -> (r: Vec<u8>)
    ensures
        r@.len() == n,
        forall|i: int| 0 <= i < n ==> (#[trigger] r@[i]) == 0,
{
    let mut r: Vec<u8> = Vec::new();
    let mut i: usize = 0;
    while i < n
        invariant
            i <= n,
            r@.len() == i,
            forall|j: int| 0 <= j < i ==> (#[trigger] r@[j]) == 0,
        decreases n - i,
    {
        r.push(0);
        i = i + 1;
    }
    r
}


/// The object height selected by LCDC bit 2: 8 or 16 rows.
pub open spec fn obj_height(lcdc: u8) -> int {
    if lcdc / 4 % 2 == 1 {
        16
    } else {
        8
    }
}

/// The object stored in OAM slot `i`.
pub open spec fn obj_at(oam: Seq<u8>, i: int) -> Object {
    Object {
        y: oam[4 * i],
        x: oam[4 * i + 1],
        tile: oam[4 * i + 2],
        attributes: oam[4 * i + 3],
        oam_index: i as u8,
    }
}

/// Whether OAM slot `i` covers scanline `ly`: the line plus the 16-row
/// offset falls inside the object's row range.
pub open spec fn obj_on_line(oam: Seq<u8>, i: int, ly: u8, h: int) -> bool {
    let y = oam[4 * i];
    y <= ly + 16 < y + h
}

/// Where an object with the given key lands in a sorted list: before the
/// first entry with a larger key.
pub open spec fn insert_pos(s: Seq<Object>, key: int) -> int
    decreases s.len(),
{
    if s.len() == 0 {
        0
    } else if obj_key(s[0]) > key {
        0
    } else {
        1 + insert_pos(s.drop_first(), key)
    }
}

/// A sorted list with one object inserted at its place.
pub open spec fn insert_obj(s: Seq<Object>, o: Object) -> Seq<Object> {
    s.insert(insert_pos(s, obj_key(o)), o)
}

/// The selected-objects list after scanning slots `i..40` starting from
/// `acc`: each covered slot is inserted in drawing order until ten
/// objects are held.
pub open spec fn scan_from(oam: Seq<u8>, ly: u8, h: int, i: int, acc: Seq<Object>) -> Seq<Object>
    decreases 40 - i,
{
    if i >= 40 || acc.len() >= 10 {
        acc
    } else if obj_on_line(oam, i, ly, h) {
        scan_from(oam, ly, h, i + 1, insert_obj(acc, obj_at(oam, i)))
    } else {
        scan_from(oam, ly, h, i + 1, acc)
    }
}

/// The whole OAM scan for the current line: the first ten covered slots,
/// in drawing order.
pub open spec fn scan_result(p: Ppu) -> Seq<Object> {
    scan_from(p.oam@, p.ly, obj_height(p.lcdc), 0, Seq::empty())
}

/// A position `p` whose prefix keys are at most `key` and whose next key
/// (if any) exceeds it is exactly where the insertion lands.
proof fn lemma_insert_pos_char(s: Seq<Object>, key: int, p: int)
    requires
        0 <= p <= s.len(),
        forall|j: int| 0 <= j < p ==> obj_key(#[trigger] s[j]) <= key,
        p < s.len() ==> obj_key(s[p as int]) > key,
    ensures
        insert_pos(s, key) == p,
    decreases s.len(),
{
    if s.len() > 0 && p > 0 {
        assert(obj_key(s[0]) <= key);
        lemma_insert_pos_char(s.drop_first(), key, p - 1);
    }
}

/// Inserts an object into a list kept in drawing order.
fn insert_sorted(objs: &mut Vec<Object>, o: Object)
    requires
        old(objs)@.len() < 10,
    ensures
        final(objs)@ == insert_obj(old(objs)@, o),
        final(objs)@.len() == old(objs)@.len() + 1,
{
    let key: u32 = (o.x as u32) * 64 + (o.oam_index as u32);
    let mut pos: usize = 0;
    while pos < objs.len() && (objs[pos].x as u32) * 64 + (objs[pos].oam_index as u32) <= key
        invariant
            pos <= objs@.len(),
            objs@.len() < 10,
            key == obj_key(o),
            forall|j: int| 0 <= j < pos ==> obj_key(#[trigger] objs@[j]) <= obj_key(o),
        decreases objs@.len() - pos,
    {
        pos = pos + 1;
    }
    proof {
        lemma_insert_pos_char(objs@, obj_key(o), pos as int);
    }
    objs.insert(pos, o);
}

/// A bit of a byte: `(x >> i) & 1`.
pub open spec fn bit_of(x: u8, i: u8) -> u8 {
    (x >> i) & 1
}

/// The 2-bit color at column `col` (0 leftmost) of a tile row stored in
/// the standard two-plane format at `row` in VRAM: the low plane byte
/// first, the high plane byte second.
pub open spec fn two_plane(vram: Seq<u8>, row: int, col: u8) -> u8 {
    (bit_of(vram[row + 1], (7 - col) as u8) * 2 + bit_of(vram[row], (7 - col) as u8)) as u8
}

/// The VRAM offset of a tile row: LCDC bit 4 selects the 8000-based map
/// of unsigned indices, otherwise indices are signed around 9000.
pub open spec fn tile_row_base(lcdc: u8, tile: u8) -> int {
    if lcdc / 16 % 2 == 1 {
        tile * 16
    } else if tile <= 127 {
        0x1000 + tile * 16
    } else {
        0x800 + (tile - 128) * 16
    }
}

/// A palette register maps a 2-bit color index to a 2-bit display color.
pub open spec fn palette_color(pal: u8, idx: u8) -> u8 {
    ((pal as int / (if idx == 0 {
        1int
    } else if idx == 1 {
        4int
    } else if idx == 2 {
        16int
    } else {
        64int
    })) % 4) as u8
}

impl Ppu {
    /// The background color index under the current dot: the tile map
    /// selected by LCDC bit 3, addressed by the screen coordinate plus
    /// the scroll, wrapping at 256.
    pub open spec fn bg_pixel(self) -> u8 {
        let dx = crate::util::wrap_add8(self.scx, self.lx);
        let dy = crate::util::wrap_add8(self.scy, self.ly);
        let map: int = if self.lcdc / 8 % 2 == 1 {
            0x1c00
        } else {
            0x1800
        };
        let tile = self.vram@[map + (dy / 8) * 32 + dx / 8];
        two_plane(self.vram@, tile_row_base(self.lcdc, tile) + 2 * (dy % 8), (dx % 8) as u8)
    }

    /// Computes the background color index for the current dot.
    pub fn draw_bg(&self) -> (r: u8)
        requires
            self.wf(),
        ensures
            r == self.bg_pixel(),
            r < 4,
    {
        let dx = self.scx.wrapping_add(self.lx);
        let dy = self.scy.wrapping_add(self.ly);
        let map: usize = if self.lcdc / 8 % 2 == 1 {
            0x1c00
        } else {
            0x1800
        };
        let tile = self.vram[map + (dy as usize / 8) * 32 + dx as usize / 8];
        let row: usize = self.tile_row_base_x(tile) + 2 * (dy as usize % 8);
        let b1 = bit(self.vram[row], 7 - dx % 8);
        let b2 = bit(self.vram[row + 1], 7 - dx % 8);
        b2 * 2 + b1
    }

    /// Resolves a tile index to the VRAM offset of its first row.
    fn tile_row_base_x(&self, tile: u8) -> (r: usize)
        ensures
            r == tile_row_base(self.lcdc, tile),
            r <= 0x1ff0,
    {
        if self.lcdc / 16 % 2 == 1 {
            tile as usize * 16
        } else if tile <= 127 {
            0x1000 + tile as usize * 16
        } else {
            0x800 + (tile as usize - 128) * 16
        }
    }

    /// The window color index under the current dot: the window tile map
    /// (LCDC bit 6), addressed by the column offset from WX-7 and the
    /// window's own line counter.
    pub open spec fn window_pixel(self) -> u8 {
        let dx = crate::util::wrap_sub8(self.lx, crate::util::wrap_sub8(self.wx, 7));
        let dy = self.window_y;
        let map: int = if self.lcdc / 64 % 2 == 1 {
            0x1c00
        } else {
            0x1800
        };
        let tile = self.vram@[map + (dy / 8) * 32 + dx / 8];
        two_plane(self.vram@, tile_row_base(self.lcdc, tile) + 2 * (dy % 8), (dx % 8) as u8)
    }

    /// Computes the window color index for the current dot.
    pub fn draw_window(&self) -> (r: u8)
        requires
            self.wf(),
        ensures
            r == self.window_pixel(),
            r < 4,
    {
        let dx = self.lx.wrapping_sub(self.wx.wrapping_sub(7));
        let dy = self.window_y;
        let map: usize = if self.lcdc / 64 % 2 == 1 {
            0x1c00
        } else {
            0x1800
        };
        let tile = self.vram[map + (dy as usize / 8) * 32 + dx as usize / 8];
        let row: usize = self.tile_row_base_x(tile) + 2 * (dy as usize % 8);
        let b1 = bit(self.vram[row], 7 - dx % 8);
        let b2 = bit(self.vram[row + 1], 7 - dx % 8);
        b2 * 2 + b1
    }

    /// Whether an object's eight columns cover the current dot.
    pub open spec fn obj_covers(self, o: Object) -> bool {
        o.x <= self.lx + 8 < o.x + 8
    }

    /// The object's color index under the current dot, X and Y flips
    /// applied; tall objects ignore the low bit of their tile index.
    pub open spec fn obj_pixel_color(self, o: Object) -> u8 {
        let h = obj_height(self.lcdc);
        let dx0 = (self.lx + 8 - o.x) as u8;
        let dx: u8 = if o.attributes / 32 % 2 == 1 {
            (7 - dx0) as u8
        } else {
            dx0
        };
        let dy0 = crate::util::wrap_sub8((self.ly + 16) as u8, o.y);
        let dy: u8 = if o.attributes / 64 % 2 == 1 {
            crate::util::wrap_sub8((h - 1) as u8, dy0)
        } else {
            dy0
        };
        let tile: u8 = if h == 16 {
            (o.tile - o.tile % 2) as u8
        } else {
            o.tile
        };
        two_plane(self.vram@, tile * 16 + 2 * dy, dx)
    }

    /// The first object in drawing order that covers the dot with a
    /// non-transparent pixel: its color index, its priority flag, and the
    /// palette its attribute selects.
    pub open spec fn obj_lookup(self, s: Seq<Object>) -> Option<(u8, bool, u8)>
        decreases s.len(),
    {
        if s.len() == 0 {
            None
        } else {
            let o = s[0];
            if self.obj_covers(o) && self.obj_pixel_color(o) != 0 {
                Some(
                    (
                        self.obj_pixel_color(o),
                        o.attributes >= 0x80,
                        if o.attributes / 16 % 2 == 1 {
                            self.obp1
                        } else {
                            self.obp0
                        },
                    ),
                )
            } else {
                self.obj_lookup(s.drop_first())
            }
        }
    }

    /// Finds the object pixel for the current dot among the selected
    /// objects, if any.
    pub fn draw_objects(&self) -> (r: Option<(u8, bool, u8)>)
        requires
            self.wf(),
        ensures
            r == self.obj_lookup(self.objects@),
            r matches Some(t) ==> t.0 < 4 && t.0 != 0,
    {
        let mut i: usize = 0;
        proof {
            assert(self.objects@.skip(0) =~= self.objects@);
        }
        while i < self.objects.len()
            invariant
                i <= self.objects@.len(),
                self.wf(),
                self.obj_lookup(self.objects@) == self.obj_lookup(self.objects@.skip(i as int)),
            decreases self.objects@.len() - i,
        {
            let o = self.objects[i];
            let lx16 = self.lx as u16 + 8;
            proof {
                assert(self.objects@.skip(i as int)[0] == self.objects@[i as int]);
            }
            if o.x as u16 <= lx16 && lx16 < o.x as u16 + 8 {
                let h: u8 = if self.lcdc / 4 % 2 == 1 {
                    16
                } else {
                    8
                };
                let dx0: u8 = (lx16 - o.x as u16) as u8;
                let dx: u8 = if o.attributes / 32 % 2 == 1 {
                    7 - dx0
                } else {
                    dx0
                };
                let dy0: u8 = (self.ly + 16).wrapping_sub(o.y);
                let dy: u8 = if o.attributes / 64 % 2 == 1 {
                    (h - 1).wrapping_sub(dy0)
                } else {
                    dy0
                };
                let tile: u8 = if h == 16 {
                    o.tile - o.tile % 2
                } else {
                    o.tile
                };
                let row: usize = tile as usize * 16 + 2 * dy as usize;
                let b1 = bit(self.vram[row], 7 - dx);
                let b2 = bit(self.vram[row + 1], 7 - dx);
                let color = b2 * 2 + b1;
                if color != 0 {
                    let palette = if o.attributes / 16 % 2 == 1 {
                        self.obp1
                    } else {
                        self.obp0
                    };
                    return Some((color, o.attributes >= 0x80, palette));
                }
            }
            proof {
                assert(self.objects@.skip(i as int).drop_first() =~= self.objects@.skip(
                    i as int + 1,
                ));
            }
            i = i + 1;
        }
        None
    }
}


impl Ppu {
    /// The pixel the drawing phase writes at the current dot.  The
    /// background index comes from the window when the window is enabled
    /// and both its row and column conditions hold, from the background
    /// map when LCDC bit 0 is set, and is 0 otherwise; an object pixel in
    /// front of it wins unless its priority bit defers to a non-zero
    /// background; the matching palette maps the index to the color.
    pub open spec fn drawing_pixel(self) -> u8 {
        let wx_cond = self.wx_condition || self.lx + 7 >= self.wx;
        let use_window = self.lcdc % 2 == 1 && self.lcdc / 32 % 2 == 1 && self.wy_condition
            && wx_cond;
        let bg_idx: u8 = if self.lcdc % 2 == 1 {
            if use_window {
                self.window_pixel()
            } else {
                self.bg_pixel()
            }
        } else {
            0
        };
        let obj = if self.lcdc / 2 % 2 == 1 {
            self.obj_lookup(self.objects@)
        } else {
            None
        };
        match obj {
            Some(t) => {
                if t.1 && bg_idx != 0 {
                    palette_color(self.bgp, bg_idx)
                } else {
                    palette_color(t.2, t.0)
                }
            },
            None => palette_color(self.bgp, bg_idx),
        }
    }

    /// Whether the drawing phase emits a window pixel at the current dot.
    pub open spec fn window_used(self) -> bool {
        self.lcdc % 2 == 1 && self.lcdc / 32 % 2 == 1 && self.wy_condition && (self.wx_condition
            || self.lx + 7 >= self.wx)
    }

    /// One drawing dot: latch the column condition, emit the pixel,
    /// advance the column, and at column 159 close the line - reset the
    /// column, enter horizontal blank, bump the window line counter if
    /// the window ran, and raise the STAT interrupt for mode 0 when STAT
    /// bit 3 asks for it.
    #[verifier::rlimit(100)]
    pub fn clock_drawing(&mut self)
        requires
            old(self).wf(),
            old(self).mode is Drawing,
        ensures
            final(self).screen@ == old(self).screen@.update(
                old(self).ly * 160 + old(self).lx,
                Ppu { wx_condition: old(self).wx_condition || old(self).lx + 7 >= old(self).wx, ..*old(self) }.drawing_pixel(),
            ),
            *final(self) == (Ppu {
                screen: final(self).screen,
                wx_condition: old(self).wx_condition || old(self).lx + 7 >= old(self).wx,
                window_y_update: final(self).window_y_update,
                window_y: final(self).window_y,
                lx: final(self).lx,
                mode: final(self).mode,
                stat_if: final(self).stat_if,
                ..*old(self)
            }),
            ({
                let wyu = old(self).window_y_update || (Ppu {
                    wx_condition: old(self).wx_condition || old(self).lx + 7 >= old(self).wx,
                    ..*old(self)
                }).window_used();
                if old(self).lx == 159 {
                    &&& final(self).lx == 0
                    &&& final(self).mode is HBlank
                    &&& final(self).window_y == (if wyu {
                        crate::util::wrap_add8(old(self).window_y, 1)
                    } else {
                        old(self).window_y
                    })
                    &&& final(self).window_y_update == false
                    &&& final(self).stat_if == (old(self).stat_if || old(self).stat / 8 % 2 == 1)
                } else {
                    &&& final(self).lx == old(self).lx + 1
                    &&& final(self).mode is Drawing
                    &&& final(self).window_y == old(self).window_y
                    &&& final(self).window_y_update == wyu
                    &&& final(self).stat_if == old(self).stat_if
                }
            }),
    {
        if self.lx as u16 + 7 >= self.wx as u16 {
            self.wx_condition = true;
        }
        let screen_idx: usize = self.ly as usize * 160 + self.lx as usize;
        let mut bg_idx: u8 = 0;
        let mut used_window = false;
        if self.lcdc % 2 == 1 {
            if self.lcdc / 32 % 2 == 1 && self.wy_condition && self.wx_condition {
                used_window = true;
                bg_idx = self.draw_window();
            } else {
                bg_idx = self.draw_bg();
            }
        }
        let obj = if self.lcdc / 2 % 2 == 1 {
            self.draw_objects()
        } else {
            None
        };
        let color: u8 = match obj {
            Some((c, priority, pal)) => {
                if priority && bg_idx != 0 {
                    self.apply_palette(self.bgp, bg_idx)
                } else {
                    self.apply_palette(pal, c)
                }
            },
            None => self.apply_palette(self.bgp, bg_idx),
        };
        proof {
            let pm = Ppu {
                wx_condition: old(self).wx_condition || old(self).lx + 7 >= old(self).wx,
                ..*old(self)
            };
            assert(obj == (if pm.lcdc / 2 % 2 == 1 {
                pm.obj_lookup(pm.objects@)
            } else {
                None
            }));
            assert(bg_idx == (if pm.lcdc % 2 == 1 {
                if pm.window_used() {
                    pm.window_pixel()
                } else {
                    pm.bg_pixel()
                }
            } else {
                0u8
            }));
            assert(color == pm.drawing_pixel());
        }
        self.screen.set(screen_idx, color);
        if used_window {
            self.window_y_update = true;
        }
        self.lx = self.lx + 1;
        if self.lx == 160 {
            self.lx = 0;
            self.mode = Mode::HBlank;
            if self.window_y_update {
                self.window_y = self.window_y.wrapping_add(1);
                self.window_y_update = false;
            }
            if self.stat / 8 % 2 == 1 {
                self.stat_if = true;
            }
        }
    }

    /// Maps a 2-bit color index through a palette register.
    fn apply_palette(&self, pal: u8, idx: u8) -> (r: u8)
        requires
            idx < 4,
        ensures
            r == palette_color(pal, idx),
    {
        match idx {
            0 => pal % 4,
            1 => pal / 4 % 4,
            2 => pal / 16 % 4,
            _ => pal / 64 % 4,
        }
    }

    /// One horizontal-blank dot: nothing happens until dot 455, which
    /// either enters vertical blank - raising the V-Blank flag, zeroing
    /// the window line, and the mode-1 STAT interrupt if STAT bit 4 asks
    /// - or starts the next line's OAM scan, clearing the column
    /// condition and raising the mode-2 STAT interrupt if STAT bit 5
    /// asks.
    pub fn clock_hblank(&mut self)
        requires
            old(self).wf(),
            old(self).mode is HBlank,
        ensures
            old(self).dot != 455 ==> *final(self) == *old(self),
            old(self).dot == 455 && old(self).ly == 143 ==> *final(self) == (Ppu {
                mode: Mode::VBlank,
                vblank_if: true,
                window_y: 0u8,
                stat_if: old(self).stat_if || old(self).stat / 16 % 2 == 1,
                ..*old(self)
            }),
            old(self).dot == 455 && old(self).ly != 143 ==> *final(self) == (Ppu {
                mode: Mode::OamScan,
                wx_condition: false,
                stat_if: old(self).stat_if || old(self).stat / 32 % 2 == 1,
                ..*old(self)
            }),
    {
        if self.dot == 455 {
            if self.ly == 143 {
                self.mode = Mode::VBlank;
                self.vblank_if = true;
                self.window_y = 0;
                if self.stat / 16 % 2 == 1 {
                    self.stat_if = true;
                }
            } else {
                self.mode = Mode::OamScan;
                self.wx_condition = false;
                if self.stat / 32 % 2 == 1 {
                    self.stat_if = true;
                }
            }
        }
    }

    /// One vertical-blank dot: at the last dot of line 153 the frame
    /// ends - the scan of line 0 begins, the window state resets, and
    /// the mode-2 STAT interrupt is raised if STAT bit 5 asks.
    pub fn clock_vblank(&mut self)
        requires
            old(self).wf(),
            old(self).mode is VBlank,
        ensures
            !(old(self).dot == 455 && old(self).ly == 153) ==> *final(self) == *old(self),
            old(self).dot == 455 && old(self).ly == 153 ==> *final(self) == (Ppu {
                mode: Mode::OamScan,
                wy_condition: false,
                window_y: 0u8,
                stat_if: old(self).stat_if || old(self).stat / 32 % 2 == 1,
                ..*old(self)
            }),
    {
        if self.dot == 455 && self.ly == 153 {
            self.mode = Mode::OamScan;
            self.wy_condition = false;
            self.window_y = 0;
            if self.stat / 32 % 2 == 1 {
                self.stat_if = true;
            }
        }
    }

    /// One OAM-scan dot: dot 0 selects the line's objects; dot 79 enters
    /// the drawing phase and latches the window row condition when LY has
    /// reached WY.
    pub fn clock_oamscan(&mut self)
        requires
            old(self).wf(),
            old(self).mode is OamScan,
        ensures
            final(self).objects@.len() <= 10,
            final(self).objects@ == (if old(self).dot == 0 {
                scan_result(*old(self))
            } else {
                old(self).objects@
            }),
            *final(self) == (Ppu {
                objects: final(self).objects,
                mode: if old(self).dot == 79 {
                    Mode::Drawing
                } else {
                    Mode::OamScan
                },
                wy_condition: old(self).wy_condition || (old(self).dot == 79 && old(self).ly == old(
                    self,
                ).wy),
                ..*old(self)
            }),
    {
        if self.dot == 0 {
            let mut objs: Vec<Object> = Vec::new();
            let mut i: usize = 0;
            let h: u16 = if self.lcdc / 4 % 2 == 1 {
                16
            } else {
                8
            };
            while i < 40 && objs.len() < 10
                invariant
                    i <= 40,
                    objs@.len() <= 10,
                    self.wf(),
                    h == obj_height(self.lcdc),
                    scan_from(self.oam@, self.ly, h as int, i as int, objs@) == scan_result(*self),
                decreases 40 - i,
            {
                let y = self.oam[4 * i];
                let line = self.ly as u16 + 16;
                if y as u16 <= line && line < y as u16 + h {
                    let o = Object {
                        y,
                        x: self.oam[4 * i + 1],
                        tile: self.oam[4 * i + 2],
                        attributes: self.oam[4 * i + 3],
                        oam_index: i as u8,
                    };
                    proof {
                        assert(o == obj_at(self.oam@, i as int));
                    }
                    insert_sorted(&mut objs, o);
                }
                i = i + 1;
            }
            self.objects = objs;
        }
        if self.dot == 79 {
            self.mode = Mode::Drawing;
            if self.ly == self.wy {
                self.wy_condition = true;
            }
        }
    }

    /// Drains the latched interrupt requests: the V-Blank and STAT lines
    /// the machine must forward to IF bits 0 and 1.
    pub fn take_interrupts(&mut self) -> (r: (bool, bool))
        ensures
            r.0 == old(self).vblank_if,
            r.1 == old(self).stat_if,
            *final(self) == (Ppu { vblank_if: false, stat_if: false, ..*old(self) }),
    {
        let r = (self.vblank_if, self.stat_if);
        self.vblank_if = false;
        self.stat_if = false;
        r
    }

    /// One master tick while the LCD is off: the unit idles with LY held
    /// at zero.
    pub open spec fn idle_spec(pre: Ppu) -> Ppu {
        Ppu {
            ly: 0u8,
            dot: 0usize,
            lx: 0u8,
            mode: Mode::HBlank,
            window_y: 0u8,
            window_y_update: false,
            wy_condition: false,
            wx_condition: false,
            ..pre
        }
    }

    /// One master tick: while the LCD is on, run the mode's dot and
    /// advance the dot counter, wrapping lines and frames and raising
    /// the LY=LYC STAT interrupt at each line start when STAT bit 6 asks
    /// for it.  Exactly 70224 dots make a frame, and vertical blank is
    /// entered exactly at the last dot of line 143.
    pub fn clock(&mut self)
        requires
            old(self).wf(),
        ensures
            final(self).wf(),
            old(self).lcdc < 0x80 ==> *final(self) == Ppu::idle_spec(*old(self)),
            old(self).lcdc >= 0x80 ==> {
                &&& final(self).frame_pos() == (old(self).frame_pos() + 1) % 70224
                &&& ((final(self).mode is VBlank && !(old(self).mode is VBlank)) <==> (old(
                    self,
                ).mode is HBlank && old(self).dot == 455 && old(self).ly == 143))
                &&& (old(self).mode is HBlank && old(self).dot == 455 && old(self).ly == 143)
                    ==> final(self).vblank_if
                &&& final(self).vblank_if == (old(self).vblank_if || (old(self).mode is HBlank
                    && old(self).dot == 455 && old(self).ly == 143))
                &&& final(self).ly == (if old(self).dot == 455 {
                    if old(self).ly == 153 {
                        0int
                    } else {
                        old(self).ly + 1
                    }
                } else {
                    old(self).ly as int
                })
                &&& final(self).dot == (if old(self).dot == 455 {
                    0int
                } else {
                    old(self).dot + 1
                })
                &&& final(self).stat_if == (old(self).stat_if
                    || (old(self).mode is Drawing && old(self).lx == 159 && old(self).stat / 8 % 2 == 1)
                    || (old(self).mode is HBlank && old(self).dot == 455 && old(self).ly == 143 && old(self).stat / 16 % 2 == 1)
                    || (old(self).mode is HBlank && old(self).dot == 455 && old(self).ly != 143 && old(self).stat / 32 % 2 == 1)
                    || (old(self).mode is VBlank && old(self).dot == 455 && old(self).ly == 153 && old(self).stat / 32 % 2 == 1)
                    || (old(self).dot == 455 && old(self).stat / 64 % 2 == 1 && final(self).ly == old(self).lyc))
                &&& final(self).vram == old(self).vram
                &&& final(self).oam == old(self).oam
                &&& final(self).lcdc == old(self).lcdc && final(self).stat == old(self).stat
                &&& final(self).scy == old(self).scy && final(self).scx == old(self).scx
                &&& final(self).lyc == old(self).lyc && final(self).bgp == old(self).bgp
                &&& final(self).obp0 == old(self).obp0 && final(self).obp1 == old(self).obp1
                &&& final(self).wy == old(self).wy && final(self).wx == old(self).wx
                &&& !(old(self).mode is Drawing) ==> final(self).screen == old(self).screen
                &&& old(self).mode is Drawing ==> final(self).screen@ == old(
                    self,
                ).screen@.update(
                    old(self).ly * 160 + old(self).lx,
                    Ppu { wx_condition: old(self).wx_condition || old(self).lx + 7 >= old(self).wx, ..*old(self) }.drawing_pixel(),
                )
                &&& final(self).objects@ == (if old(self).mode is OamScan && old(self).dot == 0 {
                    scan_result(*old(self))
                } else {
                    old(self).objects@
                })
            },
    {
        if self.lcdc < 0x80 {
            self.ly = 0;
            self.dot = 0;
            self.lx = 0;
            self.mode = Mode::HBlank;
            self.window_y = 0;
            self.window_y_update = false;
            self.wy_condition = false;
            self.wx_condition = false;
            return ;
        }
        match self.mode {
            Mode::HBlank => self.clock_hblank(),
            Mode::OamScan => self.clock_oamscan(),
            Mode::Drawing => self.clock_drawing(),
            Mode::VBlank => self.clock_vblank(),
        }
        self.dot = self.dot + 1;
        if self.dot == 456 {
            self.dot = 0;
            self.ly = self.ly + 1;
            if self.ly == 154 {
                self.ly = 0;
            }
            if self.stat / 64 % 2 == 1 && self.ly == self.lyc {
                self.stat_if = true;
            }
        }
    }
}

/// The frame position reached `n` dots after starting at `pos`.
pub open spec fn frame_pos_after(pos: int, n: int) -> int {
    (pos + n) % 70224
}

/// While the LCD runs, each dot advances the frame position by one
/// modulo 70224, and vertical blank is entered exactly at position
/// 143 * 456 + 455; so between two successive V-Blank entries exactly
/// 70224 master ticks elapse: entries happen at the ticks `n` where
/// `pos0 + n` is a multiple of 70224, and two consecutive such points
/// differ by 70224.
pub proof fn lemma_vblank_period(pos0: int, n1: int, n2: int)
    requires
        0 < n1 < n2,
        (pos0 + n1) % 70224 == 0,
        (pos0 + n2) % 70224 == 0,
        forall|m: int| n1 < m < n2 ==> #[trigger] ((pos0 + m) % 70224) != 0,
    ensures
        n2 - n1 == 70224,
{
    let a = pos0 + n1;
    let b = pos0 + n2;
    vstd::arithmetic::div_mod::lemma_fundamental_div_mod(a, 70224);
    vstd::arithmetic::div_mod::lemma_fundamental_div_mod(b, 70224);
    let ka = a / 70224;
    let kb = b / 70224;
    assert(a == 70224 * ka);
    assert(b == 70224 * kb);
    assert(kb > ka) by (nonlinear_arith)
        requires
            a == 70224 * ka,
            b == 70224 * kb,
            b > a,
    ;
    if kb - ka > 1 {
        let m = n1 + 70224;
        assert(pos0 + m == 70224 * (ka + 1));
        assert((70224 * (ka + 1)) % 70224 == 0) by (nonlinear_arith);
        assert(m < n2) by (nonlinear_arith)
            requires
                a == 70224 * ka,
                b == 70224 * kb,
                kb - ka > 1,
                m == a - pos0 + 70224,
                n2 == b - pos0,
        ;
        assert((pos0 + m) % 70224 != 0);
        assert(false);
    }
    assert(kb == ka + 1);
    assert(b - a == 70224) by (nonlinear_arith)
        requires
            a == 70224 * ka,
            b == 70224 * kb,
            kb == ka + 1,
    ;
}

} // verus!
