//! The picture unit: palette, video and sprite memory, the registers that
//! steer it, and the scanline state machine that fills the frame buffer.
use crate::fault::Fault;
use crate::ppu::io::{BackgroundControl, DisplayControl, DisplayStat, DisplayStatFlag, VCount};
use crate::utils::{load16, load32, read_u16, read_u32, store16, store32, write_u16, write_u32};
use vstd::prelude::*;

verus! {

/// Bytes of palette memory.
pub const PALETTE_SIZE: usize = 1024;

/// Bytes of video memory.
pub const VRAM_SIZE: usize = 98304;

/// Bytes of sprite attribute memory.
pub const OAM_SIZE: usize = 1024;

/// Bytes of the frame buffer: 240 by 160 pixels, three bytes each.
pub const FRAME_SIZE: usize = 115200;

/// Cycles spent drawing the visible part of a scanline.
pub const HDRAW_CYCLES: u32 = 960;

/// Cycles spent in horizontal blanking.
pub const HBLANK_CYCLES: u32 = 272;

/// Cycles of a whole scanline.
pub const SCANLINE_CYCLES: u32 = 1232;

/// Scanlines spent in vertical blanking.
pub const VBLANK_HEIGHT: u16 = 68;

/// Visible scanlines.
pub const VDRAW_HEIGHT: u16 = 160;

/// Where the picture unit is within a frame, with the cycles left before
/// it moves on.
#[derive(Clone, Copy, PartialEq, Eq, Structural, Debug)]
pub enum PPU_state {
    HDRAW { cycles_left: u32 },
    VBLANK { cycles_left: u32 },
    HBLANK { cycles_left: u32 },
}

impl PPU_state {
    pub fn new_hdraw() -> (r: Self)
        ensures
            r == (PPU_state::HDRAW { cycles_left: HDRAW_CYCLES }),
    {
        PPU_state::HDRAW { cycles_left: HDRAW_CYCLES }
    }

    pub fn new_hblank() -> (r: Self)
        ensures
            r == (PPU_state::HBLANK { cycles_left: HBLANK_CYCLES }),
    {
        PPU_state::HBLANK { cycles_left: HBLANK_CYCLES }
    }

    pub fn new_vblank() -> (r: Self)
        ensures
            r == (PPU_state::VBLANK { cycles_left: SCANLINE_CYCLES }),
    {
        PPU_state::VBLANK { cycles_left: SCANLINE_CYCLES }
    }
}

/// Whether `addr` lies in palette, video or sprite memory.
pub open spec fn in_video_space(addr: u32) -> bool {
    0x5000000 <= addr <= 0x7FFFFFF
}

/// Whether `addr` lies in video memory proper.
pub open spec fn in_vram(addr: u32) -> bool {
    0x6000000 <= addr <= 0x6FFFFFF
}

/// Offset of `addr` inside video memory. The 128 KiB window holds 96 KiB
/// of memory; its last 32 KiB mirror the 32 KiB before them.
pub open spec fn vram_offset(addr: u32) -> u32 {
    let a = addr & 0x1FFFF;
    if a > 0x17FFF {
        (a - 0x8000) as u32
    } else {
        a
    }
}

/// Offset of `addr` inside the memory it selects.
pub open spec fn video_offset(addr: u32) -> u32 {
    if in_vram(addr) {
        vram_offset(addr)
    } else {
        addr & 0x3FF
    }
}

/// Size of the memory that `addr` selects.
pub open spec fn video_len(addr: u32) -> int {
    if in_vram(addr) {
        98304
    } else {
        1024
    }
}

/// Whether an access of `width` bytes at `addr` stays inside the memory
/// that `addr` selects.
pub open spec fn video_access_fits(addr: u32, width: int) -> bool {
    in_video_space(addr) && video_offset(addr) + width <= video_len(addr)
}

/// The offsets stay inside their memories, and an aligned access never
/// straddles the end.
pub proof fn lemma_video_offsets(addr: u32)
    ensures
        (addr & 0x3FF) < 1024,
        vram_offset(addr) < 98304,
        addr & 1 == 0 ==> (addr & 0x3FF) + 2 <= 1024 && vram_offset(addr) + 2 <= 98304,
        addr & 3 == 0 ==> (addr & 0x3FF) + 4 <= 1024 && vram_offset(addr) + 4 <= 98304,
{
    let a = addr & 0x1FFFF;
    assert((addr & 0x3FF) < 1024 && a <= 0x1FFFF && (addr & 1 == 0 ==> (addr & 0x3FF) <= 1022 && a
        <= 0x1FFFE && a != 0x17FFF) && (addr & 3 == 0 ==> (addr & 0x3FF) <= 1020 && a <= 0x1FFFC
        && a != 0x17FFF && a != 0x17FFE && a != 0x17FFD)) by (bit_vector)
        requires
            a == addr & 0x1FFFF,
    ;
}

/// Computes the offset of `addr` inside video memory.
pub fn vram_index(addr: u32) -> (r: usize)
    ensures
        r == vram_offset(addr),
        r < 98304,
{
    proof {
        lemma_video_offsets(addr);
    }
    let a = addr & 0x1FFFF;
    if a > 0x17FFF {
        (a - 0x8000) as usize
    } else {
        a as usize
    }
}

/// Computes the offset of `addr` inside palette or sprite memory.
pub fn small_index(addr: u32) -> (r: usize)
    ensures
        r == addr & 0x3FF,
        r < 1024,
{
    proof {
        lemma_video_offsets(addr);
    }
    (addr & 0x3FF) as usize
}

/// The picture unit as a mathematical value.
#[verifier::ext_equal]
pub struct PpuState {
    pub state: PPU_state,
    pub buffer: Seq<u8>,
    pub palette_ram: Seq<u8>,
    pub vram: Seq<u8>,
    pub obj_attrib: Seq<u8>,
    pub dispstat: DisplayStat,
    pub dispcnt: DisplayControl,
    pub vcount: VCount,
    pub bgcnt: Seq<BackgroundControl>,
}

impl PpuState {
    /// The byte at `addr`.
    pub open spec fn read8(self, addr: u32) -> u8 {
        if addr <= 0x5FFFFFF {
            self.palette_ram[(addr & 0x3FF) as int]
        } else if addr <= 0x6FFFFFF {
            self.vram[vram_offset(addr) as int]
        } else {
            self.obj_attrib[(addr & 0x3FF) as int]
        }
    }

    /// The little-endian half-word at `addr`.
    pub open spec fn read16(self, addr: u32) -> u16 {
        if addr <= 0x5FFFFFF {
            load16(self.palette_ram, (addr & 0x3FF) as int)
        } else if addr <= 0x6FFFFFF {
            load16(self.vram, vram_offset(addr) as int)
        } else {
            load16(self.obj_attrib, (addr & 0x3FF) as int)
        }
    }

    /// The little-endian word at `addr`.
    pub open spec fn read32(self, addr: u32) -> u32 {
        if addr <= 0x5FFFFFF {
            load32(self.palette_ram, (addr & 0x3FF) as int)
        } else if addr <= 0x6FFFFFF {
            load32(self.vram, vram_offset(addr) as int)
        } else {
            load32(self.obj_attrib, (addr & 0x3FF) as int)
        }
    }

    /// The unit after a half-word is stored at `addr`.
    pub open spec fn write16(self, addr: u32, val: u16) -> PpuState {
        if addr <= 0x5FFFFFF {
            PpuState { palette_ram: store16(self.palette_ram, (addr & 0x3FF) as int, val), ..self }
        } else if addr <= 0x6FFFFFF {
            PpuState { vram: store16(self.vram, vram_offset(addr) as int, val), ..self }
        } else {
            PpuState { obj_attrib: store16(self.obj_attrib, (addr & 0x3FF) as int, val), ..self }
        }
    }

    /// The unit after a word is stored at `addr`.
    pub open spec fn write32(self, addr: u32, val: u32) -> PpuState {
        if addr <= 0x5FFFFFF {
            PpuState { palette_ram: store32(self.palette_ram, (addr & 0x3FF) as int, val), ..self }
        } else if addr <= 0x6FFFFFF {
            PpuState { vram: store32(self.vram, vram_offset(addr) as int, val), ..self }
        } else {
            PpuState { obj_attrib: store32(self.obj_attrib, (addr & 0x3FF) as int, val), ..self }
        }
    }
}

/// An entry of a background map.
#[derive(Clone, Copy, PartialEq, Eq, Structural, Debug)]
pub struct TextTile {
    pub tile: usize,
    pub horizontal_flip: bool,
    pub vertical_flip: bool,
    pub palette: u8,
}

impl TextTile {
    /// The entry that the half-word `tile_data` encodes: the tile number
    /// in bits 9..0, the flips in bits 10 and 11, the palette in bits
    /// 15..12.
    pub open spec fn decoded(tile_data: u16) -> TextTile {
        TextTile {
            tile: (tile_data & 0x3FF) as usize,
            horizontal_flip: tile_data & 0x400 != 0,
            vertical_flip: tile_data & 0x800 != 0,
            palette: ((tile_data >> 12) & 0xF) as u8,
        }
    }

    #[inline(always)]
    pub fn new(tile_data: u16) -> (r: Self)
        ensures
            r == Self::decoded(tile_data),
            r.tile <= 0x3FF,
            r.palette <= 15,
    {
        proof {
            lemma_pixel_fields(tile_data, 0);
        }
        Self {
            tile: (tile_data & 0x3FF) as usize,
            horizontal_flip: tile_data & 0x400 != 0,
            vertical_flip: tile_data & 0x800 != 0,
            palette: ((tile_data >> 12) & 0xF) as u8,
        }
    }
}

/// The fields cut out of map entries and pixel bytes stay in range.
pub proof fn lemma_pixel_fields(half: u16, byte: u8)
    ensures
        half & 0x3FF <= 0x3FF,
        (half >> 12) & 0xF <= 15,
        byte & 0xF <= 15,
        byte >> 4 <= 15,
{
    assert(half & 0x3FF <= 0x3FF && (half >> 12) & 0xF <= 15 && byte & 0xF <= 15 && byte >> 4 <= 15)
        by (bit_vector);
}

/// One of the three bytes of a pixel: the red, green or blue field of a
/// 15-bit colour, scaled to eight bits.
pub open spec fn channel(c: u16, k: int) -> u8 {
    if k == 0 {
        ((c as u8) & 0x1F) << 3
    } else if k == 1 {
        (((c >> 5) as u8) & 0x1F) << 3
    } else {
        (((c >> 10) as u8) & 0x1F) << 3
    }
}

/// Splits a 15-bit colour into red, green and blue bytes.
#[inline(always)]
pub fn u16_to_color(c: u16) -> (r: [u8; 3])
    ensures
        forall|k: int| 0 <= k < 3 ==> #[trigger] r@[k] == channel(c, k),
{
    [
        ((#[verifier::truncate] (c as u8)) & 0x1F) << 3,
        ((#[verifier::truncate] ((c >> 5) as u8)) & 0x1F) << 3,
        ((#[verifier::truncate] ((c >> 10) as u8)) & 0x1F) << 3,
    ]
}

/// Bytes of a scanline in the frame buffer.
pub const LINE_BYTES: usize = 720;

/// `buffer` with the scanline `line` replaced by `rendered`.
pub open spec fn with_line(buffer: Seq<u8>, line: int, rendered: Seq<u8>) -> Seq<u8> {
    Seq::new(
        buffer.len(),
        |j: int|
            if line * 720 <= j < line * 720 + 720 {
                rendered[j - line * 720]
            } else {
                buffer[j]
            },
    )
}

impl PpuState {
    /// The unit at rest: at the start of the first scanline, with cleared
    /// memories, a uniformly grey frame, the direct-colour bitmap mode
    /// selected and every other register zero.
    pub open spec fn at_rest() -> PpuState {
        PpuState {
            state: PPU_state::HDRAW { cycles_left: HDRAW_CYCLES },
            buffer: Seq::new(115200, |i: int| 100u8),
            palette_ram: Seq::new(1024, |i: int| 0u8),
            vram: Seq::new(98304, |i: int| 0u8),
            obj_attrib: Seq::new(1024, |i: int| 0u8),
            dispstat: DisplayStat { value: 0, lyc: 0 },
            dispcnt: DisplayControl { bg_mode: 3, value: 3 },
            vcount: VCount { ly: 0 },
            bgcnt: Seq::new(4, |i: int| BackgroundControl::decoded(0)),
        }
    }

    /// Whether every memory has its size and every background register
    /// is decoded from its word.
    pub open spec fn wf(self) -> bool {
        &&& self.buffer.len() == 115200
        &&& self.palette_ram.len() == 1024
        &&& self.vram.len() == 98304
        &&& self.obj_attrib.len() == 1024
        &&& self.bgcnt.len() == 4
        &&& forall|i: int|
            0 <= i < 4 ==> #[trigger] self.bgcnt[i] == BackgroundControl::decoded(
                self.bgcnt[i].value,
            )
    }

    /// Whether the scanline counter agrees with the phase: a visible line
    /// while drawing or in horizontal blanking, one of the lines after
    /// them in vertical blanking.
    pub open spec fn in_step(self) -> bool {
        match self.state {
            PPU_state::VBLANK { cycles_left } => 160 <= self.vcount.ly < 228,
            _ => self.vcount.ly < 160,
        }
    }

    /// The colour that palette entry `index` holds.
    pub open spec fn palette_color(self, index: int) -> u16 {
        load16(self.palette_ram, 2 * index)
    }

    /// The colour of pixel `x` of the current line in the direct-colour
    /// bitmap mode.
    pub open spec fn mode3_pixel(self, x: int) -> u16 {
        load16(self.vram, (self.vcount.ly * 240 + x) * 2)
    }

    /// The colour of pixel `x` of the current line in the paletted
    /// bitmap mode.
    pub open spec fn mode4_pixel(self, x: int) -> u16 {
        self.palette_color(self.vram[self.vcount.ly * 240 + x] as int)
    }

    /// Offset in video memory of the map entry for tile column `i` of
    /// the current line of background `bg`.
    pub open spec fn map_offset(self, bg: int, i: int) -> int {
        (self.vcount.ly / 8) * 64 + self.bgcnt[bg].tile_map_offset + 2 * i
    }

    /// The map entry for tile column `i`.
    pub open spec fn map_entry(self, bg: int, i: int) -> TextTile {
        TextTile::decoded(load16(self.vram, self.map_offset(bg, i)))
    }

    /// Offset in video memory of the row of tile column `i` that the
    /// current line shows: tiles take 64 bytes with 256 colours and 32
    /// with 16.
    pub open spec fn tile_row_offset(self, bg: int, i: int) -> int {
        if self.bgcnt[bg].colors {
            self.map_entry(bg, i).tile * 64 + self.bgcnt[bg].tile_data_offset + (self.vcount.ly % 8)
                * 8
        } else {
            self.map_entry(bg, i).tile * 32 + self.bgcnt[bg].tile_data_offset + (self.vcount.ly % 8)
                * 4
        }
    }

    /// Bytes of a tile row.
    pub open spec fn tile_row_bytes(self, bg: int) -> int {
        if self.bgcnt[bg].colors {
            8
        } else {
            4
        }
    }

    /// Whether the row of tile column `i` lies inside video memory.
    pub open spec fn tile_fits(self, bg: int, i: int) -> bool {
        self.tile_row_offset(bg, i) + self.tile_row_bytes(bg) <= 98304
    }

    /// The first of the tile columns below `n` whose row lies outside
    /// video memory, or -1 if there is none.
    pub open spec fn first_bad_tile(self, bg: int, n: nat) -> int
        decreases n,
    {
        if n == 0 {
            -1
        } else {
            let before = self.first_bad_tile(bg, (n - 1) as nat);
            if before != -1 {
                before
            } else if !self.tile_fits(bg, n - 1) {
                n - 1
            } else {
                -1
            }
        }
    }

    /// The fault that drawing the current line of background `bg` meets,
    /// if any: the first tile whose row lies outside video memory.
    pub open spec fn text_fault(self, bg: int) -> Option<Fault> {
        if self.first_bad_tile(bg, 30) == -1 {
            None
        } else {
            Some(
                Fault::TileOutOfRange {
                    offset: self.tile_row_offset(bg, self.first_bad_tile(bg, 30)) as usize,
                },
            )
        }
    }

    /// The palette entry of pixel `x` of the current line of the tiled
    /// background `bg`. With 256 colours each byte of the tile row is an
    /// entry; with 16, each byte holds two pixels, the left one in its
    /// low half, and the map entry picks the palette.
    pub open spec fn text_index(self, bg: int, x: int) -> u8 {
        let row = self.tile_row_offset(bg, x / 8);
        if self.bgcnt[bg].colors {
            self.vram[row + x % 8]
        } else {
            let data = self.vram[row + (x % 8) / 2];
            let shade = if x % 2 == 0 {
                data & 0xF
            } else {
                data >> 4
            };
            (shade + self.map_entry(bg, x / 8).palette * 16) as u8
        }
    }

    /// The colour of pixel `x` of the current line of the tiled
    /// background `bg`.
    pub open spec fn text_pixel(self, bg: int, x: int) -> u16 {
        self.palette_color(self.text_index(bg, x) as int)
    }

    /// The colour of pixel `x` of the current line in the background
    /// mode `mode`: tiles in mode 0, a paletted bitmap in mode 4, a
    /// direct-colour bitmap in every other mode.
    pub open spec fn pixel(self, mode: u16, x: int) -> u16 {
        if mode == 0 {
            self.text_pixel(0, x)
        } else if mode == 4 {
            self.mode4_pixel(x)
        } else {
            self.mode3_pixel(x)
        }
    }

    /// The bytes of the current line in the background mode `mode`.
    pub open spec fn rendered_line(self, mode: u16) -> Seq<u8> {
        Seq::new(720, |j: int| channel(self.pixel(mode, j / 3), j % 3))
    }

    /// The unit with the current line drawn into the frame buffer.
    pub open spec fn draw_line(self, mode: u16) -> PpuState {
        PpuState {
            buffer: with_line(self.buffer, self.vcount.ly as int, self.rendered_line(mode)),
            ..self
        }
    }

    /// The unit with the status flag `flag` raised.
    pub open spec fn raise(self, flag: DisplayStatFlag) -> PpuState {
        PpuState {
            dispstat: DisplayStat {
                value: self.dispstat.value | flag.spec_mask(),
                lyc: self.dispstat.lyc,
            },
            ..self
        }
    }

    /// The unit with the status flag `flag` lowered.
    pub open spec fn lower(self, flag: DisplayStatFlag) -> PpuState {
        PpuState {
            dispstat: DisplayStat {
                value: self.dispstat.value & !flag.spec_mask(),
                lyc: self.dispstat.lyc,
            },
            ..self
        }
    }

    /// The fault that a tick meets, if any: drawing a tiled line fails.
    pub open spec fn tick_fault(self) -> Option<Fault> {
        if self.state == (PPU_state::HDRAW { cycles_left: 0 }) && self.dispcnt.bg_mode == 0 {
            self.text_fault(0)
        } else {
            None
        }
    }

    /// Whether a tick completes a frame: the last line of vertical
    /// blanking runs out.
    pub open spec fn completes_frame(self) -> bool {
        self.state == (PPU_state::VBLANK { cycles_left: 0 }) && self.vcount.ly + 1 == 228
    }

    /// The unit one cycle later. A phase with cycles left counts one
    /// down. When drawing runs out the line is drawn and horizontal
    /// blanking begins; when that runs out the next line begins, with
    /// drawing or, after the last visible line, with vertical blanking;
    /// when a line of vertical blanking runs out the next begins or,
    /// after the last, the next frame.
    pub open spec fn tick(self) -> PpuState {
        match self.state {
            PPU_state::HDRAW { cycles_left } => {
                if cycles_left > 0 {
                    PpuState {
                        state: PPU_state::HDRAW { cycles_left: (cycles_left - 1) as u32 },
                        ..self
                    }
                } else {
                    PpuState {
                        state: PPU_state::HBLANK { cycles_left: HBLANK_CYCLES },
                        ..self.draw_line(self.dispcnt.bg_mode).raise(DisplayStatFlag::HBLANK)
                    }
                }
            },
            PPU_state::HBLANK { cycles_left } => {
                if cycles_left > 0 {
                    PpuState {
                        state: PPU_state::HBLANK { cycles_left: (cycles_left - 1) as u32 },
                        ..self
                    }
                } else if self.vcount.ly + 1 >= 160 {
                    PpuState {
                        state: PPU_state::VBLANK { cycles_left: SCANLINE_CYCLES },
                        vcount: VCount { ly: (self.vcount.ly + 1) as u16 },
                        ..self.lower(DisplayStatFlag::HBLANK).raise(DisplayStatFlag::VBLANK)
                    }
                } else {
                    PpuState {
                        state: PPU_state::HDRAW { cycles_left: HDRAW_CYCLES },
                        vcount: VCount { ly: (self.vcount.ly + 1) as u16 },
                        ..self.lower(DisplayStatFlag::HBLANK)
                    }
                }
            },
            PPU_state::VBLANK { cycles_left } => {
                if cycles_left > 0 {
                    PpuState {
                        state: PPU_state::VBLANK { cycles_left: (cycles_left - 1) as u32 },
                        ..self
                    }
                } else if self.vcount.ly + 1 == 228 {
                    PpuState {
                        state: PPU_state::HDRAW { cycles_left: HDRAW_CYCLES },
                        vcount: VCount { ly: 0 },
                        ..self.lower(DisplayStatFlag::VBLANK)
                    }
                } else {
                    PpuState {
                        state: PPU_state::VBLANK { cycles_left: SCANLINE_CYCLES },
                        vcount: VCount { ly: (self.vcount.ly + 1) as u16 },
                        ..self
                    }
                }
            },
        }
    }
}

/// A tick keeps the unit well-formed and in step.
pub proof fn lemma_tick_keeps_step(s: PpuState)
    requires
        s.wf(),
        s.in_step(),
    ensures
        s.tick().wf(),
        s.tick().in_step(),
{
}

/// What is written to picture memory is read back from the same address,
/// and a write keeps the unit well-formed, in the same phase of the same
/// line.
pub proof fn lemma_video_read_after_write(s: PpuState, addr: u32, half: u16, word: u32)
    requires
        s.wf(),
        in_video_space(addr),
    ensures
        video_access_fits(addr, 2) ==> s.write16(addr, half).read16(addr) == half && s.write16(
            addr,
            half,
        ).wf(),
        video_access_fits(addr, 4) ==> s.write32(addr, word).read32(addr) == word && s.write32(
            addr,
            word,
        ).wf(),
        s.write16(addr, half).state == s.state && s.write16(addr, half).vcount == s.vcount,
        s.write32(addr, word).state == s.state && s.write32(addr, word).vcount == s.vcount,
{
    lemma_video_offsets(addr);
    if video_access_fits(addr, 2) {
        if addr <= 0x5FFFFFF {
            crate::utils::lemma_load16_after_store16(s.palette_ram, (addr & 0x3FF) as int, half);
        } else if addr <= 0x6FFFFFF {
            crate::utils::lemma_load16_after_store16(s.vram, vram_offset(addr) as int, half);
        } else {
            crate::utils::lemma_load16_after_store16(s.obj_attrib, (addr & 0x3FF) as int, half);
        }
    }
    if video_access_fits(addr, 4) {
        if addr <= 0x5FFFFFF {
            crate::utils::lemma_load32_after_store32(s.palette_ram, (addr & 0x3FF) as int, word);
        } else if addr <= 0x6FFFFFF {
            crate::utils::lemma_load32_after_store32(s.vram, vram_offset(addr) as int, word);
        } else {
            crate::utils::lemma_load32_after_store32(s.obj_attrib, (addr & 0x3FF) as int, word);
        }
    }
}

/// The picture unit.
pub struct PPU {
    pub state: PPU_state,
    /// The frame being drawn, row by row, as red, green and blue bytes.
    pub buffer: Box<[u8; 115200]>,
    pub palette_ram: [u8; 1024],
    pub vram: [u8; 98304],
    pub obj_attrib: [u8; 1024],
    pub dispstat: DisplayStat,
    pub dispcnt: DisplayControl,
    pub vcount: VCount,
    pub bgcnt: [BackgroundControl; 4],
}

impl View for PPU {
    type V = PpuState;

    open spec fn view(&self) -> PpuState {
        PpuState {
            state: self.state,
            buffer: self.buffer@,
            palette_ram: self.palette_ram@,
            vram: self.vram@,
            obj_attrib: self.obj_attrib@,
            dispstat: self.dispstat,
            dispcnt: self.dispcnt,
            vcount: self.vcount,
            bgcnt: self.bgcnt@,
        }
    }
}

/// Once a bad tile is found among the first columns it stays the first
/// bad tile however many more columns are looked at.
pub proof fn lemma_first_bad_tile_stays(s: PpuState, bg: int, n: nat, m: nat)
    requires
        n <= m,
        s.first_bad_tile(bg, n) != -1,
    ensures
        s.first_bad_tile(bg, m) == s.first_bad_tile(bg, n),
    decreases m,
{
    if m > n {
        lemma_first_bad_tile_stays(s, bg, n, (m - 1) as nat);
    }
}

/// Every background mode but the tiled and the paletted one draws as
/// the direct-colour bitmap mode does.
pub proof fn lemma_other_modes_draw_direct(s: PpuState, mode: u16)
    requires
        mode != 0,
        mode != 4,
    ensures
        s.draw_line(mode) == s.draw_line(3),
{
    assert(s.rendered_line(mode) =~= s.rendered_line(3));
}

/// The colour of a pixel does not depend on what the frame buffer holds.
pub proof fn lemma_pixel_ignores_buffer(a: PpuState, b: PpuState, mode: u16, x: int)
    requires
        b == (PpuState { buffer: b.buffer, ..a }),
    ensures
        a.pixel(mode, x) == b.pixel(mode, x),
        a.wf() && b.buffer.len() == 115200 ==> b.wf(),
        forall|i: int| a.tile_fits(0, i) == b.tile_fits(0, i),
{
}

impl PPU {
    /// A picture unit at rest.
    pub fn new() -> (r: Self)
        ensures
            r@ == PpuState::at_rest(),
    {
        Self {
            state: PPU_state::new_hdraw(),
            buffer: Box::new([100; 115200]),
            palette_ram: [0; 1024],
            vram: [0; 98304],
            obj_attrib: [0; 1024],
            dispstat: DisplayStat::new(),
            dispcnt: DisplayControl::new(),
            vcount: VCount::new(),
            bgcnt: [BackgroundControl::new(); 4],
        }
    }

    /// Reads the byte at `addr`.
    pub fn read8(&self, addr: u32) -> (r: u8)
        requires
            in_video_space(addr),
        ensures
            r == self@.read8(addr),
    {
        match addr {
            0x5000000..=0x5FFFFFF => self.palette_ram[small_index(addr)],
            0x6000000..=0x6FFFFFF => self.vram[vram_index(addr)],
            _ => self.obj_attrib[small_index(addr)],
        }
    }

    /// Reads the half-word at `addr`.
    pub fn read16(&self, addr: u32) -> (r: u16)
        requires
            video_access_fits(addr, 2),
        ensures
            r == self@.read16(addr),
    {
        match addr {
            0x5000000..=0x5FFFFFF => read_u16(&self.palette_ram, small_index(addr)),
            0x6000000..=0x6FFFFFF => read_u16(&self.vram, vram_index(addr)),
            _ => read_u16(&self.obj_attrib, small_index(addr)),
        }
    }

    /// Reads the word at `addr`.
    pub fn read32(&self, addr: u32) -> (r: u32)
        requires
            video_access_fits(addr, 4),
        ensures
            r == self@.read32(addr),
    {
        match addr {
            0x5000000..=0x5FFFFFF => read_u32(&self.palette_ram, small_index(addr)),
            0x6000000..=0x6FFFFFF => read_u32(&self.vram, vram_index(addr)),
            _ => read_u32(&self.obj_attrib, small_index(addr)),
        }
    }

    /// Stores a half-word at `addr`.
    pub fn write16(&mut self, addr: u32, val: u16)
        requires
            video_access_fits(addr, 2),
        ensures
            final(self)@ == old(self)@.write16(addr, val),
    {
        match addr {
            0x5000000..=0x5FFFFFF => write_u16(&mut self.palette_ram, small_index(addr), val),
            0x6000000..=0x6FFFFFF => write_u16(&mut self.vram, vram_index(addr), val),
            _ => write_u16(&mut self.obj_attrib, small_index(addr), val),
        }
    }

    /// Stores a word at `addr`.
    pub fn write32(&mut self, addr: u32, val: u32)
        requires
            video_access_fits(addr, 4),
        ensures
            final(self)@ == old(self)@.write32(addr, val),
    {
        match addr {
            0x5000000..=0x5FFFFFF => write_u32(&mut self.palette_ram, small_index(addr), val),
            0x6000000..=0x6FFFFFF => write_u32(&mut self.vram, vram_index(addr), val),
            _ => write_u32(&mut self.obj_attrib, small_index(addr), val),
        }
    }

    /// Every state of a picture unit has memories of the right sizes.
    pub proof fn lemma_view_sizes(&self)
        ensures
            self@.buffer.len() == 115200,
            self@.palette_ram.len() == 1024,
            self@.vram.len() == 98304,
            self@.obj_attrib.len() == 1024,
            self@.bgcnt.len() == 4,
    {
    }

    /// Looks up a palette entry.
    #[inline(always)]
    fn get_bg_color_from_palette(&self, color: u8) -> (r: u16)
        ensures
            r == self@.palette_color(color as int),
    {
        read_u16(&self.palette_ram, color as usize * 2)
    }

    /// Writes the three bytes of pixel `x` of the current line.
    fn plot(&mut self, x: usize, c: u16)
        requires
            x < 240,
            old(self).vcount.ly < 160,
        ensures
            final(self)@ == (PpuState { buffer: final(self)@.buffer, ..old(self)@ }),
            final(self)@.buffer.len() == 115200,
            forall|j: int|
                0 <= j < 115200 ==> #[trigger] final(self)@.buffer[j] == (if old(self).vcount.ly
                    * 720 + 3 * x <= j < old(self).vcount.ly * 720 + 3 * x + 3 {
                    channel(c, j - old(self).vcount.ly * 720 - 3 * x)
                } else {
                    old(self)@.buffer[j]
                }),
    {
        let color = u16_to_color(c);
        let index = (self.vcount.ly as usize * 240 + x) * 3;
        self.buffer[index] = color[0];
        self.buffer[index + 1] = color[1];
        self.buffer[index + 2] = color[2];
    }

    /// Computes the colour of pixel `x` of the current line of the tiled
    /// background `bg`, whose tile row is known to lie in video memory.
    fn text_pixel(&self, bg: usize, x: usize) -> (r: u16)
        requires
            bg < 4,
            x < 240,
            self.vcount.ly < 160,
            self@.wf(),
            self@.tile_fits(bg as int, x as int / 8),
        ensures
            r == self@.text_pixel(bg as int, x as int),
    {
        let control = self.bgcnt[bg];
        proof {
            BackgroundControl::lemma_decoded_offsets(control.value);
        }
        let i = x / 8;
        let ly = self.vcount.ly as usize;
        let entry = TextTile::new(
            read_u16(&self.vram, (ly / 8) * 64 + control.tile_map_offset + 2 * i),
        );
        if control.colors {
            let row = entry.tile * 64 + control.tile_data_offset + (ly % 8) * 8;
            self.get_bg_color_from_palette(self.vram[row + x % 8])
        } else {
            let row = entry.tile * 32 + control.tile_data_offset + (ly % 8) * 4;
            let data = self.vram[row + (x % 8) / 2];
            proof {
                lemma_pixel_fields(0, data);
            }
            let shade = if x % 2 == 0 {
                data & 0xF
            } else {
                data >> 4
            };
            self.get_bg_color_from_palette(shade + entry.palette * 16)
        }
    }

    /// Tells whether the tile row of column `i` lies in video memory,
    /// and where it lies.
    fn tile_row(&self, bg: usize, i: usize) -> (r: (bool, usize))
        requires
            bg < 4,
            i < 30,
            self.vcount.ly < 160,
            self@.wf(),
        ensures
            r.0 == self@.tile_fits(bg as int, i as int),
            r.1 == self@.tile_row_offset(bg as int, i as int),
    {
        let control = self.bgcnt[bg];
        proof {
            BackgroundControl::lemma_decoded_offsets(control.value);
        }
        let ly = self.vcount.ly as usize;
        let entry = TextTile::new(
            read_u16(&self.vram, (ly / 8) * 64 + control.tile_map_offset + 2 * i),
        );
        if control.colors {
            let row = entry.tile * 64 + control.tile_data_offset + (ly % 8) * 8;
            (row + 8 <= 98304, row)
        } else {
            let row = entry.tile * 32 + control.tile_data_offset + (ly % 8) * 4;
            (row + 4 <= 98304, row)
        }
    }

    /// Computes the colour of pixel `x` of the current line.
    fn pixel(&self, mode: u16, x: usize) -> (r: u16)
        requires
            x < 240,
            self.vcount.ly < 160,
            self@.wf(),
            mode == 0 ==> self@.tile_fits(0, x as int / 8),
        ensures
            r == self@.pixel(mode, x as int),
    {
        let ly = self.vcount.ly as usize;
        if mode == 0 {
            self.text_pixel(0, x)
        } else if mode == 4 {
            self.get_bg_color_from_palette(self.vram[ly * 240 + x])
        } else {
            read_u16(&self.vram, (ly * 240 + x) * 2)
        }
    }

    /// Finds the first tile of the current line of background `bg` whose
    /// row lies outside video memory.
    fn check_tiles(&self, bg: usize) -> (r: Result<(), Fault>)
        requires
            bg < 4,
            self.vcount.ly < 160,
            self@.wf(),
        ensures
            match self@.text_fault(bg as int) {
                Some(fault) => r == Err::<(), Fault>(fault),
                None => r is Ok && forall|i: int| 0 <= i < 30 ==> self@.tile_fits(bg as int, i),
            },
    {
        let mut i: usize = 0;
        while i < 30
            invariant
                i <= 30,
                bg < 4,
                self.vcount.ly < 160,
                self@.wf(),
                self@.first_bad_tile(bg as int, i as nat) == -1,
                forall|k: int| 0 <= k < i ==> self@.tile_fits(bg as int, k),
            decreases 30 - i,
        {
            let (fits, row) = self.tile_row(bg, i);
            if !fits {
                proof {
                    lemma_first_bad_tile_stays(self@, bg as int, (i + 1) as nat, 30);
                }
                return Err(Fault::TileOutOfRange { offset: row });
            }
            i = i + 1;
        }
        Ok(())
    }

    /// Draws the current line in the background mode `mode`.
    fn render_line(&mut self, mode: u16)
        requires
            old(self).vcount.ly < 160,
            old(self)@.wf(),
            mode == 0 ==> forall|i: int| 0 <= i < 30 ==> old(self)@.tile_fits(0, i),
        ensures
            final(self)@ == old(self)@.draw_line(mode),
    {
        let ghost before = self@;
        let ghost start = self.vcount.ly as int * 720;
        let mut x: usize = 0;
        while x < 240
            invariant
                x <= 240,
                start == before.vcount.ly * 720,
                before.vcount.ly < 160,
                before.wf(),
                mode == 0 ==> forall|i: int| 0 <= i < 30 ==> before.tile_fits(0, i),
                self@ == (PpuState { buffer: self@.buffer, ..before }),
                self@.buffer.len() == 115200,
                forall|j: int|
                    0 <= j < 115200 ==> #[trigger] self@.buffer[j] == (if start <= j < start + 3
                        * x {
                        channel(before.pixel(mode, (j - start) / 3), (j - start) % 3)
                    } else {
                        before.buffer[j]
                    }),
            decreases 240 - x,
        {
            proof {
                lemma_pixel_ignores_buffer(before, self@, mode, x as int);
            }
            let c = self.pixel(mode, x);
            self.plot(x, c);
            x = x + 1;
        }
        assert(self@.buffer =~= with_line(
            before.buffer,
            before.vcount.ly as int,
            before.rendered_line(mode),
        ));
    }

    /// Draws the current line of the tiled mode, unless one of its tiles
    /// lies outside video memory.
    fn render_bg_mode0(&mut self) -> (r: Result<(), Fault>)
        requires
            old(self).vcount.ly < 160,
            old(self)@.wf(),
        ensures
            match old(self)@.text_fault(0) {
                Some(fault) => r == Err::<(), Fault>(fault) && final(self)@ == old(self)@,
                None => r is Ok && final(self)@ == old(self)@.draw_line(0),
            },
    {
        match self.check_tiles(0) {
            Ok(()) => {},
            Err(fault) => {
                return Err(fault);
            },
        }
        self.render_line(0);
        Ok(())
    }

    /// Draws the current line of the direct-colour bitmap mode.
    fn render_bg_mode3(&mut self)
        requires
            old(self).vcount.ly < 160,
            old(self)@.wf(),
        ensures
            final(self)@ == old(self)@.draw_line(3),
    {
        self.render_line(3);
    }

    /// Draws the current line of the paletted bitmap mode.
    fn render_bg_mode4(&mut self)
        requires
            old(self).vcount.ly < 160,
            old(self)@.wf(),
        ensures
            final(self)@ == old(self)@.draw_line(4),
    {
        self.render_line(4);
    }

    /// Advances the unit by one cycle and tells whether that completed a
    /// frame. Fails, leaving the unit as it was, when a tiled line
    /// cannot be drawn.
    pub fn tick(&mut self) -> (r: Result<bool, Fault>)
        requires
            old(self)@.wf(),
            old(self)@.in_step(),
        ensures
            match old(self)@.tick_fault() {
                Some(fault) => r == Err::<bool, Fault>(fault) && final(self)@ == old(self)@,
                None => r == Ok::<bool, Fault>(old(self)@.completes_frame()) && final(self)@
                    == old(self)@.tick(),
            },
            final(self)@.wf(),
            final(self)@.in_step(),
    {
        proof {
            lemma_tick_keeps_step(self@);
        }
        match self.state {
            PPU_state::HDRAW { cycles_left } => {
                if cycles_left > 0 {
                    self.state = PPU_state::HDRAW { cycles_left: cycles_left - 1 };
                } else {
                    let mode = self.dispcnt.bg_mode;
                    proof {
                        if mode != 0 && mode != 4 {
                            lemma_other_modes_draw_direct(self@, mode);
                        }
                    }
                    match mode {
                        0 => {
                            match self.render_bg_mode0() {
                                Ok(()) => {},
                                Err(fault) => {
                                    return Err(fault);
                                },
                            }
                        },
                        3 => self.render_bg_mode3(),
                        4 => self.render_bg_mode4(),
                        _ => self.render_bg_mode3(),
                    }
                    self.dispstat.set(DisplayStatFlag::HBLANK);
                    self.state = PPU_state::new_hblank();
                }
                Ok(false)
            },
            PPU_state::HBLANK { cycles_left } => {
                if cycles_left > 0 {
                    self.state = PPU_state::HBLANK { cycles_left: cycles_left - 1 };
                } else {
                    self.vcount.ly = self.vcount.ly + 1;
                    if self.vcount.ly >= VDRAW_HEIGHT {
                        self.dispstat.unset(DisplayStatFlag::HBLANK);
                        self.dispstat.set(DisplayStatFlag::VBLANK);
                        self.state = PPU_state::new_vblank();
                    } else {
                        self.dispstat.unset(DisplayStatFlag::HBLANK);
                        self.state = PPU_state::new_hdraw();
                    }
                }
                Ok(false)
            },
            PPU_state::VBLANK { cycles_left } => {
                if cycles_left > 0 {
                    self.state = PPU_state::VBLANK { cycles_left: cycles_left - 1 };
                    Ok(false)
                } else {
                    self.vcount.ly = self.vcount.ly + 1;
                    if self.vcount.ly == VDRAW_HEIGHT + VBLANK_HEIGHT {
                        self.vcount.ly = 0;
                        self.dispstat.unset(DisplayStatFlag::VBLANK);
                        self.state = PPU_state::new_hdraw();
                        Ok(true)
                    } else {
                        self.state = PPU_state::VBLANK { cycles_left: SCANLINE_CYCLES };
                        Ok(false)
                    }
                }
            },
        }
    }
}

} // verus!
