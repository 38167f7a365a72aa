//! The address-space router: one 32-bit address space over the boot
//! image, the two work memories, the device registers, picture memory and
//! the cartridge.
use crate::cartridge::Cartridge;
use crate::fault::Fault;
use crate::io::{
    DummyRegister, InterruptEnable, InterruptMasterEnable, InterruptRequest, KeyInput,
    MemoryMappedRegister,
};
use crate::ppu::io::{select_byte, replace_byte, BackgroundControl, DisplayControl, DisplayStat};
use crate::ppu::ppu::{in_video_space, lemma_video_offsets, video_access_fits, PpuState, PPU};
use crate::utils::{
    load16, load32, pack16, pack32, store16, store32, write_u16, write_u32,
};
use vstd::prelude::*;

verus! {

/// Bytes of on-board work memory.
pub const WRAM_SIZE: usize = 262144;

/// Bytes of on-chip work memory.
pub const IWRAM_SIZE: usize = 32768;

/// Bytes of a boot image.
pub const BIOS_SIZE: usize = 16384;

/// Whether `a` selects the boot image.
pub open spec fn is_bios(a: u32) -> bool {
    a <= 0x3FFF
}

/// Whether `a` selects on-board work memory.
pub open spec fn is_wram(a: u32) -> bool {
    0x02000000 <= a <= 0x02FFFFFF
}

/// Whether `a` selects on-chip work memory.
pub open spec fn is_iwram(a: u32) -> bool {
    0x03000000 <= a <= 0x03FFFFFF
}

/// Whether `a` selects a device register.
pub open spec fn is_io(a: u32) -> bool {
    0x04000000 <= a <= 0x040003FE
}

/// Whether `a` selects the cartridge.
pub open spec fn is_rom(a: u32) -> bool {
    0x08000000 <= a <= 0x0DFFFFFF
}

/// Whether the register at offset `off` refuses byte writes.
pub open spec fn refuses_byte_write(off: u32) -> bool {
    off == 0x8 || off == 0xA || off == 0xC || off == 0xE || off == 0x200 || off == 0x202
}

/// Index of the background control register at offset `off`.
pub open spec fn background_index(off: u32) -> int {
    (off - 0x8) / 2
}

/// Whether `off` is the offset of a background control register.
pub open spec fn is_background_control(off: u32) -> bool {
    off == 0x8 || off == 0xA || off == 0xC || off == 0xE
}

/// Masking facts behind every index the bus computes.
pub proof fn lemma_bus_masks(addr: u32)
    ensures
        (addr & 0x3FFFF) < 0x40000,
        (addr & 0x7FFF) < 0x8000,
        (addr & 0x3FE) <= 0x3FE,
        (addr & 0x01FFFFFF) <= 0x01FFFFFF,
        addr & 1 == 0 ==> (addr & 0x3FFFF) + 2 <= 0x40000 && (addr & 0x7FFF) + 2 <= 0x8000,
        addr & 3 == 0 ==> (addr & 0x3FFFF) + 4 <= 0x40000 && (addr & 0x7FFF) + 4 <= 0x8000,
        (addr & 0x0FFFFFFE) & 1 == 0,
        (addr & 0x0FFFFFFC) & 3 == 0,
{
    assert((addr & 0x3FFFF) < 0x40000 && (addr & 0x7FFF) < 0x8000 && (addr & 0x3FE) <= 0x3FE
        && (addr & 0x01FFFFFF) <= 0x01FFFFFF && (addr & 1 == 0 ==> (addr & 0x3FFFF) <= 0x3FFFE
        && (addr & 0x7FFF) <= 0x7FFE) && (addr & 3 == 0 ==> (addr & 0x3FFFF) <= 0x3FFFC
        && (addr & 0x7FFF) <= 0x7FFC) && (addr & 0x0FFFFFFE) & 1 == 0
        && (addr & 0x0FFFFFFC) & 3 == 0) by (bit_vector);
}

/// Everything reachable through the bus, as a mathematical value.
#[verifier::ext_equal]
pub struct BusState {
    pub wram: Seq<u8>,
    pub iwram: Seq<u8>,
    pub bios: Seq<u8>,
    pub ppu: PpuState,
    pub rom: Seq<u8>,
    pub title: Seq<char>,
    pub ime: bool,
    pub ie: u16,
    pub ir: u16,
    pub keys: u16,
}

impl BusState {
    /// The byte that the register at offset `off` yields.
    pub open spec fn io_read8(self, off: u32) -> u8 {
        if off == 0 {
            select_byte(self.ppu.dispcnt.value, off)
        } else if off == 0x4 {
            if off & 0x1 != 0 {
                self.ppu.dispstat.lyc as u8
            } else {
                self.ppu.dispstat.value as u8
            }
        } else if is_background_control(off) {
            select_byte(self.ppu.bgcnt[background_index(off)].value, off)
        } else if off == 0x130 {
            select_byte(self.keys, off)
        } else if off == 0x200 {
            self.ie as u8
        } else if off == 0x202 {
            self.ir as u8
        } else if off == 0x208 {
            if self.ime {
                1
            } else {
                0
            }
        } else {
            0
        }
    }

    /// The half-word that the register at offset `off` yields.
    pub open spec fn io_read16(self, off: u32) -> u16 {
        if off == 0 {
            self.ppu.dispcnt.value
        } else if off == 0x4 {
            self.ppu.dispstat.word()
        } else if is_background_control(off) {
            self.ppu.bgcnt[background_index(off)].value
        } else if off == 0x130 {
            self.keys
        } else if off == 0x200 {
            self.ie
        } else if off == 0x202 {
            self.ir
        } else if off == 0x208 {
            if self.ime {
                1
            } else {
                0
            }
        } else {
            0
        }
    }

    /// The word that the register at offset `off` yields. The display
    /// control register yields zero to a word read.
    pub open spec fn io_read32(self, off: u32) -> u32 {
        if off == 0 {
            0
        } else if off == 0x4 {
            self.ppu.dispstat.word() as u32
        } else if is_background_control(off) {
            self.ppu.bgcnt[background_index(off)].value as u32
        } else if off == 0x130 {
            self.keys as u32
        } else if off == 0x200 {
            self.ie as u32
        } else if off == 0x202 {
            self.ir as u32
        } else if off == 0x208 {
            if self.ime {
                1
            } else {
                0
            }
        } else {
            0
        }
    }

    /// The state after the register at offset `off` takes the byte `val`,
    /// for a register that takes bytes.
    pub open spec fn io_write8(self, off: u32, val: u8) -> BusState {
        if off == 0 {
            BusState {
                ppu: PpuState {
                    dispcnt: DisplayControl::holding(
                        replace_byte(self.ppu.dispcnt.value, off, val),
                    ),
                    ..self.ppu
                },
                ..self
            }
        } else if off == 0x4 {
            BusState {
                ppu: PpuState { dispstat: self.ppu.dispstat.with_byte(off, val), ..self.ppu },
                ..self
            }
        } else if off == 0x208 {
            BusState { ime: val & 0x1 == 0x1, ..self }
        } else {
            self
        }
    }

    /// The state after the register at offset `off` takes the half-word
    /// `val`.
    pub open spec fn io_write16(self, off: u32, val: u16) -> BusState {
        if off == 0 {
            BusState {
                ppu: PpuState { dispcnt: DisplayControl::holding(val), ..self.ppu },
                ..self
            }
        } else if off == 0x4 {
            BusState {
                ppu: PpuState {
                    dispstat: DisplayStat { value: val & 0xF8, lyc: val >> 8 },
                    ..self.ppu
                },
                ..self
            }
        } else if is_background_control(off) {
            BusState {
                ppu: PpuState {
                    bgcnt: self.ppu.bgcnt.update(
                        background_index(off),
                        BackgroundControl::decoded(val),
                    ),
                    ..self.ppu
                },
                ..self
            }
        } else if off == 0x200 {
            BusState { ie: val, ..self }
        } else if off == 0x202 {
            BusState { ir: val, ..self }
        } else if off == 0x208 {
            BusState { ime: val & 0x1 == 0x1, ..self }
        } else {
            self
        }
    }

    /// The state after the register at offset `off` takes the word `val`.
    /// The display status register ignores word writes; the others keep
    /// the low half.
    pub open spec fn io_write32(self, off: u32, val: u32) -> BusState {
        if off == 0x4 {
            self
        } else if off == 0x208 {
            BusState { ime: val & 0x1 == 0x1, ..self }
        } else {
            self.io_write16(off, val as u16)
        }
    }

    /// The byte at `addr`. Addresses are taken modulo 2^28; a read outside
    /// every region, or past the end of the boot image or the cartridge,
    /// yields zero.
    pub open spec fn read8(self, addr: u32) -> u8 {
        let a = addr & 0x0FFFFFFF;
        if is_bios(a) {
            if a < self.bios.len() {
                self.bios[a as int]
            } else {
                0
            }
        } else if is_wram(a) {
            self.wram[(a & 0x3FFFF) as int]
        } else if is_iwram(a) {
            self.iwram[(a & 0x7FFF) as int]
        } else if is_io(a) {
            self.io_read8(a & 0x3FE)
        } else if in_video_space(a) {
            self.ppu.read8(a)
        } else if is_rom(a) {
            if (a & 0x01FFFFFF) < self.rom.len() {
                self.rom[(a & 0x01FFFFFF) as int]
            } else {
                0
            }
        } else {
            0
        }
    }

    /// The little-endian half-word at `addr` rounded down to an even
    /// address.
    pub open spec fn read16(self, addr: u32) -> u16 {
        let a = addr & 0x0FFFFFFE;
        if is_bios(a) {
            if a + 2 <= self.bios.len() {
                load16(self.bios, a as int)
            } else {
                0
            }
        } else if is_wram(a) {
            load16(self.wram, (a & 0x3FFFF) as int)
        } else if is_iwram(a) {
            load16(self.iwram, (a & 0x7FFF) as int)
        } else if is_io(a) {
            self.io_read16(a & 0x3FE)
        } else if in_video_space(a) {
            self.ppu.read16(a)
        } else if is_rom(a) {
            if (a & 0x01FFFFFF) + 2 <= self.rom.len() {
                load16(self.rom, (a & 0x01FFFFFF) as int)
            } else {
                0
            }
        } else {
            0
        }
    }

    /// The little-endian word at `addr` rounded down to a multiple of
    /// four.
    pub open spec fn read32(self, addr: u32) -> u32 {
        let a = addr & 0x0FFFFFFC;
        if is_bios(a) {
            if a + 4 <= self.bios.len() {
                load32(self.bios, a as int)
            } else {
                0
            }
        } else if is_wram(a) {
            load32(self.wram, (a & 0x3FFFF) as int)
        } else if is_iwram(a) {
            load32(self.iwram, (a & 0x7FFF) as int)
        } else if is_io(a) {
            self.io_read32(a & 0x3FE)
        } else if in_video_space(a) {
            self.ppu.read32(a)
        } else if is_rom(a) {
            if (a & 0x01FFFFFF) + 4 <= self.rom.len() {
                load32(self.rom, (a & 0x01FFFFFF) as int)
            } else {
                0
            }
        } else {
            0
        }
    }

    /// The fault that a byte write at `addr` meets, if any.
    pub open spec fn write8_fault(self, addr: u32) -> Option<Fault> {
        let a = addr & 0x0FFFFFFF;
        if is_io(a) && refuses_byte_write(a & 0x3FE) {
            Some(Fault::UnsupportedByteWrite { addr: a & 0x3FE })
        } else if in_video_space(a) && !video_access_fits(a, 2) {
            Some(Fault::VideoWriteOutOfRange { addr: a })
        } else {
            None
        }
    }

    /// The state after a byte is written at `addr`. Picture memory takes
    /// the byte twice, as both halves of a half-word; the boot image, the
    /// cartridge and unmapped addresses ignore writes.
    pub open spec fn write8(self, addr: u32, val: u8) -> BusState {
        let a = addr & 0x0FFFFFFF;
        if self.write8_fault(addr) is Some {
            self
        } else if is_wram(a) {
            BusState { wram: self.wram.update((a & 0x3FFFF) as int, val), ..self }
        } else if is_iwram(a) {
            BusState { iwram: self.iwram.update((a & 0x7FFF) as int, val), ..self }
        } else if is_io(a) {
            self.io_write8(a & 0x3FE, val)
        } else if in_video_space(a) {
            BusState { ppu: self.ppu.write16(a, (val as u16) | ((val as u16) << 8)), ..self }
        } else {
            self
        }
    }

    /// The state after a half-word is written at `addr` rounded down to
    /// an even address.
    pub open spec fn write16(self, addr: u32, val: u16) -> BusState {
        let a = addr & 0x0FFFFFFE;
        if is_wram(a) {
            BusState { wram: store16(self.wram, (a & 0x3FFFF) as int, val), ..self }
        } else if is_iwram(a) {
            BusState { iwram: store16(self.iwram, (a & 0x7FFF) as int, val), ..self }
        } else if is_io(a) {
            self.io_write16(a & 0x3FE, val)
        } else if in_video_space(a) {
            BusState { ppu: self.ppu.write16(a, val), ..self }
        } else {
            self
        }
    }

    /// The state after a word is written at `addr` rounded down to a
    /// multiple of four.
    pub open spec fn write32(self, addr: u32, val: u32) -> BusState {
        let a = addr & 0x0FFFFFFC;
        if is_wram(a) {
            BusState { wram: store32(self.wram, (a & 0x3FFFF) as int, val), ..self }
        } else if is_iwram(a) {
            BusState { iwram: store32(self.iwram, (a & 0x7FFF) as int, val), ..self }
        } else if is_io(a) {
            self.io_write32(a & 0x3FE, val)
        } else if in_video_space(a) {
            BusState { ppu: self.ppu.write32(a, val), ..self }
        } else {
            self
        }
    }
}

impl BusState {
    /// Whether the picture unit stands where it stood in `before`, in the
    /// same phase of the same line, and is still well-formed if it was:
    /// what holds of a bus after any number of writes.
    pub open spec fn keeps_frame(self, before: BusState) -> bool {
        &&& self.ppu.state == before.ppu.state
        &&& self.ppu.vcount == before.ppu.vcount
        &&& before.ppu.wf() ==> self.ppu.wf()
    }

    /// The bus at rest: cleared memories, no boot image and no cartridge,
    /// the picture unit at rest, all keys released and every interrupt
    /// off.
    pub open spec fn at_rest() -> BusState {
        BusState {
            wram: Seq::new(262144, |i: int| 0u8),
            iwram: Seq::new(32768, |i: int| 0u8),
            bios: Seq::empty(),
            ppu: PpuState::at_rest(),
            rom: Seq::empty(),
            title: Seq::empty(),
            ime: false,
            ie: 0,
            ir: 0,
            keys: 0xFFFF,
        }
    }

    /// The state after the picture unit has ticked.
    pub open spec fn tick(self) -> BusState {
        BusState { ppu: self.ppu.tick(), ..self }
    }

    /// Whether every memory has the size it has on the machine.
    pub open spec fn wf(self) -> bool {
        &&& self.wram.len() == 262144
        &&& self.iwram.len() == 32768
        &&& self.ppu.palette_ram.len() == 1024
        &&& self.ppu.vram.len() == 98304
        &&& self.ppu.obj_attrib.len() == 1024
        &&& self.ppu.buffer.len() == 115200
        &&& self.ppu.bgcnt.len() == 4
    }
}

/// Whether `addr` selects one of the two work memories.
pub open spec fn in_work_ram(addr: u32) -> bool {
    is_wram(addr & 0x0FFFFFFF) || is_iwram(addr & 0x0FFFFFFF)
}

/// What is written to work memory is read back: a byte at its address, a
/// half-word and a word at the address they were written to, whatever
/// its alignment. Writes keep the bus well-formed.
pub proof fn lemma_read_after_write(bus: BusState, addr: u32, byte: u8, half: u16, word: u32)
    requires
        bus.wf(),
        in_work_ram(addr),
    ensures
        bus.write8_fault(addr) is None,
        bus.write8(addr, byte).read8(addr) == byte,
        bus.write16(addr, half).read16(addr) == half,
        bus.write32(addr, word).read32(addr) == word,
        bus.write8(addr, byte).wf(),
        bus.write16(addr, half).wf(),
        bus.write32(addr, word).wf(),
{
    let a8 = addr & 0x0FFFFFFF;
    let a16 = addr & 0x0FFFFFFE;
    let a32 = addr & 0x0FFFFFFC;
    assert((0x02000000 <= a8 <= 0x02FFFFFF ==> 0x02000000 <= a16 <= 0x02FFFFFF && 0x02000000 <= a32
        <= 0x02FFFFFF) && (0x03000000 <= a8 <= 0x03FFFFFF ==> 0x03000000 <= a16 <= 0x03FFFFFF
        && 0x03000000 <= a32 <= 0x03FFFFFF)) by (bit_vector)
        requires
            a8 == addr & 0x0FFFFFFF,
            a16 == addr & 0x0FFFFFFE,
            a32 == addr & 0x0FFFFFFC,
    ;
    lemma_bus_masks(addr);
    lemma_bus_masks(a8);
    lemma_bus_masks(a16);
    lemma_bus_masks(a32);
    if is_wram(a8) {
        crate::utils::lemma_load16_after_store16(bus.wram, (a16 & 0x3FFFF) as int, half);
        crate::utils::lemma_load32_after_store32(bus.wram, (a32 & 0x3FFFF) as int, word);
    } else {
        crate::utils::lemma_load16_after_store16(bus.iwram, (a16 & 0x7FFF) as int, half);
        crate::utils::lemma_load32_after_store32(bus.iwram, (a32 & 0x7FFF) as int, word);
    }
}

/// The bus with everything attached to it.
pub struct Bus {
    pub wram: Box<[u8; 262144]>,
    pub iwram: [u8; 32768],
    pub bios: Vec<u8>,
    pub ppu: PPU,
    pub cartridge: Cartridge,
    pub dummy_reg: DummyRegister,
    pub ime: InterruptMasterEnable,
    pub ie: InterruptEnable,
    pub ir: InterruptRequest,
    pub key_input: KeyInput,
}

impl View for Bus {
    type V = BusState;

    open spec fn view(&self) -> BusState {
        BusState {
            wram: self.wram@,
            iwram: self.iwram@,
            bios: self.bios@,
            ppu: self.ppu@,
            rom: self.cartridge.rom@,
            title: self.cartridge.title@,
            ime: self.ime@,
            ie: self.ie.value,
            ir: self.ir.value,
            keys: self.key_input@,
        }
    }
}

impl Bus {
    /// Every state of a bus is well-formed.
    pub proof fn lemma_view_wf(&self)
        ensures
            self@.wf(),
    {
    }

    /// A bus at rest.
    pub fn new() -> (r: Self)
        ensures
            r@ == BusState::at_rest(),
    {
        Self {
            wram: Box::new([0; 262144]),
            iwram: [0; 32768],
            bios: Vec::new(),
            ppu: PPU::new(),
            cartridge: Cartridge::new(),
            dummy_reg: DummyRegister {  },
            ime: InterruptMasterEnable::new(),
            ie: InterruptEnable::new(),
            ir: InterruptRequest::new(),
            key_input: KeyInput::new(),
        }
    }

    /// Installs `data` as the boot image if it has the size of one.
    pub fn load_bios(&mut self, data: Vec<u8>) -> (r: Result<(), Fault>)
        ensures
            data@.len() == BIOS_SIZE ==> r is Ok && final(self)@ == (BusState {
                bios: data@,
                ..old(self)@
            }),
            data@.len() != BIOS_SIZE ==> r == Err::<(), Fault>(
                Fault::InvalidBios { len: data@.len() as usize },
            ) && *final(self) == *old(self),
    {
        if data.len() != BIOS_SIZE {
            return Err(Fault::InvalidBios { len: data.len() });
        }
        self.bios = data;
        Ok(())
    }

    fn io_read8(&self, off: u32) -> (r: u8)
        ensures
            r == self@.io_read8(off),
    {
        match off {
            0 => self.ppu.dispcnt.read8(off),
            0x4 => self.ppu.dispstat.read8(off),
            0x8 => self.ppu.bgcnt[0].read8(off),
            0xA => self.ppu.bgcnt[1].read8(off),
            0xC => self.ppu.bgcnt[2].read8(off),
            0xE => self.ppu.bgcnt[3].read8(off),
            0x130 => self.key_input.read8(off),
            0x200 => self.ie.read8(off),
            0x202 => self.ir.read8(off),
            0x208 => self.ime.read8(off),
            _ => self.dummy_reg.read8(off),
        }
    }

    fn io_read16(&self, off: u32) -> (r: u16)
        ensures
            r == self@.io_read16(off),
    {
        match off {
            0 => self.ppu.dispcnt.read16(off),
            0x4 => self.ppu.dispstat.read16(off),
            0x8 => self.ppu.bgcnt[0].read16(off),
            0xA => self.ppu.bgcnt[1].read16(off),
            0xC => self.ppu.bgcnt[2].read16(off),
            0xE => self.ppu.bgcnt[3].read16(off),
            0x130 => self.key_input.read16(off),
            0x200 => self.ie.read16(off),
            0x202 => self.ir.read16(off),
            0x208 => self.ime.read16(off),
            _ => self.dummy_reg.read16(off),
        }
    }

    fn io_read32(&self, off: u32) -> (r: u32)
        ensures
            r == self@.io_read32(off),
    {
        match off {
            0 => self.ppu.dispcnt.read32(off),
            0x4 => self.ppu.dispstat.read32(off),
            0x8 => self.ppu.bgcnt[0].read32(off),
            0xA => self.ppu.bgcnt[1].read32(off),
            0xC => self.ppu.bgcnt[2].read32(off),
            0xE => self.ppu.bgcnt[3].read32(off),
            0x130 => self.key_input.read32(off),
            0x200 => self.ie.read32(off),
            0x202 => self.ir.read32(off),
            0x208 => self.ime.read32(off),
            _ => self.dummy_reg.read32(off),
        }
    }

    fn io_write8(&mut self, off: u32, val: u8) -> (r: Result<(), Fault>)
        ensures
            refuses_byte_write(off) ==> r == Err::<(), Fault>(
                Fault::UnsupportedByteWrite { addr: off },
            ) && *final(self) == *old(self),
            !refuses_byte_write(off) ==> r is Ok && final(self)@ == old(self)@.io_write8(off, val),
    {
        match off {
            0 => self.ppu.dispcnt.write8(off, val),
            0x4 => self.ppu.dispstat.write8(off, val),
            0x8 | 0xA | 0xC | 0xE | 0x200 | 0x202 => Err(Fault::UnsupportedByteWrite { addr: off }),
            0x130 => self.key_input.write8(off, val),
            0x208 => self.ime.write8(off, val),
            _ => self.dummy_reg.write8(off, val),
        }
    }

    fn set_background(&mut self, index: usize, off: u32, val: u16)
        requires
            index < 4,
        ensures
            final(self)@ == (BusState {
                ppu: PpuState {
                    bgcnt: old(self)@.ppu.bgcnt.update(
                        index as int,
                        BackgroundControl::decoded(val),
                    ),
                    ..old(self)@.ppu
                },
                ..old(self)@
            }),
    {
        let mut bg = self.ppu.bgcnt[index];
        bg.write16(off, val);
        self.ppu.bgcnt[index] = bg;
    }

    fn io_write16(&mut self, off: u32, val: u16)
        ensures
            final(self)@ == old(self)@.io_write16(off, val),
    {
        match off {
            0 => self.ppu.dispcnt.write16(off, val),
            0x4 => self.ppu.dispstat.write16(off, val),
            0x8 => self.set_background(0, off, val),
            0xA => self.set_background(1, off, val),
            0xC => self.set_background(2, off, val),
            0xE => self.set_background(3, off, val),
            0x130 => self.key_input.write16(off, val),
            0x200 => self.ie.write16(off, val),
            0x202 => self.ir.write16(off, val),
            0x208 => self.ime.write16(off, val),
            _ => self.dummy_reg.write16(off, val),
        }
    }

    fn io_write32(&mut self, off: u32, val: u32)
        ensures
            final(self)@ == old(self)@.io_write32(off, val),
    {
        match off {
            0 => self.ppu.dispcnt.write32(off, val),
            0x4 => self.ppu.dispstat.write32(off, val),
            0x8 => self.set_background(0, off, #[verifier::truncate] (val as u16)),
            0xA => self.set_background(1, off, #[verifier::truncate] (val as u16)),
            0xC => self.set_background(2, off, #[verifier::truncate] (val as u16)),
            0xE => self.set_background(3, off, #[verifier::truncate] (val as u16)),
            0x130 => self.key_input.write32(off, val),
            0x200 => self.ie.write32(off, val),
            0x202 => self.ir.write32(off, val),
            0x208 => self.ime.write32(off, val),
            _ => self.dummy_reg.write32(off, val),
        }
    }

    /// Reads the byte at `addr`.
    pub fn read8(&self, addr: u32) -> (r: u8)
        ensures
            r == self@.read8(addr),
    {
        let a = addr & 0x0FFFFFFF;
        proof {
            lemma_bus_masks(a);
        }
        match a {
            0x00000000..=0x00003FFF => {
                if (a as usize) < self.bios.len() {
                    self.bios[a as usize]
                } else {
                    0
                }
            },
            0x02000000..=0x02FFFFFF => self.wram[(a & 0x3FFFF) as usize],
            0x03000000..=0x03FFFFFF => self.iwram[(a & 0x7FFF) as usize],
            0x04000000..=0x040003FE => self.io_read8(a & 0x3FE),
            0x05000000..=0x07FFFFFF => self.ppu.read8(a),
            0x08000000..=0x0DFFFFFF => {
                let at = (a & 0x01FFFFFF) as usize;
                if at < self.cartridge.rom.len() {
                    self.cartridge.rom[at]
                } else {
                    0
                }
            },
            _ => 0,
        }
    }

    /// Reads the half-word at `addr` rounded down to an even address.
    pub fn read16(&self, addr: u32) -> (r: u16)
        ensures
            r == self@.read16(addr),
    {
        let a = addr & 0x0FFFFFFE;
        proof {
            lemma_bus_masks(addr);
            lemma_bus_masks(a);
            lemma_video_offsets(a);
        }
        match a {
            0x00000000..=0x00003FFF => {
                let at = a as usize;
                if at + 2 <= self.bios.len() {
                    pack16(self.bios[at], self.bios[at + 1])
                } else {
                    0
                }
            },
            0x02000000..=0x02FFFFFF => {
                let at = (a & 0x3FFFF) as usize;
                pack16(self.wram[at], self.wram[at + 1])
            },
            0x03000000..=0x03FFFFFF => {
                let at = (a & 0x7FFF) as usize;
                pack16(self.iwram[at], self.iwram[at + 1])
            },
            0x04000000..=0x040003FE => self.io_read16(a & 0x3FE),
            0x05000000..=0x07FFFFFF => self.ppu.read16(a),
            0x08000000..=0x0DFFFFFF => {
                let at = (a & 0x01FFFFFF) as usize;
                if at + 2 <= self.cartridge.rom.len() {
                    pack16(self.cartridge.rom[at], self.cartridge.rom[at + 1])
                } else {
                    0
                }
            },
            _ => 0,
        }
    }

    /// Reads the word at `addr` rounded down to a multiple of four.
    pub fn read32(&self, addr: u32) -> (r: u32)
        ensures
            r == self@.read32(addr),
    {
        let a = addr & 0x0FFFFFFC;
        proof {
            lemma_bus_masks(addr);
            lemma_bus_masks(a);
            lemma_video_offsets(a);
        }
        match a {
            0x00000000..=0x00003FFF => {
                let at = a as usize;
                if at + 4 <= self.bios.len() {
                    pack32(self.bios[at], self.bios[at + 1], self.bios[at + 2], self.bios[at + 3])
                } else {
                    0
                }
            },
            0x02000000..=0x02FFFFFF => {
                let at = (a & 0x3FFFF) as usize;
                pack32(self.wram[at], self.wram[at + 1], self.wram[at + 2], self.wram[at + 3])
            },
            0x03000000..=0x03FFFFFF => {
                let at = (a & 0x7FFF) as usize;
                pack32(self.iwram[at], self.iwram[at + 1], self.iwram[at + 2], self.iwram[at + 3])
            },
            0x04000000..=0x040003FE => self.io_read32(a & 0x3FE),
            0x05000000..=0x07FFFFFF => self.ppu.read32(a),
            0x08000000..=0x0DFFFFFF => {
                let at = (a & 0x01FFFFFF) as usize;
                if at + 4 <= self.cartridge.rom.len() {
                    pack32(
                        self.cartridge.rom[at],
                        self.cartridge.rom[at + 1],
                        self.cartridge.rom[at + 2],
                        self.cartridge.rom[at + 3],
                    )
                } else {
                    0
                }
            },
            _ => 0,
        }
    }

    /// Tells whether a byte write at `addr` would be refused, and why.
    pub fn write8_fault(&self, addr: u32) -> (r: Option<Fault>)
        ensures
            r == self@.write8_fault(addr),
    {
        let a = addr & 0x0FFFFFFF;
        proof {
            lemma_bus_masks(a);
            lemma_video_offsets(a);
        }
        match a {
            0x04000000..=0x040003FE => {
                let off = a & 0x3FE;
                match off {
                    0x8 | 0xA | 0xC | 0xE | 0x200 | 0x202 => Some(
                        Fault::UnsupportedByteWrite { addr: off },
                    ),
                    _ => None,
                }
            },
            0x05000000..=0x07FFFFFF => {
                let fits = match a {
                    0x06000000..=0x06FFFFFF => crate::ppu::ppu::vram_index(a) + 2 <= 98304,
                    _ => crate::ppu::ppu::small_index(a) + 2 <= 1024,
                };
                if fits {
                    None
                } else {
                    Some(Fault::VideoWriteOutOfRange { addr: a })
                }
            },
            _ => None,
        }
    }

    /// Writes a byte at `addr`, unless the target refuses it.
    pub fn write8(&mut self, addr: u32, val: u8) -> (r: Result<(), Fault>)
        ensures
            match old(self)@.write8_fault(addr) {
                Some(fault) => r == Err::<(), Fault>(fault),
                None => r is Ok,
            },
            r is Err ==> *final(self) == *old(self),
            final(self)@ == old(self)@.write8(addr, val),
            final(self)@.keeps_frame(old(self)@),
    {
        let a = addr & 0x0FFFFFFF;
        proof {
            lemma_bus_masks(a);
            lemma_video_offsets(a);
        }
        match a {
            0x02000000..=0x02FFFFFF => {
                self.wram[(a & 0x3FFFF) as usize] = val;
                Ok(())
            },
            0x03000000..=0x03FFFFFF => {
                self.iwram[(a & 0x7FFF) as usize] = val;
                Ok(())
            },
            0x04000000..=0x040003FE => self.io_write8(a & 0x3FE, val),
            0x05000000..=0x07FFFFFF => {
                let fits = match a {
                    0x06000000..=0x06FFFFFF => crate::ppu::ppu::vram_index(a) + 2 <= 98304,
                    _ => crate::ppu::ppu::small_index(a) + 2 <= 1024,
                };
                if fits {
                    self.ppu.write16(a, (val as u16) | ((val as u16) << 8));
                    Ok(())
                } else {
                    Err(Fault::VideoWriteOutOfRange { addr: a })
                }
            },
            _ => Ok(()),
        }
    }

    /// Writes a half-word at `addr` rounded down to an even address.
    pub fn write16(&mut self, addr: u32, val: u16)
        ensures
            final(self)@ == old(self)@.write16(addr, val),
            final(self)@.keeps_frame(old(self)@),
    {
        let a = addr & 0x0FFFFFFE;
        proof {
            lemma_bus_masks(addr);
            lemma_bus_masks(a);
            lemma_video_offsets(a);
        }
        match a {
            0x02000000..=0x02FFFFFF => {
                let at = (a & 0x3FFFF) as usize;
                self.wram[at] = #[verifier::truncate] (val as u8);
                self.wram[at + 1] = #[verifier::truncate] ((val >> 8) as u8);
            },
            0x03000000..=0x03FFFFFF => {
                write_u16(&mut self.iwram, (a & 0x7FFF) as usize, val);
            },
            0x04000000..=0x040003FE => self.io_write16(a & 0x3FE, val),
            0x05000000..=0x07FFFFFF => self.ppu.write16(a, val),
            _ => {},
        }
    }

    /// Writes a word at `addr` rounded down to a multiple of four.
    pub fn write32(&mut self, addr: u32, val: u32)
        ensures
            final(self)@ == old(self)@.write32(addr, val),
            final(self)@.keeps_frame(old(self)@),
    {
        let a = addr & 0x0FFFFFFC;
        proof {
            lemma_bus_masks(addr);
            lemma_bus_masks(a);
            lemma_video_offsets(a);
        }
        match a {
            0x02000000..=0x02FFFFFF => {
                let at = (a & 0x3FFFF) as usize;
                self.wram[at] = #[verifier::truncate] (val as u8);
                self.wram[at + 1] = #[verifier::truncate] ((val >> 8) as u8);
                self.wram[at + 2] = #[verifier::truncate] ((val >> 16) as u8);
                self.wram[at + 3] = #[verifier::truncate] ((val >> 24) as u8);
            },
            0x03000000..=0x03FFFFFF => {
                write_u32(&mut self.iwram, (a & 0x7FFF) as usize, val);
            },
            0x04000000..=0x040003FE => self.io_write32(a & 0x3FE, val),
            0x05000000..=0x07FFFFFF => self.ppu.write32(a, val),
            _ => {},
        }
    }

    /// Advances the picture unit by one cycle and tells whether that
    /// completed a frame, after which the frame is ready to be shown and
    /// the keypad is due to be sampled. Fails, leaving the bus as it was,
    /// when a tiled line cannot be drawn.
    pub fn tick(&mut self) -> (r: Result<bool, Fault>)
        requires
            old(self)@.ppu.wf(),
            old(self)@.ppu.in_step(),
        ensures
            match old(self)@.ppu.tick_fault() {
                Some(fault) => r == Err::<bool, Fault>(fault) && final(self)@ == old(self)@,
                None => r == Ok::<bool, Fault>(old(self)@.ppu.completes_frame()) && final(self)@
                    == old(self)@.tick(),
            },
            final(self)@.ppu.wf(),
            final(self)@.ppu.in_step(),
    {
        self.ppu.tick()
    }
}

} // verus!
