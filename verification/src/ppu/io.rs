//! Memory-mapped registers of the picture unit.
use crate::fault::Fault;
use crate::io::MemoryMappedRegister;
use vstd::prelude::*;

verus! {

/// The switches of the display control register above the mode field.
#[derive(Clone, Copy, PartialEq, Eq, Structural, Debug)]
pub enum DisplayControlFlag {
    DISPLAY_FRAME_SELECT,
    HBLANK_INTERVAL_FREE,
    OBJ_VRAM_MAPPING,
    FORCED_BLANK,
    DISPLAY_BG0,
    DISPLAY_BG1,
    DISPLAY_BG2,
    DISPLAY_BG3,
    DISPLAY_OBJ,
    DISPLAY_WIN0,
    DISPLAY_WIN1,
    DISPLAY_WIN_OBJ,
}

impl DisplayControlFlag {
    /// The switch's bit in the register.
    pub open spec fn spec_mask(self) -> u16 {
        match self {
            DisplayControlFlag::DISPLAY_FRAME_SELECT => 0x10,
            DisplayControlFlag::HBLANK_INTERVAL_FREE => 0x20,
            DisplayControlFlag::OBJ_VRAM_MAPPING => 0x40,
            DisplayControlFlag::FORCED_BLANK => 0x80,
            DisplayControlFlag::DISPLAY_BG0 => 0x100,
            DisplayControlFlag::DISPLAY_BG1 => 0x200,
            DisplayControlFlag::DISPLAY_BG2 => 0x400,
            DisplayControlFlag::DISPLAY_BG3 => 0x800,
            DisplayControlFlag::DISPLAY_OBJ => 0x1000,
            DisplayControlFlag::DISPLAY_WIN0 => 0x2000,
            DisplayControlFlag::DISPLAY_WIN1 => 0x4000,
            DisplayControlFlag::DISPLAY_WIN_OBJ => 0x8000,
        }
    }

    #[verifier::when_used_as_spec(spec_mask)]
    pub fn mask(self) -> (r: u16)
        ensures
            r == self.spec_mask(),
    {
        match self {
            DisplayControlFlag::DISPLAY_FRAME_SELECT => 0x10,
            DisplayControlFlag::HBLANK_INTERVAL_FREE => 0x20,
            DisplayControlFlag::OBJ_VRAM_MAPPING => 0x40,
            DisplayControlFlag::FORCED_BLANK => 0x80,
            DisplayControlFlag::DISPLAY_BG0 => 0x100,
            DisplayControlFlag::DISPLAY_BG1 => 0x200,
            DisplayControlFlag::DISPLAY_BG2 => 0x400,
            DisplayControlFlag::DISPLAY_BG3 => 0x800,
            DisplayControlFlag::DISPLAY_OBJ => 0x1000,
            DisplayControlFlag::DISPLAY_WIN0 => 0x2000,
            DisplayControlFlag::DISPLAY_WIN1 => 0x4000,
            DisplayControlFlag::DISPLAY_WIN_OBJ => 0x8000,
        }
    }
}

/// The display control register. Its low three bits select the
/// background mode, which is kept decoded in `bg_mode`.
#[derive(Clone, Copy, PartialEq, Eq, Structural, Debug)]
pub struct DisplayControl {
    pub bg_mode: u16,
    /// The raw register word.
    pub value: u16,
}

/// The register word after one of its bytes is replaced: the high byte
/// when `addr` is odd, the low byte otherwise.
pub open spec fn replace_byte(word: u16, addr: u32, val: u8) -> u16 {
    if addr & 0x1 != 0 {
        ((val as u16) << 8) | (word & 0xFF)
    } else {
        (val as u16) | (word & 0xFF00)
    }
}

/// The byte of a register word that an access at `addr` selects.
pub open spec fn select_byte(word: u16, addr: u32) -> u8 {
    if addr & 0x1 != 0 {
        (word >> 8) as u8
    } else {
        word as u8
    }
}

impl DisplayControl {
    /// The register holding `word`.
    pub open spec fn holding(word: u16) -> Self {
        DisplayControl { bg_mode: word & 0x7, value: word }
    }

    pub fn new() -> (r: Self)
        ensures
            r.value == 3,
            r.bg_mode == 3,
    {
        Self { bg_mode: 3, value: 3 }
    }

    /// Whether the switch `flag` is on.
    pub fn is(&self, flag: DisplayControlFlag) -> (r: bool)
        ensures
            r == (self.value & flag.spec_mask() != 0),
    {
        self.value & flag.mask() != 0
    }
}

impl MemoryMappedRegister for DisplayControl {
    fn read8(&self, addr: u32) -> (r: u8)
        ensures
            r == select_byte(self.value, addr),
    {
        if addr & 0x1 != 0 {
            #[verifier::truncate]
            ((self.value >> 8) as u8)
        } else {
            #[verifier::truncate]
            (self.value as u8)
        }
    }

    fn read16(&self, addr: u32) -> (r: u16)
        ensures
            r == self.value,
    {
        self.value
    }

    /// A word read of this register yields zero.
    fn read32(&self, addr: u32) -> (r: u32)
        ensures
            r == 0,
    {
        0
    }

    fn write8(&mut self, addr: u32, val: u8) -> (r: Result<(), Fault>)
        ensures
            r is Ok,
            *final(self) == Self::holding(replace_byte(old(self).value, addr, val)),
    {
        if addr & 0x1 != 0 {
            self.write16(0, ((val as u16) << 8) | (self.value & 0xFF));
        } else {
            self.write16(0, (val as u16) | (self.value & 0xFF00));
        }
        Ok(())
    }

    fn write16(&mut self, addr: u32, val: u16)
        ensures
            *final(self) == Self::holding(val),
    {
        self.value = val;
        self.bg_mode = val & 0x7;
    }

    fn write32(&mut self, addr: u32, val: u32)
        ensures
            *final(self) == Self::holding(val as u16),
    {
        self.write16(addr, #[verifier::truncate] (val as u16));
    }
}

/// The status bits and interrupt switches of the display status register.
#[derive(Clone, Copy, PartialEq, Eq, Structural, Debug)]
pub enum DisplayStatFlag {
    VBLANK,
    HBLANK,
    VCOUNTER,
    VBLANK_IRQ,
    HBLANK_IRQ,
    VCOUNTER_IRQ,
}

impl DisplayStatFlag {
    /// The flag's bit in the register.
    pub open spec fn spec_mask(self) -> u16 {
        match self {
            DisplayStatFlag::VBLANK => 0x1,
            DisplayStatFlag::HBLANK => 0x2,
            DisplayStatFlag::VCOUNTER => 0x4,
            DisplayStatFlag::VBLANK_IRQ => 0x8,
            DisplayStatFlag::HBLANK_IRQ => 0x10,
            DisplayStatFlag::VCOUNTER_IRQ => 0x20,
        }
    }

    #[verifier::when_used_as_spec(spec_mask)]
    pub fn mask(self) -> (r: u16)
        ensures
            r == self.spec_mask(),
    {
        match self {
            DisplayStatFlag::VBLANK => 0x1,
            DisplayStatFlag::HBLANK => 0x2,
            DisplayStatFlag::VCOUNTER => 0x4,
            DisplayStatFlag::VBLANK_IRQ => 0x8,
            DisplayStatFlag::HBLANK_IRQ => 0x10,
            DisplayStatFlag::VCOUNTER_IRQ => 0x20,
        }
    }
}

/// The display status register: status flags and interrupt switches in
/// one word, the line to compare the scanline counter with in another.
#[derive(Clone, Copy, PartialEq, Eq, Structural, Debug)]
pub struct DisplayStat {
    /// The flag word.
    pub value: u16,
    /// The line the scanline counter is compared with.
    pub lyc: u16,
}

impl DisplayStat {
    /// The word that a half-word read yields.
    pub open spec fn word(self) -> u16 {
        (self.lyc << 8) | self.value
    }

    /// The register after a byte write at `addr`: an odd address sets the
    /// compare line, an even one sets the interrupt switches and clears
    /// the three status flags.
    pub open spec fn with_byte(self, addr: u32, val: u8) -> Self {
        if addr & 0x1 != 0 {
            DisplayStat { lyc: val as u16, ..self }
        } else {
            DisplayStat { value: (val as u16) & 0xFFF8, ..self }
        }
    }

    pub fn new() -> (r: Self)
        ensures
            r.value == 0,
            r.lyc == 0,
    {
        Self { value: 0x0, lyc: 0 }
    }

    /// Raises `flag`.
    pub fn set(&mut self, flag: DisplayStatFlag)
        ensures
            final(self).value == old(self).value | flag.spec_mask(),
            final(self).lyc == old(self).lyc,
    {
        self.value = self.value | flag.mask();
    }

    /// Lowers `flag`.
    pub fn unset(&mut self, flag: DisplayStatFlag)
        ensures
            final(self).value == old(self).value & !flag.spec_mask(),
            final(self).lyc == old(self).lyc,
    {
        self.value = self.value & !flag.mask();
    }

    /// Whether `flag` is raised.
    pub fn is(&self, flag: DisplayStatFlag) -> (r: bool)
        ensures
            r == (self.value & flag.spec_mask() != 0),
    {
        self.value & flag.mask() != 0
    }

    /// A flag reads as raised after `set` and as lowered after `unset`,
    /// and neither touches another flag.
    pub proof fn lemma_set_unset(word: u16, flag: DisplayStatFlag, other: DisplayStatFlag)
        ensures
            (word | flag.spec_mask()) & flag.spec_mask() != 0,
            (word & !flag.spec_mask()) & flag.spec_mask() == 0,
            other != flag ==> ((word | flag.spec_mask()) & other.spec_mask() == word
                & other.spec_mask()),
            other != flag ==> ((word & !flag.spec_mask()) & other.spec_mask() == word
                & other.spec_mask()),
    {
        let m = flag.spec_mask();
        let o = other.spec_mask();
        assert(m != 0 ==> (word | m) & m != 0) by (bit_vector);
        assert((word & !m) & m == 0) by (bit_vector);
        assert(m & o == 0 ==> (word | m) & o == word & o) by (bit_vector);
        assert(m & o == 0 ==> (word & !m) & o == word & o) by (bit_vector);
        assert(other != flag ==> m & o == 0) by {
            assert(0x1u16 & 0x2 == 0 && 0x1u16 & 0x4 == 0 && 0x1u16 & 0x8 == 0 && 0x1u16 & 0x10 == 0
                && 0x1u16 & 0x20 == 0 && 0x2u16 & 0x4 == 0 && 0x2u16 & 0x8 == 0 && 0x2u16 & 0x10
                == 0 && 0x2u16 & 0x20 == 0 && 0x4u16 & 0x8 == 0 && 0x4u16 & 0x10 == 0 && 0x4u16
                & 0x20 == 0 && 0x8u16 & 0x10 == 0 && 0x8u16 & 0x20 == 0 && 0x10u16 & 0x20 == 0
                && 0x2u16 & 0x1 == 0 && 0x4u16 & 0x1 == 0 && 0x8u16 & 0x1 == 0 && 0x10u16 & 0x1
                == 0 && 0x20u16 & 0x1 == 0 && 0x4u16 & 0x2 == 0 && 0x8u16 & 0x2 == 0 && 0x10u16
                & 0x2 == 0 && 0x20u16 & 0x2 == 0 && 0x8u16 & 0x4 == 0 && 0x10u16 & 0x4 == 0
                && 0x20u16 & 0x4 == 0 && 0x10u16 & 0x8 == 0 && 0x20u16 & 0x8 == 0 && 0x20u16
                & 0x10 == 0) by (bit_vector);
        }
    }
}

impl MemoryMappedRegister for DisplayStat {
    fn read8(&self, addr: u32) -> (r: u8)
        ensures
            r == (if addr & 0x1 != 0 {
                self.lyc as u8
            } else {
                self.value as u8
            }),
    {
        if addr & 0x1 != 0 {
            #[verifier::truncate]
            (self.lyc as u8)
        } else {
            #[verifier::truncate]
            (self.value as u8)
        }
    }

    fn read16(&self, addr: u32) -> (r: u16)
        ensures
            r == self.word(),
    {
        (self.lyc << 8) | self.value
    }

    fn read32(&self, addr: u32) -> (r: u32)
        ensures
            r == self.word() as u32,
    {
        self.read16(addr) as u32
    }

    fn write8(&mut self, addr: u32, val: u8) -> (r: Result<(), Fault>)
        ensures
            r is Ok,
            *final(self) == old(self).with_byte(addr, val),
    {
        if addr & 0x1 != 0 {
            self.lyc = val as u16;
        } else {
            self.value = (val as u16) & 0xFFF8;
        }
        Ok(())
    }

    fn write16(&mut self, addr: u32, val: u16)
        ensures
            *final(self) == (DisplayStat { value: val & 0xF8, lyc: val >> 8 }),
    {
        self.lyc = val >> 8;
        self.value = val & 0xF8;
    }

    /// Word writes are ignored.
    fn write32(&mut self, addr: u32, val: u32)
        ensures
            *final(self) == *old(self),
    {
    }
}

/// The scanline counter, read-only from the bus.
#[derive(Clone, Copy, PartialEq, Eq, Structural, Debug)]
pub struct VCount {
    pub ly: u16,
}

impl VCount {
    pub fn new() -> (r: Self)
        ensures
            r.ly == 0,
    {
        Self { ly: 0 }
    }
}

impl MemoryMappedRegister for VCount {
    fn read8(&self, addr: u32) -> (r: u8)
        ensures
            r == (if addr & 0x1 != 0 { 0u8 } else { self.ly as u8 }),
    {
        if addr & 0x1 != 0 {
            0
        } else {
            #[verifier::truncate]
            (self.ly as u8)
        }
    }

    fn read16(&self, addr: u32) -> (r: u16)
        ensures
            r == self.ly,
    {
        self.ly
    }

    fn read32(&self, addr: u32) -> (r: u32)
        ensures
            r == self.ly,
    {
        self.ly as u32
    }

    fn write8(&mut self, addr: u32, val: u8) -> (r: Result<(), Fault>)
        ensures
            r is Ok,
            *final(self) == *old(self),
    {
        Ok(())
    }

    fn write16(&mut self, addr: u32, val: u16)
        ensures
            *final(self) == *old(self),
    {
    }

    fn write32(&mut self, addr: u32, val: u32)
        ensures
            *final(self) == *old(self),
    {
    }
}

/// A background control register, kept both raw and decoded.
#[derive(Clone, Copy, PartialEq, Eq, Structural, Debug)]
pub struct BackgroundControl {
    /// The raw register word.
    pub value: u16,
    pub priority: u16,
    pub tile_data: u16,
    pub mosaic: bool,
    pub colors: bool,
    pub map_data: u16,
    pub display_area_overflow: bool,
    pub size: u16,
    pub tile_data_offset: usize,
    pub tile_map_offset: usize,
}

impl BackgroundControl {
    /// The register holding `word`, with every field decoded from it.
    pub open spec fn decoded(word: u16) -> Self {
        BackgroundControl {
            value: word,
            priority: word & 0x3,
            tile_data: (word >> 2) & 0x3,
            mosaic: word & 0x40 != 0,
            colors: word & 0x80 != 0,
            map_data: (word >> 8) & 0x1F,
            display_area_overflow: word & 0x2000 != 0,
            size: (word >> 14) & 0x3,
            tile_data_offset: ((((word >> 2) & 0x3) as usize) * 0x4000) as usize,
            tile_map_offset: ((((word >> 8) & 0x1F) as usize) * 0x800) as usize,
        }
    }

    /// The offsets of a decoded register lie inside video memory.
    pub proof fn lemma_decoded_offsets(word: u16)
        ensures
            Self::decoded(word).tile_data_offset <= 0xC000,
            Self::decoded(word).tile_map_offset <= 0xF800,
    {
        assert((word >> 8) & 0x1F <= 31 && (word >> 2) & 0x3 <= 3) by (bit_vector);
    }

    pub fn new() -> (r: Self)
        ensures
            r == Self::decoded(0),
    {
        assert(0u16 & 0x3 == 0 && (0u16 >> 2) & 0x3 == 0 && 0u16 & 0x40 == 0 && 0u16 & 0x80 == 0
            && (0u16 >> 8) & 0x1F == 0 && 0u16 & 0x2000 == 0 && (0u16 >> 14) & 0x3 == 0)
            by (bit_vector);
        Self {
            value: 0,
            priority: 0,
            tile_data: 0,
            mosaic: false,
            colors: false,
            map_data: 0,
            display_area_overflow: false,
            size: 0,
            tile_data_offset: 0,
            tile_map_offset: 0,
        }
    }
}

impl MemoryMappedRegister for BackgroundControl {
    fn read8(&self, addr: u32) -> (r: u8)
        ensures
            r == select_byte(self.value, addr),
    {
        if addr & 0x1 != 0 {
            #[verifier::truncate]
            ((self.value >> 8) as u8)
        } else {
            #[verifier::truncate]
            (self.value as u8)
        }
    }

    fn read16(&self, addr: u32) -> (r: u16)
        ensures
            r == self.value,
    {
        self.value
    }

    fn read32(&self, addr: u32) -> (r: u32)
        ensures
            r == self.value,
    {
        self.value as u32
    }

    /// Byte writes are not supported by this register.
    fn write8(&mut self, addr: u32, val: u8) -> (r: Result<(), Fault>)
        ensures
            r == Err::<(), Fault>(Fault::UnsupportedByteWrite { addr }),
            *final(self) == *old(self),
    {
        Err(Fault::UnsupportedByteWrite { addr })
    }

    fn write16(&mut self, addr: u32, val: u16)
        ensures
            *final(self) == Self::decoded(val),
    {
        proof {
            Self::lemma_decoded_offsets(val);
        }
        self.value = val;
        self.priority = val & 0x3;
        self.tile_data = (val >> 2) & 0x3;
        self.mosaic = val & 0x40 != 0;
        self.colors = val & 0x80 != 0;
        self.map_data = (val >> 8) & 0x1F;
        self.display_area_overflow = val & 0x2000 != 0;
        self.size = (val >> 14) & 0x3;
        self.tile_map_offset = self.map_data as usize * 0x800;
        self.tile_data_offset = self.tile_data as usize * 0x4000;
    }

    fn write32(&mut self, addr: u32, val: u32)
        ensures
            *final(self) == Self::decoded(val as u16),
    {
        self.write16(addr, #[verifier::truncate] (val as u16));
    }
}

} // verus!
