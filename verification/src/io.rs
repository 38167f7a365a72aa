//! Memory-mapped interrupt and keypad registers.
use crate::fault::Fault;
use vstd::prelude::*;

verus! {

/// A device register reachable through the bus with byte, half-word and
/// word accesses. `addr` is the offset of the access inside the register
/// block; registers wider than a byte use its lowest bit to pick a byte.
pub trait MemoryMappedRegister {
    fn read8(&self, addr: u32) -> u8;

    fn read16(&self, addr: u32) -> u16;

    fn read32(&self, addr: u32) -> u32;

    fn write8(&mut self, addr: u32, val: u8) -> Result<(), Fault>;

    fn write16(&mut self, addr: u32, val: u16);

    fn write32(&mut self, addr: u32, val: u32);
}

/// Stands in for every register that is not modelled: it reads as zero
/// and ignores writes.
#[derive(Clone, Copy, PartialEq, Eq, Structural, Debug)]
pub struct DummyRegister {}

impl MemoryMappedRegister for DummyRegister {
    fn read8(&self, addr: u32) -> (r: u8)
        ensures
            r == 0,
    {
        0
    }

    fn read16(&self, addr: u32) -> (r: u16)
        ensures
            r == 0,
    {
        0
    }

    fn read32(&self, addr: u32) -> (r: u32)
        ensures
            r == 0,
    {
        0
    }

    fn write8(&mut self, addr: u32, val: u8) -> (r: Result<(), Fault>)
        ensures
            r is Ok,
            *final(self) == *old(self),
    {
        Ok(())
    }

    fn write16(&mut self, addr: u32, val: u16)
        ensures
            *final(self) == *old(self),
    {
    }

    fn write32(&mut self, addr: u32, val: u32)
        ensures
            *final(self) == *old(self),
    {
    }
}

/// The master switch for interrupts: a single bit.
#[derive(Clone, Copy, PartialEq, Eq, Structural, Debug)]
pub struct InterruptMasterEnable {
    enabled: bool,
}

impl View for InterruptMasterEnable {
    type V = bool;

    closed spec fn view(&self) -> bool {
        self.enabled
    }
}

impl InterruptMasterEnable {
    pub fn new() -> (r: Self)
        ensures
            !r@,
    {
        Self { enabled: false }
    }
}

impl MemoryMappedRegister for InterruptMasterEnable {
    fn read8(&self, addr: u32) -> (r: u8)
        ensures
            r == (if self@ { 1u8 } else { 0u8 }),
    {
        if self.enabled { 1 } else { 0 }
    }

    fn read16(&self, addr: u32) -> (r: u16)
        ensures
            r == (if self@ { 1u16 } else { 0u16 }),
    {
        if self.enabled { 1 } else { 0 }
    }

    fn read32(&self, addr: u32) -> (r: u32)
        ensures
            r == (if self@ { 1u32 } else { 0u32 }),
    {
        if self.enabled { 1 } else { 0 }
    }

    fn write8(&mut self, addr: u32, val: u8) -> (r: Result<(), Fault>)
        ensures
            r is Ok,
            final(self)@ == (val & 0x1 == 0x1),
    {
        self.enabled = val & 0x1 == 0x1;
        Ok(())
    }

    fn write16(&mut self, addr: u32, val: u16)
        ensures
            final(self)@ == (val & 0x1 == 0x1),
    {
        self.enabled = val & 0x1 == 0x1;
    }

    fn write32(&mut self, addr: u32, val: u32)
        ensures
            final(self)@ == (val & 0x1 == 0x1),
    {
        self.enabled = val & 0x1 == 0x1;
    }
}

/// The interrupt sources, each with its bit in the enable and request
/// registers.
#[derive(Clone, Copy, PartialEq, Eq, Structural, Debug)]
pub enum Interrupt {
    VBlank,
    HBlank,
    VCount,
    Timer0,
    Timer1,
    Timer2,
    Timer3,
    Serial,
    DMA0,
    DMA1,
    DMA2,
    DMA3,
    Keypad,
    GamePak,
}

impl Interrupt {
    /// Position of the source's bit.
    pub open spec fn index(self) -> nat {
        match self {
            Interrupt::VBlank => 0,
            Interrupt::HBlank => 1,
            Interrupt::VCount => 2,
            Interrupt::Timer0 => 3,
            Interrupt::Timer1 => 4,
            Interrupt::Timer2 => 5,
            Interrupt::Timer3 => 6,
            Interrupt::Serial => 7,
            Interrupt::DMA0 => 8,
            Interrupt::DMA1 => 9,
            Interrupt::DMA2 => 10,
            Interrupt::DMA3 => 11,
            Interrupt::Keypad => 12,
            Interrupt::GamePak => 13,
        }
    }

    /// The source's bit as a mask.
    pub open spec fn spec_mask(self) -> u16 {
        match self {
            Interrupt::VBlank => 0x1,
            Interrupt::HBlank => 0x2,
            Interrupt::VCount => 0x4,
            Interrupt::Timer0 => 0x8,
            Interrupt::Timer1 => 0x10,
            Interrupt::Timer2 => 0x20,
            Interrupt::Timer3 => 0x40,
            Interrupt::Serial => 0x80,
            Interrupt::DMA0 => 0x100,
            Interrupt::DMA1 => 0x200,
            Interrupt::DMA2 => 0x400,
            Interrupt::DMA3 => 0x800,
            Interrupt::Keypad => 0x1000,
            Interrupt::GamePak => 0x2000,
        }
    }

    #[verifier::when_used_as_spec(spec_mask)]
    pub fn mask(self) -> (r: u16)
        ensures
            r == self.spec_mask(),
    {
        match self {
            Interrupt::VBlank => 0x1,
            Interrupt::HBlank => 0x2,
            Interrupt::VCount => 0x4,
            Interrupt::Timer0 => 0x8,
            Interrupt::Timer1 => 0x10,
            Interrupt::Timer2 => 0x20,
            Interrupt::Timer3 => 0x40,
            Interrupt::Serial => 0x80,
            Interrupt::DMA0 => 0x100,
            Interrupt::DMA1 => 0x200,
            Interrupt::DMA2 => 0x400,
            Interrupt::DMA3 => 0x800,
            Interrupt::Keypad => 0x1000,
            Interrupt::GamePak => 0x2000,
        }
    }

    /// Each mask is the single bit at the source's position.
    pub proof fn lemma_mask_is_one_bit(self)
        ensures
            self.spec_mask() == 1u16 << self.index(),
    {
        assert(0x1u16 == 1u16 << 0 && 0x2u16 == 1u16 << 1 && 0x4u16 == 1u16 << 2 && 0x8u16 == 1u16
            << 3 && 0x10u16 == 1u16 << 4 && 0x20u16 == 1u16 << 5 && 0x40u16 == 1u16 << 6 && 0x80u16
            == 1u16 << 7 && 0x100u16 == 1u16 << 8 && 0x200u16 == 1u16 << 9 && 0x400u16 == 1u16
            << 10 && 0x800u16 == 1u16 << 11 && 0x1000u16 == 1u16 << 12 && 0x2000u16 == 1u16 << 13)
            by (bit_vector);
    }
}

/// Which interrupt sources are enabled, one bit each.
#[derive(Clone, Copy, PartialEq, Eq, Structural, Debug)]
pub struct InterruptEnable {
    pub value: u16,
}

impl InterruptEnable {
    pub fn new() -> (r: Self)
        ensures
            r.value == 0,
    {
        Self { value: 0 }
    }
}

impl MemoryMappedRegister for InterruptEnable {
    fn read8(&self, addr: u32) -> (r: u8)
        ensures
            r == self.value as u8,
    {
        #[verifier::truncate]
        (self.value as u8)
    }

    fn read16(&self, addr: u32) -> (r: u16)
        ensures
            r == self.value,
    {
        self.value
    }

    fn read32(&self, addr: u32) -> (r: u32)
        ensures
            r == self.value,
    {
        self.value as u32
    }

    /// Byte writes are not supported by this register.
    fn write8(&mut self, addr: u32, val: u8) -> (r: Result<(), Fault>)
        ensures
            r == Err::<(), Fault>(Fault::UnsupportedByteWrite { addr }),
            *final(self) == *old(self),
    {
        Err(Fault::UnsupportedByteWrite { addr })
    }

    fn write16(&mut self, addr: u32, val: u16)
        ensures
            final(self).value == val,
    {
        self.value = val;
    }

    fn write32(&mut self, addr: u32, val: u32)
        ensures
            final(self).value == val as u16,
    {
        self.value = #[verifier::truncate] (val as u16);
    }
}

/// Which interrupt sources have raised a request, one bit each.
#[derive(Clone, Copy, PartialEq, Eq, Structural, Debug)]
pub struct InterruptRequest {
    pub value: u16,
}

impl InterruptRequest {
    pub fn new() -> (r: Self)
        ensures
            r.value == 0,
    {
        Self { value: 0 }
    }
}

impl MemoryMappedRegister for InterruptRequest {
    fn read8(&self, addr: u32) -> (r: u8)
        ensures
            r == self.value as u8,
    {
        #[verifier::truncate]
        (self.value as u8)
    }

    fn read16(&self, addr: u32) -> (r: u16)
        ensures
            r == self.value,
    {
        self.value
    }

    fn read32(&self, addr: u32) -> (r: u32)
        ensures
            r == self.value,
    {
        self.value as u32
    }

    /// Byte writes are not supported by this register.
    fn write8(&mut self, addr: u32, val: u8) -> (r: Result<(), Fault>)
        ensures
            r == Err::<(), Fault>(Fault::UnsupportedByteWrite { addr }),
            *final(self) == *old(self),
    {
        Err(Fault::UnsupportedByteWrite { addr })
    }

    fn write16(&mut self, addr: u32, val: u16)
        ensures
            final(self).value == val,
    {
        self.value = val;
    }

    fn write32(&mut self, addr: u32, val: u32)
        ensures
            final(self).value == val as u16,
    {
        self.value = #[verifier::truncate] (val as u16);
    }
}

/// Number of keys on the keypad.
pub const KEY_COUNT: usize = 10;

/// The keypad word for the first `n` keys of `released`: bit `i` is set
/// exactly when key `i` is not held down.
pub open spec fn key_bits(released: Seq<bool>, n: nat) -> u16
    decreases n,
{
    if n == 0 {
        0
    } else {
        let below = key_bits(released, (n - 1) as nat);
        if released[n - 1] {
            below | (1u16 << (n - 1) as u16)
        } else {
            below
        }
    }
}

/// The keypad state register. A key that is held down reads as a zero bit.
/// Key order: A, B, Select, Start, Right, Left, Up, Down, R, L.
#[derive(Clone, Copy, PartialEq, Eq, Structural, Debug)]
pub struct KeyInput {
    value: u16,
}

impl View for KeyInput {
    type V = u16;

    closed spec fn view(&self) -> u16 {
        self.value
    }
}

impl KeyInput {
    pub fn new() -> (r: Self)
        ensures
            r@ == 0xFFFF,
    {
        Self { value: 0xFFFF }
    }

    /// Replaces the register with a fresh sample of the keypad, where
    /// `released[i]` says that key `i` is up.
    pub fn update(&mut self, released: &[bool; 10])
        ensures
            final(self)@ == key_bits(released@, 10),
    {
        self.value = 0;
        let mut index: usize = 0;
        while index < 10
            invariant
                index <= 10,
                self.value == key_bits(released@, index as nat),
            decreases 10 - index,
        {
            if released[index] {
                self.value = self.value | (1u16 << (index as u16));
            }
            index = index + 1;
        }
    }
}

impl MemoryMappedRegister for KeyInput {
    fn read8(&self, addr: u32) -> (r: u8)
        ensures
            r == (if addr & 0x1 != 0 { (self@ >> 8) as u8 } else { self@ as u8 }),
    {
        if addr & 0x1 != 0 {
            #[verifier::truncate]
            ((self.value >> 8) as u8)
        } else {
            #[verifier::truncate]
            (self.value as u8)
        }
    }

    fn read16(&self, addr: u32) -> (r: u16)
        ensures
            r == self@,
    {
        self.value
    }

    fn read32(&self, addr: u32) -> (r: u32)
        ensures
            r == self@,
    {
        self.value as u32
    }

    fn write8(&mut self, addr: u32, val: u8) -> (r: Result<(), Fault>)
        ensures
            r is Ok,
            *final(self) == *old(self),
    {
        Ok(())
    }

    fn write16(&mut self, addr: u32, val: u16)
        ensures
            *final(self) == *old(self),
    {
    }

    fn write32(&mut self, addr: u32, val: u32)
        ensures
            *final(self) == *old(self),
    {
    }
}

} // verus!
