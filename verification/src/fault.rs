//! Conditions that stop the machine.
use itertools::Itertools;
use vstd::prelude::*;
use vstd::string::StringExecFns;

verus! {

/// A fatal condition met while executing an instruction or serving a
/// memory access. A function that reports a fault leaves the machine as
/// it found it.
#[derive(Clone, Copy, PartialEq, Eq, Structural, Debug)]
pub enum Fault {
    /// The retiring instruction matches no decode rule.
    UndefinedOpcode { instr: u32, pc: u32, fetched: u32, decoded: u32, retiring: u32 },
    /// The low five bits of a status word name no privilege mode.
    InvalidMode { bits: u32 },
    /// The retiring slot of the pipeline holds no instruction.
    EmptyPipeline { pc: u32 },
    /// A half-word or signed load names no transfer kind.
    UnsupportedTransfer { instr: u32 },
    /// A device register that only takes half-word or word writes was
    /// written a single byte.
    UnsupportedByteWrite { addr: u32 },
    /// A byte write to picture memory would run past the end of the
    /// memory it selects.
    VideoWriteOutOfRange { addr: u32 },
    /// A background tile lies outside video memory.
    TileOutOfRange { offset: usize },
    /// A cartridge image is too short to hold a header.
    RomTooShort { len: usize },
    /// The header checksum stored in a cartridge image differs from the
    /// one computed over its header.
    WrongChecksum { stored: u8, computed: u8 },
    /// The title in a cartridge header is not valid UTF-8.
    InvalidTitle,
    /// A boot image does not have the required size.
    InvalidBios { len: usize },
}


/// The character of a hexadecimal digit below 16.
pub open spec fn hex_digit(d: int) -> char {
    if d == 0 {
        '0'
    } else if d == 1 {
        '1'
    } else if d == 2 {
        '2'
    } else if d == 3 {
        '3'
    } else if d == 4 {
        '4'
    } else if d == 5 {
        '5'
    } else if d == 6 {
        '6'
    } else if d == 7 {
        '7'
    } else if d == 8 {
        '8'
    } else if d == 9 {
        '9'
    } else if d == 10 {
        'a'
    } else if d == 11 {
        'b'
    } else if d == 12 {
        'c'
    } else if d == 13 {
        'd'
    } else if d == 14 {
        'e'
    } else {
        'f'
    }
}

/// A number in lower-case hexadecimal, without prefix or leading zeros.
pub open spec fn hex_text(x: nat) -> Seq<char>
    decreases x,
{
    if x < 16 {
        seq![hex_digit(x as int)]
    } else {
        hex_text(x / 16).push(hex_digit((x % 16) as int))
    }
}

/// The hexadecimal texts of the first `n` words of `words`, with a space
/// between neighbours.
pub open spec fn hex_list_text(words: Seq<u32>, n: nat) -> Seq<char>
    decreases n,
{
    if n == 0 {
        Seq::empty()
    } else if n == 1 {
        hex_text(words[0] as nat)
    } else {
        hex_list_text(words, (n - 1) as nat).push(' ') + hex_text(words[n - 1] as nat)
    }
}

/// `std::fmt::LowerHex` for `u32`, reached through `format!`: the digits
/// of `word` in base 16, lower case, without prefix or leading zeros.
#[verifier::external_body]
fn hex(word: u32) -> (r: String)
    ensures
        r@ == hex_text(word as nat),
{
    format!("{:x}", word)
}

/// `itertools::Itertools::format` under lower-hex formatting: each word
/// formatted as by `std::fmt`, with the separator between neighbours and
/// nowhere else.
#[verifier::external_body]
fn hex_list(words: &[u32; 3]) -> (r: String)
    ensures
        r@ == hex_list_text(words@, 3),
{
    format!("{:x}", words.iter().format(" "))
}

impl Fault {
    /// The diagnostic for the fault.
    pub open spec fn text(self) -> Seq<char> {
        match self {
            Fault::UndefinedOpcode { instr, pc, fetched, decoded, retiring } => {
                "Undefined opcode: "@ + hex_text(instr as nat) + " at PC: "@ + hex_text(pc as nat)
                    + ", pipeline: "@ + hex_list_text(seq![fetched, decoded, retiring], 3)
            },
            Fault::InvalidMode { bits } => "Invalid mode: "@ + hex_text(bits as nat),
            Fault::EmptyPipeline { pc } => {
                hex_text(pc.wrapping_sub(8) as nat) + ", "@ + hex_text(pc.wrapping_sub(4) as nat)
            },
            Fault::UnsupportedTransfer { instr } => {
                "Unsupported transfer: "@ + hex_text(instr as nat)
            },
            Fault::UnsupportedByteWrite { addr } => {
                "Unsupported byte write to register at: "@ + hex_text(addr as nat)
            },
            Fault::VideoWriteOutOfRange { addr } => {
                "Byte write past the end of picture memory at: "@ + hex_text(addr as nat)
            },
            Fault::TileOutOfRange { offset } => "Tile outside video memory"@,
            Fault::RomTooShort { len } => "ROM too short for a header"@,
            Fault::WrongChecksum { stored, computed } => "Wrong ROM checksum"@,
            Fault::InvalidTitle => "ROM title is not valid UTF-8"@,
            Fault::InvalidBios { len } => "Invalid BIOS file"@,
        }
    }

    /// Writes the diagnostic for the fault.
    pub fn describe(&self) -> (r: String)
        ensures
            r@ == self.text(),
    {
        match *self {
            Fault::UndefinedOpcode { instr, pc, fetched, decoded, retiring } => {
                let slots = [fetched, decoded, retiring];
                let mut s = String::from_str("Undefined opcode: ");
                s.append(hex(instr).as_str());
                s.append(" at PC: ");
                s.append(hex(pc).as_str());
                s.append(", pipeline: ");
                s.append(hex_list(&slots).as_str());
                s
            },
            Fault::InvalidMode { bits } => {
                let mut s = String::from_str("Invalid mode: ");
                s.append(hex(bits).as_str());
                s
            },
            Fault::EmptyPipeline { pc } => {
                let mut s = hex(pc.wrapping_sub(8));
                s.append(", ");
                s.append(hex(pc.wrapping_sub(4)).as_str());
                s
            },
            Fault::UnsupportedTransfer { instr } => {
                let mut s = String::from_str("Unsupported transfer: ");
                s.append(hex(instr).as_str());
                s
            },
            Fault::UnsupportedByteWrite { addr } => {
                let mut s = String::from_str("Unsupported byte write to register at: ");
                s.append(hex(addr).as_str());
                s
            },
            Fault::VideoWriteOutOfRange { addr } => {
                let mut s = String::from_str("Byte write past the end of picture memory at: ");
                s.append(hex(addr).as_str());
                s
            },
            Fault::TileOutOfRange { offset } => String::from_str("Tile outside video memory"),
            Fault::RomTooShort { len } => String::from_str("ROM too short for a header"),
            Fault::WrongChecksum { stored, computed } => String::from_str("Wrong ROM checksum"),
            Fault::InvalidTitle => String::from_str("ROM title is not valid UTF-8"),
            Fault::InvalidBios { len } => String::from_str("Invalid BIOS file"),
        }
    }
}

} // verus!
