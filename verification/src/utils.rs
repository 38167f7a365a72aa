//! Bit tests and little-endian byte packing shared by the bus and the
//! processor.
use vstd::prelude::*;

verus! {

/// Bit `n` of `val`, counting from the least significant bit.
pub open spec fn bit(val: u32, n: nat) -> bool {
    val & (1u32 << n) != 0
}

/// Tests bit `n` of a 32-bit word.
#[inline(always)]
pub fn is_bit_set(val: u32, n: usize) -> (r: bool)
    requires
        n < 32,
    ensures
        r == bit(val, n as nat),
{
    val & (1u32 << n) != 0
}

/// The 16-bit value whose low byte is `lo` and whose high byte is `hi`.
pub open spec fn le16(lo: u8, hi: u8) -> u16 {
    (lo as u16) | ((hi as u16) << 8)
}

/// The 32-bit value made of four bytes, least significant first.
pub open spec fn le32(b0: u8, b1: u8, b2: u8, b3: u8) -> u32 {
    (b0 as u32) | ((b1 as u32) << 8) | ((b2 as u32) << 16) | ((b3 as u32) << 24)
}

/// The half-word stored little-endian at `at` in `mem`.
pub open spec fn load16(mem: Seq<u8>, at: int) -> u16 {
    le16(mem[at], mem[at + 1])
}

/// The word stored little-endian at `at` in `mem`.
pub open spec fn load32(mem: Seq<u8>, at: int) -> u32 {
    le32(mem[at], mem[at + 1], mem[at + 2], mem[at + 3])
}

/// `mem` after storing `val` little-endian at `at`.
pub open spec fn store16(mem: Seq<u8>, at: int, val: u16) -> Seq<u8> {
    mem.update(at, val as u8).update(at + 1, (val >> 8) as u8)
}

/// `mem` after storing `val` little-endian at `at`.
pub open spec fn store32(mem: Seq<u8>, at: int, val: u32) -> Seq<u8> {
    mem.update(at, val as u8).update(at + 1, (val >> 8) as u8).update(
        at + 2,
        (val >> 16) as u8,
    ).update(at + 3, (val >> 24) as u8)
}

/// Packs two bytes into a half-word, low byte first.
pub fn pack16(lo: u8, hi: u8) -> (r: u16)
    ensures
        r == le16(lo, hi),
{
    (lo as u16) | ((hi as u16) << 8)
}

/// Packs four bytes into a word, least significant first.
pub fn pack32(b0: u8, b1: u8, b2: u8, b3: u8) -> (r: u32)
    ensures
        r == le32(b0, b1, b2, b3),
{
    (b0 as u32) | ((b1 as u32) << 8) | ((b2 as u32) << 16) | ((b3 as u32) << 24)
}

/// Reads a little-endian half-word from a byte slice.
pub fn read_u16(mem: &[u8], at: usize) -> (r: u16)
    requires
        at + 1 < mem@.len(),
    ensures
        r == load16(mem@, at as int),
{
    pack16(mem[at], mem[at + 1])
}

/// Reads a little-endian word from a byte slice.
pub fn read_u32(mem: &[u8], at: usize) -> (r: u32)
    requires
        at + 3 < mem@.len(),
    ensures
        r == load32(mem@, at as int),
{
    pack32(mem[at], mem[at + 1], mem[at + 2], mem[at + 3])
}

/// Writes a half-word little-endian into a byte slice.
pub fn write_u16(mem: &mut [u8], at: usize, val: u16)
    requires
        at + 1 < old(mem)@.len(),
    ensures
        final(mem)@ == store16(old(mem)@, at as int, val),
{
    mem[at] = #[verifier::truncate] (val as u8);
    mem[at + 1] = #[verifier::truncate] ((val >> 8) as u8);
}

/// Writes a word little-endian into a byte slice.
pub fn write_u32(mem: &mut [u8], at: usize, val: u32)
    requires
        at + 3 < old(mem)@.len(),
    ensures
        final(mem)@ == store32(old(mem)@, at as int, val),
{
    mem[at] = #[verifier::truncate] (val as u8);
    mem[at + 1] = #[verifier::truncate] ((val >> 8) as u8);
    mem[at + 2] = #[verifier::truncate] ((val >> 16) as u8);
    mem[at + 3] = #[verifier::truncate] ((val >> 24) as u8);
}

/// Splitting a half-word into bytes and packing them again gives it back.
pub proof fn lemma_le16_roundtrip(val: u16)
    ensures
        le16(val as u8, (val >> 8) as u8) == val,
{
    assert(((val as u8) as u16) | ((((val >> 8) as u8) as u16) << 8) == val) by (bit_vector);
}

/// Splitting a word into bytes and packing them again gives it back.
pub proof fn lemma_le32_roundtrip(val: u32)
    ensures
        le32(val as u8, (val >> 8) as u8, (val >> 16) as u8, (val >> 24) as u8) == val,
{
    assert(((val as u8) as u32) | ((((val >> 8) as u8) as u32) << 8) | ((((val >> 16) as u8) as u32)
        << 16) | ((((val >> 24) as u8) as u32) << 24) == val) by (bit_vector);
}

/// A half-word stored in memory is read back unchanged.
pub proof fn lemma_load16_after_store16(mem: Seq<u8>, at: int, val: u16)
    requires
        0 <= at,
        at + 1 < mem.len(),
    ensures
        load16(store16(mem, at, val), at) == val,
        store16(mem, at, val).len() == mem.len(),
{
    lemma_le16_roundtrip(val);
}

/// A word stored in memory is read back unchanged.
pub proof fn lemma_load32_after_store32(mem: Seq<u8>, at: int, val: u32)
    requires
        0 <= at,
        at + 3 < mem.len(),
    ensures
        load32(store32(mem, at, val), at) == val,
        store32(mem, at, val).len() == mem.len(),
{
    lemma_le32_roundtrip(val);
}


/// The four-bit field of `word` whose lowest bit is bit `shift`.
pub open spec fn field4(word: u32, shift: u32) -> int {
    ((word >> shift) & 0xF) as int
}

/// The three-bit field of `word` whose lowest bit is bit `shift`.
pub open spec fn field3(word: u16, shift: u16) -> int {
    ((word >> shift) & 0x7) as int
}

/// Extracts a four-bit field, such as a register number, from an
/// instruction word.
pub fn reg_field(word: u32, shift: u32) -> (r: usize)
    requires
        shift < 32,
    ensures
        r == field4(word, shift),
        r < 16,
{
    assert(((word >> shift) & 0xF) < 16) by (bit_vector);
    ((word >> shift) & 0xF) as usize
}

/// Extracts a three-bit field, such as a low register number, from a
/// compact instruction.
pub fn low_reg_field(word: u16, shift: u16) -> (r: usize)
    requires
        shift < 16,
    ensures
        r == field3(word, shift),
        r < 8,
{
    assert(((word >> shift) & 0x7) < 8) by (bit_vector);
    ((word >> shift) & 0x7) as usize
}

/// Every register field of an instruction names a register.
pub proof fn lemma_fields(word: u32, half: u16)
    ensures
        0 <= field4(word, 0) < 16,
        0 <= field4(word, 8) < 16,
        0 <= field4(word, 12) < 16,
        0 <= field4(word, 16) < 16,
        0 <= field3(half, 0) < 8,
        0 <= field3(half, 3) < 8,
        0 <= field3(half, 6) < 8,
        0 <= field3(half, 8) < 8,
{
    assert((word >> 0) & 0xF < 16 && (word >> 8) & 0xF < 16 && (word >> 12) & 0xF < 16 && (word
        >> 16) & 0xF < 16 && (half >> 0) & 0x7 < 8 && (half >> 3) & 0x7 < 8 && (half >> 6) & 0x7 < 8
        && (half >> 8) & 0x7 < 8) by (bit_vector);
}

} // verus!
