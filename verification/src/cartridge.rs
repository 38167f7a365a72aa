//! The game cartridge: its image and the header fields read from it.
use crate::fault::Fault;
use vstd::prelude::*;
use vstd::utf8::{decode_utf8, valid_utf8};

verus! {

/// Offset of the first header byte covered by the checksum, which is also
/// where the title starts.
pub const HEADER_START: usize = 0xA0;

/// Offset one past the title.
pub const TITLE_END: usize = 0xAC;

/// Offset of the stored checksum, one past the bytes it covers.
pub const CHECKSUM_AT: usize = 0xBD;

/// Sum of `data[from..to]` as an unbounded integer.
pub open spec fn byte_sum(data: Seq<u8>, from: int, to: int) -> int
    decreases to - from,
{
    if to <= from {
        0
    } else {
        byte_sum(data, from, to - 1) + data[to - 1]
    }
}

/// The checksum of a cartridge header: the negated sum of the header
/// bytes, less 0x19, modulo 256.
pub open spec fn header_checksum(data: Seq<u8>) -> u8 {
    ((-(byte_sum(data, 0xA0, 0xBD) + 0x19)) % 256) as u8
}

/// Whether `data` holds every byte that the header checksum covers.
pub open spec fn covers_header(data: Seq<u8>) -> bool {
    data.len() >= 0xBD
}

/// Whether `data` is long enough to hold a header with its stored
/// checksum.
pub open spec fn has_header(data: Seq<u8>) -> bool {
    data.len() > 0xBD
}

/// The bytes of the title field.
pub open spec fn title_bytes(data: Seq<u8>) -> Seq<u8> {
    data.subrange(0xA0, 0xAC)
}

/// The fault that keeps `data` from being accepted as a cartridge, if any.
pub open spec fn image_fault(data: Seq<u8>) -> Option<Fault> {
    if !has_header(data) {
        Some(Fault::RomTooShort { len: data.len() as usize })
    } else if header_checksum(data) != data[0xBD] {
        Some(Fault::WrongChecksum { stored: data[0xBD], computed: header_checksum(data) })
    } else if !valid_utf8(title_bytes(data)) {
        Some(Fault::InvalidTitle)
    } else {
        None
    }
}

/// Two stretches of bytes that agree have the same sum.
pub proof fn lemma_byte_sum_agrees(a: Seq<u8>, b: Seq<u8>, from: int, to: int)
    requires
        0 <= from,
        to <= a.len(),
        to <= b.len(),
        forall|i: int| from <= i < to ==> a[i] == b[i],
    ensures
        byte_sum(a, from, to) == byte_sum(b, from, to),
    decreases to - from,
{
    if to > from {
        lemma_byte_sum_agrees(a, b, from, to - 1);
    }
}

/// The checksum looks at the bytes from 0xA0 to 0xBC and at nothing
/// else: two images that agree there have the same checksum, whatever
/// their lengths and their other bytes.
pub proof fn lemma_checksum_reads_the_header_only(a: Seq<u8>, b: Seq<u8>)
    requires
        covers_header(a),
        covers_header(b),
        forall|i: int| 0xA0 <= i < 0xBD ==> a[i] == b[i],
    ensures
        header_checksum(a) == header_checksum(b),
{
    lemma_byte_sum_agrees(a, b, 0xA0, 0xBD);
}

/// `String::from_utf8`: yields the string that the bytes encode exactly
/// when they are valid UTF-8, and nothing otherwise.
#[verifier::external_body]
fn string_from_utf8(bytes: Vec<u8>) -> (r: Option<String>)
    ensures
        r is Some <==> valid_utf8(bytes@),
        r matches Some(s) ==> s@ == decode_utf8(bytes@),
{
    String::from_utf8(bytes).ok()
}

/// A cartridge slot, empty until an image is inserted.
pub struct Cartridge {
    pub rom: Vec<u8>,
    pub title: String,
}

impl Cartridge {
    /// An empty slot.
    pub fn new() -> (r: Self)
        ensures
            r.rom@ == Seq::<u8>::empty(),
            r.title@ == Seq::<char>::empty(),
    {
        Self { rom: Vec::new(), title: String::new() }
    }

    /// Takes `data` as the cartridge image if its header checksum matches
    /// and its title is valid UTF-8; otherwise reports why not and keeps
    /// the slot as it was.
    pub fn insert(&mut self, data: Vec<u8>) -> (r: Result<(), Fault>)
        ensures
            match image_fault(data@) {
                Some(fault) => r == Err::<(), Fault>(fault) && *final(self) == *old(self),
                None => r is Ok && final(self).rom@ == data@ && final(self).title@ == decode_utf8(
                    title_bytes(data@),
                ),
            },
    {
        if data.len() <= CHECKSUM_AT {
            return Err(Fault::RomTooShort { len: data.len() });
        }
        let computed = self.calculate_header_checksum(&data);
        if computed != data[CHECKSUM_AT] {
            return Err(Fault::WrongChecksum { stored: data[CHECKSUM_AT], computed });
        }
        let mut raw: Vec<u8> = Vec::new();
        let mut i: usize = HEADER_START;
        while i < TITLE_END
            invariant
                HEADER_START <= i <= TITLE_END,
                data@.len() > 0xBD,
                raw@ == data@.subrange(0xA0, i as int),
            decreases TITLE_END - i,
        {
            raw.push(data[i]);
            i = i + 1;
        }
        match string_from_utf8(raw) {
            Some(title) => {
                self.title = title;
                self.rom = data;
                Ok(())
            },
            None => Err(Fault::InvalidTitle),
        }
    }

    /// Computes the checksum that the header of `data` should carry.
    pub fn calculate_header_checksum(&self, data: &Vec<u8>) -> (r: u8)
        requires
            covers_header(data@),
        ensures
            r == header_checksum(data@),
    {
        let mut sum: u8 = 0;
        let mut i: usize = HEADER_START;
        while i < CHECKSUM_AT
            invariant
                HEADER_START <= i <= CHECKSUM_AT,
                data@.len() >= 0xBD,
                sum as int == (-byte_sum(data@, 0xA0, i as int)) % 256,
            decreases CHECKSUM_AT - i,
        {
            sum = sum.wrapping_sub(data[i]);
            i = i + 1;
        }
        sum.wrapping_sub(0x19)
    }
}

} // verus!
