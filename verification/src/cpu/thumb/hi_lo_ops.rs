//! Operations of the compact instruction set that reach the high
//! registers. Bit 7 adds eight to the destination's number, bit 6 to the
//! source's.
use crate::bus::{Bus, BusState};
use crate::cpu::alu::{add_words, addition};
use crate::cpu::cpu::{CpuState, CPU};
use crate::fault::Fault;
use crate::utils::{bit, field3, is_bit_set, low_reg_field};
use vstd::prelude::*;

verus! {

/// The register number made of a three-bit field and a high bit.
pub open spec fn hi_lo_index(instr: u16, shift: u16, high_bit: nat) -> int {
    field3(instr, shift) + (if bit(instr as u32, high_bit) {
        8int
    } else {
        0int
    })
}

/// Computes a register number from a three-bit field and a high bit.
pub fn hi_lo_field(instr: u16, shift: u16, high_bit: usize) -> (r: usize)
    requires
        shift < 16,
        high_bit < 32,
    ensures
        r == hi_lo_index(instr, shift, high_bit as nat),
        r < 16,
{
    let high: usize = if is_bit_set(instr as u32, high_bit) {
        8
    } else {
        0
    };
    low_reg_field(instr, shift) + high
}

impl CpuState {
    /// The registers as an operand fetch sees them: bit 1 of the program
    /// counter reads as zero.
    pub open spec fn hi_lo_seen(self) -> CpuState {
        self.set_reg(15, self.register[15] & 0xFFFFFFFD)
    }

    /// Destination value, source value and destination number of a
    /// high-register operation.
    pub open spec fn thumb_hilo_operands(self, instr: u16) -> (u32, u32, usize) {
        (
            self.hi_lo_seen().register[hi_lo_index(instr, 0, 7)],
            self.hi_lo_seen().register[hi_lo_index(instr, 3, 6)],
            hi_lo_index(instr, 0, 7) as usize,
        )
    }

    /// Addition: the sum of the two registers as they are, with all four
    /// flags, goes to the destination.
    pub open spec fn thumb_hilo_add(self, bus: BusState, instr: u16) -> CpuState {
        let rd = self.register[hi_lo_index(instr, 0, 7)];
        let rs = self.register[hi_lo_index(instr, 3, 6)];
        self.set_addition_flags(rd, rs).write_register(
            bus,
            hi_lo_index(instr, 0, 7),
            addition(rd, rs).value,
        )
    }

    /// Move: the source goes to the destination.
    pub open spec fn thumb_hilo_mov(self, bus: BusState, instr: u16) -> CpuState {
        self.write_register(bus, hi_lo_index(instr, 0, 7), self.thumb_hilo_operands(instr).1)
    }

    /// Comparison: the flags of destination minus source, with carry set
    /// when no borrow occurs.
    pub open spec fn thumb_hilo_compare(self, instr: u16) -> CpuState {
        self.set_subtraction_flags(
            self.thumb_hilo_operands(instr).0,
            self.thumb_hilo_operands(instr).1,
        )
    }

    /// Branch and exchange: jumps to the address in the source and
    /// selects the instruction set by its lowest bit.
    pub open spec fn thumb_hilo_bx(self, bus: BusState, instr: u16) -> CpuState {
        let target = self.register[hi_lo_index(instr, 3, 6)];
        self.set_reg(15, target).switch_state(bus, target)
    }
}

/// The high-register operations leave the processor as sound as it was.
pub proof fn lemma_hi_lo_stays_sound(s: CpuState, bus: BusState, instr: u16)
    ensures
        s.thumb_hilo_add(bus, instr).stays_sound(s),
        s.thumb_hilo_mov(bus, instr).stays_sound(s),
        s.thumb_hilo_compare(instr).stays_sound(s),
        s.thumb_hilo_bx(bus, instr).stays_sound(s),
{
    crate::cpu::cpu::lemma_status_steps();
    crate::utils::lemma_fields(0, instr);
}

impl CPU {
    /// Reads the operands of a high-register operation.
    pub fn THUMB_HILO_OPERANDS(&mut self, instr: u16) -> (r: (u32, u32, usize))
        ensures
            r == old(self)@.thumb_hilo_operands(instr),
            r.2 < 16,
            final(self)@ == old(self)@,
    {
        let tmp = self.register[15];
        self.set_reg(15, tmp & 0xFFFFFFFD);
        let d = hi_lo_field(instr, 0, 7);
        let out = (self.register[d], self.register[hi_lo_field(instr, 3, 6)], d);
        self.set_reg(15, tmp);
        out
    }

    pub fn THUMB_HILO_ADD(&mut self, bus: &mut Bus, instr: u16) -> (r: Result<(), Fault>)
        ensures
            r is Ok,
            final(self)@ == old(self)@.thumb_hilo_add(old(bus)@, instr),
            final(bus)@ == old(bus)@,
    {
        let d = hi_lo_field(instr, 0, 7);
        let rd = self.register[d];
        let rs = self.register[hi_lo_field(instr, 3, 6)];
        let out = add_words(rd, rs);
        self.set_addition_flags(rd, rs);
        self.register_write(d, out.value, bus);
        Ok(())
    }

    pub fn THUMB_HILO_MOV(&mut self, bus: &mut Bus, instr: u16) -> (r: Result<(), Fault>)
        ensures
            r is Ok,
            final(self)@ == old(self)@.thumb_hilo_mov(old(bus)@, instr),
            final(bus)@ == old(bus)@,
    {
        let (rd, rs, d) = self.THUMB_HILO_OPERANDS(instr);
        self.register_write(d, rs, bus);
        Ok(())
    }

    pub fn THUMB_HILO_CMP(&mut self, bus: &mut Bus, instr: u16) -> (r: Result<(), Fault>)
        ensures
            r is Ok,
            final(self)@ == old(self)@.thumb_hilo_compare(instr),
            final(bus)@ == old(bus)@,
    {
        let (rd, rs, d) = self.THUMB_HILO_OPERANDS(instr);
        self.set_subtraction_flags(rd, rs);
        Ok(())
    }

    pub fn THUMB_HILO_BX(&mut self, bus: &mut Bus, instr: u16) -> (r: Result<(), Fault>)
        ensures
            r is Ok,
            final(self)@ == old(self)@.thumb_hilo_bx(old(bus)@, instr),
            final(bus)@ == old(bus)@,
    {
        let rs = self.register[hi_lo_field(instr, 3, 6)];
        self.set_reg(15, rs);
        self.switch_state(bus, rs);
        Ok(())
    }
}

} // verus!
