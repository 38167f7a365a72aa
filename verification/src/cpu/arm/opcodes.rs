//! Branches, multiplication, software interrupt and single data
//! transfer, and the construction of the decode table.
use crate::bus::{Bus, BusState};
use crate::cpu::alu::{
    extend16, extend32, extend8, is_negative, negative, sign_extend16, sign_extend32, sign_extend8,
};
use crate::cpu::barrel_shift::{rotate, rotate_right, sign_shift};
use crate::cpu::cpu::{CPU_mode, CpuState, Flag, CPU};
use crate::cpu::decode::{arm_decode, arm_entry, arm_table};
use crate::fault::Fault;
use crate::utils::{bit, field4, is_bit_set, reg_field};
use vstd::prelude::*;

verus! {

/// The byte offset of a branch: its 24-bit field read as a signed number
/// of words.
pub open spec fn branch_offset(instr: u32) -> u32 {
    ((instr & 0xFFFFFF) | (if bit(instr, 23) {
        0x3F000000u32
    } else {
        0u32
    })) << 2
}

/// `base` moved up or down by `offset`, modulo 2^32.
pub open spec fn offset_address(base: u32, offset: u32, up: bool) -> u32 {
    if up {
        base.wrapping_add(offset)
    } else {
        base.wrapping_sub(offset)
    }
}

/// The double word made of a high and a low word.
pub open spec fn join64(high: u32, low: u32) -> u64 {
    ((high as u64) << 32) | (low as u64)
}

/// The eight-bit offset of a half-word transfer, split over two fields
/// of the instruction.
pub open spec fn split_offset(instr: u32) -> u32 {
    ((instr >> 4) & 0xF0) | (instr & 0xF)
}

/// The transfer kind of a half-word or signed transfer.
pub open spec fn transfer_kind(instr: u32) -> u32 {
    (instr >> 5) & 0x3
}

impl BusState {
    /// The word at `addr`, rotated so that the addressed byte comes
    /// lowest: a word read from an unaligned address does not fault.
    pub open spec fn read_word_rotated(self, addr: u32) -> u32 {
        rotate_right(self.read32(addr & 0xFFFFFFFC), (addr & 3) << 3)
    }

    /// The half-word at `addr`, rotated within a word so that the
    /// addressed byte comes lowest.
    pub open spec fn read_half_rotated(self, addr: u32) -> u32 {
        rotate_right(self.read16(addr & 0xFFFFFFFE) as u32, (addr & 1) << 3)
    }

    /// The half-word at `addr` widened with its sign; at an odd address
    /// the widened value is shifted right by a byte, sign included.
    pub open spec fn read_half_signed(self, addr: u32) -> u32 {
        if addr & 0x1 != 0 {
            sign_shift(sign_extend16(self.read16(addr)), 8)
        } else {
            sign_extend16(self.read16(addr))
        }
    }
}

impl CpuState {
    /// The state with the zero and negative flags set.
    pub open spec fn set_zn(self, zero: bool, negative: bool) -> CpuState {
        self.set_flag(Flag::Z, zero).set_flag(Flag::N, negative)
    }

    /// Branch and exchange: jumps to the address in a register and
    /// selects the instruction set by its lowest bit.
    #[verifier::opaque]
    pub open spec fn arm_bx(self, bus: BusState, instr: u32) -> CpuState {
        let target = self.register[field4(instr, 0)];
        self.set_reg(15, target).switch_state(bus, target)
    }

    /// Branch, with link when bit 24 is set: the link register takes the
    /// address of the next instruction, the program counter moves by the
    /// branch offset, and the pipeline is refilled.
    #[verifier::opaque]
    pub open spec fn arm_b_bl(self, bus: BusState, instr: u32) -> CpuState {
        let linked = if bit(instr, 24) {
            self.set_reg(14, self.register[15].wrapping_sub(4))
        } else {
            self
        };
        linked.set_reg(15, self.register[15].wrapping_add(branch_offset(instr))).arm_refill(bus)
    }

    /// Software interrupt: supervisor mode is entered, its link register
    /// takes the return address, and execution continues at the vector
    /// at address 8.
    #[verifier::opaque]
    pub open spec fn arm_swi(self, bus: BusState) -> CpuState {
        let entered = self.set_mode(CPU_mode::svc);
        entered.set_reg(14, entered.register[15].wrapping_sub(4)).set_reg(15, 0x08).arm_refill(bus)
    }

    /// The product of a multiply, plus the accumulator when bit 21 is
    /// set, modulo 2^32.
    pub open spec fn arm_mul_value(self, instr: u32) -> u32 {
        let acc = if bit(instr, 21) {
            self.register[field4(instr, 12)]
        } else {
            0
        };
        self.register[field4(instr, 0)].wrapping_mul(self.register[field4(instr, 8)]).wrapping_add(
            acc,
        )
    }

    /// Multiply and multiply-accumulate. Carry and overflow are left
    /// alone.
    #[verifier::opaque]
    pub open spec fn arm_mul_mla(self, bus: BusState, instr: u32) -> CpuState {
        let value = self.arm_mul_value(instr);
        let written = self.write_register(bus, field4(instr, 16), value);
        if bit(instr, 20) {
            written.set_zn(value == 0, is_negative(value))
        } else {
            written
        }
    }

    /// The accumulator of a long multiply: the destination pair when bit
    /// 21 is set, zero otherwise.
    pub open spec fn arm_long_accumulator(self, instr: u32) -> u64 {
        if bit(instr, 21) {
            join64(self.register[field4(instr, 16)], self.register[field4(instr, 12)])
        } else {
            0
        }
    }

    /// The unsigned 64-bit product plus the accumulator, modulo 2^64.
    pub open spec fn arm_umull_value(self, instr: u32) -> u64 {
        (self.register[field4(instr, 0)] as u64).wrapping_mul(
            self.register[field4(instr, 8)] as u64,
        ).wrapping_add(self.arm_long_accumulator(instr))
    }

    /// The signed 64-bit product plus the accumulator, modulo 2^64: the
    /// operands are widened with their signs before they are multiplied.
    pub open spec fn arm_smull_value(self, instr: u32) -> u64 {
        sign_extend32(self.register[field4(instr, 0)]).wrapping_mul(
            sign_extend32(self.register[field4(instr, 8)]),
        ).wrapping_add(self.arm_long_accumulator(instr))
    }

    /// The state after the 64-bit `value` is stored in the destination
    /// pair of a long multiply, low word first.
    #[verifier::opaque]
    pub open spec fn arm_long_store(self, bus: BusState, instr: u32, value: u64) -> CpuState {
        let written = self.write_register(bus, field4(instr, 12), value as u32).write_register(
            bus,
            field4(instr, 16),
            (value >> 32) as u32,
        );
        if bit(instr, 20) {
            written.set_zn(value == 0, value >= 0x8000_0000_0000_0000)
        } else {
            written
        }
    }

    /// The fault that a swap meets, if any: a refused byte write.
    pub open spec fn arm_swp_fault(self, bus: BusState, instr: u32) -> Option<Fault> {
        if bit(instr, 22) {
            bus.write8_fault(self.register[field4(instr, 16)])
        } else {
            None
        }
    }

    /// Swap, processor side: the destination takes what memory held at
    /// the address in the base register.
    #[verifier::opaque]
    pub open spec fn arm_swp(self, bus: BusState, instr: u32) -> CpuState {
        let at = self.register[field4(instr, 16)];
        let loaded = if bit(instr, 22) {
            bus.read8(at) as u32
        } else {
            bus.read_word_rotated(at)
        };
        self.write_register(bus, field4(instr, 12), loaded)
    }

    /// Swap, memory side: memory takes the source register at the
    /// address in the base register.
    pub open spec fn arm_swp_bus(self, bus: BusState, instr: u32) -> BusState {
        let at = self.register[field4(instr, 16)];
        let source = self.register[field4(instr, 0)];
        if bit(instr, 22) {
            bus.write8(at, source as u8)
        } else {
            bus.write32(at & 0xFFFFFFFC, source)
        }
    }

    /// The offset of a single transfer: a register through the barrel
    /// shifter, or a twelve-bit immediate.
    pub open spec fn arm_transfer_offset(self, instr: u32) -> u32 {
        if bit(instr, 25) {
            self.shifter_operand(instr >> 4, self.register[field4(instr, 0)]).0
        } else {
            instr & 0xFFF
        }
    }

    /// Load of a word or byte. With pre-indexing the moved address is
    /// read, and written back to the base when bit 21 asks; with
    /// post-indexing the base address is read and the base always moves.
    /// The loaded value is written last, so it wins when the base is also
    /// the destination.
    #[verifier::opaque]
    pub open spec fn arm_ldr(self, bus: BusState, instr: u32) -> CpuState {
        let base = field4(instr, 16);
        let moved = offset_address(
            self.register[base],
            self.arm_transfer_offset(instr),
            bit(instr, 23),
        );
        if bit(instr, 24) {
            let loaded = if bit(instr, 22) {
                bus.read8(moved) as u32
            } else {
                bus.read_word_rotated(moved)
            };
            let based = if bit(instr, 21) {
                self.write_register(bus, base, moved)
            } else {
                self
            };
            based.write_register(bus, field4(instr, 12), loaded)
        } else {
            let at = self.register[base];
            let loaded = if bit(instr, 22) {
                bus.read8(at) as u32
            } else {
                rotate_right(bus.read32(at), (at & 3) << 3)
            };
            self.write_register(bus, base, moved).write_register(bus, field4(instr, 12), loaded)
        }
    }

    /// The base address of a store after its move. Registers are read
    /// with the program counter one instruction further on.
    pub open spec fn arm_str_moved(self, instr: u32) -> u32 {
        let seen = self.bump_pc(4);
        offset_address(
            seen.register[field4(instr, 16)],
            seen.arm_transfer_offset(instr),
            bit(instr, 23),
        )
    }

    /// The address that a store writes to.
    pub open spec fn arm_str_target(self, instr: u32) -> u32 {
        if bit(instr, 24) {
            self.arm_str_moved(instr)
        } else {
            self.bump_pc(4).register[field4(instr, 16)]
        }
    }

    /// The fault that a store meets, if any: a refused byte write.
    pub open spec fn arm_str_fault(self, bus: BusState, instr: u32) -> Option<Fault> {
        if bit(instr, 22) {
            bus.write8_fault(self.arm_str_target(instr))
        } else {
            None
        }
    }

    /// Store of a word or byte, memory side.
    pub open spec fn arm_str_bus(self, bus: BusState, instr: u32) -> BusState {
        let source = self.bump_pc(4).register[field4(instr, 12)];
        if bit(instr, 22) {
            bus.write8(self.arm_str_target(instr), source as u8)
        } else {
            bus.write32(self.arm_str_target(instr), source)
        }
    }

    /// Store of a word or byte, processor side: the base moves, always
    /// with post-indexing and when bit 21 asks with pre-indexing. A base
    /// that is the program counter refills the pipeline from memory as
    /// the store left it.
    #[verifier::opaque]
    pub open spec fn arm_str(self, bus: BusState, instr: u32) -> CpuState {
        if bit(instr, 24) && !bit(instr, 21) {
            self
        } else {
            self.write_register(
                self.arm_str_bus(bus, instr),
                field4(instr, 16),
                self.arm_str_moved(instr),
            )
        }
    }

    /// The offset of a half-word transfer: the split immediate or a
    /// register.
    pub open spec fn arm_half_offset(self, instr: u32) -> u32 {
        if bit(instr, 22) {
            split_offset(instr)
        } else {
            self.register[field4(instr, 0)]
        }
    }

    /// The base address of a half-word transfer after its move.
    pub open spec fn arm_half_moved(self, instr: u32) -> u32 {
        offset_address(
            self.register[field4(instr, 16)],
            self.arm_half_offset(instr),
            bit(instr, 23),
        )
    }

    /// The address that a half-word transfer accesses.
    pub open spec fn arm_half_target(self, instr: u32) -> u32 {
        if bit(instr, 24) {
            self.arm_half_moved(instr)
        } else {
            self.register[field4(instr, 16)]
        }
    }

    /// The fault that a half-word or signed load meets, if any: a kind
    /// field of zero names no load.
    pub open spec fn arm_ldrhsb_fault(self, instr: u32) -> Option<Fault> {
        if transfer_kind(instr) == 0 {
            Some(Fault::UnsupportedTransfer { instr })
        } else {
            None
        }
    }

    /// Load of an unsigned half-word, a signed byte or a signed
    /// half-word, as the kind field counts from one to three.
    #[verifier::opaque]
    pub open spec fn arm_ldrhsb(self, bus: BusState, instr: u32) -> CpuState {
        let at = self.arm_half_target(instr);
        let kind = transfer_kind(instr);
        let loaded = if kind == 1 {
            bus.read_half_rotated(at)
        } else if kind == 2 {
            sign_extend8(bus.read8(at))
        } else {
            bus.read_half_signed(at)
        };
        let based = if bit(instr, 21) || !bit(instr, 24) {
            self.write_register(bus, field4(instr, 16), self.arm_half_moved(instr))
        } else {
            self
        };
        based.write_register(bus, field4(instr, 12), loaded)
    }

    /// Whether a half-word store writes a single byte: the low bit of the
    /// kind field is clear.
    pub open spec fn arm_strhsb_is_byte(instr: u32) -> bool {
        transfer_kind(instr) == 0 || transfer_kind(instr) == 2
    }

    /// The fault that a half-word or byte store meets, if any: a refused
    /// byte write.
    pub open spec fn arm_strhsb_fault(self, bus: BusState, instr: u32) -> Option<Fault> {
        if Self::arm_strhsb_is_byte(instr) {
            bus.write8_fault(self.arm_half_target(instr))
        } else {
            None
        }
    }

    /// Store of a half-word or byte, memory side: the low half-word or
    /// byte of the source register is written.
    pub open spec fn arm_strhsb_bus(self, bus: BusState, instr: u32) -> BusState {
        let source = self.register[field4(instr, 12)];
        if Self::arm_strhsb_is_byte(instr) {
            bus.write8(self.arm_half_target(instr), source as u8)
        } else {
            bus.write16(self.arm_half_target(instr), source as u16)
        }
    }

    /// Store of a half-word or byte, processor side: the base moves,
    /// always with post-indexing and when bit 21 asks with pre-indexing.
    #[verifier::opaque]
    pub open spec fn arm_strhsb(self, bus: BusState, instr: u32) -> CpuState {
        if bit(instr, 24) && !bit(instr, 21) {
            self
        } else {
            self.write_register(
                self.arm_strhsb_bus(bus, instr),
                field4(instr, 16),
                self.arm_half_moved(instr),
            )
        }
    }
}

/// Setting the zero and negative flags leaves carry, overflow and the
/// mode field of a status word alone.
pub proof fn lemma_set_zn_keeps_the_rest(s: CpuState, zero: bool, negative: bool)
    ensures
        s.set_zn(zero, negative).flag(Flag::C) == s.flag(Flag::C),
        s.set_zn(zero, negative).flag(Flag::V) == s.flag(Flag::V),
        s.set_zn(zero, negative).flag(Flag::Z) == zero,
        s.set_zn(zero, negative).flag(Flag::N) == negative,
        s.set_zn(zero, negative).cpsr & 0x1F == s.cpsr & 0x1F,
{
    crate::cpu::cpu::lemma_flag_roundtrip(s.cpsr, Flag::Z, zero);
    crate::cpu::cpu::lemma_flag_roundtrip(s.set_flag(Flag::Z, zero).cpsr, Flag::N, negative);
}

/// A multiply leaves carry and overflow as they were.
pub proof fn lemma_multiply_keeps_carry_and_overflow(s: CpuState, bus: BusState, instr: u32)
    requires
        s.wf(),
    ensures
        s.arm_mul_mla(bus, instr).flag(Flag::C) == s.flag(Flag::C),
        s.arm_mul_mla(bus, instr).flag(Flag::V) == s.flag(Flag::V),
        s.arm_long_store(bus, instr, s.arm_umull_value(instr)).flag(Flag::C) == s.flag(Flag::C),
        s.arm_long_store(bus, instr, s.arm_umull_value(instr)).flag(Flag::V) == s.flag(Flag::V),
        s.arm_long_store(bus, instr, s.arm_smull_value(instr)).flag(Flag::C) == s.flag(Flag::C),
        s.arm_long_store(bus, instr, s.arm_smull_value(instr)).flag(Flag::V) == s.flag(Flag::V),
{
    reveal(CpuState::arm_mul_mla);
    reveal(CpuState::arm_long_store);
    let a = s.write_register(bus, field4(instr, 16), s.arm_mul_value(instr));
    lemma_set_zn_keeps_the_rest(
        a,
        s.arm_mul_value(instr) == 0,
        is_negative(s.arm_mul_value(instr)),
    );
    let u = s.arm_umull_value(instr);
    let b = s.write_register(bus, field4(instr, 12), u as u32).write_register(
        bus,
        field4(instr, 16),
        (u >> 32) as u32,
    );
    lemma_set_zn_keeps_the_rest(b, u == 0, u >= 0x8000_0000_0000_0000);
    let w = s.arm_smull_value(instr);
    let c = s.write_register(bus, field4(instr, 12), w as u32).write_register(
        bus,
        field4(instr, 16),
        (w >> 32) as u32,
    );
    lemma_set_zn_keeps_the_rest(c, w == 0, w >= 0x8000_0000_0000_0000);
}

/// A software interrupt ends in supervisor mode, in the full-width
/// pipeline at the vector, with the address of the next instruction in
/// the link register.
pub proof fn lemma_swi_enters_supervisor(s: CpuState, bus: BusState)
    requires
        s.wf(),
    ensures
        s.arm_swi(bus).mode == CPU_mode::svc,
        s.arm_swi(bus).register[14] == s.register[15].wrapping_sub(4),
        s.arm_swi(bus).register[15] == 0x0C,
        s.arm_swi(bus).pipeline[1] == bus.read32(0x08),
        s.mode != CPU_mode::svc ==> crate::cpu::cpu::mode_of(s.arm_swi(bus).cpsr) == Some(
            CPU_mode::svc,
        ),
{
    reveal(CpuState::arm_swi);
    crate::cpu::cpu::lemma_set_mode(s, CPU_mode::svc);
    assert(0x08u32 & 0xFFFFFFFC == 0x08) by (bit_vector);
}

/// Branches, multiplications and the software interrupt keep the
/// decode tables.
pub proof fn lemma_arm_opcodes_stay_sound(s: CpuState, bus: BusState, instr: u32)
    ensures
        s.arm_bx(bus, instr).stays_sound(s),
        s.arm_b_bl(bus, instr).stays_sound(s),
        s.arm_swi(bus).stays_sound(s),
        s.arm_mul_mla(bus, instr).stays_sound(s),
        forall|v: u64| #[trigger] s.arm_long_store(bus, instr, v).stays_sound(s),
        s.arm_swp(bus, instr).stays_sound(s),
{
    crate::cpu::cpu::lemma_status_steps();
    reveal(CpuState::arm_bx);
    reveal(CpuState::arm_b_bl);
    reveal(CpuState::arm_swi);
    reveal(CpuState::arm_mul_mla);
    reveal(CpuState::arm_long_store);
    reveal(CpuState::arm_swp);
    crate::utils::lemma_fields(instr, 0);
}

/// A load leaves the processor as sound as it was.
pub proof fn lemma_ldr_stays_sound(s: CpuState, bus: BusState, instr: u32)
    ensures
        s.arm_ldr(bus, instr).stays_sound(s),
{
    crate::cpu::cpu::lemma_status_steps();
    reveal(CpuState::arm_ldr);
    crate::utils::lemma_fields(instr, 0);
    crate::cpu::cpu::lemma_steps_stay_sound(s, bus);
}

/// A store leaves the processor as sound as it was.
pub proof fn lemma_str_stays_sound(s: CpuState, bus: BusState, instr: u32)
    ensures
        s.arm_str(bus, instr).stays_sound(s),
{
    crate::cpu::cpu::lemma_status_steps();
    reveal(CpuState::arm_str);
    crate::utils::lemma_fields(instr, 0);
    crate::cpu::cpu::lemma_steps_stay_sound(s, bus);
}

/// A half-word or signed load leaves the processor as sound as it was.
pub proof fn lemma_ldrhsb_stays_sound(s: CpuState, bus: BusState, instr: u32)
    ensures
        s.arm_ldrhsb(bus, instr).stays_sound(s),
{
    crate::cpu::cpu::lemma_status_steps();
    reveal(CpuState::arm_ldrhsb);
    crate::utils::lemma_fields(instr, 0);
    crate::cpu::cpu::lemma_steps_stay_sound(s, bus);
}

/// A half-word or byte store leaves the processor as sound as it was.
pub proof fn lemma_strhsb_stays_sound(s: CpuState, bus: BusState, instr: u32)
    ensures
        s.arm_strhsb(bus, instr).stays_sound(s),
{
    crate::cpu::cpu::lemma_status_steps();
    reveal(CpuState::arm_strhsb);
    crate::utils::lemma_fields(instr, 0);
    crate::cpu::cpu::lemma_steps_stay_sound(s, bus);
}

/// Moves an address up or down.
pub fn move_address(base: u32, offset: u32, up: bool) -> (r: u32)
    ensures
        r == offset_address(base, offset, up),
{
    if up {
        base.wrapping_add(offset)
    } else {
        base.wrapping_sub(offset)
    }
}

impl Bus {
    /// Reads a word from a possibly unaligned address.
    pub fn read_word_rotated(&self, addr: u32) -> (r: u32)
        ensures
            r == self@.read_word_rotated(addr),
    {
        rotate(self.read32(addr & 0xFFFFFFFC), (addr & 3) << 3)
    }

    /// Reads a half-word from a possibly odd address.
    pub fn read_half_rotated(&self, addr: u32) -> (r: u32)
        ensures
            r == self@.read_half_rotated(addr),
    {
        rotate(self.read16(addr & 0xFFFFFFFE) as u32, (addr & 1) << 3)
    }

    /// Reads a half-word and widens it with its sign.
    pub fn read_half_signed(&self, addr: u32) -> (r: u32)
        ensures
            r == self@.read_half_signed(addr),
    {
        let wide = extend16(self.read16(addr));
        if addr & 0x1 != 0 {
            let fill: u32 = if wide & 0x80000000 != 0 {
                0xFFFFFFFF
            } else {
                0
            };
            (wide >> 8) | (fill << 24)
        } else {
            wide
        }
    }
}

impl CPU {
    /// Builds the decode table of the full-width instruction set.
    pub fn ARM_fill_lut(&mut self)
        ensures
            final(self)@ == (CpuState { lut_arm: arm_table(), ..old(self)@ }),
    {
        let mut i: usize = 0;
        while i < 4096
            invariant
                i <= 4096,
                self@ == (CpuState { lut_arm: self@.lut_arm, ..old(self)@ }),
                self@.lut_arm.len() == 4096,
                forall|j: int| 0 <= j < i ==> self@.lut_arm[j] == arm_decode(j as u32),
            decreases 4096 - i,
        {
            self.lut_arm[i] = arm_entry(i as u32);
            i = i + 1;
        }
    }

    /// Sets the zero and negative flags.
    pub fn set_zn(&mut self, zero: bool, negative: bool)
        ensures
            final(self)@ == old(self)@.set_zn(zero, negative),
    {
        self.set_flag(Flag::Z, zero);
        self.set_flag(Flag::N, negative);
    }

    #[inline]
    pub fn ARM_bx(&mut self, bus: &mut Bus, instr: u32) -> (r: Result<(), Fault>)
        ensures
            r is Ok,
            final(self)@ == old(self)@.arm_bx(old(bus)@, instr),
            final(bus)@ == old(bus)@,
    {
        reveal(CpuState::arm_bx);
        let rn = self.register[reg_field(instr, 0)];
        self.set_reg(15, rn);
        self.switch_state(bus, rn);
        Ok(())
    }

    #[inline]
    pub fn ARM_b_bl(&mut self, bus: &mut Bus, instr: u32) -> (r: Result<(), Fault>)
        ensures
            r is Ok,
            final(self)@ == old(self)@.arm_b_bl(old(bus)@, instr),
            final(bus)@ == old(bus)@,
    {
        reveal(CpuState::arm_b_bl);
        let sign: u32 = if is_bit_set(instr, 23) {
            0x3F000000
        } else {
            0
        };
        let off = ((instr & 0xFFFFFF) | sign) << 2;
        let pc = self.register[15];
        if is_bit_set(instr, 24) {
            self.set_reg(14, pc.wrapping_sub(4));
        }
        self.set_reg(15, pc.wrapping_add(off));
        self.arm_refill_pipeline(bus);
        Ok(())
    }

    #[inline]
    pub fn ARM_SWI(&mut self, bus: &mut Bus, instr: u32) -> (r: Result<(), Fault>)
        ensures
            r is Ok,
            final(self)@ == old(self)@.arm_swi(old(bus)@),
            final(bus)@ == old(bus)@,
    {
        reveal(CpuState::arm_swi);
        self.set_mode(CPU_mode::svc);
        let back = self.register[15].wrapping_sub(4);
        self.set_reg(14, back);
        self.set_reg(15, 0x08);
        self.arm_refill_pipeline(bus);
        Ok(())
    }

    #[inline]
    pub fn ARM_MUL_MLA(&mut self, bus: &mut Bus, instr: u32) -> (r: Result<(), Fault>)
        ensures
            r is Ok,
            final(self)@ == old(self)@.arm_mul_mla(old(bus)@, instr),
            final(bus)@ == old(bus)@,
    {
        reveal(CpuState::arm_mul_mla);
        let rn = if is_bit_set(instr, 21) {
            self.register[reg_field(instr, 12)]
        } else {
            0
        };
        let rs = self.register[reg_field(instr, 8)];
        let rm = self.register[reg_field(instr, 0)];
        let tmp = rm.wrapping_mul(rs).wrapping_add(rn);
        self.register_write(reg_field(instr, 16), tmp, bus);
        if is_bit_set(instr, 20) {
            self.set_zn(tmp == 0, negative(tmp));
        }
        Ok(())
    }

    /// Reads the accumulator of a long multiply.
    fn long_accumulator(&self, instr: u32) -> (r: u64)
        ensures
            r == self@.arm_long_accumulator(instr),
    {
        if is_bit_set(instr, 21) {
            ((self.register[reg_field(instr, 16)] as u64) << 32) | (
            self.register[reg_field(instr, 12)] as u64)
        } else {
            0
        }
    }

    /// Stores the outcome of a long multiply and sets its flags.
    fn long_store(&mut self, bus: &mut Bus, instr: u32, value: u64)
        ensures
            final(self)@ == old(self)@.arm_long_store(old(bus)@, instr, value),
            final(bus)@ == old(bus)@,
    {
        reveal(CpuState::arm_long_store);
        self.register_write(reg_field(instr, 12), #[verifier::truncate] (value as u32), bus);
        self.register_write(
            reg_field(instr, 16),
            #[verifier::truncate] ((value >> 32) as u32),
            bus,
        );
        if is_bit_set(instr, 20) {
            self.set_zn(value == 0, value >= 0x8000_0000_0000_0000);
        }
    }

    #[inline]
    pub fn ARM_UMULL_UMLAL(&mut self, bus: &mut Bus, instr: u32) -> (r: Result<(), Fault>)
        ensures
            r is Ok,
            final(self)@ == old(self)@.arm_long_store(
                old(bus)@,
                instr,
                old(self)@.arm_umull_value(instr),
            ),
            final(bus)@ == old(bus)@,
    {
        let rm = self.register[reg_field(instr, 0)] as u64;
        let rs = self.register[reg_field(instr, 8)] as u64;
        let tmp = rm.wrapping_mul(rs).wrapping_add(self.long_accumulator(instr));
        self.long_store(bus, instr, tmp);
        Ok(())
    }

    #[inline]
    pub fn ARM_SMULL_SMLAL(&mut self, bus: &mut Bus, instr: u32) -> (r: Result<(), Fault>)
        ensures
            r is Ok,
            final(self)@ == old(self)@.arm_long_store(
                old(bus)@,
                instr,
                old(self)@.arm_smull_value(instr),
            ),
            final(bus)@ == old(bus)@,
    {
        let rm = extend32(self.register[reg_field(instr, 0)]);
        let rs = extend32(self.register[reg_field(instr, 8)]);
        let tmp = rm.wrapping_mul(rs).wrapping_add(self.long_accumulator(instr));
        self.long_store(bus, instr, tmp);
        Ok(())
    }

    #[inline]
    pub fn ARM_SWP(&mut self, bus: &mut Bus, instr: u32) -> (r: Result<(), Fault>)
        ensures
            match old(self)@.arm_swp_fault(old(bus)@, instr) {
                Some(fault) => r == Err::<(), Fault>(fault) && final(self)@ == old(self)@
                    && final(bus)@ == old(bus)@,
                None => r is Ok && final(self)@ == old(self)@.arm_swp(old(bus)@, instr)
                    && final(bus)@ == old(self)@.arm_swp_bus(old(bus)@, instr),
            },
            final(bus)@.keeps_frame(old(bus)@),
    {
        reveal(CpuState::arm_swp);
        let rn = self.register[reg_field(instr, 16)];
        let rm = self.register[reg_field(instr, 0)];
        let d = reg_field(instr, 12);
        if is_bit_set(instr, 22) {
            match bus.write8_fault(rn) {
                Some(fault) => {
                    return Err(fault);
                },
                None => {},
            }
            let loaded = bus.read8(rn) as u32;
            self.register_write(d, loaded, bus);
            let done = bus.write8(rn, #[verifier::truncate] (rm as u8));
        } else {
            let loaded = bus.read_word_rotated(rn);
            self.register_write(d, loaded, bus);
            bus.write32(rn & 0xFFFFFFFC, rm);
        }
        Ok(())
    }

    #[inline]
    pub fn ARM_LDR(&mut self, bus: &mut Bus, instr: u32) -> (r: Result<(), Fault>)
        ensures
            r is Ok,
            final(self)@ == old(self)@.arm_ldr(old(bus)@, instr),
            final(bus)@ == old(bus)@,
    {
        reveal(CpuState::arm_ldr);
        let offset = if is_bit_set(instr, 25) {
            self.barrel_shifter_operand(instr >> 4, self.register[reg_field(instr, 0)]).0
        } else {
            instr & 0xFFF
        };
        let base = reg_field(instr, 16);
        let tmp = move_address(self.register[base], offset, is_bit_set(instr, 23));
        if is_bit_set(instr, 24) {
            let v = if is_bit_set(instr, 22) {
                bus.read8(tmp) as u32
            } else {
                bus.read_word_rotated(tmp)
            };
            if is_bit_set(instr, 21) {
                self.register_write(base, tmp, bus);
            }
            self.register_write(reg_field(instr, 12), v, bus);
        } else {
            let at = self.register[base];
            let v = if is_bit_set(instr, 22) {
                bus.read8(at) as u32
            } else {
                rotate(bus.read32(at), (at & 3) << 3)
            };
            self.register_write(base, tmp, bus);
            self.register_write(reg_field(instr, 12), v, bus);
        }
        Ok(())
    }

    #[inline]
    pub fn ARM_STR(&mut self, bus: &mut Bus, instr: u32) -> (r: Result<(), Fault>)
        ensures
            match old(self)@.arm_str_fault(old(bus)@, instr) {
                Some(fault) => r == Err::<(), Fault>(fault) && final(self)@ == old(self)@
                    && final(bus)@ == old(bus)@,
                None => r is Ok && final(self)@ == old(self)@.arm_str(old(bus)@, instr)
                    && final(bus)@ == old(self)@.arm_str_bus(old(bus)@, instr),
            },
            final(bus)@.keeps_frame(old(bus)@),
    {
        reveal(CpuState::arm_str);
        self.bump_pc(4);
        let offset = if is_bit_set(instr, 25) {
            self.barrel_shifter_operand(instr >> 4, self.register[reg_field(instr, 0)]).0
        } else {
            instr & 0xFFF
        };
        let base = reg_field(instr, 16);
        let tmp = move_address(self.register[base], offset, is_bit_set(instr, 23));
        let src = self.register[reg_field(instr, 12)];
        let pre = is_bit_set(instr, 24);
        let target = if pre {
            tmp
        } else {
            self.register[base]
        };
        self.rewind_pc(4);
        if is_bit_set(instr, 22) {
            match bus.write8_fault(target) {
                Some(fault) => {
                    return Err(fault);
                },
                None => {},
            }
            let done = bus.write8(target, #[verifier::truncate] (src as u8));
        } else {
            bus.write32(target, src);
        }
        if !pre || is_bit_set(instr, 21) {
            self.register_write(base, tmp, bus);
        }
        Ok(())
    }

    /// Reads the offset of a half-word transfer.
    fn half_offset(&self, instr: u32) -> (r: u32)
        ensures
            r == self@.arm_half_offset(instr),
    {
        if is_bit_set(instr, 22) {
            ((instr >> 4) & 0xF0) | (instr & 0xF)
        } else {
            self.register[reg_field(instr, 0)]
        }
    }

    #[inline]
    pub fn ARM_LDRHSB(&mut self, bus: &mut Bus, instr: u32) -> (r: Result<(), Fault>)
        ensures
            match old(self)@.arm_ldrhsb_fault(instr) {
                Some(fault) => r == Err::<(), Fault>(fault) && final(self)@ == old(self)@,
                None => r is Ok && final(self)@ == old(self)@.arm_ldrhsb(old(bus)@, instr),
            },
            final(bus)@ == old(bus)@,
    {
        reveal(CpuState::arm_ldrhsb);
        let offset = self.half_offset(instr);
        let base = reg_field(instr, 16);
        let tmp = move_address(self.register[base], offset, is_bit_set(instr, 23));
        let addr = if is_bit_set(instr, 24) {
            tmp
        } else {
            self.register[base]
        };
        let kind = (instr >> 5) & 0x3;
        if kind == 0 {
            return Err(Fault::UnsupportedTransfer { instr });
        }
        let v = if kind == 1 {
            bus.read_half_rotated(addr)
        } else if kind == 2 {
            extend8(bus.read8(addr))
        } else {
            bus.read_half_signed(addr)
        };
        if is_bit_set(instr, 21) || !is_bit_set(instr, 24) {
            self.register_write(base, tmp, bus);
        }
        self.register_write(reg_field(instr, 12), v, bus);
        Ok(())
    }

    #[inline]
    pub fn ARM_STRHSB(&mut self, bus: &mut Bus, instr: u32) -> (r: Result<(), Fault>)
        ensures
            match old(self)@.arm_strhsb_fault(old(bus)@, instr) {
                Some(fault) => r == Err::<(), Fault>(fault) && final(self)@ == old(self)@
                    && final(bus)@ == old(bus)@,
                None => r is Ok && final(self)@ == old(self)@.arm_strhsb(old(bus)@, instr)
                    && final(bus)@ == old(self)@.arm_strhsb_bus(old(bus)@, instr),
            },
            final(bus)@.keeps_frame(old(bus)@),
    {
        reveal(CpuState::arm_strhsb);
        let offset = self.half_offset(instr);
        let base = reg_field(instr, 16);
        let tmp = move_address(self.register[base], offset, is_bit_set(instr, 23));
        let src = self.register[reg_field(instr, 12)];
        let pre = is_bit_set(instr, 24);
        let target = if pre {
            tmp
        } else {
            self.register[base]
        };
        let kind = (instr >> 5) & 0x3;
        if kind == 0 || kind == 2 {
            match bus.write8_fault(target) {
                Some(fault) => {
                    return Err(fault);
                },
                None => {},
            }
            let done = bus.write8(target, #[verifier::truncate] (src as u8));
        } else {
            bus.write16(target, #[verifier::truncate] (src as u16));
        }
        if !pre || is_bit_set(instr, 21) {
            self.register_write(base, tmp, bus);
        }
        Ok(())
    }
}

} // verus!
