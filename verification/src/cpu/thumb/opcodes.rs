//! Immediates, transfers, branches and stack operations of the compact
//! instruction set, and the construction of its decode table.
use crate::bus::{Bus, BusState};
use crate::cpu::alu::{
    add_words, addition, extend16, extend8, sign_extend16, sign_extend8, sub_words, subtraction,
};
use crate::cpu::barrel_shift::{asr, lsl, lsr, rotate, rotate_right};
use crate::cpu::cpu::{condition_passes, CPU_mode, CpuState, Flag, CPU};
use crate::cpu::decode::{thumb_decode, thumb_entry, thumb_table};
use crate::fault::Fault;
use crate::utils::{bit, field3, field4, is_bit_set, low_reg_field, reg_field};
use vstd::prelude::*;

verus! {

/// The low eight bits of a compact instruction.
pub open spec fn imm8(instr: u16) -> u32 {
    (instr & 0xFF) as u32
}

/// The low eight bits of a compact instruction, counted in words.
pub open spec fn word_imm8(instr: u16) -> u32 {
    ((instr & 0xFF) << 2) as u32
}

/// The byte offset of an unconditional branch: its eleven-bit field read
/// as a signed number of half-words.
pub open spec fn branch11_offset(instr: u16) -> u32 {
    let field = (instr & 0x7FF) as u32;
    (if field & 0x400 != 0 {
        field | 0xFFFFF800
    } else {
        field
    }) << 1
}

/// The byte offset of a conditional branch: its eight-bit field read as a
/// signed number of half-words.
pub open spec fn branch8_offset(instr: u16) -> u32 {
    sign_extend8((instr & 0xFF) as u8) << 1
}

/// The upper part of a long branch target: the eleven-bit field read as
/// a signed number of 4 KiB blocks.
pub open spec fn long_branch_high(instr: u16) -> u32 {
    sign_extend16((instr & 0x7FF) << 5) << 7
}

/// A store of low registers in progress: memory so far and the bytes
/// stored.
pub struct LowStoreWalk {
    pub bus: BusState,
    pub update: u32,
}

/// The store of the low registers in `list` after the registers below
/// `k` have been visited. Each goes to `base` plus, or minus, the bytes
/// stored before it.
pub open spec fn low_store_walk(
    regs: Seq<u32>,
    first: LowStoreWalk,
    list: u32,
    base: u32,
    up: bool,
    k: nat,
) -> LowStoreWalk
    decreases k,
{
    if k == 0 {
        first
    } else {
        let before = low_store_walk(regs, first, list, base, up, (k - 1) as nat);
        if bit(list, (k - 1) as nat) {
            LowStoreWalk {
                bus: before.bus.write32(
                    if up {
                        base.wrapping_add(before.update)
                    } else {
                        base.wrapping_sub(before.update)
                    },
                    regs[k - 1],
                ),
                update: before.update.wrapping_add(4),
            }
        } else {
            before
        }
    }
}

/// A load of low registers in progress: the processor so far and the
/// bytes loaded.
pub struct LowLoadWalk {
    pub cpu: CpuState,
    pub update: u32,
}

/// A pop after `k` registers have been visited, from register 7 down.
/// The address moves up before each load.
pub open spec fn pop_walk(first: LowLoadWalk, bus: BusState, list: u32, k: nat) -> LowLoadWalk
    decreases k,
{
    if k == 0 {
        first
    } else {
        let before = pop_walk(first, bus, list, (k - 1) as nat);
        if bit(list, (8 - k) as nat) {
            LowLoadWalk {
                cpu: before.cpu.set_reg(
                    8 - k,
                    bus.read32(
                        before.cpu.register[13].wrapping_add(before.update.wrapping_add(4)),
                    ),
                ),
                update: before.update.wrapping_add(4),
            }
        } else {
            before
        }
    }
}

/// A multiple load after the registers below `k` have been visited. Each
/// comes from `base` minus the bytes loaded before it.
pub open spec fn ldmia_walk(
    first: LowLoadWalk,
    bus: BusState,
    list: u32,
    base: u32,
    k: nat,
) -> LowLoadWalk
    decreases k,
{
    if k == 0 {
        first
    } else {
        let before = ldmia_walk(first, bus, list, base, (k - 1) as nat);
        if bit(list, (k - 1) as nat) {
            LowLoadWalk {
                cpu: before.cpu.set_reg(k - 1, bus.read32(base.wrapping_sub(before.update))),
                update: before.update.wrapping_add(4),
            }
        } else {
            before
        }
    }
}

impl BusState {
    /// The word at `addr`, rotated so that the addressed byte comes
    /// lowest.
    pub open spec fn read_word_at(self, addr: u32) -> u32 {
        rotate_right(self.read32(addr), (addr & 3) << 3)
    }

    /// The half-word at `addr`, rotated within a word so that the
    /// addressed byte comes lowest.
    pub open spec fn read_half_at(self, addr: u32) -> u32 {
        rotate_right(self.read16(addr) as u32, (addr & 1) << 3)
    }
}

impl CpuState {
    /// The value and carry of a move of a shifted register, shifted left,
    /// right or arithmetically right by a five-bit immediate, in which
    /// zero stands for 32 when the shift goes right.
    pub open spec fn thumb_movs_out(self, instr: u16) -> (u32, bool) {
        let op = (instr >> 11) & 0x3;
        let rs = self.low_reg(instr, 3);
        let off = ((instr >> 6) & 0x1F) as u32;
        if op == 0 {
            lsl(rs, off, self.flag(Flag::C))
        } else if op == 1 {
            lsr(
                rs,
                if off == 0 {
                    32
                } else {
                    off
                },
                self.flag(Flag::C),
            )
        } else if op == 2 {
            asr(
                rs,
                if off == 0 {
                    32
                } else {
                    off
                },
                self.flag(Flag::C),
            )
        } else {
            (rs, false)
        }
    }

    /// Move of a shifted register. Carry and zero follow; negative is
    /// left alone.
    pub open spec fn thumb_movs(self, instr: u16) -> CpuState {
        self.set_reg(field3(instr, 0), self.thumb_movs_out(instr).0).set_flag(
            Flag::C,
            self.thumb_movs_out(instr).1,
        ).set_flag(Flag::Z, self.thumb_movs_out(instr).0 == 0)
    }

    /// The second operand of an add or subtract: a three-bit immediate
    /// when bit 10 is set, a register otherwise.
    pub open spec fn thumb_add_sub_operand(self, instr: u16) -> u32 {
        if bit(instr as u32, 10) {
            ((instr >> 6) & 0x7) as u32
        } else {
            self.low_reg(instr, 6)
        }
    }

    /// Add or subtract, by bit 9, with all four flags.
    pub open spec fn thumb_add_sub(self, instr: u16) -> CpuState {
        let rn = self.thumb_add_sub_operand(instr);
        let src = self.low_reg(instr, 3);
        if bit(instr as u32, 9) {
            self.set_reg(field3(instr, 0), subtraction(src, rn).value).set_subtraction_flags(
                src,
                rn,
            )
        } else {
            self.set_reg(field3(instr, 0), addition(src, rn).value).set_addition_flags(src, rn)
        }
    }

    /// Move of an eight-bit immediate. Carry and overflow are left alone;
    /// negative takes bit 7 of the immediate.
    pub open spec fn thumb_movimm(self, instr: u16) -> CpuState {
        self.set_reg(field3(instr, 8), imm8(instr)).set_zn(instr & 0xFF == 0, instr & 0x80 != 0)
    }

    /// Subtraction of an eight-bit immediate.
    pub open spec fn thumb_subimm(self, instr: u16) -> CpuState {
        self.set_subtraction_flags(self.low_reg(instr, 8), imm8(instr)).set_reg(
            field3(instr, 8),
            subtraction(self.low_reg(instr, 8), imm8(instr)).value,
        )
    }

    /// Addition of an eight-bit immediate.
    pub open spec fn thumb_addimm(self, instr: u16) -> CpuState {
        self.set_addition_flags(self.low_reg(instr, 8), imm8(instr)).set_reg(
            field3(instr, 8),
            addition(self.low_reg(instr, 8), imm8(instr)).value,
        )
    }

    /// Load relative to the program counter rounded down to a word.
    pub open spec fn thumb_ldr_pcrel(self, bus: BusState, instr: u16) -> CpuState {
        self.set_reg(
            field3(instr, 8),
            bus.read_word_at((self.register[15] & 0xFFFFFFFC).wrapping_add(word_imm8(instr))),
        )
    }

    /// The address of a transfer with register offset.
    pub open spec fn thumb_reg_offset_address(self, instr: u16) -> u32 {
        self.low_reg(instr, 6).wrapping_add(self.low_reg(instr, 3))
    }

    /// The fault that a transfer with register offset meets, if any: a
    /// refused byte write.
    pub open spec fn thumb_ldstr_reg_off_fault(self, bus: BusState, instr: u16) -> Option<Fault> {
        if !bit(instr as u32, 11) && bit(instr as u32, 10) {
            bus.write8_fault(self.thumb_reg_offset_address(instr))
        } else {
            None
        }
    }

    /// Transfer of a word or byte with register offset, processor side.
    pub open spec fn thumb_ldstr_reg_off(self, bus: BusState, instr: u16) -> CpuState {
        let at = self.thumb_reg_offset_address(instr);
        if bit(instr as u32, 11) {
            if bit(instr as u32, 10) {
                self.set_reg(field3(instr, 0), bus.read8(at) as u32)
            } else {
                self.set_reg(field3(instr, 0), bus.read_word_at(at))
            }
        } else {
            self
        }
    }

    /// Transfer of a word or byte with register offset, memory side.
    pub open spec fn thumb_ldstr_reg_off_bus(self, bus: BusState, instr: u16) -> BusState {
        let at = self.thumb_reg_offset_address(instr);
        if bit(instr as u32, 11) {
            bus
        } else if bit(instr as u32, 10) {
            bus.write8(at, self.low_reg(instr, 0) as u8)
        } else {
            bus.write32(at, self.low_reg(instr, 0))
        }
    }

    /// Comparison with an eight-bit immediate.
    pub open spec fn thumb_compare_imm(self, instr: u16) -> CpuState {
        self.set_subtraction_flags(self.low_reg(instr, 8), imm8(instr))
    }

    /// Store of a half-word with register offset, memory side.
    pub open spec fn thumb_strh_bus(self, bus: BusState, instr: u16) -> BusState {
        bus.write16(self.thumb_reg_offset_address(instr), self.low_reg(instr, 0) as u16)
    }

    /// Load of a half-word with register offset.
    pub open spec fn thumb_ldrh(self, bus: BusState, instr: u16) -> CpuState {
        self.set_reg(field3(instr, 0), bus.read_half_at(self.thumb_reg_offset_address(instr)))
    }

    /// Load of a signed byte with register offset.
    pub open spec fn thumb_ldsb(self, bus: BusState, instr: u16) -> CpuState {
        self.set_reg(
            field3(instr, 0),
            sign_extend8(bus.read8(self.thumb_reg_offset_address(instr))),
        )
    }

    /// Load of a signed half-word with register offset.
    pub open spec fn thumb_ldsh(self, bus: BusState, instr: u16) -> CpuState {
        self.set_reg(field3(instr, 0), bus.read_half_signed(self.thumb_reg_offset_address(instr)))
    }

    /// The five-bit immediate of a word transfer, counted in words.
    pub open spec fn thumb_imm5_words(instr: u16) -> u32 {
        ((instr >> 4) & 0x7C) as u32
    }

    /// The address of a transfer with immediate offset: the immediate
    /// counts bytes for a byte and words for a word.
    pub open spec fn thumb_imm_offset_address(self, instr: u16) -> u32 {
        if bit(instr as u32, 12) {
            self.low_reg(instr, 3).wrapping_add(Self::thumb_imm5_words(instr) >> 2)
        } else {
            self.low_reg(instr, 3).wrapping_add(Self::thumb_imm5_words(instr))
        }
    }

    /// The fault that a transfer with immediate offset meets, if any: a
    /// refused byte write.
    pub open spec fn thumb_ldr_str_imm_off_fault(self, bus: BusState, instr: u16) -> Option<Fault> {
        if !bit(instr as u32, 11) && bit(instr as u32, 12) {
            bus.write8_fault(self.thumb_imm_offset_address(instr))
        } else {
            None
        }
    }

    /// Transfer of a word or byte with immediate offset, processor side.
    pub open spec fn thumb_ldr_str_imm_off(self, bus: BusState, instr: u16) -> CpuState {
        let at = self.thumb_imm_offset_address(instr);
        if bit(instr as u32, 11) {
            if bit(instr as u32, 12) {
                self.set_reg(field3(instr, 0), bus.read8(at) as u32)
            } else {
                self.set_reg(field3(instr, 0), bus.read_word_at(at))
            }
        } else {
            self
        }
    }

    /// Transfer of a word or byte with immediate offset, memory side.
    pub open spec fn thumb_ldr_str_imm_off_bus(self, bus: BusState, instr: u16) -> BusState {
        let at = self.thumb_imm_offset_address(instr);
        if bit(instr as u32, 11) {
            bus
        } else if bit(instr as u32, 12) {
            bus.write8(at, self.low_reg(instr, 0) as u8)
        } else {
            bus.write32(at, self.low_reg(instr, 0))
        }
    }

    /// The address of a half-word transfer with immediate offset.
    pub open spec fn thumb_half_address(self, instr: u16) -> u32 {
        self.low_reg(instr, 3).wrapping_add(((instr >> 5) & 0x3E) as u32)
    }

    /// The address of a transfer relative to the stack pointer.
    pub open spec fn thumb_sp_address(self, instr: u16) -> u32 {
        self.register[13].wrapping_add(word_imm8(instr))
    }

    /// Transfer of a half-word with immediate offset, processor side: a
    /// load when bit 11 is set.
    pub open spec fn thumb_ldrh_strh_imm_off(self, bus: BusState, instr: u16) -> CpuState {
        if bit(instr as u32, 11) {
            self.set_reg(field3(instr, 0), bus.read_half_at(self.thumb_half_address(instr)))
        } else {
            self
        }
    }

    /// Transfer of a half-word with immediate offset, memory side: a
    /// store when bit 11 is clear.
    pub open spec fn thumb_ldrh_strh_imm_off_bus(self, bus: BusState, instr: u16) -> BusState {
        if bit(instr as u32, 11) {
            bus
        } else {
            bus.write16(self.thumb_half_address(instr), self.low_reg(instr, 0) as u16)
        }
    }

    /// Transfer of a word relative to the stack pointer, processor side:
    /// a load when bit 11 is set.
    pub open spec fn thumb_ldr_str_sp_rel(self, bus: BusState, instr: u16) -> CpuState {
        if bit(instr as u32, 11) {
            self.set_reg(field3(instr, 8), bus.read_word_at(self.thumb_sp_address(instr)))
        } else {
            self
        }
    }

    /// Transfer of a word relative to the stack pointer, memory side: a
    /// store when bit 11 is clear.
    pub open spec fn thumb_ldr_str_sp_rel_bus(self, bus: BusState, instr: u16) -> BusState {
        if bit(instr as u32, 11) {
            bus
        } else {
            bus.write32(self.thumb_sp_address(instr), self.low_reg(instr, 8))
        }
    }

    /// Address generation: the stack pointer, when bit 11 is set, or the
    /// program counter, plus an immediate counted in words.
    pub open spec fn thumb_ld_pc_sp(self, instr: u16) -> CpuState {
        self.set_reg(
            field3(instr, 8),
            word_imm8(instr).wrapping_add(
                if bit(instr as u32, 11) {
                    self.register[13]
                } else {
                    self.register[15]
                },
            ),
        )
    }

    /// Stack pointer adjustment by a seven-bit immediate, down when bit 7
    /// is set.
    pub open spec fn thumb_sp_off(self, instr: u16) -> CpuState {
        if bit(instr as u32, 7) {
            self.set_reg(13, self.register[13].wrapping_sub((instr & 0x7F) as u32))
        } else {
            self.set_reg(13, self.register[13].wrapping_add((instr & 0x7F) as u32))
        }
    }

    /// Conditional branch: taken when the condition in bits 11..8
    /// passes.
    pub open spec fn thumb_cond_branch(self, bus: BusState, instr: u16) -> CpuState {
        if condition_passes(field4(instr as u32, 8) as u8, self.cpsr) {
            self.set_reg(15, self.register[15].wrapping_add(branch8_offset(instr))).thumb_refill(
                bus,
            )
        } else {
            self
        }
    }

    /// Unconditional branch.
    pub open spec fn thumb_branch(self, bus: BusState, instr: u16) -> CpuState {
        self.set_reg(15, self.register[15].wrapping_add(branch11_offset(instr))).thumb_refill(bus)
    }

    /// Long branch with link, in two halves. The first, with bit 11
    /// clear, leaves the upper part of the target in the link register.
    /// The second adds the lower part, jumps there, and leaves the return
    /// address with its lowest bit set in the link register.
    pub open spec fn thumb_long_branch_link(self, bus: BusState, instr: u16) -> CpuState {
        if bit(instr as u32, 11) {
            self.set_reg(14, self.register[15].wrapping_sub(2) | 1).set_reg(
                15,
                self.register[14].wrapping_add(((instr & 0x7FF) << 1) as u32),
            ).thumb_refill(bus)
        } else {
            self.set_reg(14, self.register[15].wrapping_add(long_branch_high(instr)))
        }
    }

    /// Software interrupt: supervisor mode is entered, its link register
    /// takes the address of the next instruction, and execution
    /// continues, in the full-width instruction set, at the vector at
    /// address 8.
    pub open spec fn thumb_swi(self, bus: BusState) -> CpuState {
        let entered = self.set_mode(CPU_mode::svc);
        entered.set_reg(14, entered.register[15].wrapping_sub(2)).set_reg(15, 0x8).switch_state(
            bus,
            0,
        )
    }

    /// Where a push stands before the low registers: the link register
    /// is stored first, at the stack pointer, when bit 8 asks.
    pub open spec fn thumb_push_first(self, bus: BusState, instr: u16) -> LowStoreWalk {
        if bit(instr as u32, 8) {
            LowStoreWalk { bus: bus.write32(self.register[13], self.register[14]), update: 4 }
        } else {
            LowStoreWalk { bus, update: 0 }
        }
    }

    /// A push through all registers.
    pub open spec fn thumb_push_walk(self, bus: BusState, instr: u16) -> LowStoreWalk {
        low_store_walk(
            self.register,
            self.thumb_push_first(bus, instr),
            instr as u32,
            self.register[13],
            false,
            8,
        )
    }

    /// Push, processor side: the stack pointer moves down by the bytes
    /// stored.
    pub open spec fn thumb_push(self, bus: BusState, instr: u16) -> CpuState {
        self.set_reg(13, self.register[13].wrapping_sub(self.thumb_push_walk(bus, instr).update))
    }

    /// Where a pop stands before the low registers: the program counter
    /// is loaded first, from the stack pointer, when bit 8 asks.
    pub open spec fn thumb_pop_first(self, bus: BusState, instr: u16) -> LowLoadWalk {
        if bit(instr as u32, 8) {
            LowLoadWalk {
                cpu: self.set_reg(15, bus.read32(self.register[13])).thumb_refill(bus),
                update: 4,
            }
        } else {
            LowLoadWalk { cpu: self, update: 0 }
        }
    }

    /// Pop: the loaded registers, and the stack pointer moved up by the
    /// bytes loaded.
    pub open spec fn thumb_pop(self, bus: BusState, instr: u16) -> CpuState {
        let walk = pop_walk(self.thumb_pop_first(bus, instr), bus, instr as u32, 8);
        walk.cpu.set_reg(13, walk.cpu.register[13].wrapping_add(walk.update))
    }

    /// A multiple store through all registers.
    pub open spec fn thumb_stmia_walk(self, bus: BusState, instr: u16) -> LowStoreWalk {
        low_store_walk(
            self.register,
            LowStoreWalk { bus, update: 0 },
            instr as u32,
            self.low_reg(instr, 8),
            true,
            8,
        )
    }

    /// Multiple store, processor side: the base moves up by the bytes
    /// stored.
    pub open spec fn thumb_stmia(self, bus: BusState, instr: u16) -> CpuState {
        self.set_reg(
            field3(instr, 8),
            self.low_reg(instr, 8).wrapping_add(self.thumb_stmia_walk(bus, instr).update),
        )
    }

    /// Multiple load: the loaded registers, and the base, as the load
    /// left it, moved down by the bytes loaded.
    pub open spec fn thumb_ldmia(self, bus: BusState, instr: u16) -> CpuState {
        let walk = ldmia_walk(
            LowLoadWalk { cpu: self, update: 0 },
            bus,
            instr as u32,
            self.low_reg(instr, 8),
            8,
        );
        walk.cpu.set_reg(field3(instr, 8), walk.cpu.low_reg(instr, 8).wrapping_sub(walk.update))
    }
}

/// A move of an immediate puts the immediate into its destination and
/// leaves carry and overflow as they were.
pub proof fn lemma_movimm_keeps_carry(s: CpuState, instr: u16)
    requires
        s.wf(),
    ensures
        s.thumb_movimm(instr).register[field3(instr, 8)] == imm8(instr),
        s.thumb_movimm(instr).flag(Flag::C) == s.flag(Flag::C),
        s.thumb_movimm(instr).flag(Flag::V) == s.flag(Flag::V),
        s.thumb_movimm(instr).flag(Flag::Z) == (imm8(instr) == 0),
{
    crate::cpu::arm::opcodes::lemma_set_zn_keeps_the_rest(
        s.set_reg(field3(instr, 8), imm8(instr)),
        instr & 0xFF == 0,
        instr & 0x80 != 0,
    );
    crate::utils::lemma_fields(0, instr);
}

/// A pop and a multiple load in progress leave the processor as sound as it was.
pub proof fn lemma_low_walks_stay_sound(
    first: LowLoadWalk,
    bus: BusState,
    list: u32,
    base: u32,
    k: nat,
)
    requires
        k <= 8,
    ensures
        pop_walk(first, bus, list, k).cpu.stays_sound(first.cpu),
        ldmia_walk(first, bus, list, base, k).cpu.stays_sound(first.cpu),
    decreases k,
{
    crate::cpu::cpu::lemma_status_steps();
    if k > 0 {
        lemma_low_walks_stay_sound(first, bus, list, base, (k - 1) as nat);
    }
}

/// A pop and a multiple load leave the processor as sound as it was.
pub proof fn lemma_low_loads_stay_sound(s: CpuState, bus: BusState, instr: u16)
    ensures
        s.thumb_pop(bus, instr).stays_sound(s),
        s.thumb_ldmia(bus, instr).stays_sound(s),
{
    crate::cpu::cpu::lemma_status_steps();
    crate::utils::lemma_fields(0, instr);
    lemma_low_walks_stay_sound(s.thumb_pop_first(bus, instr), bus, instr as u32, 0, 8);
    lemma_low_walks_stay_sound(
        LowLoadWalk { cpu: s, update: 0 },
        bus,
        instr as u32,
        s.low_reg(instr, 8),
        8,
    );
}

/// The immediates, transfers, branches and stack operations keep the
/// decode tables.
pub proof fn lemma_thumb_opcodes_stay_sound(s: CpuState, bus: BusState, instr: u16)
    ensures
        s.thumb_movs(instr).stays_sound(s),
        s.thumb_add_sub(instr).stays_sound(s),
        s.thumb_movimm(instr).stays_sound(s),
        s.thumb_subimm(instr).stays_sound(s),
        s.thumb_addimm(instr).stays_sound(s),
        s.thumb_ldr_pcrel(bus, instr).stays_sound(s),
        s.thumb_ldstr_reg_off(bus, instr).stays_sound(s),
        s.thumb_ldr_str_imm_off(bus, instr).stays_sound(s),
        s.thumb_ldrh_strh_imm_off(bus, instr).stays_sound(s),
        s.thumb_ldr_str_sp_rel(bus, instr).stays_sound(s),
        s.thumb_ld_pc_sp(instr).stays_sound(s),
        s.thumb_sp_off(instr).stays_sound(s),
        s.thumb_cond_branch(bus, instr).stays_sound(s),
        s.thumb_branch(bus, instr).stays_sound(s),
        s.thumb_long_branch_link(bus, instr).stays_sound(s),
        s.thumb_swi(bus).stays_sound(s),
        s.thumb_push(bus, instr).stays_sound(s),
        s.thumb_stmia(bus, instr).stays_sound(s),
        s.thumb_compare_imm(instr).stays_sound(s),
        s.thumb_ldrh(bus, instr).stays_sound(s),
        s.thumb_ldsb(bus, instr).stays_sound(s),
        s.thumb_ldsh(bus, instr).stays_sound(s),
{
    crate::cpu::cpu::lemma_status_steps();
    crate::utils::lemma_fields(0, instr);
}

/// The low eight bits of a compact instruction.
pub fn low_byte(instr: u16) -> (r: u32)
    ensures
        r == imm8(instr),
{
    (instr & 0xFF) as u32
}

/// The low eight bits of a compact instruction, counted in words.
pub fn low_byte_words(instr: u16) -> (r: u32)
    ensures
        r == word_imm8(instr),
{
    ((instr & 0xFF) << 2) as u32
}

impl Bus {
    /// Reads a word and rotates the addressed byte to the bottom.
    pub fn read_word_at(&self, addr: u32) -> (r: u32)
        ensures
            r == self@.read_word_at(addr),
    {
        rotate(self.read32(addr), (addr & 3) << 3)
    }

    /// Reads a half-word and rotates the addressed byte to the bottom.
    pub fn read_half_at(&self, addr: u32) -> (r: u32)
        ensures
            r == self@.read_half_at(addr),
    {
        rotate(self.read16(addr) as u32, (addr & 1) << 3)
    }
}

impl CPU {
    /// Builds the decode table of the compact instruction set.
    pub fn THUMB_fill_lut(&mut self)
        ensures
            final(self)@ == (CpuState { lut_thumb: thumb_table(), ..old(self)@ }),
    {
        let mut i: usize = 0;
        while i < 1024
            invariant
                i <= 1024,
                self@ == (CpuState { lut_thumb: self@.lut_thumb, ..old(self)@ }),
                self@.lut_thumb.len() == 1024,
                forall|j: int| 0 <= j < i ==> self@.lut_thumb[j] == thumb_decode(j as u32),
            decreases 1024 - i,
        {
            self.lut_thumb[i] = thumb_entry(i as u32);
            i = i + 1;
        }
    }

    pub fn THUMB_MOVS(&mut self, bus: &mut Bus, instr: u16) -> (r: Result<(), Fault>)
        ensures
            r is Ok,
            final(self)@ == old(self)@.thumb_movs(instr),
            final(bus)@ == old(bus)@,
    {
        let op = (instr >> 11) & 0x3;
        let rs = self.low_reg(instr, 3);
        let off = ((instr >> 6) & 0x1F) as u32;
        let tmp = if op == 0 {
            self.barrel_shifter_logical_left(rs, off)
        } else if op == 1 {
            self.barrel_shifter_logical_right(
                rs,
                if off == 0 {
                    32
                } else {
                    off
                },
            )
        } else if op == 2 {
            self.barrel_shifter_arithmethic_right(
                rs,
                if off == 0 {
                    32
                } else {
                    off
                },
            )
        } else {
            (rs, false)
        };
        self.set_reg(low_reg_field(instr, 0), tmp.0);
        self.set_flag(Flag::C, tmp.1);
        self.set_flag(Flag::Z, tmp.0 == 0);
        Ok(())
    }

    pub fn THUMB_ADD_SUB(&mut self, bus: &mut Bus, instr: u16) -> (r: Result<(), Fault>)
        ensures
            r is Ok,
            final(self)@ == old(self)@.thumb_add_sub(instr),
            final(bus)@ == old(bus)@,
    {
        let rn = if is_bit_set(instr as u32, 10) {
            ((instr >> 6) & 0x7) as u32
        } else {
            self.low_reg(instr, 6)
        };
        let src = self.low_reg(instr, 3);
        if is_bit_set(instr as u32, 9) {
            self.set_reg(low_reg_field(instr, 0), sub_words(src, rn).value);
            self.set_subtraction_flags(src, rn);
        } else {
            self.set_reg(low_reg_field(instr, 0), add_words(src, rn).value);
            self.set_addition_flags(src, rn);
        }
        Ok(())
    }

    pub fn THUMB_MOVIMM(&mut self, bus: &mut Bus, instr: u16) -> (r: Result<(), Fault>)
        ensures
            r is Ok,
            final(self)@ == old(self)@.thumb_movimm(instr),
            final(bus)@ == old(bus)@,
    {
        self.set_reg(low_reg_field(instr, 8), low_byte(instr));
        self.set_zn(instr & 0xFF == 0, instr & 0x80 != 0);
        Ok(())
    }

    /// Comparison with an eight-bit immediate.
    pub fn THUMB_CMPIMM(&mut self, bus: &mut Bus, instr: u16) -> (r: Result<(), Fault>)
        ensures
            r is Ok,
            final(self)@ == old(self)@.thumb_compare_imm(instr),
            final(bus)@ == old(bus)@,
    {
        let op1 = self.low_reg(instr, 8);
        self.set_subtraction_flags(op1, low_byte(instr));
        Ok(())
    }

    pub fn THUMB_SUBIMM(&mut self, bus: &mut Bus, instr: u16) -> (r: Result<(), Fault>)
        ensures
            r is Ok,
            final(self)@ == old(self)@.thumb_subimm(instr),
            final(bus)@ == old(bus)@,
    {
        let imm = low_byte(instr);
        let rd = self.low_reg(instr, 8);
        self.set_subtraction_flags(rd, imm);
        self.set_reg(low_reg_field(instr, 8), sub_words(rd, imm).value);
        Ok(())
    }

    pub fn THUMB_ADDIMM(&mut self, bus: &mut Bus, instr: u16) -> (r: Result<(), Fault>)
        ensures
            r is Ok,
            final(self)@ == old(self)@.thumb_addimm(instr),
            final(bus)@ == old(bus)@,
    {
        let imm = low_byte(instr);
        let rd = self.low_reg(instr, 8);
        self.set_addition_flags(rd, imm);
        self.set_reg(low_reg_field(instr, 8), add_words(rd, imm).value);
        Ok(())
    }

    pub fn THUMB_LDR_PCREL_IMM(&mut self, bus: &mut Bus, instr: u16) -> (r: Result<(), Fault>)
        ensures
            r is Ok,
            final(self)@ == old(self)@.thumb_ldr_pcrel(old(bus)@, instr),
            final(bus)@ == old(bus)@,
    {
        let addr = (self.register[15] & 0xFFFFFFFC).wrapping_add(low_byte_words(instr));
        self.set_reg(low_reg_field(instr, 8), bus.read_word_at(addr));
        Ok(())
    }

    pub fn THUMB_LDSTR_REG_OFF(&mut self, bus: &mut Bus, instr: u16) -> (r: Result<(), Fault>)
        ensures
            match old(self)@.thumb_ldstr_reg_off_fault(old(bus)@, instr) {
                Some(fault) => r == Err::<(), Fault>(fault) && final(self)@ == old(self)@
                    && final(bus)@ == old(bus)@,
                None => r is Ok && final(self)@ == old(self)@.thumb_ldstr_reg_off(old(bus)@, instr)
                    && final(bus)@ == old(self)@.thumb_ldstr_reg_off_bus(old(bus)@, instr),
            },
            final(bus)@.keeps_frame(old(bus)@),
    {
        let off = self.low_reg(instr, 6).wrapping_add(self.low_reg(instr, 3));
        let rd = low_reg_field(instr, 0);
        if is_bit_set(instr as u32, 11) {
            if is_bit_set(instr as u32, 10) {
                self.set_reg(rd, bus.read8(off) as u32);
            } else {
                self.set_reg(rd, bus.read_word_at(off));
            }
        } else {
            if is_bit_set(instr as u32, 10) {
                match bus.write8_fault(off) {
                    Some(fault) => {
                        return Err(fault);
                    },
                    None => {},
                }
                let done = bus.write8(off, #[verifier::truncate] (self.register[rd] as u8));
            } else {
                bus.write32(off, self.register[rd]);
            }
        }
        Ok(())
    }

    /// Store of a half-word with register offset.
    pub fn THUMB_STRH(&mut self, bus: &mut Bus, instr: u16) -> (r: Result<(), Fault>)
        ensures
            r is Ok,
            final(self)@ == old(self)@,
            final(bus)@ == old(self)@.thumb_strh_bus(old(bus)@, instr),
            final(bus)@.keeps_frame(old(bus)@),
    {
        let off = self.low_reg(instr, 6).wrapping_add(self.low_reg(instr, 3));
        bus.write16(off, #[verifier::truncate] (self.low_reg(instr, 0) as u16));
        Ok(())
    }

    /// Load of a half-word with register offset.
    pub fn THUMB_LDRH(&mut self, bus: &mut Bus, instr: u16) -> (r: Result<(), Fault>)
        ensures
            r is Ok,
            final(self)@ == old(self)@.thumb_ldrh(old(bus)@, instr),
            final(bus)@ == old(bus)@,
    {
        let off = self.low_reg(instr, 6).wrapping_add(self.low_reg(instr, 3));
        self.set_reg(low_reg_field(instr, 0), bus.read_half_at(off));
        Ok(())
    }

    /// Load of a signed byte with register offset.
    pub fn THUMB_LDSB(&mut self, bus: &mut Bus, instr: u16) -> (r: Result<(), Fault>)
        ensures
            r is Ok,
            final(self)@ == old(self)@.thumb_ldsb(old(bus)@, instr),
            final(bus)@ == old(bus)@,
    {
        let off = self.low_reg(instr, 6).wrapping_add(self.low_reg(instr, 3));
        self.set_reg(low_reg_field(instr, 0), extend8(bus.read8(off)));
        Ok(())
    }

    /// Load of a signed half-word with register offset.
    pub fn THUMB_LDSH(&mut self, bus: &mut Bus, instr: u16) -> (r: Result<(), Fault>)
        ensures
            r is Ok,
            final(self)@ == old(self)@.thumb_ldsh(old(bus)@, instr),
            final(bus)@ == old(bus)@,
    {
        let off = self.low_reg(instr, 6).wrapping_add(self.low_reg(instr, 3));
        self.set_reg(low_reg_field(instr, 0), bus.read_half_signed(off));
        Ok(())
    }

    pub fn THUMB_LDR_STR_IMM_OFF(&mut self, bus: &mut Bus, instr: u16) -> (r: Result<(), Fault>)
        ensures
            match old(self)@.thumb_ldr_str_imm_off_fault(old(bus)@, instr) {
                Some(fault) => r == Err::<(), Fault>(fault) && final(self)@ == old(self)@
                    && final(bus)@ == old(bus)@,
                None => r is Ok && final(self)@ == old(self)@.thumb_ldr_str_imm_off(
                    old(bus)@,
                    instr,
                ) && final(bus)@ == old(self)@.thumb_ldr_str_imm_off_bus(old(bus)@, instr),
            },
            final(bus)@.keeps_frame(old(bus)@),
    {
        let off = ((instr >> 4) & 0x7C) as u32;
        let base = self.low_reg(instr, 3);
        let rd = low_reg_field(instr, 0);
        let addr = if is_bit_set(instr as u32, 12) {
            base.wrapping_add(off >> 2)
        } else {
            base.wrapping_add(off)
        };
        if is_bit_set(instr as u32, 11) {
            if is_bit_set(instr as u32, 12) {
                self.set_reg(rd, bus.read8(addr) as u32);
            } else {
                self.set_reg(rd, bus.read_word_at(addr));
            }
        } else {
            if is_bit_set(instr as u32, 12) {
                match bus.write8_fault(addr) {
                    Some(fault) => {
                        return Err(fault);
                    },
                    None => {},
                }
                let done = bus.write8(addr, #[verifier::truncate] (self.register[rd] as u8));
            } else {
                bus.write32(addr, self.register[rd]);
            }
        }
        Ok(())
    }

    /// Transfer of a half-word with immediate offset: a load when bit 11
    /// is set, a store otherwise.
    pub fn THUMB_LDRH_STRH_IMM_OFF(&mut self, bus: &mut Bus, instr: u16) -> (r: Result<(), Fault>)
        ensures
            r is Ok,
            final(self)@ == old(self)@.thumb_ldrh_strh_imm_off(old(bus)@, instr),
            final(bus)@ == old(self)@.thumb_ldrh_strh_imm_off_bus(old(bus)@, instr),
            final(bus)@.keeps_frame(old(bus)@),
    {
        let addr = self.low_reg(instr, 3).wrapping_add(((instr >> 5) & 0x3E) as u32);
        let rd = low_reg_field(instr, 0);
        if is_bit_set(instr as u32, 11) {
            self.set_reg(rd, bus.read_half_at(addr));
        } else {
            bus.write16(addr, #[verifier::truncate] (self.register[rd] as u16));
        }
        Ok(())
    }

    /// Transfer of a word relative to the stack pointer: a load when bit
    /// 11 is set, a store otherwise.
    pub fn THUMB_LDR_STR_SP_REL(&mut self, bus: &mut Bus, instr: u16) -> (r: Result<(), Fault>)
        ensures
            r is Ok,
            final(self)@ == old(self)@.thumb_ldr_str_sp_rel(old(bus)@, instr),
            final(bus)@ == old(self)@.thumb_ldr_str_sp_rel_bus(old(bus)@, instr),
            final(bus)@.keeps_frame(old(bus)@),
    {
        let addr = self.register[13].wrapping_add(low_byte_words(instr));
        let rd = low_reg_field(instr, 8);
        if is_bit_set(instr as u32, 11) {
            self.set_reg(rd, bus.read_word_at(addr));
        } else {
            bus.write32(addr, self.register[rd]);
        }
        Ok(())
    }

    pub fn THUMB_LD_PC_SP(&mut self, bus: &mut Bus, instr: u16) -> (r: Result<(), Fault>)
        ensures
            r is Ok,
            final(self)@ == old(self)@.thumb_ld_pc_sp(instr),
            final(bus)@ == old(bus)@,
    {
        let off = low_byte_words(instr);
        let src = if is_bit_set(instr as u32, 11) {
            self.register[13]
        } else {
            self.register[15]
        };
        self.set_reg(low_reg_field(instr, 8), off.wrapping_add(src));
        Ok(())
    }

    pub fn THUMB_SP_OFF(&mut self, bus: &mut Bus, instr: u16) -> (r: Result<(), Fault>)
        ensures
            r is Ok,
            final(self)@ == old(self)@.thumb_sp_off(instr),
            final(bus)@ == old(bus)@,
    {
        let off = (instr & 0x7F) as u32;
        if is_bit_set(instr as u32, 7) {
            self.set_reg(13, self.register[13].wrapping_sub(off));
        } else {
            self.set_reg(13, self.register[13].wrapping_add(off));
        }
        Ok(())
    }

    pub fn THUMB_COND_BRANCH(&mut self, bus: &mut Bus, instr: u16) -> (r: Result<(), Fault>)
        ensures
            r is Ok,
            final(self)@ == old(self)@.thumb_cond_branch(old(bus)@, instr),
            final(bus)@ == old(bus)@,
    {
        if self.is_condition(reg_field(instr as u32, 8) as u8) {
            let off = extend8(#[verifier::truncate] ((instr & 0xFF) as u8)) << 1;
            self.set_reg(15, self.register[15].wrapping_add(off));
            self.thumb_refill_pipeline(bus);
        }
        Ok(())
    }

    pub fn THUMB_BRANCH(&mut self, bus: &mut Bus, instr: u16) -> (r: Result<(), Fault>)
        ensures
            r is Ok,
            final(self)@ == old(self)@.thumb_branch(old(bus)@, instr),
            final(bus)@ == old(bus)@,
    {
        let field = (instr & 0x7FF) as u32;
        let wide = if field & 0x400 != 0 {
            field | 0xFFFFF800
        } else {
            field
        };
        self.set_reg(15, self.register[15].wrapping_add(wide << 1));
        self.thumb_refill_pipeline(bus);
        Ok(())
    }

    pub fn THUMB_LONG_BRANCH_LINK(&mut self, bus: &mut Bus, instr: u16) -> (r: Result<(), Fault>)
        ensures
            r is Ok,
            final(self)@ == old(self)@.thumb_long_branch_link(old(bus)@, instr),
            final(bus)@ == old(bus)@,
    {
        if is_bit_set(instr as u32, 11) {
            let off = ((instr & 0x7FF) << 1) as u32;
            let tmp = self.register[14].wrapping_add(off);
            self.set_reg(14, self.register[15].wrapping_sub(2) | 1);
            self.set_reg(15, tmp);
            self.thumb_refill_pipeline(bus);
        } else {
            let high = extend16((instr & 0x7FF) << 5) << 7;
            self.set_reg(14, self.register[15].wrapping_add(high));
        }
        Ok(())
    }

    pub fn THUMB_SWI(&mut self, bus: &mut Bus, instr: u16) -> (r: Result<(), Fault>)
        ensures
            r is Ok,
            final(self)@ == old(self)@.thumb_swi(old(bus)@),
            final(bus)@ == old(bus)@,
    {
        self.set_mode(CPU_mode::svc);
        let back = self.register[15].wrapping_sub(2);
        self.set_reg(14, back);
        self.set_reg(15, 0x8);
        self.switch_state(bus, 0);
        Ok(())
    }

    /// Stores the low registers in the list of `instr`, and before them
    /// the link register when bit 8 asks, below the stack pointer.
    pub fn THUMB_PUSH(&mut self, bus: &mut Bus, instr: u16) -> (r: Result<(), Fault>)
        ensures
            r is Ok,
            final(self)@ == old(self)@.thumb_push(old(bus)@, instr),
            final(bus)@ == old(self)@.thumb_push_walk(old(bus)@, instr).bus,
            final(bus)@.keeps_frame(old(bus)@),
    {
        let mut sp_update: u32 = 0;
        let sp = self.register[13];
        if is_bit_set(instr as u32, 8) {
            bus.write32(sp, self.register[14]);
            sp_update = 4;
        }
        let mut i: usize = 0;
        while i < 8
            invariant
                i <= 8,
                self@ == old(self)@,
                bus@.keeps_frame(old(bus)@),
                sp == old(self)@.register[13],
                (LowStoreWalk { bus: bus@, update: sp_update }) == low_store_walk(
                    old(self)@.register,
                    old(self)@.thumb_push_first(old(bus)@, instr),
                    instr as u32,
                    sp,
                    false,
                    i as nat,
                ),
            decreases 8 - i,
        {
            if is_bit_set(instr as u32, i) {
                bus.write32(sp.wrapping_sub(sp_update), self.register[i]);
                sp_update = sp_update.wrapping_add(4);
            }
            i = i + 1;
        }
        self.set_reg(13, sp.wrapping_sub(sp_update));
        Ok(())
    }

    /// Loads the program counter, when bit 8 asks, and the low registers
    /// in the list of `instr` from above the stack pointer.
    pub fn THUMB_POP(&mut self, bus: &mut Bus, instr: u16) -> (r: Result<(), Fault>)
        ensures
            r is Ok,
            final(self)@ == old(self)@.thumb_pop(old(bus)@, instr),
            final(bus)@ == old(bus)@,
    {
        let mut sp_update: u32 = 0;
        if is_bit_set(instr as u32, 8) {
            let target = bus.read32(self.register[13]);
            self.set_reg(15, target);
            sp_update = 4;
            self.thumb_refill_pipeline(bus);
        }
        let mut k: usize = 0;
        while k < 8
            invariant
                k <= 8,
                bus@ == old(bus)@,
                (LowLoadWalk { cpu: self@, update: sp_update }) == pop_walk(
                    old(self)@.thumb_pop_first(old(bus)@, instr),
                    old(bus)@,
                    instr as u32,
                    k as nat,
                ),
            decreases 8 - k,
        {
            if is_bit_set(instr as u32, 7 - k) {
                sp_update = sp_update.wrapping_add(4);
                let loaded = bus.read32(self.register[13].wrapping_add(sp_update));
                self.set_reg(7 - k, loaded);
            }
            k = k + 1;
        }
        self.set_reg(13, self.register[13].wrapping_add(sp_update));
        Ok(())
    }

    /// Stores the low registers in the list of `instr` upwards from the
    /// base register.
    pub fn THUMB_STMIA(&mut self, bus: &mut Bus, instr: u16) -> (r: Result<(), Fault>)
        ensures
            r is Ok,
            final(self)@ == old(self)@.thumb_stmia(old(bus)@, instr),
            final(bus)@ == old(self)@.thumb_stmia_walk(old(bus)@, instr).bus,
            final(bus)@.keeps_frame(old(bus)@),
    {
        let mut update: u32 = 0;
        let rb = low_reg_field(instr, 8);
        let addr = self.register[rb];
        let mut i: usize = 0;
        while i < 8
            invariant
                i <= 8,
                self@ == old(self)@,
                bus@.keeps_frame(old(bus)@),
                (LowStoreWalk { bus: bus@, update }) == low_store_walk(
                    old(self)@.register,
                    LowStoreWalk { bus: old(bus)@, update: 0 },
                    instr as u32,
                    addr,
                    true,
                    i as nat,
                ),
            decreases 8 - i,
        {
            if is_bit_set(instr as u32, i) {
                bus.write32(addr.wrapping_add(update), self.register[i]);
                update = update.wrapping_add(4);
            }
            i = i + 1;
        }
        self.set_reg(rb, addr.wrapping_add(update));
        Ok(())
    }

    /// Loads the low registers in the list of `instr` downwards from the
    /// base register.
    pub fn THUMB_LDMIA(&mut self, bus: &mut Bus, instr: u16) -> (r: Result<(), Fault>)
        ensures
            r is Ok,
            final(self)@ == old(self)@.thumb_ldmia(old(bus)@, instr),
            final(bus)@ == old(bus)@,
    {
        let mut update: u32 = 0;
        let rb = low_reg_field(instr, 8);
        let addr = self.register[rb];
        let mut i: usize = 0;
        while i < 8
            invariant
                i <= 8,
                rb < 8,
                rb == field3(instr, 8),
                bus@ == old(bus)@,
                (LowLoadWalk { cpu: self@, update }) == ldmia_walk(
                    LowLoadWalk { cpu: old(self)@, update: 0 },
                    old(bus)@,
                    instr as u32,
                    addr,
                    i as nat,
                ),
            decreases 8 - i,
        {
            if is_bit_set(instr as u32, i) {
                let loaded = bus.read32(addr.wrapping_sub(update));
                self.set_reg(i, loaded);
                update = update.wrapping_add(4);
            }
            i = i + 1;
        }
        self.set_reg(rb, self.register[rb].wrapping_sub(update));
        Ok(())
    }
}

} // verus!
