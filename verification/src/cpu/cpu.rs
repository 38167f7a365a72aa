//! Processor state: the register file with its banks, the status word,
//! the pipeline, and the operations that every instruction is built from.
use crate::bus::{Bus, BusState};
use crate::cpu::arm::arm::Outcome;
use crate::cpu::decode::{arm_table, thumb_table, ArmOp, ThumbOp};
use crate::fault::Fault;
use vstd::prelude::*;

verus! {

/// The seven privilege modes.
#[derive(PartialEq, Eq, Structural, Copy, Clone, Debug)]
pub enum CPU_mode {
    irq,
    svc,
    abt,
    und,
    fiq,
    usr,
    sys,
}

/// The mode that the low five bits of a status word name, if any.
pub open spec fn mode_of(word: u32) -> Option<CPU_mode> {
    let bits = word & 0x1F;
    if bits == 0b10000 {
        Some(CPU_mode::usr)
    } else if bits == 0b10001 {
        Some(CPU_mode::fiq)
    } else if bits == 0b10010 {
        Some(CPU_mode::irq)
    } else if bits == 0b10011 {
        Some(CPU_mode::svc)
    } else if bits == 0b10111 {
        Some(CPU_mode::abt)
    } else if bits == 0b11011 {
        Some(CPU_mode::und)
    } else if bits == 0b11111 {
        Some(CPU_mode::sys)
    } else {
        None
    }
}

impl CPU_mode {
    /// The five-bit encoding of the mode in a status word.
    pub open spec fn spec_bits(self) -> u32 {
        match self {
            CPU_mode::irq => 0b10010,
            CPU_mode::svc => 0b10011,
            CPU_mode::abt => 0b10111,
            CPU_mode::und => 0b11011,
            CPU_mode::fiq => 0b10001,
            CPU_mode::usr => 0b10000,
            CPU_mode::sys => 0b11111,
        }
    }

    /// Position of the mode's saved registers among the plain banks;
    /// meaningful for the four modes that have one.
    pub open spec fn spec_bank(self) -> int {
        match self {
            CPU_mode::irq => 0,
            CPU_mode::svc => 1,
            CPU_mode::abt => 2,
            CPU_mode::und => 3,
            CPU_mode::fiq => 4,
            CPU_mode::usr => 5,
            CPU_mode::sys => 6,
        }
    }

    /// Whether the mode keeps its stack pointer, link register and saved
    /// status in a plain bank.
    pub open spec fn has_plain_bank(self) -> bool {
        self == CPU_mode::irq || self == CPU_mode::svc || self == CPU_mode::abt || self
            == CPU_mode::und
    }

    /// Whether the mode is one of the two that share their stack pointer
    /// and link register and have no saved status.
    pub open spec fn is_unprivileged_bank(self) -> bool {
        self == CPU_mode::usr || self == CPU_mode::sys
    }

    #[verifier::when_used_as_spec(spec_bits)]
    pub fn bits(self) -> (r: u32)
        ensures
            r == self.spec_bits(),
    {
        match self {
            CPU_mode::irq => 0b10010,
            CPU_mode::svc => 0b10011,
            CPU_mode::abt => 0b10111,
            CPU_mode::und => 0b11011,
            CPU_mode::fiq => 0b10001,
            CPU_mode::usr => 0b10000,
            CPU_mode::sys => 0b11111,
        }
    }

    pub fn bank(self) -> (r: usize)
        ensures
            r == self.spec_bank(),
    {
        match self {
            CPU_mode::irq => 0,
            CPU_mode::svc => 1,
            CPU_mode::abt => 2,
            CPU_mode::und => 3,
            CPU_mode::fiq => 4,
            CPU_mode::usr => 5,
            CPU_mode::sys => 6,
        }
    }

    /// Decodes the mode field of a status word. A field that names no
    /// mode is a fault.
    pub fn from(rhs: u32) -> (r: Result<CPU_mode, Fault>)
        ensures
            match mode_of(rhs) {
                Some(mode) => r == Ok::<CPU_mode, Fault>(mode),
                None => r == Err::<CPU_mode, Fault>(Fault::InvalidMode { bits: rhs & 0x1F }),
            },
    {
        let bits = rhs & 0x1F;
        if bits == 0b10000 {
            Ok(CPU_mode::usr)
        } else if bits == 0b10001 {
            Ok(CPU_mode::fiq)
        } else if bits == 0b10010 {
            Ok(CPU_mode::irq)
        } else if bits == 0b10011 {
            Ok(CPU_mode::svc)
        } else if bits == 0b10111 {
            Ok(CPU_mode::abt)
        } else if bits == 0b11011 {
            Ok(CPU_mode::und)
        } else if bits == 0b11111 {
            Ok(CPU_mode::sys)
        } else {
            Err(Fault::InvalidMode { bits })
        }
    }

    /// Decoding the encoding of a mode gives the mode back, whatever the
    /// other bits of the word are.
    pub proof fn lemma_mode_of_bits(self, word: u32)
        ensures
            mode_of((word & 0xFFFFFFE0) | self.spec_bits()) == Some(self),
            ((word & 0xFFFFFFE0) | self.spec_bits()) & 0x1F == self.spec_bits(),
    {
        let b = self.spec_bits();
        assert(b <= 0x1F ==> ((word & 0xFFFFFFE0) | b) & 0x1F == b) by (bit_vector);
    }
}

/// The two instruction sets.
#[derive(Copy, Clone, PartialEq, Eq, Structural, Debug)]
pub enum CPU_state {
    ARM,
    THUMB,
}

impl CPU_state {
    /// The instruction set that the lowest bit of a branch target
    /// selects.
    pub open spec fn of(x: u32) -> CPU_state {
        if x & 1 == 0 {
            CPU_state::ARM
        } else {
            CPU_state::THUMB
        }
    }

    pub fn from(x: u32) -> (r: CPU_state)
        ensures
            r == CPU_state::of(x),
    {
        if x & 1 == 0 {
            CPU_state::ARM
        } else {
            CPU_state::THUMB
        }
    }
}

/// The named bits of the status word.
#[derive(Copy, Clone, PartialEq, Eq, Structural, Debug)]
pub enum Flag {
    /// Negative.
    N,
    /// Zero.
    Z,
    /// Carry: clear after a borrow, set after a carry or when no borrow
    /// occurred.
    C,
    /// Signed overflow.
    V,
    /// Interrupts masked.
    I,
    /// Fast interrupts masked.
    F,
    /// Compact instruction set selected.
    T,
}

impl Flag {
    /// The flag's bit in the status word.
    pub open spec fn spec_mask(self) -> u32 {
        match self {
            Flag::N => 0x80000000,
            Flag::Z => 0x40000000,
            Flag::C => 0x20000000,
            Flag::V => 0x10000000,
            Flag::I => 0x80,
            Flag::F => 0x40,
            Flag::T => 0x20,
        }
    }

    #[verifier::when_used_as_spec(spec_mask)]
    pub fn mask(self) -> (r: u32)
        ensures
            r == self.spec_mask(),
    {
        match self {
            Flag::N => 0x80000000,
            Flag::Z => 0x40000000,
            Flag::C => 0x20000000,
            Flag::V => 0x10000000,
            Flag::I => 0x80,
            Flag::F => 0x40,
            Flag::T => 0x20,
        }
    }
}

/// Whether `flag` is set in the status word `cpsr`.
pub open spec fn flag_set(cpsr: u32, flag: Flag) -> bool {
    cpsr & flag.spec_mask() != 0
}

/// The status word `cpsr` with `flag` set to `val` and nothing else
/// changed.
pub open spec fn with_flag(cpsr: u32, flag: Flag, val: bool) -> u32 {
    if val {
        (cpsr & !flag.spec_mask()) | flag.spec_mask()
    } else {
        cpsr & !flag.spec_mask()
    }
}

/// A flag reads back as it was set, setting it leaves every other bit of
/// the status word alone, and so the mode field too.
pub proof fn lemma_flag_roundtrip(cpsr: u32, flag: Flag, val: bool)
    ensures
        flag_set(with_flag(cpsr, flag, val), flag) == val,
        with_flag(cpsr, flag, val) & !flag.spec_mask() == cpsr & !flag.spec_mask(),
        forall|other: Flag|
            other != flag ==> #[trigger] flag_set(with_flag(cpsr, flag, val), other) == flag_set(
                cpsr,
                other,
            ),
        with_flag(cpsr, flag, val) & 0x1F == cpsr & 0x1F,
{
    let m = flag.spec_mask();
    assert(m != 0 ==> ((cpsr & !m) | m) & m != 0) by (bit_vector);
    assert((cpsr & !m) & m == 0 && ((cpsr & !m) | m) & !m == cpsr & !m && (cpsr & !m) & !m == cpsr
        & !m) by (bit_vector);
    assert forall|other: Flag| other != flag implies #[trigger] flag_set(
        with_flag(cpsr, flag, val),
        other,
    ) == flag_set(cpsr, other) by {
        let o = other.spec_mask();
        assert(m & o == 0 ==> ((cpsr & !m) | m) & o == cpsr & o && (cpsr & !m) & o == cpsr & o)
            by (bit_vector);
        lemma_masks_disjoint(flag, other);
    }
    assert(m & 0x1F == 0 ==> ((cpsr & !m) | m) & 0x1F == cpsr & 0x1F && (cpsr & !m) & 0x1F == cpsr
        & 0x1F) by (bit_vector);
    lemma_masks_disjoint(flag, flag);
}

/// Two different flags share no bit, and no flag lies in the mode field.
pub proof fn lemma_masks_disjoint(a: Flag, b: Flag)
    ensures
        a != b ==> a.spec_mask() & b.spec_mask() == 0,
        a.spec_mask() & 0x1F == 0,
        a.spec_mask() != 0,
{
    assert(0x80000000u32 & 0x40000000 == 0 && 0x80000000u32 & 0x20000000 == 0 && 0x80000000u32
        & 0x10000000 == 0 && 0x80000000u32 & 0x80 == 0 && 0x80000000u32 & 0x40 == 0 && 0x80000000u32
        & 0x20 == 0 && 0x40000000u32 & 0x20000000 == 0 && 0x40000000u32 & 0x10000000 == 0
        && 0x40000000u32 & 0x80 == 0 && 0x40000000u32 & 0x40 == 0 && 0x40000000u32 & 0x20 == 0
        && 0x20000000u32 & 0x10000000 == 0 && 0x20000000u32 & 0x80 == 0 && 0x20000000u32 & 0x40 == 0
        && 0x20000000u32 & 0x20 == 0 && 0x10000000u32 & 0x80 == 0 && 0x10000000u32 & 0x40 == 0
        && 0x10000000u32 & 0x20 == 0 && 0x80u32 & 0x40 == 0 && 0x80u32 & 0x20 == 0 && 0x40u32 & 0x20
        == 0 && 0x80000000u32 & 0x1F == 0 && 0x40000000u32 & 0x1F == 0 && 0x20000000u32 & 0x1F == 0
        && 0x10000000u32 & 0x1F == 0 && 0x80u32 & 0x1F == 0 && 0x40u32 & 0x1F == 0 && 0x20u32 & 0x1F
        == 0) by (bit_vector);
    assert(forall|x: u32, y: u32| #[trigger] (x & y) == y & x) by (bit_vector);
}

/// The registers that a plain privileged mode keeps to itself.
#[derive(Copy, Clone, PartialEq, Eq, Structural, Debug)]
pub struct Bank {
    /// Stack pointer.
    pub sp: u32,
    /// Link register.
    pub lr: u32,
    /// Saved status word.
    pub spsr: u32,
}

/// The processor as a mathematical value.
#[verifier::ext_equal]
pub struct CpuState {
    /// The sixteen live registers.
    pub register: Seq<u32>,
    /// The banks of the interrupt, supervisor, abort and undefined modes.
    pub bank_reg: Seq<Bank>,
    /// Registers 8 to 14 of the fast-interrupt mode, as they were when
    /// that mode was last left.
    pub fiq_reg: Seq<u32>,
    /// Saved status word of the fast-interrupt mode.
    pub fiq_spsr: u32,
    /// What the modes other than fast-interrupt keep aside. The first
    /// five slots hold registers 8 to 12, which those modes share, while
    /// the fast-interrupt mode is live. The last two hold the stack
    /// pointer and the link register that the user and system modes
    /// share, while neither of them is live.
    pub reg: Seq<u32>,
    /// The status word.
    pub cpsr: u32,
    pub state: CPU_state,
    pub mode: CPU_mode,
    /// The pipeline: the slot fetched last, the decoded slot, and the
    /// retiring slot.
    pub pipeline: Seq<u32>,
    pub lut_thumb: Seq<ThumbOp>,
    pub lut_arm: Seq<ArmOp>,
}

/// `regs` with registers 8 to 12 replaced by the first five slots of
/// `saved`.
pub open spec fn put_common(regs: Seq<u32>, saved: Seq<u32>) -> Seq<u32> {
    Seq::new(
        16,
        |i: int|
            if 8 <= i < 13 {
                saved[i - 8]
            } else {
                regs[i]
            },
    )
}

/// `saved` with its first five slots replaced by registers 8 to 12 of
/// `regs`.
pub open spec fn save_common(saved: Seq<u32>, regs: Seq<u32>) -> Seq<u32> {
    Seq::new(
        7,
        |i: int|
            if i < 5 {
                regs[i + 8]
            } else {
                saved[i]
            },
    )
}

/// `regs` with registers 8 to 14 replaced by `window`.
pub open spec fn put_window(regs: Seq<u32>, window: Seq<u32>) -> Seq<u32> {
    Seq::new(
        16,
        |i: int|
            if 8 <= i < 15 {
                window[i - 8]
            } else {
                regs[i]
            },
    )
}

impl CpuState {
    /// Whether every part has the size it has in a processor.
    pub open spec fn wf(self) -> bool {
        &&& self.register.len() == 16
        &&& self.bank_reg.len() == 4
        &&& self.fiq_reg.len() == 7
        &&& self.reg.len() == 7
        &&& self.pipeline.len() == 3
        &&& self.lut_thumb.len() == 1024
        &&& self.lut_arm.len() == 4096
    }

    /// Whether both decode tables are in place.
    pub open spec fn decodes(self) -> bool {
        self.lut_arm == arm_table() && self.lut_thumb == thumb_table()
    }

    /// Whether the state has the decode tables of `before` and is
    /// well-formed if `before` is.
    pub open spec fn keeps_tables(self, before: CpuState) -> bool {
        &&& self.lut_arm == before.lut_arm
        &&& self.lut_thumb == before.lut_thumb
        &&& before.wf() ==> self.wf()
    }

    /// Whether the mode field of the status word names the current mode.
    pub open spec fn status_ok(self) -> bool {
        mode_of(self.cpsr) == Some(self.mode)
    }

    /// Whether the state is as sound as `before`: it has the same decode
    /// tables, it is well-formed if `before` is, and its status word
    /// names its mode if that of `before` does. This is what holds of a
    /// processor after any number of instructions.
    pub open spec fn stays_sound(self, before: CpuState) -> bool {
        &&& self.keeps_tables(before)
        &&& before.status_ok() ==> self.status_ok()
    }

    /// Whether `flag` is set.
    pub open spec fn flag(self, flag: Flag) -> bool {
        flag_set(self.cpsr, flag)
    }

    /// The carry flag as a number.
    pub open spec fn carry(self) -> u32 {
        if self.flag(Flag::C) {
            1
        } else {
            0
        }
    }

    /// The state with `flag` set to `val`.
    pub open spec fn set_flag(self, flag: Flag, val: bool) -> CpuState {
        CpuState { cpsr: with_flag(self.cpsr, flag, val), ..self }
    }

    /// The state with register `i` holding `v`; the pipeline is left
    /// alone even when `i` is the program counter.
    pub open spec fn set_reg(self, i: int, v: u32) -> CpuState {
        CpuState { register: self.register.update(i, v), ..self }
    }

    /// The state with the program counter moved by `delta`, modulo 2^32.
    pub open spec fn bump_pc(self, delta: u32) -> CpuState {
        self.set_reg(15, self.register[15].wrapping_add(delta))
    }

    /// The state with the given pipeline slots.
    pub open spec fn set_pipeline(self, fetched: u32, decoded: u32, retiring: u32) -> CpuState {
        CpuState { pipeline: seq![fetched, decoded, retiring], ..self }
    }

    /// The saved status word of the current mode; the user and system
    /// modes have none and yield the live status word.
    pub open spec fn spsr(self) -> u32 {
        if self.mode.is_unprivileged_bank() {
            self.cpsr
        } else if self.mode == CPU_mode::fiq {
            self.fiq_spsr
        } else {
            self.bank_reg[self.mode.spec_bank()].spsr
        }
    }

    /// The state after the current mode has put aside what it keeps to
    /// itself. The user and system modes put aside the stack pointer and
    /// the link register that they share; a plain privileged mode puts
    /// its own two into its bank; the fast-interrupt mode puts aside
    /// registers 8 to 14 and gives registers 8 to 12 back to the other
    /// modes. Leaving a privileged mode also restores the status word
    /// that the mode saved.
    pub open spec fn leave_mode(self) -> CpuState {
        if self.mode.is_unprivileged_bank() {
            CpuState {
                reg: self.reg.update(5, self.register[13]).update(6, self.register[14]),
                ..self
            }
        } else if self.mode == CPU_mode::fiq {
            CpuState {
                fiq_reg: self.register.subrange(8, 15),
                register: put_common(self.register, self.reg),
                cpsr: self.fiq_spsr,
                ..self
            }
        } else {
            let k = self.mode.spec_bank();
            CpuState {
                bank_reg: self.bank_reg.update(
                    k,
                    Bank {
                        sp: self.register[13],
                        lr: self.register[14],
                        spsr: self.bank_reg[k].spsr,
                    },
                ),
                cpsr: self.bank_reg[k].spsr,
                ..self
            }
        }
    }

    /// The state after `mode` has taken up what it keeps to itself. The
    /// user and system modes and the plain privileged modes take up
    /// their stack pointer and link register and leave every other
    /// register alone; the fast-interrupt mode puts registers 8 to 12 of
    /// the other modes aside and takes up its own registers 8 to 14.
    /// Entering a privileged mode also saves the status word into the
    /// mode's bank.
    pub open spec fn enter_mode(self, mode: CPU_mode) -> CpuState {
        let cpsr = (self.cpsr & 0xFFFFFFE0) | mode.spec_bits();
        if mode.is_unprivileged_bank() {
            CpuState {
                register: self.register.update(13, self.reg[5]).update(14, self.reg[6]),
                cpsr,
                mode,
                ..self
            }
        } else if mode == CPU_mode::fiq {
            CpuState {
                register: put_window(self.register, self.fiq_reg),
                reg: save_common(self.reg, self.register),
                fiq_spsr: self.cpsr,
                cpsr,
                mode,
                ..self
            }
        } else {
            let k = mode.spec_bank();
            CpuState {
                register: self.register.update(13, self.bank_reg[k].sp).update(
                    14,
                    self.bank_reg[k].lr,
                ),
                bank_reg: self.bank_reg.update(
                    k,
                    Bank { sp: self.bank_reg[k].sp, lr: self.bank_reg[k].lr, spsr: self.cpsr },
                ),
                cpsr,
                mode,
                ..self
            }
        }
    }

    /// The processor at rest.
    pub open spec fn at_rest() -> CpuState {
        CpuState {
            register: Seq::new(16, |i: int| 0u32),
            bank_reg: Seq::new(4, |i: int| Bank { sp: 0, lr: 0, spsr: 0 }),
            fiq_reg: Seq::new(7, |i: int| 0u32),
            fiq_spsr: 0,
            reg: Seq::new(7, |i: int| 0u32),
            cpsr: 0,
            state: CPU_state::ARM,
            mode: CPU_mode::sys,
            pipeline: Seq::new(3, |i: int| 0u32),
            lut_thumb: thumb_table(),
            lut_arm: arm_table(),
        }
    }

    /// Retiring one instruction. An empty retiring slot is a fault;
    /// otherwise the instruction set in use decides how the slot is read.
    pub open spec fn tick(self, bus: BusState) -> Outcome {
        if self.pipeline[2] == 0 {
            Outcome { cpu: self, bus, fault: Some(Fault::EmptyPipeline { pc: self.register[15] }) }
        } else if self.state == CPU_state::ARM {
            self.tick_arm(bus)
        } else {
            self.tick_thumb(bus)
        }
    }

    /// The state after the pipeline is refilled for the instruction set in
    /// use.
    pub open spec fn refill(self, bus: BusState) -> CpuState {
        if self.state == CPU_state::ARM {
            self.arm_refill(bus)
        } else {
            self.thumb_refill(bus)
        }
    }

    /// The state after register `i` is written. Writing the program
    /// counter is a jump: the pipeline is refilled from the new address.
    pub open spec fn write_register(self, bus: BusState, i: int, v: u32) -> CpuState {
        if i == 15 {
            self.set_reg(i, v).refill(bus)
        } else {
            self.set_reg(i, v)
        }
    }

    /// The state after control passes to the instruction set that the
    /// lowest bit of `selector` names: the state bit of the status word
    /// follows, and the pipeline is refilled with the fetch width and
    /// alignment of that instruction set.
    pub open spec fn switch_state(self, bus: BusState, selector: u32) -> CpuState {
        let state = CPU_state::of(selector);
        (CpuState { state, ..self }).set_flag(Flag::T, state == CPU_state::THUMB).refill(bus)
    }

    /// The state that execution starts from: the program counter and
    /// register 0 at the start of the cartridge, the stack pointer at the
    /// top of on-chip memory, system mode with zero and carry set in the
    /// status word, and the pipeline filled.
    pub open spec fn init(self, bus: BusState) -> CpuState {
        (CpuState { cpsr: 0x6000001F, ..self }).set_reg(0, 0x08000000).set_reg(1, 0xEA).set_reg(
            13,
            0x3007F00,
        ).set_reg(15, 0x08000000).arm_fill(bus)
    }

    /// The address of the retiring instruction: two instructions behind
    /// the program counter, which is eight bytes in the full-width
    /// instruction set and four in the compact one.
    pub open spec fn retiring_address(self) -> u32 {
        if self.state == CPU_state::ARM {
            self.register[15].wrapping_sub(8)
        } else {
            self.register[15].wrapping_sub(4)
        }
    }

    /// The fault raised for an instruction that matches no decode rule:
    /// it names the instruction, its address, and the pipeline.
    pub open spec fn undefined_fault(self, instr: u32) -> Fault {
        Fault::UndefinedOpcode {
            instr,
            pc: self.retiring_address(),
            fetched: self.pipeline[0],
            decoded: self.pipeline[1],
            retiring: self.pipeline[2],
        }
    }

    /// The state after a switch to `mode`: nothing changes if `mode` is
    /// already current; otherwise the current mode puts aside what it
    /// keeps to itself, `mode` takes up what it keeps to itself, and the
    /// mode field of the status word is rewritten. Between modes other
    /// than fast-interrupt only the stack pointer and the link register
    /// are exchanged.
    pub open spec fn set_mode(self, mode: CPU_mode) -> CpuState {
        if mode == self.mode {
            self
        } else {
            self.leave_mode().enter_mode(mode)
        }
    }
}

/// The truth table of the sixteen condition codes over the four
/// condition flags.
pub open spec fn condition_holds(cond: u8, n: bool, z: bool, c: bool, v: bool) -> bool {
    if cond == 0x0 {
        z
    } else if cond == 0x1 {
        !z
    } else if cond == 0x2 {
        c
    } else if cond == 0x3 {
        !c
    } else if cond == 0x4 {
        n
    } else if cond == 0x5 {
        !n
    } else if cond == 0x6 {
        v
    } else if cond == 0x7 {
        !v
    } else if cond == 0x8 {
        c && !z
    } else if cond == 0x9 {
        !c || z
    } else if cond == 0xA {
        n == v
    } else if cond == 0xB {
        n != v
    } else if cond == 0xC {
        !z && n == v
    } else if cond == 0xD {
        z || n != v
    } else {
        true
    }
}

/// Whether an instruction with condition code `cond` executes under the
/// status word `cpsr`.
pub open spec fn condition_passes(cond: u8, cpsr: u32) -> bool {
    condition_holds(
        cond,
        flag_set(cpsr, Flag::N),
        flag_set(cpsr, Flag::Z),
        flag_set(cpsr, Flag::C),
        flag_set(cpsr, Flag::V),
    )
}

/// The condition codes below 14 come in pairs of opposites: an odd code
/// passes exactly when the even code before it does not. The last two
/// codes always pass.
pub proof fn lemma_conditions_pair_up(cond: u8, n: bool, z: bool, c: bool, v: bool)
    requires
        cond <= 0xF,
    ensures
        cond < 14 && cond % 2 == 0 ==> condition_holds((cond + 1) as u8, n, z, c, v)
            == !condition_holds(cond, n, z, c, v),
        cond >= 14 ==> condition_holds(cond, n, z, c, v),
        condition_holds(0xA, n, z, c, v) <==> n == v,
        condition_holds(0x8, n, z, c, v) <==> c && !z,
        condition_holds(0xC, n, z, c, v) <==> !z && n == v,
{
}

/// Banked registers are kept apart: a switch to any other mode and back
/// leaves every register as it was.
pub proof fn lemma_mode_round_trip(s: CpuState, other: CPU_mode)
    requires
        s.wf(),
    ensures
        s.set_mode(other).set_mode(s.mode).register == s.register,
        s.set_mode(other).set_mode(s.mode).mode == s.mode,
        s.set_mode(other).set_mode(s.mode).wf(),
{
    assert(s.set_mode(other).set_mode(s.mode).register =~= s.register);
}

/// Between two modes other than fast-interrupt only the stack pointer and
/// the link register are exchanged: every other register stays as it
/// is, registers 8 to 12 among them. The user and system modes share
/// even those two.
pub proof fn lemma_plain_switch_keeps_the_rest(s: CpuState, mode: CPU_mode)
    requires
        s.wf(),
        s.mode != CPU_mode::fiq,
        mode != CPU_mode::fiq,
    ensures
        forall|i: int|
            0 <= i < 16 && i != 13 && i != 14 ==> s.set_mode(mode).register[i] == s.register[i],
        s.mode.is_unprivileged_bank() && mode.is_unprivileged_bank() ==> s.set_mode(
            mode,
        ).register == s.register,
{
    if s.mode.is_unprivileged_bank() && mode.is_unprivileged_bank() {
        assert(s.set_mode(mode).register =~= s.register);
    }
}

/// The fast-interrupt mode has registers 8 to 14 to itself: what it
/// writes there leaves those of the mode it came from as they were, and
/// what another mode writes there leaves its own as they were.
pub proof fn lemma_fast_interrupt_window(s: CpuState, other: CPU_mode, i: int, v: u32)
    requires
        s.wf(),
        8 <= i < 15,
        other != s.mode,
        s.mode == CPU_mode::fiq || other == CPU_mode::fiq,
    ensures
        s.set_mode(other).set_reg(i, v).set_mode(s.mode).register == s.register,
{
    assert(s.set_mode(other).set_reg(i, v).set_mode(s.mode).register =~= s.register);
}

/// A value written to the stack pointer in one mode is read back after a
/// switch to any other mode and back.
pub proof fn lemma_stack_pointer_round_trip(s: CpuState, other: CPU_mode, value: u32)
    requires
        s.wf(),
    ensures
        s.set_reg(13, value).set_mode(other).set_mode(s.mode).register[13] == value,
{
    lemma_mode_round_trip(s.set_reg(13, value), other);
}

/// Setting a flag leaves the mode field of any status word alone, and a
/// switch of mode leaves any state as sound as it was.
pub proof fn lemma_status_steps()
    ensures
        forall|cpsr: u32, flag: Flag, val: bool|
            mode_of(#[trigger] with_flag(cpsr, flag, val)) == mode_of(cpsr),
        forall|s: CpuState, mode: CPU_mode| #[trigger] s.set_mode(mode).stays_sound(s),
        forall|s: CpuState, mode: CPU_mode|
            mode != s.mode ==> (#[trigger] s.set_mode(mode)).status_ok(),
{
    assert(forall|c: u32|
        ((c & !0x80000000u32) | 0x80000000u32) & 0x1F == c & 0x1F && (c & !0x80000000u32) & 0x1F
            == c & 0x1F && ((c & !0x40000000u32) | 0x40000000u32) & 0x1F == c & 0x1F && (c
            & !0x40000000u32) & 0x1F == c & 0x1F && ((c & !0x20000000u32) | 0x20000000u32) & 0x1F
            == c & 0x1F && (c & !0x20000000u32) & 0x1F == c & 0x1F && ((c & !0x10000000u32)
            | 0x10000000u32) & 0x1F == c & 0x1F && (c & !0x10000000u32) & 0x1F == c & 0x1F && ((c
            & !0x80u32) | 0x80u32) & 0x1F == c & 0x1F && (c & !0x80u32) & 0x1F == c & 0x1F && ((c
            & !0x40u32) | 0x40u32) & 0x1F == c & 0x1F && (c & !0x40u32) & 0x1F == c & 0x1F && ((c
            & !0x20u32) | 0x20u32) & 0x1F == c & 0x1F && (c & !0x20u32) & 0x1F == c & 0x1F
            && #[trigger] ((c & 0xFFFFFFE0) | 0b10010) & 0x1F == 0b10010
            && ((c & 0xFFFFFFE0) | 0b10011) & 0x1F == 0b10011
            && ((c & 0xFFFFFFE0) | 0b10111) & 0x1F == 0b10111
            && ((c & 0xFFFFFFE0) | 0b11011) & 0x1F == 0b11011
            && ((c & 0xFFFFFFE0) | 0b10001) & 0x1F == 0b10001
            && ((c & 0xFFFFFFE0) | 0b10000) & 0x1F == 0b10000
            && ((c & 0xFFFFFFE0) | 0b11111) & 0x1F == 0b11111) by (bit_vector);
    assert forall|cpsr: u32, flag: Flag, val: bool|
        mode_of(#[trigger] with_flag(cpsr, flag, val)) == mode_of(cpsr) by {
        let m = flag.spec_mask();
        assert((((cpsr & 0xFFFFFFE0) | 0b10010) & 0x1F == 0b10010) ==> with_flag(cpsr, flag, val)
            & 0x1F == cpsr & 0x1F);
    }
    assert forall|s: CpuState, mode: CPU_mode| #[trigger] s.set_mode(mode).stays_sound(s) by {
        let c = s.leave_mode().cpsr;
        assert(((c & 0xFFFFFFE0) | 0b10010) & 0x1F == 0b10010);
    }
    assert forall|s: CpuState, mode: CPU_mode| mode != s.mode implies (#[trigger] s.set_mode(
        mode,
    )).status_ok() by {
        let c = s.leave_mode().cpsr;
        assert(((c & 0xFFFFFFE0) | 0b10010) & 0x1F == 0b10010);
    }
}

/// The operations that instructions are built from leave a state as
/// sound as it was.
pub proof fn lemma_steps_stay_sound(s: CpuState, bus: BusState)
    ensures
        forall|i: int, v: u32| 0 <= i < 16 ==> #[trigger] s.set_reg(i, v).stays_sound(s),
        forall|i: int, v: u32|
            0 <= i < 16 ==> #[trigger] s.write_register(bus, i, v).stays_sound(s),
        forall|flag: Flag, val: bool| #[trigger] s.set_flag(flag, val).stays_sound(s),
        forall|mode: CPU_mode| #[trigger] s.set_mode(mode).stays_sound(s),
        forall|selector: u32| #[trigger] s.switch_state(bus, selector).stays_sound(s),
        forall|delta: u32| #[trigger] s.bump_pc(delta).stays_sound(s),
        s.refill(bus).stays_sound(s),
        s.arm_refill(bus).stays_sound(s),
        s.thumb_refill(bus).stays_sound(s),
        s.arm_step(bus).stays_sound(s),
        s.thumb_step(bus).stays_sound(s),
{
    lemma_status_steps();
}

/// Two modes that do not share a bank are isolated from each other:
/// whatever is written to the stack pointer and the link register in the
/// second leaves those of the first as they were.
pub proof fn lemma_banks_isolated(s: CpuState, other: CPU_mode, sp: u32, lr: u32)
    requires
        s.wf(),
        other != s.mode,
        !(other.is_unprivileged_bank() && s.mode.is_unprivileged_bank()),
    ensures
        s.set_mode(other).set_reg(13, sp).set_reg(14, lr).set_mode(s.mode).register[13]
            == s.register[13],
        s.set_mode(other).set_reg(13, sp).set_reg(14, lr).set_mode(s.mode).register[14]
            == s.register[14],
{
}

/// A switch of mode ends in that mode and keeps the state well-formed;
/// after a switch to another mode the status word names the new mode,
/// and the registers below 8 and the program counter are untouched.
pub proof fn lemma_set_mode(s: CpuState, mode: CPU_mode)
    requires
        s.wf(),
    ensures
        s.set_mode(mode).mode == mode,
        s.set_mode(mode).wf(),
        mode != s.mode ==> mode_of(s.set_mode(mode).cpsr) == Some(mode),
        forall|i: int| 0 <= i < 8 ==> s.set_mode(mode).register[i] == s.register[i],
        s.set_mode(mode).register[15] == s.register[15],
        s.set_mode(mode).pipeline == s.pipeline,
        s.set_mode(mode).state == s.state,
{
    if mode != s.mode {
        mode.lemma_mode_of_bits(s.leave_mode().cpsr);
    }
}

/// The processor.
pub struct CPU {
    pub register: [u32; 16],
    pub bank_reg: [Bank; 4],
    pub fiq_reg: [u32; 7],
    pub fiq_spsr: u32,
    pub reg: [u32; 7],
    pub cpsr: u32,
    pub state: CPU_state,
    pub mode: CPU_mode,
    pub pipeline: [u32; 3],
    pub lut_thumb: [ThumbOp; 1024],
    pub lut_arm: [ArmOp; 4096],
}

impl View for CPU {
    type V = CpuState;

    open spec fn view(&self) -> CpuState {
        CpuState {
            register: self.register@,
            bank_reg: self.bank_reg@,
            fiq_reg: self.fiq_reg@,
            fiq_spsr: self.fiq_spsr,
            reg: self.reg@,
            cpsr: self.cpsr,
            state: self.state,
            mode: self.mode,
            pipeline: self.pipeline@,
            lut_thumb: self.lut_thumb@,
            lut_arm: self.lut_arm@,
        }
    }
}

/// Copies registers 8 to 14 out of a register file.
fn take_window(regs: &[u32; 16]) -> (r: [u32; 7])
    ensures
        r@ == regs@.subrange(8, 15),
{
    [regs[8], regs[9], regs[10], regs[11], regs[12], regs[13], regs[14]]
}

/// Copies a saved window over registers 8 to 14 of a register file.
fn store_window(regs: &mut [u32; 16], window: &[u32; 7])
    ensures
        final(regs)@ == put_window(old(regs)@, window@),
{
    regs[8] = window[0];
    regs[9] = window[1];
    regs[10] = window[2];
    regs[11] = window[3];
    regs[12] = window[4];
    regs[13] = window[5];
    regs[14] = window[6];
}

/// Copies the first five saved slots over registers 8 to 12 of a
/// register file.
fn store_common(regs: &mut [u32; 16], saved: &[u32; 7])
    ensures
        final(regs)@ == put_common(old(regs)@, saved@),
{
    regs[8] = saved[0];
    regs[9] = saved[1];
    regs[10] = saved[2];
    regs[11] = saved[3];
    regs[12] = saved[4];
}

/// Copies registers 8 to 12 of a register file over the first five
/// saved slots.
fn keep_common(saved: &mut [u32; 7], regs: &[u32; 16])
    ensures
        final(saved)@ == save_common(old(saved)@, regs@),
{
    saved[0] = regs[8];
    saved[1] = regs[9];
    saved[2] = regs[10];
    saved[3] = regs[11];
    saved[4] = regs[12];
}

impl CPU {
    /// Every state of a processor is well-formed.
    pub proof fn lemma_view_wf(&self)
        ensures
            self@.wf(),
    {
    }

    /// Reads register `i`.
    pub fn reg(&self, i: usize) -> (r: u32)
        requires
            i < 16,
        ensures
            r == self@.register[i as int],
    {
        self.register[i]
    }

    /// Writes register `i` without touching the pipeline.
    pub fn set_reg(&mut self, i: usize, v: u32)
        requires
            i < 16,
        ensures
            final(self)@ == old(self)@.set_reg(i as int, v),
    {
        self.register[i] = v;
    }

    /// Moves the program counter by `delta`, modulo 2^32.
    pub fn bump_pc(&mut self, delta: u32)
        ensures
            final(self)@ == old(self)@.bump_pc(delta),
    {
        self.register[15] = self.register[15].wrapping_add(delta);
    }

    /// Replaces the three pipeline slots.
    pub fn set_pipeline(&mut self, fetched: u32, decoded: u32, retiring: u32)
        ensures
            final(self)@ == old(self)@.set_pipeline(fetched, decoded, retiring),
    {
        self.pipeline[0] = fetched;
        self.pipeline[1] = decoded;
        self.pipeline[2] = retiring;
    }

    /// Whether `flag` is set in the status word.
    pub fn flag(&self, flag: Flag) -> (r: bool)
        ensures
            r == self@.flag(flag),
    {
        self.cpsr & flag.mask() != 0
    }

    /// The carry flag as a number.
    pub fn carry(&self) -> (r: u32)
        ensures
            r == self@.carry(),
    {
        if self.flag(Flag::C) {
            1
        } else {
            0
        }
    }

    /// Sets or clears `flag` in the status word.
    pub fn set_flag(&mut self, flag: Flag, val: bool)
        ensures
            final(self)@ == old(self)@.set_flag(flag, val),
    {
        self.cpsr = self.cpsr & !flag.mask();
        if val {
            self.cpsr = self.cpsr | flag.mask();
        }
    }

    /// The saved status word of the current mode.
    pub fn spsr(&self) -> (r: u32)
        ensures
            r == self@.spsr(),
    {
        match self.mode {
            CPU_mode::sys | CPU_mode::usr => self.cpsr,
            CPU_mode::fiq => self.fiq_spsr,
            _ => self.bank_reg[self.mode.bank()].spsr,
        }
    }

    /// Switches to `mode`, exchanging the banked registers: the stack
    /// pointer and the link register between modes other than
    /// fast-interrupt, registers 8 to 14 into and out of that mode.
    pub fn set_mode(&mut self, mode: CPU_mode)
        ensures
            final(self)@ == old(self)@.set_mode(mode),
    {
        if mode != self.mode {
            match self.mode {
                CPU_mode::usr | CPU_mode::sys => {
                    self.reg[5] = self.register[13];
                    self.reg[6] = self.register[14];
                },
                CPU_mode::fiq => {
                    self.fiq_reg = take_window(&self.register);
                    store_common(&mut self.register, &self.reg);
                    self.cpsr = self.fiq_spsr;
                },
                _ => {
                    let k = self.mode.bank();
                    let spsr = self.bank_reg[k].spsr;
                    self.bank_reg[k] = Bank { sp: self.register[13], lr: self.register[14], spsr };
                    self.cpsr = spsr;
                },
            }
            match mode {
                CPU_mode::usr | CPU_mode::sys => {
                    self.register[13] = self.reg[5];
                    self.register[14] = self.reg[6];
                },
                CPU_mode::fiq => {
                    keep_common(&mut self.reg, &self.register);
                    store_window(&mut self.register, &self.fiq_reg);
                    self.fiq_spsr = self.cpsr;
                },
                _ => {
                    let k = mode.bank();
                    let bank = self.bank_reg[k];
                    self.register[13] = bank.sp;
                    self.register[14] = bank.lr;
                    self.bank_reg[k] = Bank { sp: bank.sp, lr: bank.lr, spsr: self.cpsr };
                },
            }
            self.cpsr = (self.cpsr & 0xFFFFFFE0) | mode.bits();
            self.mode = mode;
        }
    }

    /// Decides whether an instruction with the four-bit condition code
    /// `cond` executes under the current flags. The code 0xF, reserved in
    /// the architecture, always passes.
    #[inline]
    pub fn is_condition(&self, cond: u8) -> (r: bool)
        requires
            cond <= 0xF,
        ensures
            r == condition_passes(cond, self@.cpsr),
    {
        let n = self.flag(Flag::N);
        let z = self.flag(Flag::Z);
        let c = self.flag(Flag::C);
        let v = self.flag(Flag::V);
        match cond {
            0x0 => z,
            0x1 => !z,
            0x2 => c,
            0x3 => !c,
            0x4 => n,
            0x5 => !n,
            0x6 => v,
            0x7 => !v,
            0x8 => c && !z,
            0x9 => !c || z,
            0xA => n == v,
            0xB => n != v,
            0xC => !z && (n == v),
            0xD => z || (n != v),
            _ => true,
        }
    }

    /// A processor at rest: every register, bank and pipeline slot zero,
    /// the full-width instruction set selected, system mode, and both
    /// decode tables built.
    pub fn new() -> (r: Self)
        ensures
            r@ == CpuState::at_rest(),
            r@.decodes(),
    {
        let zero = Bank { sp: 0, lr: 0, spsr: 0 };
        let mut cpu = Self {
            register: [0;16],
            bank_reg: [zero;4],
            fiq_reg: [0;7],
            fiq_spsr: 0,
            reg: [0;7],
            cpsr: 0,
            state: CPU_state::ARM,
            mode: CPU_mode::sys,
            pipeline: [0;3],
            lut_thumb: [ThumbOp::Undefined;1024],
            lut_arm: [ArmOp::Undefined;4096],
        };
        cpu.ARM_fill_lut();
        cpu.THUMB_fill_lut();
        cpu
    }

    /// Retires one instruction. Fails, leaving everything as it was, when
    /// the retiring slot is empty or the instruction faults.
    #[inline]
    pub fn tick(&mut self, bus: &mut Bus) -> (r: Result<(), Fault>)
        ensures
            old(self)@.tick(old(bus)@).fault matches Some(fault) ==> r == Err::<(), Fault>(fault),
            old(self)@.tick(old(bus)@).fault is None ==> r is Ok,
            final(self)@ == old(self)@.tick(old(bus)@).cpu,
            final(bus)@ == old(self)@.tick(old(bus)@).bus,
            final(bus)@.keeps_frame(old(bus)@),
            r is Err ==> final(self)@ == old(self)@ && final(bus)@ == old(bus)@,
    {
        if self.pipeline[2] == 0 {
            return Err(Fault::EmptyPipeline { pc: self.register[15] });
        }
        match self.state {
            CPU_state::ARM => self.tick_ARM(bus),
            CPU_state::THUMB => self.tick_THUMB(bus),
        }
    }

    /// Puts the processor into the state that execution starts from.
    pub fn init(&mut self, bus: &mut Bus)
        ensures
            final(self)@ == old(self)@.init(old(bus)@),
            final(bus)@ == old(bus)@,
    {
        self.cpsr = 0x6000001F;
        self.set_reg(0, 0x08000000);
        self.set_reg(1, 0xEA);
        self.set_reg(13, 0x3007F00);
        self.set_reg(15, 0x08000000);
        self.arm_fill_pipeline(bus);
    }

    /// Reports the instruction `instr`, with its address, as undefined.
    /// Nothing changes.
    pub fn undefined_opcode(&mut self, bus: &mut Bus, instr: u32) -> (r: Result<(), Fault>)
        ensures
            r == Err::<(), Fault>(old(self)@.undefined_fault(instr)),
            *final(self) == *old(self),
            *final(bus) == *old(bus),
    {
        let behind: u32 = match self.state {
            CPU_state::ARM => 8,
            CPU_state::THUMB => 4,
        };
        Err(
            Fault::UndefinedOpcode {
                instr,
                pc: self.register[15].wrapping_sub(behind),
                fetched: self.pipeline[0],
                decoded: self.pipeline[1],
                retiring: self.pipeline[2],
            },
        )
    }

    /// Refills the pipeline for the instruction set in use.
    pub fn refill_pipeline(&mut self, bus: &mut Bus)
        ensures
            final(self)@ == old(self)@.refill(old(bus)@),
            final(bus)@ == old(bus)@,
    {
        match self.state {
            CPU_state::ARM => self.arm_refill_pipeline(bus),
            CPU_state::THUMB => self.thumb_refill_pipeline(bus),
        }
    }

    /// Writes register `index`; a write to the program counter refills
    /// the pipeline from the new address.
    pub fn register_write(&mut self, index: usize, value: u32, bus: &mut Bus)
        requires
            index < 16,
        ensures
            final(self)@ == old(self)@.write_register(old(bus)@, index as int, value),
            final(bus)@ == old(bus)@,
    {
        self.set_reg(index, value);
        if index == 15 {
            self.refill_pipeline(bus);
        }
    }

    /// Passes control to the instruction set that the lowest bit of
    /// `state` names and refills the pipeline.
    #[inline]
    pub fn switch_state(&mut self, bus: &mut Bus, state: u32)
        ensures
            final(self)@ == old(self)@.switch_state(old(bus)@, state),
            final(bus)@ == old(bus)@,
    {
        self.state = CPU_state::from(state);
        self.set_flag(Flag::T, self.state == CPU_state::THUMB);
        self.refill_pipeline(bus);
    }

    /// Empties the pipeline.
    #[inline]
    pub fn flush_pipeline(&mut self)
        ensures
            final(self)@ == old(self)@.set_pipeline(0, 0, 0),
    {
        self.pipeline = [0;3];
    }
}

} // verus!
