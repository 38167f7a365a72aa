//! The whole machine: a processor on a bus.
use crate::bus::{Bus, BusState};
use crate::cpu::cpu::{CpuState, CPU};
use crate::fault::Fault;
use vstd::prelude::*;

verus! {

/// The machine as a mathematical value.
pub struct MachineState {
    pub bus: BusState,
    pub cpu: CpuState,
}

impl MachineState {
    /// Whether the machine can take a step: the picture unit is
    /// well-formed and its scanline counter agrees with its phase.
    pub open spec fn ready(self) -> bool {
        self.bus.ppu.wf() && self.bus.ppu.in_step()
    }

    /// The fault that a step meets, if any: that of the processor or,
    /// once the processor has retired its instruction, that of the
    /// picture unit.
    pub open spec fn step_fault(self) -> Option<Fault> {
        if self.cpu.tick(self.bus).fault is Some {
            self.cpu.tick(self.bus).fault
        } else {
            self.cpu.tick(self.bus).bus.ppu.tick_fault()
        }
    }

    /// The machine one step later: the processor retires an instruction,
    /// then the picture unit advances by one cycle. A fault of the
    /// processor leaves the machine as it was; a fault of the picture
    /// unit leaves it as the processor left it.
    pub open spec fn step(self) -> MachineState {
        let retired = self.cpu.tick(self.bus);
        if retired.fault is Some {
            self
        } else if retired.bus.ppu.tick_fault() is Some {
            MachineState { bus: retired.bus, cpu: retired.cpu }
        } else {
            MachineState { bus: retired.bus.tick(), cpu: retired.cpu }
        }
    }

    /// Whether a step completes a frame.
    pub open spec fn step_completes_frame(self) -> bool {
        self.cpu.tick(self.bus).bus.ppu.completes_frame()
    }
}

/// The machine starts sound and stays sound: after initialisation the
/// decode tables are in place and the status word names the current
/// mode, and every step keeps both so.
pub proof fn lemma_machine_stays_sound(bus: BusState, m: MachineState)
    ensures
        CpuState::at_rest().init(bus).decodes(),
        CpuState::at_rest().init(bus).status_ok(),
        CpuState::at_rest().init(bus).wf(),
        m.step().cpu.stays_sound(m.cpu),
        m.cpu.decodes() ==> m.step().cpu.decodes(),
        m.cpu.status_ok() ==> m.step().cpu.status_ok(),
{
    assert(0x6000001Fu32 & 0x1F == 0b11111) by (bit_vector);
    crate::cpu::thumb::thumb::lemma_tick_stays_sound(m.cpu, m.bus);
}

/// The machine.
pub struct spAnGB {
    pub bus: Bus,
    pub cpu: CPU,
}

impl View for spAnGB {
    type V = MachineState;

    open spec fn view(&self) -> MachineState {
        MachineState { bus: self.bus@, cpu: self.cpu@ }
    }
}

impl spAnGB {
    /// A machine at rest, with no boot image and no cartridge.
    pub fn new() -> (r: Self)
        ensures
            r@ == (MachineState { bus: BusState::at_rest(), cpu: CpuState::at_rest() }),
            r@.ready(),
    {
        Self { bus: Bus::new(), cpu: CPU::new() }
    }

    /// Puts the processor into the state that execution starts from.
    pub fn init(&mut self)
        ensures
            final(self)@.cpu == old(self)@.cpu.init(old(self)@.bus),
            final(self)@.bus == old(self)@.bus,
    {
        self.cpu.init(&mut self.bus);
    }

    /// Runs the machine for one step and tells whether that completed a
    /// frame.
    pub fn step(&mut self) -> (r: Result<bool, Fault>)
        requires
            old(self)@.ready(),
        ensures
            match old(self)@.step_fault() {
                Some(fault) => r == Err::<bool, Fault>(fault),
                None => r == Ok::<bool, Fault>(old(self)@.step_completes_frame()),
            },
            final(self)@ == old(self)@.step(),
            final(self)@.ready(),
    {
        match self.cpu.tick(&mut self.bus) {
            Ok(()) => {},
            Err(fault) => {
                return Err(fault);
            },
        }
        self.bus.tick()
    }
}

} // verus!
