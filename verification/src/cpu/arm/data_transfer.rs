//! Block data transfer: loading and storing a list of registers.
use crate::bus::{Bus, BusState};
use crate::cpu::arm::opcodes::{move_address, offset_address};
use crate::cpu::cpu::{CPU_mode, CpuState, CPU};
use crate::fault::Fault;
use crate::utils::{bit, field4, is_bit_set, reg_field};
use vstd::prelude::*;

verus! {

/// The lowest register below `n` that the list `list` names, or -1 if it
/// names none.
pub open spec fn first_below(list: u32, n: nat) -> int
    decreases n,
{
    if n == 0 {
        -1
    } else {
        let before = first_below(list, (n - 1) as nat);
        if before != -1 {
            before
        } else if bit(list, (n - 1) as nat) {
            n - 1
        } else {
            -1
        }
    }
}

/// Whether the register list of `instr` is empty.
pub open spec fn list_is_empty(instr: u32) -> bool {
    first_below(instr, 16) == -1
}

/// The register visited at step `k` of a transfer: registers go up with
/// the addresses and down with them.
pub open spec fn visited(up: bool, k: int) -> int {
    if up {
        k
    } else {
        15 - k
    }
}

/// A store in progress: memory so far, the next address, and the address
/// at which the base register was stored, if it was.
pub struct StoreWalk {
    pub bus: BusState,
    pub addr: u32,
    pub base_slot: u32,
}

/// The store of the registers in `list` after `k` registers have been
/// visited, starting at `start`.
pub open spec fn store_walk(
    regs: Seq<u32>,
    bus: BusState,
    list: u32,
    up: bool,
    start: u32,
    base: int,
    k: nat,
) -> StoreWalk
    decreases k,
{
    if k == 0 {
        StoreWalk { bus, addr: start, base_slot: 0 }
    } else {
        let before = store_walk(regs, bus, list, up, start, base, (k - 1) as nat);
        let i = visited(up, k - 1);
        if bit(list, i as nat) {
            StoreWalk {
                bus: before.bus.write32(before.addr, regs[i]),
                addr: offset_address(before.addr, 4, up),
                base_slot: if i == base {
                    before.addr
                } else {
                    before.base_slot
                },
            }
        } else {
            before
        }
    }
}

/// A load in progress: the processor so far and the next address.
pub struct LoadWalk {
    pub cpu: CpuState,
    pub addr: u32,
}

/// The load of the registers in `list` after `k` registers have been
/// visited, starting at `start`.
pub open spec fn load_walk(
    cpu: CpuState,
    bus: BusState,
    list: u32,
    up: bool,
    start: u32,
    k: nat,
) -> LoadWalk
    decreases k,
{
    if k == 0 {
        LoadWalk { cpu, addr: start }
    } else {
        let before = load_walk(cpu, bus, list, up, start, (k - 1) as nat);
        let i = visited(up, k - 1);
        if bit(list, i as nat) {
            LoadWalk {
                cpu: before.cpu.write_register(bus, i, bus.read32(before.addr)),
                addr: offset_address(before.addr, 4, up),
            }
        } else {
            before
        }
    }
}

impl CpuState {
    /// The state whose registers a block store reads: the program counter
    /// is one instruction further on, and the user window is live when
    /// bit 22 asks for it.
    pub open spec fn arm_stm_seen(self, instr: u32) -> CpuState {
        if bit(instr, 22) {
            self.bump_pc(4).set_mode(CPU_mode::usr)
        } else {
            self.bump_pc(4)
        }
    }

    /// The first address of a block transfer: the base, moved by one word
    /// with pre-indexing.
    pub open spec fn arm_block_start(self, instr: u32, base_value: u32) -> u32 {
        if bit(instr, 24) {
            offset_address(base_value, 4, bit(instr, 23))
        } else {
            base_value
        }
    }

    /// A block store up to the write-back. An empty list stores the
    /// program counter alone and moves the address by 0x40.
    pub open spec fn arm_stm_walk(self, bus: BusState, instr: u32) -> StoreWalk {
        let start = self.arm_block_start(instr, self.bump_pc(4).register[field4(instr, 16)]);
        let seen = self.arm_stm_seen(instr);
        if list_is_empty(instr) {
            StoreWalk {
                bus: bus.write32(start, seen.register[15]),
                addr: offset_address(start, 0x40, bit(instr, 23)),
                base_slot: 0,
            }
        } else {
            store_walk(seen.register, bus, instr, bit(instr, 23), start, field4(instr, 16), 16)
        }
    }

    /// The value that a block transfer writes back to the base: the
    /// address it ended at, with the move of pre-indexing undone.
    pub open spec fn arm_block_end(instr: u32, end: u32) -> u32 {
        if bit(instr, 24) {
            offset_address(end, 4, !bit(instr, 23))
        } else {
            end
        }
    }

    /// Whether a block store with write-back stores the base a second
    /// time: the base is in the list and is not its first register, so
    /// what was stored for it is replaced by its new value.
    pub open spec fn arm_stm_patches_base(instr: u32) -> bool {
        bit(instr, field4(instr, 16) as nat) && first_below(instr, 16) != field4(instr, 16)
    }

    /// Block store, memory side.
    pub open spec fn arm_stm_bus(self, bus: BusState, instr: u32) -> BusState {
        let walk = self.arm_stm_walk(bus, instr);
        if bit(instr, 21) && Self::arm_stm_patches_base(instr) {
            walk.bus.write32(walk.base_slot, Self::arm_block_end(instr, walk.addr))
        } else {
            walk.bus
        }
    }

    /// The state after the user window, if it was made live, is swapped
    /// out again for the window of `mode`.
    pub open spec fn arm_block_restore(self, instr: u32, mode: CPU_mode) -> CpuState {
        if bit(instr, 22) {
            self.set_mode(mode)
        } else {
            self
        }
    }

    /// Block store, processor side: the base takes the end address when
    /// bit 21 asks for write-back.
    #[verifier::opaque]
    pub open spec fn arm_stm(self, bus: BusState, instr: u32) -> CpuState {
        let walk = self.arm_stm_walk(bus, instr);
        let restored = self.arm_stm_seen(instr).arm_block_restore(instr, self.mode).rewind_pc(4);
        if bit(instr, 21) {
            restored.write_register(
                self.arm_stm_bus(bus, instr),
                field4(instr, 16),
                Self::arm_block_end(instr, walk.addr),
            )
        } else {
            restored
        }
    }

    /// The state a block load starts from. When bit 22 asks for the user
    /// window, the status word is first restored from the saved one if
    /// the program counter is in the list.
    pub open spec fn arm_ldm_seen(self, instr: u32) -> CpuState {
        if bit(instr, 22) {
            (if bit(instr, 15) {
                CpuState { cpsr: self.spsr(), ..self }
            } else {
                self
            }).set_mode(CPU_mode::usr)
        } else {
            self
        }
    }

    /// A block load up to the write-back. An empty list loads the program
    /// counter alone and moves the address by 0x40.
    pub open spec fn arm_ldm_walk(self, bus: BusState, instr: u32) -> LoadWalk {
        let start = self.arm_block_start(instr, self.register[field4(instr, 16)]);
        let seen = self.arm_ldm_seen(instr);
        if list_is_empty(instr) {
            LoadWalk {
                cpu: seen.write_register(bus, 15, bus.read32(start)),
                addr: offset_address(start, 0x40, bit(instr, 23)),
            }
        } else {
            load_walk(seen, bus, instr, bit(instr, 23), start, 16)
        }
    }

    /// Block load: the loaded registers, and the end address in the base
    /// when bit 21 asks for write-back and the base was not loaded.
    #[verifier::opaque]
    pub open spec fn arm_ldm(self, bus: BusState, instr: u32) -> CpuState {
        let walk = self.arm_ldm_walk(bus, instr);
        let restored = walk.cpu.arm_block_restore(instr, self.mode);
        if bit(instr, 21) && !bit(instr, field4(instr, 16) as nat) {
            restored.write_register(
                bus,
                field4(instr, 16),
                Self::arm_block_end(instr, walk.addr),
            )
        } else {
            restored
        }
    }
}

/// A list whose first register is none names no register.
pub proof fn lemma_empty_list(list: u32, n: nat)
    requires
        first_below(list, n) == -1,
    ensures
        forall|i: nat| i < n ==> !bit(list, i),
    decreases n,
{
    if n > 0 {
        lemma_empty_list(list, (n - 1) as nat);
    }
}

/// The first register of a list is in the list and no register below it
/// is.
pub proof fn lemma_first_below(list: u32, n: nat)
    ensures
        -1 <= first_below(list, n) < n,
        first_below(list, n) >= 0 ==> bit(list, first_below(list, n) as nat),
        forall|i: nat|
            i < n && first_below(list, n) >= 0 && i < first_below(list, n) ==> !bit(list, i),
    decreases n,
{
    if n > 0 {
        lemma_first_below(list, (n - 1) as nat);
        if first_below(list, (n - 1) as nat) == -1 {
            lemma_empty_list(list, (n - 1) as nat);
        }
    }
}

/// A block store with an empty register list stores the program counter
/// alone, at the first address of the transfer, and its write-back moves
/// the base by exactly 0x40 in the direction of the transfer.
pub proof fn lemma_stm_empty_list(s: CpuState, bus: BusState, instr: u32)
    requires
        s.wf(),
        list_is_empty(instr),
    ensures
        s.arm_stm_bus(bus, instr) == bus.write32(
            s.arm_block_start(instr, s.bump_pc(4).register[field4(instr, 16)]),
            s.arm_stm_seen(instr).register[15],
        ),
        CpuState::arm_block_end(instr, s.arm_stm_walk(bus, instr).addr) == offset_address(
            s.bump_pc(4).register[field4(instr, 16)],
            0x40,
            bit(instr, 23),
        ),
        bit(instr, 21) && field4(instr, 16) != 15 ==> s.arm_stm(bus, instr).register[field4(
            instr,
            16,
        )] == offset_address(s.register[field4(instr, 16)], 0x40, bit(instr, 23)),
        !bit(instr, 21) && !bit(instr, 22) ==> s.arm_stm(bus, instr) == s,
{
    reveal(CpuState::arm_stm);
    lemma_empty_list(instr, 16);
    crate::utils::lemma_fields(instr, 0);
    if bit(instr, 21) && field4(instr, 16) != 15 {
        let seen = s.arm_stm_seen(instr);
        crate::cpu::cpu::lemma_set_mode(s.bump_pc(4), CPU_mode::usr);
        crate::cpu::cpu::lemma_set_mode(seen, s.mode);
    }
    if !bit(instr, 21) && !bit(instr, 22) {
        assert(s.bump_pc(4).rewind_pc(4).register =~= s.register);
    }
}

/// A block load with an empty register list loads the program counter
/// alone, from the first address of the transfer, and moves the address
/// by exactly 0x40 in the direction of the transfer.
pub proof fn lemma_ldm_empty_list(s: CpuState, bus: BusState, instr: u32)
    requires
        s.wf(),
        list_is_empty(instr),
    ensures
        s.arm_ldm_walk(bus, instr).cpu == s.arm_ldm_seen(instr).write_register(
            bus,
            15,
            bus.read32(s.arm_block_start(instr, s.register[field4(instr, 16)])),
        ),
        CpuState::arm_block_end(instr, s.arm_ldm_walk(bus, instr).addr) == offset_address(
            s.register[field4(instr, 16)],
            0x40,
            bit(instr, 23),
        ),
        !bit(instr, 22) ==> forall|i: int|
            0 <= i < 15 && !(bit(instr, 21) && i == field4(instr, 16)) ==> s.arm_ldm(
                bus,
                instr,
            ).register[i] == s.register[i],
{
    reveal(CpuState::arm_ldm);
    lemma_empty_list(instr, 16);
    crate::utils::lemma_fields(instr, 0);
}

/// A load in progress leaves the processor as sound as it was.
pub proof fn lemma_load_walk_stays_sound(
    cpu: CpuState,
    bus: BusState,
    list: u32,
    up: bool,
    start: u32,
    k: nat,
)
    requires
        k <= 16,
    ensures
        load_walk(cpu, bus, list, up, start, k).cpu.stays_sound(cpu),
    decreases k,
{
    crate::cpu::cpu::lemma_status_steps();
    if k > 0 {
        lemma_load_walk_stays_sound(cpu, bus, list, up, start, (k - 1) as nat);
    }
}

/// A block load leaves the processor as sound as it was.
pub proof fn lemma_ldm_stays_sound(s: CpuState, bus: BusState, instr: u32)
    ensures
        s.arm_ldm(bus, instr).stays_sound(s),
{
    crate::cpu::cpu::lemma_status_steps();
    reveal(CpuState::arm_ldm);
    crate::utils::lemma_fields(instr, 0);
    let seen = s.arm_ldm_seen(instr);
    let start = s.arm_block_start(instr, s.register[field4(instr, 16)]);
    lemma_load_walk_stays_sound(seen, bus, instr, bit(instr, 23), start, 16);
    let walk = s.arm_ldm_walk(bus, instr);
    let restored = walk.cpu.arm_block_restore(instr, s.mode);
    crate::cpu::cpu::lemma_steps_stay_sound(restored, bus);
}

/// A block store leaves the processor as sound as it was.
pub proof fn lemma_stm_stays_sound(s: CpuState, bus: BusState, instr: u32)
    ensures
        s.arm_stm(bus, instr).stays_sound(s),
{
    crate::cpu::cpu::lemma_status_steps();
    reveal(CpuState::arm_stm);
    crate::utils::lemma_fields(instr, 0);
    let seen = s.arm_stm_seen(instr);
    let restored = seen.arm_block_restore(instr, s.mode).rewind_pc(4);
    crate::cpu::cpu::lemma_steps_stay_sound(restored, s.arm_stm_bus(bus, instr));
}

/// The number of registers below `n` that the list `list` names.
pub open spec fn count_below(list: u32, n: nat) -> nat
    decreases n,
{
    if n == 0 {
        0
    } else {
        count_below(list, (n - 1) as nat) + (if bit(list, (n - 1) as nat) {
            1nat
        } else {
            0nat
        })
    }
}

/// The number of listed registers among the first `k` that a transfer
/// visits.
pub open spec fn count_visited(list: u32, up: bool, k: nat) -> nat
    decreases k,
{
    if k == 0 {
        0
    } else {
        count_visited(list, up, (k - 1) as nat) + (if bit(list, visited(up, k - 1) as nat) {
            1nat
        } else {
            0nat
        })
    }
}

/// A list names at most as many registers as it is asked about, and a
/// transfer that has visited all sixteen has met every listed register,
/// whichever way it went.
pub proof fn lemma_count_visited(list: u32, up: bool, k: nat)
    requires
        k <= 16,
    ensures
        count_below(list, k) <= k,
        count_visited(list, up, k) <= k,
        up ==> count_visited(list, up, k) == count_below(list, k),
        !up ==> count_visited(list, up, k) + count_below(list, (16 - k) as nat) == count_below(
            list,
            16,
        ),
    decreases k,
{
    if k > 0 {
        lemma_count_visited(list, up, (k - 1) as nat);
    }
}

/// A block transfer moves its address by one word for every register it
/// has transferred.
pub proof fn lemma_walk_addresses(
    cpu: CpuState,
    regs: Seq<u32>,
    bus: BusState,
    list: u32,
    up: bool,
    start: u32,
    base: int,
    k: nat,
)
    requires
        k <= 16,
    ensures
        store_walk(regs, bus, list, up, start, base, k).addr == offset_address(
            start,
            (4 * count_visited(list, up, k)) as u32,
            up,
        ),
        load_walk(cpu, bus, list, up, start, k).addr == offset_address(
            start,
            (4 * count_visited(list, up, k)) as u32,
            up,
        ),
    decreases k,
{
    lemma_count_visited(list, up, k);
    if k > 0 {
        lemma_count_visited(list, up, (k - 1) as nat);
        lemma_walk_addresses(cpu, regs, bus, list, up, start, base, (k - 1) as nat);
    }
}

/// The value that a block transfer of a list that is not empty writes
/// back: the base moved by one word for every register in the list, in
/// the direction of the transfer, with pre-indexing as without.
pub proof fn lemma_block_write_back(s: CpuState, bus: BusState, instr: u32)
    requires
        s.wf(),
        !list_is_empty(instr),
        field4(instr, 16) != 15,
    ensures
        CpuState::arm_block_end(instr, s.arm_stm_walk(bus, instr).addr) == offset_address(
            s.register[field4(instr, 16)],
            (4 * count_below(instr, 16)) as u32,
            bit(instr, 23),
        ),
        CpuState::arm_block_end(instr, s.arm_ldm_walk(bus, instr).addr) == offset_address(
            s.register[field4(instr, 16)],
            (4 * count_below(instr, 16)) as u32,
            bit(instr, 23),
        ),
        bit(instr, 21) ==> s.arm_stm(bus, instr).register[field4(instr, 16)] == offset_address(
            s.register[field4(instr, 16)],
            (4 * count_below(instr, 16)) as u32,
            bit(instr, 23),
        ),
{
    reveal(CpuState::arm_stm);
    crate::utils::lemma_fields(instr, 0);
    let up = bit(instr, 23);
    let base = field4(instr, 16);
    lemma_count_visited(instr, up, 16);
    let start = s.arm_block_start(instr, s.register[base]);
    lemma_walk_addresses(
        s.arm_ldm_seen(instr),
        s.arm_stm_seen(instr).register,
        bus,
        instr,
        up,
        start,
        base,
        16,
    );
}

/// A block load that loads its base keeps what it loaded: the base is
/// not written back, whatever bit 21 asks, so the state is that of the
/// load itself.
pub proof fn lemma_ldm_base_in_list(s: CpuState, bus: BusState, instr: u32)
    requires
        s.wf(),
        bit(instr, field4(instr, 16) as nat),
    ensures
        s.arm_ldm(bus, instr) == s.arm_ldm_walk(bus, instr).cpu.arm_block_restore(instr, s.mode),
{
    reveal(CpuState::arm_ldm);
}

/// A block load with write-back that does not load its base leaves the
/// base moved by one word for every register in the list.
pub proof fn lemma_ldm_write_back(s: CpuState, bus: BusState, instr: u32)
    requires
        s.wf(),
        !list_is_empty(instr),
        bit(instr, 21),
        field4(instr, 16) != 15,
        !bit(instr, field4(instr, 16) as nat),
    ensures
        s.arm_ldm(bus, instr).register[field4(instr, 16)] == offset_address(
            s.register[field4(instr, 16)],
            (4 * count_below(instr, 16)) as u32,
            bit(instr, 23),
        ),
{
    reveal(CpuState::arm_ldm);
    crate::utils::lemma_fields(instr, 0);
    lemma_block_write_back(s, bus, instr);
    let walk = s.arm_ldm_walk(bus, instr);
    let restored = walk.cpu.arm_block_restore(instr, s.mode);
    lemma_load_walk_stays_sound(
        s.arm_ldm_seen(instr),
        bus,
        instr,
        bit(instr, 23),
        s.arm_block_start(instr, s.register[field4(instr, 16)]),
        16,
    );
    crate::cpu::cpu::lemma_status_steps();
}

/// Spreads the low sixteen bits of `instr` into one entry per register,
/// each with its number, and finds the lowest register in the list.
pub fn reglist(instr: u32) -> (r: ([(bool, usize); 16], i8))
    ensures
        forall|i: int| 0 <= i < 16 ==> #[trigger] r.0@[i] == (bit(instr, i as nat), i as usize),
        r.1 == first_below(instr, 16),
{
    let mut regs = [(false, 0usize);16];
    let mut first: i8 = -1;
    let mut i: usize = 0;
    while i < 16
        invariant
            i <= 16,
            forall|j: int| 0 <= j < i ==> #[trigger] regs@[j] == (bit(instr, j as nat), j as usize),
            first == first_below(instr, i as nat),
            -1 <= first < 16,
        decreases 16 - i,
    {
        let yes = is_bit_set(instr, i);
        regs[i] = (yes, i);
        if first == -1 && yes {
            first = i as i8;
        }
        i = i + 1;
    }
    (regs, first)
}

impl CPU {
    /// Stores the registers in the list of `instr` to memory.
    pub fn ARM_STM(&mut self, bus: &mut Bus, instr: u32) -> (r: Result<(), Fault>)
        ensures
            r is Ok,
            final(self)@ == old(self)@.arm_stm(old(bus)@, instr),
            final(bus)@ == old(self)@.arm_stm_bus(old(bus)@, instr),
            final(bus)@.keeps_frame(old(bus)@),
    {
        reveal(CpuState::arm_stm);
        let pre = is_bit_set(instr, 24);
        let up = is_bit_set(instr, 23);
        let psr_force_user = is_bit_set(instr, 22);
        let mode = self.mode;
        self.bump_pc(4);
        let base = reg_field(instr, 16);
        let (regs, first) = reglist(instr);
        let mut addr = self.register[base];
        let mut base_slot: u32 = 0;
        if pre {
            addr = move_address(addr, 4, up);
        }
        if psr_force_user {
            self.set_mode(CPU_mode::usr);
        }
        let ghost seen = self@;
        let ghost bus0 = bus@;
        let ghost start = addr;
        if first == -1 {
            bus.write32(addr, self.register[15]);
            addr = move_address(addr, 0x40, up);
        } else {
            let mut k: usize = 0;
            while k < 16
                invariant
                    k <= 16,
                    base < 16,
                    self@ == seen,
                    seen.register.len() == 16,
                    bus@.keeps_frame(old(bus)@),
                    forall|i: int|
                        0 <= i < 16 ==> #[trigger] regs@[i] == (bit(instr, i as nat), i as usize),
                    (StoreWalk { bus: bus@, addr, base_slot }) == store_walk(
                        seen.register,
                        bus0,
                        instr,
                        up,
                        start,
                        base as int,
                        k as nat,
                    ),
                decreases 16 - k,
            {
                let i = if up {
                    k
                } else {
                    15 - k
                };
                if regs[i].0 {
                    bus.write32(addr, self.register[i]);
                    if i == base {
                        base_slot = addr;
                    }
                    addr = move_address(addr, 4, up);
                }
                k = k + 1;
            }
        }
        if psr_force_user {
            self.set_mode(mode);
        }
        self.rewind_pc(4);
        if is_bit_set(instr, 21) {
            if pre {
                addr = move_address(addr, 4, !up);
            }
            if regs[base].0 && first != base as i8 {
                bus.write32(base_slot, addr);
            }
            self.register_write(base, addr, bus);
        }
        Ok(())
    }

    /// Loads the registers in the list of `instr` from memory.
    pub fn ARM_LDM(&mut self, bus: &mut Bus, instr: u32) -> (r: Result<(), Fault>)
        ensures
            r is Ok,
            final(self)@ == old(self)@.arm_ldm(old(bus)@, instr),
            final(bus)@ == old(bus)@,
    {
        reveal(CpuState::arm_ldm);
        let pre = is_bit_set(instr, 24);
        let up = is_bit_set(instr, 23);
        let psr_force_user = is_bit_set(instr, 22);
        let mode = self.mode;
        let base = reg_field(instr, 16);
        let (regs, first) = reglist(instr);
        let mut addr = self.register[base];
        let base_in_rlist = regs[base].0;
        if psr_force_user {
            if regs[15].0 {
                self.cpsr = self.spsr();
            }
            self.set_mode(CPU_mode::usr);
        }
        if pre {
            addr = move_address(addr, 4, up);
        }
        let ghost seen = self@;
        let ghost start = addr;
        if first == -1 {
            let loaded = bus.read32(addr);
            self.register_write(15, loaded, bus);
            addr = move_address(addr, 0x40, up);
        } else {
            let mut k: usize = 0;
            while k < 16
                invariant
                    k <= 16,
                    bus@ == old(bus)@,
                    forall|i: int|
                        0 <= i < 16 ==> #[trigger] regs@[i] == (bit(instr, i as nat), i as usize),
                    (LoadWalk { cpu: self@, addr }) == load_walk(
                        seen,
                        old(bus)@,
                        instr,
                        up,
                        start,
                        k as nat,
                    ),
                decreases 16 - k,
            {
                let i = if up {
                    k
                } else {
                    15 - k
                };
                if regs[i].0 {
                    let loaded = bus.read32(addr);
                    self.register_write(i, loaded, bus);
                    addr = move_address(addr, 4, up);
                }
                k = k + 1;
            }
        }
        if psr_force_user {
            self.set_mode(mode);
        }
        if is_bit_set(instr, 21) {
            if pre {
                addr = move_address(addr, 4, !up);
            }
            if !base_in_rlist {
                self.register_write(base, addr, bus);
            }
        }
        Ok(())
    }
}

} // verus!
