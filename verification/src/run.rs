//! Reset, and the bounded run loop.
//!
//! A run executes whole instructions while the cycle budget allows the next
//! one. It ends when the next instruction would cost more than what is left
//! of the budget, when the designated halt opcode has been executed, or at
//! an opcode that cannot be executed, where the caller's policy decides.
//! The outcome says which, and the machine can be run again from where the
//! run ended.

use vstd::prelude::*;
use crate::bus::{after_fetch, fetch_next_byte};
use crate::engine::{
    after_step, lemma_step_charges_its_cycles, lemma_step_cycles_add_up, next_descriptor,
    next_step_cycles, step, step_cycles,
};
use crate::memory::{word_at, Mem, MEM_SIZE, RESET_VECTOR};
use crate::registers::{Cpu, STACK_TOP};
use crate::table::{executable, lookup, InstructionDescriptor};

verus! {

/// What a run does at an opcode that cannot be executed.
#[derive(Clone, Copy, Debug, PartialEq, Eq, Structural)]
pub enum FaultPolicy {
    /// Stop and report a halt. Nothing of the offending instruction is
    /// applied.
    Halt,
    /// Treat the opcode as an instruction that does nothing: fetch it, for
    /// one cycle, and go on.
    Skip,
    /// Stop and report the fault. Nothing of the offending instruction is
    /// applied.
    Abort,
}

/// The caller's choices for a run.
#[derive(Clone, Copy, Debug, PartialEq, Eq, Structural)]
pub struct RunPolicy {
    /// What to do at an opcode that cannot be executed.
    pub on_fault: FaultPolicy,
    /// The opcode that halts the run, if one is designated. It takes
    /// precedence over what the table records for that byte.
    pub halt_opcode: Option<u8>,
}

/// Why a run halted.
#[derive(Clone, Copy, Debug, PartialEq, Eq, Structural)]
pub enum HaltReason {
    /// The designated halt opcode was fetched. The program counter is past
    /// it.
    HaltOpcode,
    /// The opcode under the program counter cannot be executed.
    IllegalOpcode,
}

/// How a run ended.
#[derive(Clone, Copy, Debug, PartialEq, Eq, Structural)]
pub enum RunResult {
    /// The next instruction would have exceeded the budget. Holds the cycles
    /// used.
    Completed(u64),
    /// The run halted, for the reason given.
    Halted(HaltReason),
    /// The opcode, found at the address, cannot be executed.
    Fault(u8, u16),
}

/// Registers, cells and result at the end of a run.
pub struct RunEnd {
    pub cpu: Cpu,
    pub cells: Seq<u8>,
    pub result: RunResult,
}

/// Cells that are all zero.
pub open spec fn zeroed_cells() -> Seq<u8> {
    Seq::new(MEM_SIZE as nat, |i: int| 0u8)
}

/// The cells after a reset: those of a loaded image stay, any others are
/// cleared.
pub open spec fn cells_after_reset(mem: Mem) -> Seq<u8> {
    if mem.image_loaded {
        mem@
    } else {
        zeroed_cells()
    }
}

/// The registers right after a reset that starts execution at `pc`.
pub open spec fn startup(pc: u16) -> Cpu {
    Cpu { pc, sp: STACK_TOP, a: 0, x: 0, y: 0, status: 0, cycles: 0 }
}

/// Whether the opcode under the program counter is the designated halt
/// opcode.
pub open spec fn halts_next(policy: RunPolicy, cpu: Cpu, cells: Seq<u8>) -> bool {
    policy.halt_opcode == Some(cells[cpu.pc as int])
}

/// Cycles that the budget must still hold for a run to go on: one for the
/// fetch of a halt opcode or of an opcode that cannot be executed, else the
/// cycles of the next step.
pub open spec fn attempt_cycles(policy: RunPolicy, cpu: Cpu, cells: Seq<u8>) -> int {
    if halts_next(policy, cpu, cells) || !executable(next_descriptor(cpu, cells)) {
        1
    } else {
        step_cycles(cpu, cells)
    }
}

/// The end of a run that has `budget` cycles in all and has used `used` of
/// them so far.
pub open spec fn run_from(
    policy: RunPolicy,
    cpu: Cpu,
    cells: Seq<u8>,
    budget: int,
    used: int,
) -> RunEnd
    decreases budget - used,
{
    if attempt_cycles(policy, cpu, cells) > budget - used {
        RunEnd { cpu, cells, result: RunResult::Completed(used as u64) }
    } else if halts_next(policy, cpu, cells) {
        RunEnd {
            cpu: after_fetch(cpu, 1),
            cells,
            result: RunResult::Halted(HaltReason::HaltOpcode),
        }
    } else if executable(next_descriptor(cpu, cells)) {
        proof {
            lemma_step_cycles_add_up(cpu, cells);
        }
        run_from(
            policy,
            after_step(cpu, cells).cpu,
            after_step(cpu, cells).cells,
            budget,
            used + step_cycles(cpu, cells),
        )
    } else {
        match policy.on_fault {
            FaultPolicy::Abort => RunEnd {
                cpu,
                cells,
                result: RunResult::Fault(cells[cpu.pc as int], cpu.pc),
            },
            FaultPolicy::Halt => RunEnd {
                cpu,
                cells,
                result: RunResult::Halted(HaltReason::IllegalOpcode),
            },
            FaultPolicy::Skip => run_from(policy, after_fetch(cpu, 1), cells, budget, used + 1),
        }
    }
}

/// The end of a run of `budget` cycles.
pub open spec fn run_end(policy: RunPolicy, cpu: Cpu, cells: Seq<u8>, budget: int) -> RunEnd {
    run_from(policy, cpu, cells, budget, 0)
}

impl RunPolicy {
    /// Whether `opcode` is the designated halt opcode.
    pub fn halts_at(&self, opcode: u8) -> (yes: bool)
        ensures
            yes == (self.halt_opcode == Some(opcode)),
    {
        match self.halt_opcode {
            Some(halt) => halt == opcode,
            None => false,
        }
    }
}

/// Puts the machine into its startup state. The cells of a loaded image
/// stay, any others are cleared. The program counter is taken from the
/// reset vector, the stack pointer is at the top of the stack page, and the
/// other registers, the flags and the cycle counter are zero.
pub fn reset(cpu: &mut Cpu, mem: &mut Mem)
    ensures
        final(mem)@ == cells_after_reset(*old(mem)),
        final(mem).image_loaded == old(mem).image_loaded,
        *final(cpu) == startup(word_at(final(mem)@, RESET_VECTOR)),
        final(cpu).wf(),
{
    if !mem.image_loaded {
        mem.data = [0u8; MEM_SIZE];
    }
    let start: u16 = mem.peek_word(RESET_VECTOR);
    reset_registers(cpu, start);
}

/// Puts the machine into its startup state as `reset` does, with the
/// program counter at `start` whatever the reset vector holds.
pub fn reset_at(cpu: &mut Cpu, mem: &mut Mem, start: u16)
    ensures
        final(mem)@ == cells_after_reset(*old(mem)),
        final(mem).image_loaded == old(mem).image_loaded,
        *final(cpu) == startup(start),
        final(cpu).wf(),
{
    if !mem.image_loaded {
        mem.data = [0u8; MEM_SIZE];
    }
    reset_registers(cpu, start);
}

/// Sets the registers to their startup values.
fn reset_registers(cpu: &mut Cpu, start: u16)
    ensures
        *final(cpu) == startup(start),
        final(cpu).wf(),
{
    cpu.pc = start;
    cpu.sp = STACK_TOP;
    cpu.a = 0;
    cpu.x = 0;
    cpu.y = 0;
    cpu.status = 0;
    cpu.cycles = 0;
    assert(0u8 & 0x20u8 == 0) by (bit_vector);
}

/// Runs whole instructions within `cycle_budget` cycles and tells how the
/// run ended.
pub fn run(cpu: &mut Cpu, mem: &mut Mem, cycle_budget: u64, policy: &RunPolicy) -> (result:
    RunResult)
    requires
        old(cpu).cycles + cycle_budget <= u64::MAX,
    ensures
        (RunEnd { cpu: *final(cpu), cells: final(mem)@, result }) == run_end(
            *policy,
            *old(cpu),
            old(mem)@,
            cycle_budget as int,
        ),
        final(mem).image_loaded == old(mem).image_loaded,
        old(cpu).cycles <= final(cpu).cycles <= old(cpu).cycles + cycle_budget,
        result matches RunResult::Completed(used) ==> final(cpu).cycles == old(cpu).cycles + used,
        cycle_budget == 0 ==> result == RunResult::Completed(0) && *final(cpu) == *old(cpu)
            && *final(mem) == *old(mem),
        old(cpu).wf() ==> final(cpu).wf(),
{
    let mut used: u64 = 0;
    loop
        invariant
            used <= cycle_budget,
            cpu.cycles == old(cpu).cycles + used,
            old(cpu).cycles + cycle_budget <= u64::MAX,
            run_from(*policy, *cpu, mem@, cycle_budget as int, used as int) == run_end(
                *policy,
                *old(cpu),
                old(mem)@,
                cycle_budget as int,
            ),
            mem.image_loaded == old(mem).image_loaded,
            old(cpu).wf() ==> cpu.wf(),
            used == 0 ==> *cpu == *old(cpu) && *mem == *old(mem),
        decreases cycle_budget - used,
    {
        let opcode: u8 = mem.peek(cpu.pc);
        let halting: bool = policy.halts_at(opcode);
        let d: InstructionDescriptor = lookup(opcode);
        let runnable: bool = d.is_executable();
        let cost: u64 = if halting || !runnable {
            1
        } else {
            next_step_cycles(cpu, mem)
        };
        proof {
            if runnable {
                lemma_step_cycles_add_up(*cpu, mem@);
            }
        }
        if cost > cycle_budget - used {
            return RunResult::Completed(used);
        }
        if halting {
            fetch_next_byte(cpu, mem);
            return RunResult::Halted(HaltReason::HaltOpcode);
        }
        match step(cpu, mem) {
            Ok(cycles) => {
                used = used + cycles;
            },
            Err(fault) => match policy.on_fault {
                FaultPolicy::Abort => {
                    return RunResult::Fault(fault.opcode, fault.pc);
                },
                FaultPolicy::Halt => {
                    return RunResult::Halted(HaltReason::IllegalOpcode);
                },
                FaultPolicy::Skip => {
                    fetch_next_byte(cpu, mem);
                    used = used + 1;
                },
            },
        }
    }
}

/// A run with no budget changes nothing and completes with no cycle used.
pub proof fn lemma_run_without_budget(policy: RunPolicy, cpu: Cpu, cells: Seq<u8>)
    ensures
        run_end(policy, cpu, cells, 0) == (RunEnd { cpu, cells, result: RunResult::Completed(0) }),
{
    if executable(next_descriptor(cpu, cells)) {
        lemma_step_cycles_add_up(cpu, cells);
    }
}

/// A run never uses more cycles than its budget, the cycle counter never
/// goes back, and a run that completes reports exactly the cycles by which
/// the counter went up.
pub proof fn lemma_run_stays_within_budget(
    policy: RunPolicy,
    cpu: Cpu,
    cells: Seq<u8>,
    budget: int,
    used: int,
)
    requires
        0 <= used <= budget <= u64::MAX,
        cpu.cycles + (budget - used) <= u64::MAX,
    ensures
        cpu.cycles <= run_from(policy, cpu, cells, budget, used).cpu.cycles <= cpu.cycles + (budget
            - used),
        run_from(policy, cpu, cells, budget, used).result matches RunResult::Completed(total)
            ==> total - used == run_from(policy, cpu, cells, budget, used).cpu.cycles - cpu.cycles,
    decreases budget - used,
{
    if attempt_cycles(policy, cpu, cells) > budget - used {
    } else if halts_next(policy, cpu, cells) {
    } else if executable(next_descriptor(cpu, cells)) {
        lemma_step_cycles_add_up(cpu, cells);
        lemma_step_charges_its_cycles(cpu, cells);
        lemma_run_stays_within_budget(
            policy,
            after_step(cpu, cells).cpu,
            after_step(cpu, cells).cells,
            budget,
            used + step_cycles(cpu, cells),
        );
    } else {
        match policy.on_fault {
            FaultPolicy::Skip => {
                lemma_run_stays_within_budget(
                    policy,
                    after_fetch(cpu, 1),
                    cells,
                    budget,
                    used + 1,
                );
            },
            _ => {},
        }
    }
}

} // verus!
