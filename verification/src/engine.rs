//! The instructions and the step that executes one of them.
//!
//! A step looks at the opcode under the program counter. If the table has
//! nothing executable for it, the step reports a fault and changes nothing.
//! Otherwise it fetches the opcode, resolves the operand and carries the
//! instruction out. The cycles of a step are those of its bus accesses plus
//! the extra cycles of its addressing mode plus, for a jump to a subroutine,
//! one internal cycle; they add up to the base cost that the table records
//! plus the page-crossing cycle, if one is due.

use vstd::prelude::*;
use crate::addressing::{
    crossing_cycles, effective_address, extra_cycles, is_absolute_indexed, operand_bytes,
    page_crossed, peek_crossing_cycles, resolve_operand, AddressingMode, Operand, Resolved,
};
use crate::bus::{
    after_fetch, after_pop, cells_after_push_word, fetch_next_byte, fetch_next_word, popped_word,
    push_word, read_byte,
};
use crate::memory::{word_at, wrap16, wrap8, Mem};
use crate::registers::{
    flag_is_set, lda_set_status, lemma_status_with_nz, status_with_nz, Cpu, STATUS_FLAG_N,
    STATUS_FLAG_Z,
};
use crate::table::{
    descriptor_of, executable, lookup, InstructionDescriptor, Handler, INSTR_JSR, INSTR_LDA_IM,
};

verus! {

/// The fetched byte names no instruction that can be executed.
#[derive(Clone, Copy, Debug, PartialEq, Eq, Structural)]
pub struct IllegalOpcode {
    /// The offending byte.
    pub opcode: u8,
    /// The address it was found at.
    pub pc: u16,
}

/// Registers and memory cells together.
pub struct Machine {
    pub cpu: Cpu,
    pub cells: Seq<u8>,
}

/// Cycles that reading the operand of a load costs once it is resolved: one
/// for a read from memory, none for an immediate value.
pub open spec fn access_cycles(mode: AddressingMode) -> int {
    if mode == AddressingMode::Immediate {
        0
    } else {
        1
    }
}

/// The value that a load in `mode` takes, with the operand bytes at the
/// program counter.
pub open spec fn loaded_value(mode: AddressingMode, cpu: Cpu, cells: Seq<u8>) -> u8 {
    cells[effective_address(mode, cpu, cells) as int]
}

/// Cycles that a load takes once its opcode is fetched.
pub open spec fn lda_cycles(
    mode: AddressingMode,
    cpu: Cpu,
    cells: Seq<u8>,
    always_penalize: bool,
) -> int {
    operand_bytes(mode) + extra_cycles(mode, cpu, cells, always_penalize) + access_cycles(mode)
}

/// The registers after a load in `mode`, with the operand bytes at the
/// program counter: the accumulator holds the value, Z and N follow it, and
/// the program counter is past the operand.
pub open spec fn after_lda(
    mode: AddressingMode,
    cpu: Cpu,
    cells: Seq<u8>,
    always_penalize: bool,
) -> Cpu {
    let value = loaded_value(mode, cpu, cells);
    Cpu {
        pc: wrap16(cpu.pc + operand_bytes(mode)),
        a: value,
        status: status_with_nz(cpu.status, value),
        cycles: (cpu.cycles + lda_cycles(mode, cpu, cells, always_penalize)) as u64,
        ..cpu
    }
}

/// Cycles that a jump to a subroutine takes once its opcode is fetched: two
/// for the target, two for the pushes and one internal.
pub open spec fn jsr_cycles() -> int {
    5
}

/// The address that a jump to a subroutine pushes, with the target bytes at
/// the program counter: the address of the instruction's last byte, one
/// less than the address that follows the target.
pub open spec fn jsr_return_address(cpu: Cpu) -> u16 {
    wrap16(cpu.pc + 1)
}

/// The registers after a jump to a subroutine, with the target bytes at the
/// program counter.
pub open spec fn after_jsr(cpu: Cpu, cells: Seq<u8>) -> Cpu {
    Cpu {
        pc: word_at(cells, cpu.pc),
        sp: wrap8(cpu.sp - 2),
        cycles: (cpu.cycles + jsr_cycles()) as u64,
        ..cpu
    }
}

/// The cells after a jump to a subroutine: the return address is pushed,
/// high byte first.
pub open spec fn cells_after_jsr(cpu: Cpu, cells: Seq<u8>) -> Seq<u8> {
    cells_after_push_word(cells, cpu.sp, jsr_return_address(cpu))
}

/// Cycles that carrying out `d` takes once its opcode is fetched, with the
/// operand bytes at the program counter.
pub open spec fn dispatch_cycles(d: InstructionDescriptor, cpu: Cpu, cells: Seq<u8>) -> int {
    match (d.handler, d.mode) {
        (Handler::Lda, Some(mode)) => lda_cycles(mode, cpu, cells, d.always_penalize),
        (Handler::Jsr, Some(AddressingMode::Absolute)) => jsr_cycles(),
        _ => 0,
    }
}

/// Registers and cells after `d` is carried out, with the operand bytes at
/// the program counter.
pub open spec fn after_dispatch(d: InstructionDescriptor, cpu: Cpu, cells: Seq<u8>) -> Machine {
    match (d.handler, d.mode) {
        (Handler::Lda, Some(mode)) => Machine {
            cpu: after_lda(mode, cpu, cells, d.always_penalize),
            cells,
        },
        (Handler::Jsr, Some(AddressingMode::Absolute)) => Machine {
            cpu: after_jsr(cpu, cells),
            cells: cells_after_jsr(cpu, cells),
        },
        _ => Machine { cpu, cells },
    }
}

/// The descriptor of the opcode under the program counter.
pub open spec fn next_descriptor(cpu: Cpu, cells: Seq<u8>) -> InstructionDescriptor {
    descriptor_of(cells[cpu.pc as int])
}

/// Cycles that the next step takes: the base cost of the instruction under
/// the program counter plus its page-crossing cycle, if one is due. Zero
/// where the step faults.
pub open spec fn step_cycles(cpu: Cpu, cells: Seq<u8>) -> int {
    let d = next_descriptor(cpu, cells);
    match d.mode {
        Some(mode) if executable(d) => d.base_cycles + crossing_cycles(
            mode,
            after_fetch(cpu, 1),
            cells,
            d.always_penalize,
        ),
        _ => 0,
    }
}

/// Registers and cells after the next step. A step that faults leaves both
/// as they are.
pub open spec fn after_step(cpu: Cpu, cells: Seq<u8>) -> Machine {
    let d = next_descriptor(cpu, cells);
    if executable(d) {
        after_dispatch(d, after_fetch(cpu, 1), cells)
    } else {
        Machine { cpu, cells }
    }
}

/// What the next step returns.
pub open spec fn step_result(cpu: Cpu, cells: Seq<u8>) -> Result<u64, IllegalOpcode> {
    if executable(next_descriptor(cpu, cells)) {
        Ok(step_cycles(cpu, cells) as u64)
    } else {
        Err(IllegalOpcode { opcode: cells[cpu.pc as int], pc: cpu.pc })
    }
}

/// Loads the accumulator in `mode`, with the operand bytes at the program
/// counter, and sets Z and N from the value.
pub fn do_lda(cpu: &mut Cpu, mem: &mut Mem, mode: AddressingMode, always_penalize: bool)
    requires
        old(cpu).cycles + lda_cycles(mode, *old(cpu), old(mem)@, always_penalize) <= u64::MAX,
    ensures
        *final(cpu) == after_lda(mode, *old(cpu), old(mem)@, always_penalize),
        *final(mem) == *old(mem),
        old(cpu).wf() ==> final(cpu).wf(),
{
    let r: Resolved = resolve_operand(cpu, mem, mode, always_penalize);
    cpu.cycles = cpu.cycles + r.extra_cycles as u64;
    let value: u8 = match r.operand {
        Operand::Value(value) => value,
        Operand::Address(addr) => read_byte(cpu, mem, addr),
    };
    cpu.a = value;
    lda_set_status(cpu);
}

/// LDA with an immediate operand.
pub fn do_lda_im(cpu: &mut Cpu, mem: &mut Mem)
    requires
        old(cpu).cycles + 1 <= u64::MAX,
    ensures
        *final(cpu) == after_lda(AddressingMode::Immediate, *old(cpu), old(mem)@, false),
        *final(mem) == *old(mem),
        old(cpu).wf() ==> final(cpu).wf(),
{
    do_lda(cpu, mem, AddressingMode::Immediate, false);
}

/// LDA from the zero page.
pub fn do_lda_zero_page(cpu: &mut Cpu, mem: &mut Mem)
    requires
        old(cpu).cycles + 2 <= u64::MAX,
    ensures
        *final(cpu) == after_lda(AddressingMode::ZeroPage, *old(cpu), old(mem)@, false),
        *final(mem) == *old(mem),
        old(cpu).wf() ==> final(cpu).wf(),
{
    do_lda(cpu, mem, AddressingMode::ZeroPage, false);
}

/// LDA from the zero page, indexed by X.
pub fn do_lda_zero_page_x(cpu: &mut Cpu, mem: &mut Mem)
    requires
        old(cpu).cycles + 3 <= u64::MAX,
    ensures
        *final(cpu) == after_lda(AddressingMode::ZeroPageX, *old(cpu), old(mem)@, false),
        *final(mem) == *old(mem),
        old(cpu).wf() ==> final(cpu).wf(),
{
    do_lda(cpu, mem, AddressingMode::ZeroPageX, false);
}

/// Jumps to a subroutine, with the target bytes at the program counter:
/// reads the target, pushes the address of the instruction's last byte, and
/// continues at the target.
pub fn do_jsr(cpu: &mut Cpu, mem: &mut Mem)
    requires
        old(cpu).cycles + jsr_cycles() <= u64::MAX,
    ensures
        *final(cpu) == after_jsr(*old(cpu), old(mem)@),
        final(mem)@ == cells_after_jsr(*old(cpu), old(mem)@),
        final(mem).image_loaded == old(mem).image_loaded,
        old(cpu).wf() ==> final(cpu).wf(),
{
    let addr: u16 = fetch_next_word(cpu, mem);
    push_word(cpu, mem, cpu.pc.wrapping_sub(1));
    cpu.pc = addr;
    cpu.cycles = cpu.cycles + 1;
}

/// Carries out `d`, with the operand bytes at the program counter. A
/// descriptor that is not executable changes nothing.
pub fn dispatch(cpu: &mut Cpu, mem: &mut Mem, d: &InstructionDescriptor)
    requires
        old(cpu).cycles + dispatch_cycles(*d, *old(cpu), old(mem)@) <= u64::MAX,
    ensures
        *final(cpu) == after_dispatch(*d, *old(cpu), old(mem)@).cpu,
        final(mem)@ == after_dispatch(*d, *old(cpu), old(mem)@).cells,
        final(mem).image_loaded == old(mem).image_loaded,
        old(cpu).wf() ==> final(cpu).wf(),
{
    match (d.handler, d.mode) {
        (Handler::Lda, Some(mode)) => do_lda(cpu, mem, mode, d.always_penalize),
        (Handler::Jsr, Some(AddressingMode::Absolute)) => do_jsr(cpu, mem),
        _ => {},
    }
}

/// Cycles that the next step would take, zero if it would fault. Nothing is
/// read over the bus and nothing changes.
pub fn next_step_cycles(cpu: &Cpu, mem: &Mem) -> (cycles: u64)
    ensures
        cycles == step_cycles(*cpu, mem@),
{
    let d: InstructionDescriptor = lookup(mem.peek(cpu.pc));
    match d.mode {
        Some(mode) if d.is_executable() => {
            let at_operand: Cpu = Cpu { pc: cpu.pc.wrapping_add(1), ..*cpu };
            d.base_cycles as u64 + peek_crossing_cycles(
                mode,
                &at_operand,
                mem,
                d.always_penalize,
            ) as u64
        },
        _ => 0,
    }
}

/// Executes the instruction under the program counter and returns the
/// cycles it took. If the opcode names nothing executable, returns the
/// fault and leaves registers and memory exactly as they were.
pub fn step(cpu: &mut Cpu, mem: &mut Mem) -> (result: Result<u64, IllegalOpcode>)
    requires
        old(cpu).cycles + step_cycles(*old(cpu), old(mem)@) <= u64::MAX,
    ensures
        result == step_result(*old(cpu), old(mem)@),
        *final(cpu) == after_step(*old(cpu), old(mem)@).cpu,
        final(mem)@ == after_step(*old(cpu), old(mem)@).cells,
        final(mem).image_loaded == old(mem).image_loaded,
        final(cpu).cycles == old(cpu).cycles + step_cycles(*old(cpu), old(mem)@),
        result is Err ==> *final(cpu) == *old(cpu) && *final(mem) == *old(mem),
        old(cpu).wf() ==> final(cpu).wf(),
{
    let pc: u16 = cpu.pc;
    let opcode: u8 = mem.peek(pc);
    let d: InstructionDescriptor = lookup(opcode);
    if !d.is_executable() {
        return Err(IllegalOpcode { opcode, pc });
    }
    let before: u64 = cpu.cycles;
    proof {
        lemma_step_cycles_add_up(*cpu, mem@);
    }
    fetch_next_byte(cpu, mem);
    dispatch(cpu, mem, &d);
    Ok(cpu.cycles - before)
}

/// The base cost in the table is made of the step's own charges: for an
/// executable opcode, the opcode fetch and what carrying the instruction out
/// costs add up to the base cost plus the page-crossing cycle.
pub proof fn lemma_step_cycles_add_up(cpu: Cpu, cells: Seq<u8>)
    requires
        executable(next_descriptor(cpu, cells)),
    ensures
        step_cycles(cpu, cells) == 1 + dispatch_cycles(
            next_descriptor(cpu, cells),
            after_fetch(cpu, 1),
            cells,
        ),
        2 <= step_cycles(cpu, cells) <= 7,
{
}

/// The cycle counter goes up by exactly the cycles of the step.
pub proof fn lemma_step_charges_its_cycles(cpu: Cpu, cells: Seq<u8>)
    requires
        cpu.cycles + step_cycles(cpu, cells) <= u64::MAX,
    ensures
        after_step(cpu, cells).cpu.cycles == cpu.cycles + step_cycles(cpu, cells),
{
    if executable(next_descriptor(cpu, cells)) {
        lemma_step_cycles_add_up(cpu, cells);
    }
}

/// A load of the immediate value `value` puts it into the accumulator, sets
/// Z exactly when it is zero and N exactly when its bit 7 is set, moves the
/// program counter past the two bytes of the instruction and takes two
/// cycles. Nothing else changes.
pub proof fn lemma_lda_immediate(cpu: Cpu, cells: Seq<u8>, value: u8)
    requires
        cells[cpu.pc as int] == INSTR_LDA_IM,
        cells[wrap16(cpu.pc + 1) as int] == value,
        cpu.cycles + 2 <= u64::MAX,
    ensures
        step_result(cpu, cells) == Ok::<u64, IllegalOpcode>(2),
        after_step(cpu, cells).cells == cells,
        after_step(cpu, cells).cpu == (Cpu {
            pc: wrap16(cpu.pc + 2),
            a: value,
            status: status_with_nz(cpu.status, value),
            cycles: (cpu.cycles + 2) as u64,
            ..cpu
        }),
        flag_is_set(after_step(cpu, cells).cpu.status, STATUS_FLAG_Z) == (value == 0),
        flag_is_set(after_step(cpu, cells).cpu.status, STATUS_FLAG_N) == (value & 0x80 != 0),
{
    lemma_status_with_nz(cpu.status, value);
}

/// A jump to a subroutine continues at its target, moves the stack pointer
/// down by two and takes six cycles. The word it pushed is the address of
/// its own last byte, two past its opcode: a pop of a word yields that
/// address and puts the stack pointer back.
pub proof fn lemma_jsr_pushes_return_address(cpu: Cpu, cells: Seq<u8>)
    requires
        cells.len() == 0x1_0000,
        cells[cpu.pc as int] == INSTR_JSR,
    ensures
        step_result(cpu, cells) == Ok::<u64, IllegalOpcode>(6),
        after_step(cpu, cells).cpu.pc == word_at(cells, wrap16(cpu.pc + 1)),
        after_step(cpu, cells).cpu.sp == wrap8(cpu.sp - 2),
        popped_word(after_step(cpu, cells).cells, after_step(cpu, cells).cpu.sp) == wrap16(
            cpu.pc + 2,
        ),
        after_pop(after_step(cpu, cells).cpu, 2).sp == cpu.sp,
{
}

/// A load in an absolute indexed mode takes the base cost of its opcode,
/// and one cycle more exactly when the index carries the address into
/// another page.
pub proof fn lemma_page_crossing_costs_one_cycle(cpu: Cpu, cells: Seq<u8>)
    requires
        executable(next_descriptor(cpu, cells)),
        next_descriptor(cpu, cells).handler == Handler::Lda,
        is_absolute_indexed(next_descriptor(cpu, cells).mode->0),
    ensures
        step_cycles(cpu, cells) == next_descriptor(cpu, cells).base_cycles + if page_crossed(
            next_descriptor(cpu, cells).mode->0,
            after_fetch(cpu, 1),
            cells,
        ) {
            1int
        } else {
            0int
        },
        next_descriptor(cpu, cells).base_cycles == 4,
{
}

/// A byte for which the table has nothing executable makes the step report
/// that byte and its address, and leaves every register and every cell as
/// it was.
pub proof fn lemma_unmapped_opcode_faults(cpu: Cpu, cells: Seq<u8>)
    requires
        !executable(next_descriptor(cpu, cells)),
    ensures
        step_result(cpu, cells) == Err::<u64, IllegalOpcode>(
            IllegalOpcode { opcode: cells[cpu.pc as int], pc: cpu.pc },
        ),
        after_step(cpu, cells).cpu == cpu,
        after_step(cpu, cells).cells == cells,
        step_cycles(cpu, cells) == 0,
{
}

/// A step keeps the unused bit of the status byte clear.
pub proof fn lemma_step_preserves_wf(cpu: Cpu, cells: Seq<u8>)
    requires
        cpu.wf(),
    ensures
        after_step(cpu, cells).cpu.wf(),
{
    let d = next_descriptor(cpu, cells);
    if executable(d) && d.handler == Handler::Lda {
        let at_operand = after_fetch(cpu, 1);
        lemma_status_with_nz(cpu.status, loaded_value(d.mode->0, at_operand, cells));
    }
}

} // verus!
