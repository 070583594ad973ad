//! Addressing modes: where an instruction finds its operand, and what
//! finding it costs beyond the bytes taken from the instruction stream.
//!
//! | mode            | operand                                   | extra cycles          |
//! |-----------------|-------------------------------------------|-----------------------|
//! | immediate       | the next byte is the value                | 0                     |
//! | zero page       | the next byte is the address              | 0                     |
//! | zero page, X/Y  | next byte plus index, wrapping at 256     | 1                     |
//! | absolute        | the next word is the address              | 0                     |
//! | absolute, X/Y   | next word plus index, wrapping at 65536   | 1 if the page changes |
//!
//! An instruction may ask that the absolute indexed modes charge their cycle
//! whether the page changes or not.

use vstd::prelude::*;
use crate::bus::{after_fetch, fetch_next_byte, fetch_next_word};
use crate::memory::{high_byte, high_byte_of, word_at, wrap16, wrap8, Mem};
use crate::registers::Cpu;

verus! {

/// The rule by which an instruction locates its operand.
#[derive(Clone, Copy, Debug, PartialEq, Eq, Structural)]
pub enum AddressingMode {
    Immediate,
    ZeroPage,
    ZeroPageX,
    ZeroPageY,
    Absolute,
    AbsoluteX,
    AbsoluteY,
}

/// What a mode resolves to: the operand itself, or the address that holds it.
#[derive(Clone, Copy, Debug, PartialEq, Eq, Structural)]
pub enum Operand {
    Value(u8),
    Address(u16),
}

/// An operand together with the cycles that resolving it costs beyond the
/// bus accesses made for it.
#[derive(Clone, Copy, Debug, PartialEq, Eq, Structural)]
pub struct Resolved {
    pub operand: Operand,
    pub extra_cycles: u8,
}

/// Number of bytes that `mode` takes from the instruction stream.
pub open spec fn operand_bytes(mode: AddressingMode) -> int {
    match mode {
        AddressingMode::Immediate
        | AddressingMode::ZeroPage
        | AddressingMode::ZeroPageX
        | AddressingMode::ZeroPageY => 1,
        AddressingMode::Absolute | AddressingMode::AbsoluteX | AddressingMode::AbsoluteY => 2,
    }
}

/// The index register that `mode` adds, or zero where it adds none.
pub open spec fn index_of(mode: AddressingMode, cpu: Cpu) -> u8 {
    match mode {
        AddressingMode::ZeroPageX | AddressingMode::AbsoluteX => cpu.x,
        AddressingMode::ZeroPageY | AddressingMode::AbsoluteY => cpu.y,
        _ => 0,
    }
}

/// Whether `mode` adds an index register to a 16-bit base.
pub open spec fn is_absolute_indexed(mode: AddressingMode) -> bool {
    mode == AddressingMode::AbsoluteX || mode == AddressingMode::AbsoluteY
}

/// Whether `mode` adds an index register to a zero-page base.
pub open spec fn is_zero_page_indexed(mode: AddressingMode) -> bool {
    mode == AddressingMode::ZeroPageX || mode == AddressingMode::ZeroPageY
}

/// The address that `mode` names, with the operand bytes at the program
/// counter. The immediate mode names the address of the operand byte itself.
pub open spec fn effective_address(mode: AddressingMode, cpu: Cpu, cells: Seq<u8>) -> u16 {
    match mode {
        AddressingMode::Immediate => cpu.pc,
        AddressingMode::ZeroPage => cells[cpu.pc as int] as u16,
        AddressingMode::ZeroPageX | AddressingMode::ZeroPageY => wrap8(
            cells[cpu.pc as int] + index_of(mode, cpu),
        ) as u16,
        AddressingMode::Absolute => word_at(cells, cpu.pc),
        AddressingMode::AbsoluteX | AddressingMode::AbsoluteY => wrap16(
            word_at(cells, cpu.pc) + index_of(mode, cpu),
        ),
    }
}

/// Whether adding the index in an absolute indexed mode leaves the page of
/// the base address.
pub open spec fn page_crossed(mode: AddressingMode, cpu: Cpu, cells: Seq<u8>) -> bool {
    is_absolute_indexed(mode) && high_byte(word_at(cells, cpu.pc)) != high_byte(
        effective_address(mode, cpu, cells),
    )
}

/// The cycle that the zero-page indexed modes always spend on adding the
/// index.
pub open spec fn index_cycles(mode: AddressingMode) -> int {
    if is_zero_page_indexed(mode) {
        1
    } else {
        0
    }
}

/// The cycle that the absolute indexed modes spend when the page changes,
/// or, with `always_penalize`, in any case.
pub open spec fn crossing_cycles(
    mode: AddressingMode,
    cpu: Cpu,
    cells: Seq<u8>,
    always_penalize: bool,
) -> int {
    if is_absolute_indexed(mode) && (always_penalize || page_crossed(mode, cpu, cells)) {
        1
    } else {
        0
    }
}

/// The cycles that resolving `mode` costs beyond its bus accesses.
pub open spec fn extra_cycles(
    mode: AddressingMode,
    cpu: Cpu,
    cells: Seq<u8>,
    always_penalize: bool,
) -> int {
    index_cycles(mode) + crossing_cycles(mode, cpu, cells, always_penalize)
}

/// What `mode` resolves to, with the operand bytes at the program counter.
pub open spec fn resolved(
    mode: AddressingMode,
    cpu: Cpu,
    cells: Seq<u8>,
    always_penalize: bool,
) -> Resolved {
    Resolved {
        operand: if mode == AddressingMode::Immediate {
            Operand::Value(cells[cpu.pc as int])
        } else {
            Operand::Address(effective_address(mode, cpu, cells))
        },
        extra_cycles: extra_cycles(mode, cpu, cells, always_penalize) as u8,
    }
}

impl AddressingMode {
    /// Number of bytes that the mode takes from the instruction stream.
    pub fn operand_len(&self) -> (len: u16)
        ensures
            len == operand_bytes(*self),
    {
        match self {
            AddressingMode::Immediate
            | AddressingMode::ZeroPage
            | AddressingMode::ZeroPageX
            | AddressingMode::ZeroPageY => 1,
            AddressingMode::Absolute | AddressingMode::AbsoluteX | AddressingMode::AbsoluteY => 2,
        }
    }
}

/// The cycle that an absolute indexed mode would spend on a page change if
/// it were resolved now, with the operand bytes at the program counter.
/// Nothing is read over the bus and nothing changes.
pub fn peek_crossing_cycles(
    mode: AddressingMode,
    cpu: &Cpu,
    mem: &Mem,
    always_penalize: bool,
) -> (cycles: u8)
    ensures
        cycles == crossing_cycles(mode, *cpu, mem@, always_penalize),
{
    let index: u8 = match mode {
        AddressingMode::AbsoluteX => cpu.x,
        AddressingMode::AbsoluteY => cpu.y,
        _ => {
            return 0;
        },
    };
    let base: u16 = mem.peek_word(cpu.pc);
    let addr: u16 = base.wrapping_add(index as u16);
    if always_penalize || high_byte_of(base) != high_byte_of(addr) {
        1
    } else {
        0
    }
}

/// Resolves a zero-page mode that adds `index`.
fn resolve_zero_page_indexed(cpu: &mut Cpu, mem: &mut Mem, index: u8) -> (r: Resolved)
    requires
        old(cpu).cycles + 1 <= u64::MAX,
    ensures
        r.operand == Operand::Address(wrap8(old(mem)@[old(cpu).pc as int] + index) as u16),
        r.extra_cycles == 1,
        *final(cpu) == after_fetch(*old(cpu), 1),
        *final(mem) == *old(mem),
{
    let base: u8 = fetch_next_byte(cpu, mem);
    let addr: u8 = base.wrapping_add(index);
    Resolved { operand: Operand::Address(addr as u16), extra_cycles: 1 }
}

/// Resolves an absolute mode that adds `index`.
fn resolve_absolute_indexed(
    cpu: &mut Cpu,
    mem: &mut Mem,
    index: u8,
    always_penalize: bool,
) -> (r: Resolved)
    requires
        old(cpu).cycles + 2 <= u64::MAX,
    ensures
        r.operand == Operand::Address(wrap16(word_at(old(mem)@, old(cpu).pc) + index)),
        r.extra_cycles == if always_penalize || high_byte(word_at(old(mem)@, old(cpu).pc))
            != high_byte(wrap16(word_at(old(mem)@, old(cpu).pc) + index)) {
            1u8
        } else {
            0u8
        },
        *final(cpu) == after_fetch(*old(cpu), 2),
        *final(mem) == *old(mem),
{
    let base: u16 = fetch_next_word(cpu, mem);
    let addr: u16 = base.wrapping_add(index as u16);
    let crossed: bool = high_byte_of(base) != high_byte_of(addr);
    Resolved {
        operand: Operand::Address(addr),
        extra_cycles: if always_penalize || crossed {
            1
        } else {
            0
        },
    }
}

/// Resolves `mode`: takes the operand bytes from the instruction stream, one
/// cycle each, and returns the operand with the extra cycles that the mode
/// costs. The extra cycles are returned, not charged.
pub fn resolve_operand(
    cpu: &mut Cpu,
    mem: &mut Mem,
    mode: AddressingMode,
    always_penalize: bool,
) -> (r: Resolved)
    requires
        old(cpu).cycles + operand_bytes(mode) <= u64::MAX,
    ensures
        r == resolved(mode, *old(cpu), old(mem)@, always_penalize),
        *final(cpu) == after_fetch(*old(cpu), operand_bytes(mode)),
        *final(mem) == *old(mem),
{
    match mode {
        AddressingMode::Immediate => {
            let value: u8 = fetch_next_byte(cpu, mem);
            Resolved { operand: Operand::Value(value), extra_cycles: 0 }
        },
        AddressingMode::ZeroPage => {
            let base: u8 = fetch_next_byte(cpu, mem);
            Resolved { operand: Operand::Address(base as u16), extra_cycles: 0 }
        },
        AddressingMode::ZeroPageX => resolve_zero_page_indexed(cpu, mem, cpu.x),
        AddressingMode::ZeroPageY => resolve_zero_page_indexed(cpu, mem, cpu.y),
        AddressingMode::Absolute => {
            let addr: u16 = fetch_next_word(cpu, mem);
            Resolved { operand: Operand::Address(addr), extra_cycles: 0 }
        },
        AddressingMode::AbsoluteX => resolve_absolute_indexed(cpu, mem, cpu.x, always_penalize),
        AddressingMode::AbsoluteY => resolve_absolute_indexed(cpu, mem, cpu.y, always_penalize),
    }
}

/// A zero-page indexed address never leaves the zero page: the sum of base
/// and index wraps at 256.
pub proof fn lemma_zero_page_indexed_wraps(mode: AddressingMode, cpu: Cpu, cells: Seq<u8>)
    requires
        is_zero_page_indexed(mode),
    ensures
        high_byte(effective_address(mode, cpu, cells)) == 0,
        effective_address(mode, cpu, cells) == (cells[cpu.pc as int] + index_of(mode, cpu)) % 256,
{
}

/// An absolute indexed mode costs one cycle more when the index carries the
/// address into another page than when it does not, unless the instruction
/// pays the cycle in any case.
pub proof fn lemma_crossing_costs_one_cycle(
    mode: AddressingMode,
    crossing: Cpu,
    crossing_cells: Seq<u8>,
    staying: Cpu,
    staying_cells: Seq<u8>,
)
    requires
        is_absolute_indexed(mode),
        page_crossed(mode, crossing, crossing_cells),
        !page_crossed(mode, staying, staying_cells),
    ensures
        extra_cycles(mode, crossing, crossing_cells, false) == extra_cycles(
            mode,
            staying,
            staying_cells,
            false,
        ) + 1,
        extra_cycles(mode, crossing, crossing_cells, true) == extra_cycles(
            mode,
            staying,
            staying_cells,
            true,
        ),
{
}

} // verus!
