//! Cycle-charged access to memory: plain reads and writes, the instruction
//! stream, and the stack.
//!
//! Every byte that crosses the bus costs one cycle, and a word costs two.
//! The stack lives in page 1. The stack pointer is an offset within that
//! page: a push stores at the pointer and then moves it down, a pop moves it
//! up and then reads, and both wrap within the page.

use vstd::prelude::*;
use crate::memory::{
    high_byte, high_byte_of, low_byte, low_byte_of, make_word, with_word, word_at, word_of, wrap16,
    wrap8, Mem, STACK_PAGE,
};
use crate::registers::{charged, Cpu};

verus! {

/// The address of the stack cell at offset `sp`.
pub open spec fn stack_addr(sp: u8) -> u16 {
    (STACK_PAGE + sp) as u16
}

/// The registers after `bytes` bytes were taken from the instruction stream.
pub open spec fn after_fetch(cpu: Cpu, bytes: int) -> Cpu {
    Cpu { pc: wrap16(cpu.pc + bytes), cycles: (cpu.cycles + bytes) as u64, ..cpu }
}

/// The registers after `bytes` bytes were pushed.
pub open spec fn after_push(cpu: Cpu, bytes: int) -> Cpu {
    Cpu { sp: wrap8(cpu.sp - bytes), cycles: (cpu.cycles + bytes) as u64, ..cpu }
}

/// The registers after `bytes` bytes were popped.
pub open spec fn after_pop(cpu: Cpu, bytes: int) -> Cpu {
    Cpu { sp: wrap8(cpu.sp + bytes), cycles: (cpu.cycles + bytes) as u64, ..cpu }
}

/// The cells after the byte `data` was pushed with the stack pointer at `sp`.
pub open spec fn cells_after_push_byte(cells: Seq<u8>, sp: u8, data: u8) -> Seq<u8> {
    cells.update(stack_addr(sp) as int, data)
}

/// The cells after the word `data` was pushed with the stack pointer at
/// `sp`: the high byte at `sp`, the low byte one cell below.
pub open spec fn cells_after_push_word(cells: Seq<u8>, sp: u8, data: u16) -> Seq<u8> {
    cells.update(stack_addr(sp) as int, high_byte(data)).update(
        stack_addr(wrap8(sp - 1)) as int,
        low_byte(data),
    )
}

/// The word that a pop of two bytes yields with the stack pointer at `sp`:
/// the low byte from one cell above `sp`, the high byte from two above.
pub open spec fn popped_word(cells: Seq<u8>, sp: u8) -> u16 {
    word_of(cells[stack_addr(wrap8(sp + 1)) as int], cells[stack_addr(wrap8(sp + 2)) as int])
}

/// Reads the byte at `addr`, for one cycle.
pub fn read_byte(cpu: &mut Cpu, mem: &mut Mem, addr: u16) -> (data: u8)
    requires
        old(cpu).cycles + 1 <= u64::MAX,
    ensures
        data == old(mem)@[addr as int],
        *final(cpu) == charged(*old(cpu), 1),
        *final(mem) == *old(mem),
{
    let data: u8 = mem.data[addr as usize];
    cpu.cycles = cpu.cycles + 1;
    data
}

/// Reads the little-endian word at `addr`, for two cycles. The address of
/// the high byte wraps.
pub fn read_word(cpu: &mut Cpu, mem: &mut Mem, addr: u16) -> (data: u16)
    requires
        old(cpu).cycles + 2 <= u64::MAX,
    ensures
        data == word_at(old(mem)@, addr),
        *final(cpu) == charged(*old(cpu), 2),
        *final(mem) == *old(mem),
{
    let lo: u8 = read_byte(cpu, mem, addr);
    let hi: u8 = read_byte(cpu, mem, addr.wrapping_add(1));
    make_word(lo, hi)
}

/// Writes `data` at `addr`, for one cycle.
pub fn write_byte(cpu: &mut Cpu, mem: &mut Mem, addr: u16, data: u8)
    requires
        old(cpu).cycles + 1 <= u64::MAX,
    ensures
        final(mem)@ == old(mem)@.update(addr as int, data),
        final(mem).image_loaded == old(mem).image_loaded,
        *final(cpu) == charged(*old(cpu), 1),
{
    mem.data[addr as usize] = data;
    cpu.cycles = cpu.cycles + 1;
}

/// Writes the word `data` at `addr`, little-endian, for two cycles. The
/// address of the high byte wraps.
pub fn write_word(cpu: &mut Cpu, mem: &mut Mem, addr: u16, data: u16)
    requires
        old(cpu).cycles + 2 <= u64::MAX,
    ensures
        final(mem)@ == with_word(old(mem)@, addr, data),
        final(mem).image_loaded == old(mem).image_loaded,
        *final(cpu) == charged(*old(cpu), 2),
{
    write_byte(cpu, mem, addr, low_byte_of(data));
    write_byte(cpu, mem, addr.wrapping_add(1), high_byte_of(data));
}

/// Takes the next byte of the instruction stream, for one cycle: the byte
/// at the program counter, which then moves on by one.
pub fn fetch_next_byte(cpu: &mut Cpu, mem: &mut Mem) -> (data: u8)
    requires
        old(cpu).cycles + 1 <= u64::MAX,
    ensures
        data == old(mem)@[old(cpu).pc as int],
        *final(cpu) == after_fetch(*old(cpu), 1),
        *final(mem) == *old(mem),
{
    let data: u8 = mem.data[cpu.pc as usize];
    cpu.pc = cpu.pc.wrapping_add(1);
    cpu.cycles = cpu.cycles + 1;
    data
}

/// Takes the next little-endian word of the instruction stream, for two
/// cycles. The program counter moves on by two.
pub fn fetch_next_word(cpu: &mut Cpu, mem: &mut Mem) -> (data: u16)
    requires
        old(cpu).cycles + 2 <= u64::MAX,
    ensures
        data == word_at(old(mem)@, old(cpu).pc),
        *final(cpu) == after_fetch(*old(cpu), 2),
        *final(mem) == *old(mem),
{
    let b1: u8 = fetch_next_byte(cpu, mem);
    let b2: u8 = fetch_next_byte(cpu, mem);
    make_word(b1, b2)
}

/// Pushes `data`, for one cycle: stores it at the stack pointer, which then
/// moves down by one.
pub fn push_byte(cpu: &mut Cpu, mem: &mut Mem, data: u8)
    requires
        old(cpu).cycles + 1 <= u64::MAX,
    ensures
        final(mem)@ == cells_after_push_byte(old(mem)@, old(cpu).sp, data),
        final(mem).image_loaded == old(mem).image_loaded,
        *final(cpu) == after_push(*old(cpu), 1),
{
    let addr: u16 = STACK_PAGE + cpu.sp as u16;
    write_byte(cpu, mem, addr, data);
    cpu.sp = cpu.sp.wrapping_sub(1);
}

/// Pushes the word `data`, for two cycles: the high byte first, then the
/// low byte below it.
pub fn push_word(cpu: &mut Cpu, mem: &mut Mem, data: u16)
    requires
        old(cpu).cycles + 2 <= u64::MAX,
    ensures
        final(mem)@ == cells_after_push_word(old(mem)@, old(cpu).sp, data),
        final(mem).image_loaded == old(mem).image_loaded,
        *final(cpu) == after_push(*old(cpu), 2),
{
    push_byte(cpu, mem, high_byte_of(data));
    push_byte(cpu, mem, low_byte_of(data));
}

/// Pops a byte, for one cycle: the stack pointer moves up by one, and the
/// byte there is read.
pub fn pop_byte(cpu: &mut Cpu, mem: &mut Mem) -> (data: u8)
    requires
        old(cpu).cycles + 1 <= u64::MAX,
    ensures
        data == old(mem)@[stack_addr(wrap8(old(cpu).sp + 1)) as int],
        *final(cpu) == after_pop(*old(cpu), 1),
        *final(mem) == *old(mem),
{
    cpu.sp = cpu.sp.wrapping_add(1);
    let addr: u16 = STACK_PAGE + cpu.sp as u16;
    read_byte(cpu, mem, addr)
}

/// Pops a word, for two cycles: the low byte first, then the high byte
/// above it.
pub fn pop_word(cpu: &mut Cpu, mem: &mut Mem) -> (data: u16)
    requires
        old(cpu).cycles + 2 <= u64::MAX,
    ensures
        data == popped_word(old(mem)@, old(cpu).sp),
        *final(cpu) == after_pop(*old(cpu), 2),
        *final(mem) == *old(mem),
{
    let lo: u8 = pop_byte(cpu, mem);
    let hi: u8 = pop_byte(cpu, mem);
    make_word(lo, hi)
}

/// A word that was pushed is the word that the next pop yields, and the pop
/// puts the stack pointer back where it was before the push.
pub proof fn lemma_push_pop_word(cpu: Cpu, cells: Seq<u8>, data: u16)
    requires
        cells.len() == 0x1_0000,
    ensures
        popped_word(cells_after_push_word(cells, cpu.sp, data), after_push(cpu, 2).sp) == data,
        after_pop(after_push(cpu, 2), 2).sp == cpu.sp,
        after_push(cpu, 2).sp == wrap8(cpu.sp - 2),
{
}

/// A byte that was pushed is the byte that the next pop yields, and the pop
/// puts the stack pointer back where it was before the push.
pub proof fn lemma_push_pop_byte(cpu: Cpu, cells: Seq<u8>, data: u8)
    requires
        cells.len() == 0x1_0000,
    ensures
        cells_after_push_byte(cells, cpu.sp, data)[stack_addr(wrap8(after_push(cpu, 1).sp + 1)) as int]
            == data,
        after_pop(after_push(cpu, 1), 1).sp == cpu.sp,
{
}

/// A push writes inside the stack page and nowhere else.
pub proof fn lemma_push_stays_in_stack_page(cells: Seq<u8>, sp: u8, data: u16, addr: u16)
    requires
        cells.len() == 0x1_0000,
        high_byte(addr) != 1,
    ensures
        cells_after_push_word(cells, sp, data)[addr as int] == cells[addr as int],
        cells_after_push_byte(cells, sp, low_byte(data))[addr as int] == cells[addr as int],
{
}

} // verus!
