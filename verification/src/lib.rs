//! Instruction-execution core of a cycle-stepped 6502-family processor.
//!
//! The core fetches opcodes from a flat 64 KiB address space, resolves
//! operands through the addressing modes, changes an explicit register file
//! and accounts for the cycles of every instruction. Registers and memory
//! are two values that the caller owns and hands to every function.

pub mod addressing;
pub mod arithmetic;
pub mod bus;
pub mod engine;
pub mod memory;
pub mod registers;
pub mod run;
pub mod table;

pub use addressing::{resolve_operand, AddressingMode, Operand, Resolved};
pub use bus::{
    fetch_next_byte, fetch_next_word, pop_byte, pop_word, push_byte, push_word, read_byte,
    read_word, write_byte, write_word,
};
pub use arithmetic::{add_with_carry, subtract_with_borrow, update_arithmetic_flags, Arithmetic};
pub use engine::{
    dispatch, do_jsr, do_lda, do_lda_im, do_lda_zero_page, do_lda_zero_page_x, next_step_cycles,
    step, IllegalOpcode,
};
pub use memory::{LoadError, Mem, MEM_SIZE};
pub use registers::{
    clear_status_flag, lda_set_status, set_status_flag, toggle_status_flag, update_nz, Cpu,
};
pub use run::{reset, reset_at, run, FaultPolicy, HaltReason, RunPolicy, RunResult};
pub use table::{lookup, Handler, InstructionDescriptor, Mnemonic};
