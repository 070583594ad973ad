//! The instruction table: a total map from opcode byte to descriptor.
//!
//! Every byte has a descriptor. One that names no executable instruction
//! has the handler `Unimplemented`, and the engine reports it as a fault.
//! To add an instruction, give its opcode a descriptor with a handler and
//! teach the engine's dispatcher that handler.

use vstd::prelude::*;
use crate::addressing::AddressingMode;

verus! {

/// JSR, absolute.
pub const INSTR_JSR: u8 = 0x20;

/// LDA, immediate.
pub const INSTR_LDA_IM: u8 = 0xa9;

/// LDA, zero page.
pub const INSTR_LDA_ZERO_PAGE: u8 = 0xa5;

/// LDA, zero page indexed by X.
pub const INSTR_LDA_ZERO_PAGE_X: u8 = 0xb5;

/// LDA, absolute.
pub const INSTR_LDA_ABSOLUTE: u8 = 0xad;

/// LDA, absolute indexed by X.
pub const INSTR_LDA_ABSOLUTE_X: u8 = 0xbd;

/// LDA, absolute indexed by Y.
pub const INSTR_LDA_ABSOLUTE_Y: u8 = 0xb9;

/// The name of an instruction.
#[derive(Clone, Copy, Debug, PartialEq, Eq, Structural)]
pub enum Mnemonic {
    Jsr,
    Lda,
    Ldx,
    Ldy,
    Lsr,
    /// The opcode names no instruction that the table knows.
    Unknown,
}

/// What the engine does for an instruction.
#[derive(Clone, Copy, Debug, PartialEq, Eq, Structural)]
pub enum Handler {
    /// Jump to a subroutine.
    Jsr,
    /// Load the accumulator.
    Lda,
    /// Nothing can be executed for this opcode.
    Unimplemented,
}

/// What the table records for one opcode.
#[derive(Clone, Copy, Debug, PartialEq, Eq, Structural)]
pub struct InstructionDescriptor {
    /// The opcode byte.
    pub opcode: u8,
    /// The instruction's name.
    pub mnemonic: Mnemonic,
    /// How the instruction finds its operand, where the table records it.
    pub mode: Option<AddressingMode>,
    /// What the engine does for it.
    pub handler: Handler,
    /// Cycles that the instruction takes, the opcode fetch included, when no
    /// page-crossing cycle is due. Zero where nothing can be executed.
    pub base_cycles: u8,
    /// Whether an absolute indexed mode charges its page-crossing cycle even
    /// when the page does not change.
    pub always_penalize: bool,
}

/// The descriptor of an instruction that the engine executes.
pub open spec fn implemented(
    opcode: u8,
    mnemonic: Mnemonic,
    mode: AddressingMode,
    handler: Handler,
    base_cycles: u8,
) -> InstructionDescriptor {
    InstructionDescriptor {
        opcode,
        mnemonic,
        mode: Some(mode),
        handler,
        base_cycles,
        always_penalize: false,
    }
}

/// The descriptor of an opcode for which nothing can be executed.
pub open spec fn unimplemented(
    opcode: u8,
    mnemonic: Mnemonic,
    mode: Option<AddressingMode>,
) -> InstructionDescriptor {
    InstructionDescriptor {
        opcode,
        mnemonic,
        mode,
        handler: Handler::Unimplemented,
        base_cycles: 0,
        always_penalize: false,
    }
}

/// The table itself.
pub open spec fn descriptor_of(opcode: u8) -> InstructionDescriptor {
    match opcode {
        0x20 => implemented(opcode, Mnemonic::Jsr, AddressingMode::Absolute, Handler::Jsr, 6),
        0xa9 => implemented(opcode, Mnemonic::Lda, AddressingMode::Immediate, Handler::Lda, 2),
        0xa5 => implemented(opcode, Mnemonic::Lda, AddressingMode::ZeroPage, Handler::Lda, 3),
        0xb5 => implemented(opcode, Mnemonic::Lda, AddressingMode::ZeroPageX, Handler::Lda, 4),
        0xad => implemented(opcode, Mnemonic::Lda, AddressingMode::Absolute, Handler::Lda, 4),
        0xbd => implemented(opcode, Mnemonic::Lda, AddressingMode::AbsoluteX, Handler::Lda, 4),
        0xb9 => implemented(opcode, Mnemonic::Lda, AddressingMode::AbsoluteY, Handler::Lda, 4),
        0xa2 => unimplemented(opcode, Mnemonic::Ldx, Some(AddressingMode::Immediate)),
        0xa6 => unimplemented(opcode, Mnemonic::Ldx, Some(AddressingMode::ZeroPage)),
        0xb6 => unimplemented(opcode, Mnemonic::Ldx, Some(AddressingMode::ZeroPageY)),
        0xae => unimplemented(opcode, Mnemonic::Ldx, Some(AddressingMode::Absolute)),
        0xbe => unimplemented(opcode, Mnemonic::Ldx, Some(AddressingMode::AbsoluteY)),
        0xa0 => unimplemented(opcode, Mnemonic::Ldy, Some(AddressingMode::Immediate)),
        0xa4 => unimplemented(opcode, Mnemonic::Ldy, Some(AddressingMode::ZeroPage)),
        0xb4 => unimplemented(opcode, Mnemonic::Ldy, Some(AddressingMode::ZeroPageX)),
        0xac => unimplemented(opcode, Mnemonic::Ldy, Some(AddressingMode::Absolute)),
        0xbc => unimplemented(opcode, Mnemonic::Ldy, Some(AddressingMode::AbsoluteX)),
        0x4a => unimplemented(opcode, Mnemonic::Lsr, None),
        0x46 => unimplemented(opcode, Mnemonic::Lsr, Some(AddressingMode::ZeroPage)),
        0x56 => unimplemented(opcode, Mnemonic::Lsr, Some(AddressingMode::ZeroPageX)),
        0x4e => unimplemented(opcode, Mnemonic::Lsr, Some(AddressingMode::Absolute)),
        0x5e => unimplemented(opcode, Mnemonic::Lsr, Some(AddressingMode::AbsoluteX)),
        _ => unimplemented(opcode, Mnemonic::Unknown, None),
    }
}

/// Whether the engine can execute what `d` describes: a load with any
/// operand mode, or a jump to a subroutine with an absolute target.
pub open spec fn executable(d: InstructionDescriptor) -> bool {
    match d.handler {
        Handler::Lda => d.mode is Some,
        Handler::Jsr => d.mode == Some(AddressingMode::Absolute),
        Handler::Unimplemented => false,
    }
}

impl Mnemonic {
    /// The name as assemblers write it.
    pub open spec fn text(self) -> Seq<char> {
        match self {
            Mnemonic::Jsr => "JSR"@,
            Mnemonic::Lda => "LDA"@,
            Mnemonic::Ldx => "LDX"@,
            Mnemonic::Ldy => "LDY"@,
            Mnemonic::Lsr => "LSR"@,
            Mnemonic::Unknown => "???"@,
        }
    }

    /// The name as assemblers write it.
    pub fn name(&self) -> (name: &'static str)
        ensures
            name@ == self.text(),
    {
        match self {
            Mnemonic::Jsr => "JSR",
            Mnemonic::Lda => "LDA",
            Mnemonic::Ldx => "LDX",
            Mnemonic::Ldy => "LDY",
            Mnemonic::Lsr => "LSR",
            Mnemonic::Unknown => "???",
        }
    }
}

impl InstructionDescriptor {
    fn implemented(
        opcode: u8,
        mnemonic: Mnemonic,
        mode: AddressingMode,
        handler: Handler,
        base_cycles: u8,
    ) -> (d: InstructionDescriptor)
        ensures
            d == implemented(opcode, mnemonic, mode, handler, base_cycles),
    {
        InstructionDescriptor {
            opcode,
            mnemonic,
            mode: Some(mode),
            handler,
            base_cycles,
            always_penalize: false,
        }
    }

    fn unimplemented(opcode: u8, mnemonic: Mnemonic, mode: Option<AddressingMode>) -> (d:
        InstructionDescriptor)
        ensures
            d == unimplemented(opcode, mnemonic, mode),
    {
        InstructionDescriptor {
            opcode,
            mnemonic,
            mode,
            handler: Handler::Unimplemented,
            base_cycles: 0,
            always_penalize: false,
        }
    }

    /// Whether the engine can execute the instruction.
    pub fn is_executable(&self) -> (yes: bool)
        ensures
            yes == executable(*self),
    {
        match self.handler {
            Handler::Lda => self.mode.is_some(),
            Handler::Jsr => match self.mode {
                Some(AddressingMode::Absolute) => true,
                _ => false,
            },
            Handler::Unimplemented => false,
        }
    }
}

/// The descriptor of `opcode`.
pub fn lookup(opcode: u8) -> (d: InstructionDescriptor)
    ensures
        d == descriptor_of(opcode),
{
    match opcode {
        INSTR_JSR => InstructionDescriptor::implemented(
            opcode,
            Mnemonic::Jsr,
            AddressingMode::Absolute,
            Handler::Jsr,
            6,
        ),
        INSTR_LDA_IM => InstructionDescriptor::implemented(
            opcode,
            Mnemonic::Lda,
            AddressingMode::Immediate,
            Handler::Lda,
            2,
        ),
        INSTR_LDA_ZERO_PAGE => InstructionDescriptor::implemented(
            opcode,
            Mnemonic::Lda,
            AddressingMode::ZeroPage,
            Handler::Lda,
            3,
        ),
        INSTR_LDA_ZERO_PAGE_X => InstructionDescriptor::implemented(
            opcode,
            Mnemonic::Lda,
            AddressingMode::ZeroPageX,
            Handler::Lda,
            4,
        ),
        INSTR_LDA_ABSOLUTE => InstructionDescriptor::implemented(
            opcode,
            Mnemonic::Lda,
            AddressingMode::Absolute,
            Handler::Lda,
            4,
        ),
        INSTR_LDA_ABSOLUTE_X => InstructionDescriptor::implemented(
            opcode,
            Mnemonic::Lda,
            AddressingMode::AbsoluteX,
            Handler::Lda,
            4,
        ),
        INSTR_LDA_ABSOLUTE_Y => InstructionDescriptor::implemented(
            opcode,
            Mnemonic::Lda,
            AddressingMode::AbsoluteY,
            Handler::Lda,
            4,
        ),
        0xa2 => InstructionDescriptor::unimplemented(
            opcode,
            Mnemonic::Ldx,
            Some(AddressingMode::Immediate),
        ),
        0xa6 => InstructionDescriptor::unimplemented(
            opcode,
            Mnemonic::Ldx,
            Some(AddressingMode::ZeroPage),
        ),
        0xb6 => InstructionDescriptor::unimplemented(
            opcode,
            Mnemonic::Ldx,
            Some(AddressingMode::ZeroPageY),
        ),
        0xae => InstructionDescriptor::unimplemented(
            opcode,
            Mnemonic::Ldx,
            Some(AddressingMode::Absolute),
        ),
        0xbe => InstructionDescriptor::unimplemented(
            opcode,
            Mnemonic::Ldx,
            Some(AddressingMode::AbsoluteY),
        ),
        0xa0 => InstructionDescriptor::unimplemented(
            opcode,
            Mnemonic::Ldy,
            Some(AddressingMode::Immediate),
        ),
        0xa4 => InstructionDescriptor::unimplemented(
            opcode,
            Mnemonic::Ldy,
            Some(AddressingMode::ZeroPage),
        ),
        0xb4 => InstructionDescriptor::unimplemented(
            opcode,
            Mnemonic::Ldy,
            Some(AddressingMode::ZeroPageX),
        ),
        0xac => InstructionDescriptor::unimplemented(
            opcode,
            Mnemonic::Ldy,
            Some(AddressingMode::Absolute),
        ),
        0xbc => InstructionDescriptor::unimplemented(
            opcode,
            Mnemonic::Ldy,
            Some(AddressingMode::AbsoluteX),
        ),
        0x4a => InstructionDescriptor::unimplemented(opcode, Mnemonic::Lsr, None),
        0x46 => InstructionDescriptor::unimplemented(
            opcode,
            Mnemonic::Lsr,
            Some(AddressingMode::ZeroPage),
        ),
        0x56 => InstructionDescriptor::unimplemented(
            opcode,
            Mnemonic::Lsr,
            Some(AddressingMode::ZeroPageX),
        ),
        0x4e => InstructionDescriptor::unimplemented(
            opcode,
            Mnemonic::Lsr,
            Some(AddressingMode::Absolute),
        ),
        0x5e => InstructionDescriptor::unimplemented(
            opcode,
            Mnemonic::Lsr,
            Some(AddressingMode::AbsoluteX),
        ),
        _ => InstructionDescriptor::unimplemented(opcode, Mnemonic::Unknown, None),
    }
}

/// The table is total and closed: the descriptor of a byte carries that
/// byte, and the executable opcodes are the seven that the engine knows.
pub proof fn lemma_table_is_closed(opcode: u8)
    ensures
        descriptor_of(opcode).opcode == opcode,
        executable(descriptor_of(opcode)) <==> descriptor_of(opcode).handler
            != Handler::Unimplemented,
        executable(descriptor_of(opcode)) <==> opcode == INSTR_JSR || opcode == INSTR_LDA_IM
            || opcode == INSTR_LDA_ZERO_PAGE || opcode == INSTR_LDA_ZERO_PAGE_X || opcode
            == INSTR_LDA_ABSOLUTE || opcode == INSTR_LDA_ABSOLUTE_X || opcode
            == INSTR_LDA_ABSOLUTE_Y,
        !executable(descriptor_of(opcode)) ==> descriptor_of(opcode).base_cycles == 0,
        executable(descriptor_of(opcode)) ==> descriptor_of(opcode).base_cycles >= 2,
{
}

} // verus!
