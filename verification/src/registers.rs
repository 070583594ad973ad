//! The register file and the status-flag arithmetic.
//!
//! Flag updates are bitmask operations on the status byte. They are not bus
//! accesses, so none of them charges a cycle.

use vstd::prelude::*;

verus! {

/// Negative flag: bit 7 of the last result.
pub const STATUS_FLAG_N: u8 = 0x80;

/// Overflow flag.
pub const STATUS_FLAG_V: u8 = 0x40;

/// Bit 5 of the status byte, which names no flag and always reads zero.
pub const STATUS_UNUSED: u8 = 0x20;

/// Break flag.
pub const STATUS_FLAG_B: u8 = 0x10;

/// Decimal-mode flag.
pub const STATUS_FLAG_D: u8 = 0x08;

/// Interrupt-disable flag.
pub const STATUS_FLAG_I: u8 = 0x04;

/// Zero flag.
pub const STATUS_FLAG_Z: u8 = 0x02;

/// Carry flag.
pub const STATUS_FLAG_C: u8 = 0x01;

/// The bits of the status byte that name a flag.
pub const STATUS_FLAGS: u8 = 0xDF;

/// Stack pointer right after a reset: the top of the stack page.
pub const STACK_TOP: u8 = 0xFF;

/// The registers of the processor.
#[derive(Clone, Copy, Debug, PartialEq, Eq, Structural)]
pub struct Cpu {
    /// Program counter.
    pub pc: u16,
    /// Stack pointer, an offset within the stack page.
    pub sp: u8,
    /// Accumulator.
    pub a: u8,
    /// Index register X.
    pub x: u8,
    /// Index register Y.
    pub y: u8,
    /// Status flags, from bit 7 down: N, V, unused, B, D, I, Z, C.
    pub status: u8,
    /// Cycles consumed since the last reset.
    pub cycles: u64,
}

/// The status byte `status` with the flags of `flag` set. The unused bit of
/// `flag` is ignored.
pub open spec fn status_with_set(status: u8, flag: u8) -> u8 {
    status | (flag & STATUS_FLAGS)
}

/// The status byte `status` with the flags of `flag` cleared.
pub open spec fn status_with_cleared(status: u8, flag: u8) -> u8 {
    status & !flag
}

/// The status byte `status` with the flags of `flag` set if `condition`
/// holds and cleared if it does not.
pub open spec fn status_with_toggled(status: u8, flag: u8, condition: bool) -> u8 {
    if condition {
        status_with_set(status, flag)
    } else {
        status_with_cleared(status, flag)
    }
}

/// Whether any flag of `flag` is set in `status`.
pub open spec fn flag_is_set(status: u8, flag: u8) -> bool {
    status & flag != 0
}

/// Whether bit 7 of `value` is set.
pub open spec fn is_negative(value: u8) -> bool {
    value & 0x80 != 0
}

/// The status byte after an operation whose result is `value`: Z tells
/// whether the result is zero, N whether its bit 7 is set.
pub open spec fn status_with_nz(status: u8, value: u8) -> u8 {
    status_with_toggled(
        status_with_toggled(status, STATUS_FLAG_Z, value == 0),
        STATUS_FLAG_N,
        is_negative(value),
    )
}

/// `cpu` after `n` more cycles.
pub open spec fn charged(cpu: Cpu, n: int) -> Cpu {
    Cpu { cycles: (cpu.cycles + n) as u64, ..cpu }
}

impl Cpu {
    /// The unused bit of the status byte is zero.
    pub open spec fn wf(&self) -> bool {
        self.status & STATUS_UNUSED == 0
    }

    /// Registers with every field zero.
    pub fn new() -> (cpu: Cpu)
        ensures
            cpu == (Cpu { pc: 0, sp: 0, a: 0, x: 0, y: 0, status: 0, cycles: 0 }),
            cpu.wf(),
    {
        assert(0u8 & 0x20u8 == 0) by (bit_vector);
        Cpu { pc: 0, sp: 0, a: 0, x: 0, y: 0, status: 0, cycles: 0 }
    }

    /// Whether any flag of `flag` is set.
    pub fn flag(&self, flag: u8) -> (set: bool)
        ensures
            set == flag_is_set(self.status, flag),
    {
        self.status & flag != 0
    }
}

/// Setting flags keeps the unused bit clear, sets just the named flags and
/// leaves the others as they were.
pub proof fn lemma_status_with_set(status: u8, flag: u8)
    ensures
        status & STATUS_UNUSED == 0 ==> status_with_set(status, flag) & STATUS_UNUSED == 0,
        status_with_set(status, flag) & (flag & STATUS_FLAGS) == flag & STATUS_FLAGS,
        status_with_set(status, flag) & !flag == status & !flag,
{
    assert(status & 0x20 == 0 ==> (status | (flag & 0xDF)) & 0x20 == 0) by (bit_vector);
    assert((status | (flag & 0xDF)) & (flag & 0xDF) == flag & 0xDF) by (bit_vector);
    assert((status | (flag & 0xDF)) & !flag == status & !flag) by (bit_vector);
}

/// Clearing flags keeps the unused bit clear, clears just the named flags
/// and leaves the others as they were.
pub proof fn lemma_status_with_cleared(status: u8, flag: u8)
    ensures
        status & STATUS_UNUSED == 0 ==> status_with_cleared(status, flag) & STATUS_UNUSED == 0,
        status_with_cleared(status, flag) & flag == 0,
        status_with_cleared(status, flag) & !flag == status & !flag,
{
    assert(status & 0x20 == 0 ==> (status & !flag) & 0x20 == 0) by (bit_vector);
    assert((status & !flag) & flag == 0) by (bit_vector);
    assert((status & !flag) & !flag == status & !flag) by (bit_vector);
}

/// After a result `value`, Z is set exactly when the result is zero, N is
/// set exactly when bit 7 of the result is set, no other bit of the status
/// byte changes, and the unused bit stays clear.
pub proof fn lemma_status_with_nz(status: u8, value: u8)
    ensures
        flag_is_set(status_with_nz(status, value), STATUS_FLAG_Z) == (value == 0),
        flag_is_set(status_with_nz(status, value), STATUS_FLAG_N) == is_negative(value),
        is_negative(value) == (value >= 0x80),
        status_with_nz(status, value) & 0x7D == status & 0x7D,
        status & STATUS_UNUSED == 0 ==> status_with_nz(status, value) & STATUS_UNUSED == 0,
{
    assert(flag_is_set(status_with_nz(status, value), STATUS_FLAG_Z) == (value == 0))
        by (bit_vector);
    assert(flag_is_set(status_with_nz(status, value), STATUS_FLAG_N) == is_negative(value))
        by (bit_vector);
    assert(is_negative(value) == (value >= 0x80)) by (bit_vector);
    assert(status_with_nz(status, value) & 0x7D == status & 0x7D) by (bit_vector);
    assert(status & STATUS_UNUSED == 0 ==> status_with_nz(status, value) & STATUS_UNUSED == 0)
        by (bit_vector);
}

/// Sets the flags of `flag` in the status byte.
pub fn set_status_flag(cpu: &mut Cpu, flag: u8)
    ensures
        *final(cpu) == (Cpu { status: status_with_set(old(cpu).status, flag), ..*old(cpu) }),
        old(cpu).wf() ==> final(cpu).wf(),
{
    proof {
        lemma_status_with_set(cpu.status, flag);
    }
    cpu.status = cpu.status | (flag & STATUS_FLAGS);
}

/// Clears the flags of `flag` in the status byte.
pub fn clear_status_flag(cpu: &mut Cpu, flag: u8)
    ensures
        *final(cpu) == (Cpu { status: status_with_cleared(old(cpu).status, flag), ..*old(cpu) }),
        old(cpu).wf() ==> final(cpu).wf(),
{
    proof {
        lemma_status_with_cleared(cpu.status, flag);
    }
    cpu.status = cpu.status & !flag;
}

/// Sets the flags of `flag` if `condition` holds, and clears them if not.
pub fn toggle_status_flag(cpu: &mut Cpu, flag: u8, condition: bool)
    ensures
        *final(cpu) == (Cpu {
            status: status_with_toggled(old(cpu).status, flag, condition),
            ..*old(cpu)
        }),
        old(cpu).wf() ==> final(cpu).wf(),
{
    if condition {
        set_status_flag(cpu, flag);
    } else {
        clear_status_flag(cpu, flag);
    }
}

/// Updates Z and N from the value `value`.
pub fn update_nz(cpu: &mut Cpu, value: u8)
    ensures
        *final(cpu) == (Cpu { status: status_with_nz(old(cpu).status, value), ..*old(cpu) }),
        old(cpu).wf() ==> final(cpu).wf(),
{
    toggle_status_flag(cpu, STATUS_FLAG_Z, value == 0);
    toggle_status_flag(cpu, STATUS_FLAG_N, value & 0x80 != 0);
}

/// Updates Z and N from the accumulator, as a load into it requires.
pub fn lda_set_status(cpu: &mut Cpu)
    ensures
        *final(cpu) == (Cpu { status: status_with_nz(old(cpu).status, old(cpu).a), ..*old(cpu) }),
        old(cpu).wf() ==> final(cpu).wf(),
{
    let value: u8 = cpu.a;
    update_nz(cpu, value);
}

} // verus!
