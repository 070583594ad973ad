use emulator6502::registers::{
    STACK_TOP, STATUS_FLAGS, STATUS_FLAG_B, STATUS_FLAG_C, STATUS_FLAG_D, STATUS_FLAG_I,
    STATUS_FLAG_N, STATUS_FLAG_V, STATUS_FLAG_Z, STATUS_UNUSED,
};
use emulator6502::{
    clear_status_flag, lda_set_status, set_status_flag, toggle_status_flag, update_nz, Cpu,
};

fn registers(status: u8) -> Cpu {
    Cpu { pc: 0x1234, sp: 0x56, a: 0x78, x: 0x9a, y: 0xbc, status, cycles: 42 }
}

#[test]
fn new_registers_are_zero() {
    let cpu = Cpu::new();
    assert_eq!(cpu, Cpu { pc: 0, sp: 0, a: 0, x: 0, y: 0, status: 0, cycles: 0 });
}

#[test]
fn flag_masks_cover_the_status_byte() {
    assert_eq!(STATUS_FLAG_N, 0x80);
    assert_eq!(STATUS_FLAG_V, 0x40);
    assert_eq!(STATUS_UNUSED, 0x20);
    assert_eq!(STATUS_FLAG_B, 0x10);
    assert_eq!(STATUS_FLAG_D, 0x08);
    assert_eq!(STATUS_FLAG_I, 0x04);
    assert_eq!(STATUS_FLAG_Z, 0x02);
    assert_eq!(STATUS_FLAG_C, 0x01);
    assert_eq!(STATUS_FLAGS, 0xdf);
    assert_eq!(STACK_TOP, 0xff);
    assert_eq!(
        STATUS_FLAG_N | STATUS_FLAG_V | STATUS_FLAG_B | STATUS_FLAG_D | STATUS_FLAG_I
            | STATUS_FLAG_Z | STATUS_FLAG_C,
        STATUS_FLAGS
    );
}

#[test]
fn set_flag_sets_only_that_flag() {
    let mut cpu = registers(0x01);
    set_status_flag(&mut cpu, STATUS_FLAG_V);
    assert_eq!(cpu, registers(0x41));
}

#[test]
fn set_flag_charges_no_cycle() {
    let mut cpu = registers(0);
    set_status_flag(&mut cpu, STATUS_FLAG_C);
    clear_status_flag(&mut cpu, STATUS_FLAG_C);
    toggle_status_flag(&mut cpu, STATUS_FLAG_C, true);
    update_nz(&mut cpu, 0);
    lda_set_status(&mut cpu);
    assert_eq!(cpu.cycles, 42);
}

#[test]
fn set_flag_ignores_the_unused_bit() {
    let mut cpu = registers(0);
    set_status_flag(&mut cpu, STATUS_UNUSED);
    assert_eq!(cpu.status, 0);
    set_status_flag(&mut cpu, 0xff);
    assert_eq!(cpu.status, 0xdf);
}

#[test]
fn clear_flag_clears_only_that_flag() {
    let mut cpu = registers(0xdf);
    clear_status_flag(&mut cpu, STATUS_FLAG_D);
    assert_eq!(cpu, registers(0xd7));
    clear_status_flag(&mut cpu, STATUS_FLAG_D);
    assert_eq!(cpu, registers(0xd7));
}

#[test]
fn toggle_flag_follows_the_condition() {
    let mut cpu = registers(0);
    toggle_status_flag(&mut cpu, STATUS_FLAG_I, true);
    assert_eq!(cpu, registers(0x04));
    toggle_status_flag(&mut cpu, STATUS_FLAG_I, true);
    assert_eq!(cpu, registers(0x04));
    toggle_status_flag(&mut cpu, STATUS_FLAG_I, false);
    assert_eq!(cpu, registers(0x00));
}

#[test]
fn flag_query_reads_the_status_byte() {
    let cpu = registers(0x82);
    assert!(cpu.flag(STATUS_FLAG_N));
    assert!(cpu.flag(STATUS_FLAG_Z));
    assert!(!cpu.flag(STATUS_FLAG_C));
    assert!(!cpu.flag(STATUS_FLAG_V));
}

#[test]
fn update_nz_for_zero() {
    let mut cpu = registers(0x80);
    update_nz(&mut cpu, 0x00);
    assert_eq!(cpu, registers(0x02));
}

#[test]
fn update_nz_for_negative() {
    let mut cpu = registers(0x02);
    update_nz(&mut cpu, 0x80);
    assert_eq!(cpu, registers(0x80));
    update_nz(&mut cpu, 0xff);
    assert_eq!(cpu, registers(0x80));
}

#[test]
fn update_nz_for_positive() {
    let mut cpu = registers(0x82);
    update_nz(&mut cpu, 0x01);
    assert_eq!(cpu, registers(0x00));
    update_nz(&mut cpu, 0x7f);
    assert_eq!(cpu, registers(0x00));
}

#[test]
fn update_nz_keeps_the_other_flags() {
    let mut cpu = registers(0x5d);
    update_nz(&mut cpu, 0x90);
    assert_eq!(cpu, registers(0xdd));
    update_nz(&mut cpu, 0x00);
    assert_eq!(cpu, registers(0x5f));
}

#[test]
fn update_nz_for_every_value() {
    for value in 0..=255u8 {
        let mut cpu = registers(0x41);
        update_nz(&mut cpu, value);
        assert_eq!(cpu.flag(STATUS_FLAG_Z), value == 0);
        assert_eq!(cpu.flag(STATUS_FLAG_N), value & 0x80 != 0);
        assert_eq!(cpu.status & 0x7d, 0x41);
    }
}

#[test]
fn lda_set_status_reads_the_accumulator() {
    let mut cpu = registers(0);
    cpu.a = 0;
    lda_set_status(&mut cpu);
    assert_eq!(cpu.status, 0x02);
    cpu.a = 0x80;
    lda_set_status(&mut cpu);
    assert_eq!(cpu.status, 0x80);
    cpu.a = 0x01;
    lda_set_status(&mut cpu);
    assert_eq!(cpu.status, 0x00);
    assert_eq!(cpu.a, 0x01);
}
