use emulator6502::{
    fetch_next_byte, fetch_next_word, pop_byte, pop_word, push_byte, push_word, read_byte,
    read_word, write_byte, write_word, Cpu, Mem,
};

fn registers() -> Cpu {
    Cpu { pc: 0x1000, sp: 0xff, a: 1, x: 2, y: 3, status: 0x41, cycles: 10 }
}

#[test]
fn read_byte_charges_one_cycle() {
    let mut cpu = registers();
    let mut mem = Mem::new();
    mem.data[0xabcd] = 0x77;
    let before = mem.clone();
    assert_eq!(read_byte(&mut cpu, &mut mem, 0xabcd), 0x77);
    assert_eq!(cpu, Cpu { cycles: 11, ..registers() });
    assert_eq!(mem, before);
}

#[test]
fn read_byte_reaches_every_page() {
    let mut cpu = registers();
    let mut mem = Mem::new();
    mem.data[0x0000] = 1;
    mem.data[0x00ff] = 2;
    mem.data[0x0100] = 3;
    mem.data[0xffff] = 4;
    assert_eq!(read_byte(&mut cpu, &mut mem, 0x0000), 1);
    assert_eq!(read_byte(&mut cpu, &mut mem, 0x00ff), 2);
    assert_eq!(read_byte(&mut cpu, &mut mem, 0x0100), 3);
    assert_eq!(read_byte(&mut cpu, &mut mem, 0xffff), 4);
    assert_eq!(cpu.cycles, 14);
}

#[test]
fn write_byte_charges_one_cycle() {
    let mut cpu = registers();
    let mut mem = Mem::new();
    write_byte(&mut cpu, &mut mem, 0x0200, 0x99);
    assert_eq!(mem.peek(0x0200), 0x99);
    assert_eq!(cpu, Cpu { cycles: 11, ..registers() });
    assert!(!mem.image_loaded);
    assert_eq!(mem.data.iter().filter(|&&b| b != 0).count(), 1);
}

#[test]
fn read_word_is_little_endian() {
    let mut cpu = registers();
    let mut mem = Mem::new();
    mem.data[0x3000] = 0x34;
    mem.data[0x3001] = 0x12;
    assert_eq!(read_word(&mut cpu, &mut mem, 0x3000), 0x1234);
    assert_eq!(cpu, Cpu { cycles: 12, ..registers() });
}

#[test]
fn read_word_wraps_at_the_last_address() {
    let mut cpu = registers();
    let mut mem = Mem::new();
    mem.data[0xffff] = 0xef;
    mem.data[0x0000] = 0xbe;
    assert_eq!(read_word(&mut cpu, &mut mem, 0xffff), 0xbeef);
}

#[test]
fn write_word_is_little_endian() {
    let mut cpu = registers();
    let mut mem = Mem::new();
    write_word(&mut cpu, &mut mem, 0x3000, 0x1234);
    assert_eq!(mem.peek(0x3000), 0x34);
    assert_eq!(mem.peek(0x3001), 0x12);
    assert_eq!(cpu, Cpu { cycles: 12, ..registers() });
}

#[test]
fn write_word_wraps_at_the_last_address() {
    let mut cpu = registers();
    let mut mem = Mem::new();
    write_word(&mut cpu, &mut mem, 0xffff, 0xbeef);
    assert_eq!(mem.peek(0xffff), 0xef);
    assert_eq!(mem.peek(0x0000), 0xbe);
    assert_eq!(read_word(&mut cpu, &mut mem, 0xffff), 0xbeef);
}

#[test]
fn fetch_next_byte_moves_the_program_counter() {
    let mut cpu = registers();
    let mut mem = Mem::new();
    mem.data[0x1000] = 0xa9;
    assert_eq!(fetch_next_byte(&mut cpu, &mut mem), 0xa9);
    assert_eq!(cpu, Cpu { pc: 0x1001, cycles: 11, ..registers() });
}

#[test]
fn fetch_next_byte_wraps_the_program_counter() {
    let mut cpu = Cpu { pc: 0xffff, ..registers() };
    let mut mem = Mem::new();
    mem.data[0xffff] = 0x42;
    assert_eq!(fetch_next_byte(&mut cpu, &mut mem), 0x42);
    assert_eq!(cpu.pc, 0x0000);
}

#[test]
fn fetch_next_word_is_little_endian() {
    let mut cpu = registers();
    let mut mem = Mem::new();
    mem.data[0x1000] = 0x00;
    mem.data[0x1001] = 0x40;
    assert_eq!(fetch_next_word(&mut cpu, &mut mem), 0x4000);
    assert_eq!(cpu, Cpu { pc: 0x1002, cycles: 12, ..registers() });
}

#[test]
fn fetch_next_word_wraps_the_program_counter() {
    let mut cpu = Cpu { pc: 0xffff, ..registers() };
    let mut mem = Mem::new();
    mem.data[0xffff] = 0x11;
    mem.data[0x0000] = 0x22;
    assert_eq!(fetch_next_word(&mut cpu, &mut mem), 0x2211);
    assert_eq!(cpu.pc, 0x0001);
}

#[test]
fn push_byte_stores_then_moves_down() {
    let mut cpu = registers();
    let mut mem = Mem::new();
    push_byte(&mut cpu, &mut mem, 0x5a);
    assert_eq!(mem.peek(0x01ff), 0x5a);
    assert_eq!(cpu, Cpu { sp: 0xfe, cycles: 11, ..registers() });
}

#[test]
fn push_byte_wraps_within_the_stack_page() {
    let mut cpu = Cpu { sp: 0x00, ..registers() };
    let mut mem = Mem::new();
    push_byte(&mut cpu, &mut mem, 0x5a);
    assert_eq!(mem.peek(0x0100), 0x5a);
    assert_eq!(cpu.sp, 0xff);
    assert_eq!(mem.peek(0x00ff), 0);
    assert_eq!(mem.peek(0x0200), 0);
}

#[test]
fn pop_byte_moves_up_then_reads() {
    let mut cpu = Cpu { sp: 0xfe, ..registers() };
    let mut mem = Mem::new();
    mem.data[0x01ff] = 0x5a;
    assert_eq!(pop_byte(&mut cpu, &mut mem), 0x5a);
    assert_eq!(cpu, Cpu { sp: 0xff, cycles: 11, ..registers() });
}

#[test]
fn pop_byte_wraps_within_the_stack_page() {
    let mut cpu = Cpu { sp: 0xff, ..registers() };
    let mut mem = Mem::new();
    mem.data[0x0100] = 0x33;
    mem.data[0x0200] = 0x44;
    assert_eq!(pop_byte(&mut cpu, &mut mem), 0x33);
    assert_eq!(cpu.sp, 0x00);
}

#[test]
fn push_word_stores_the_high_byte_first() {
    let mut cpu = registers();
    let mut mem = Mem::new();
    push_word(&mut cpu, &mut mem, 0x1002);
    assert_eq!(mem.peek(0x01ff), 0x10);
    assert_eq!(mem.peek(0x01fe), 0x02);
    assert_eq!(cpu, Cpu { sp: 0xfd, cycles: 12, ..registers() });
}

#[test]
fn pop_word_returns_the_pushed_word() {
    let mut cpu = registers();
    let mut mem = Mem::new();
    push_word(&mut cpu, &mut mem, 0xbeef);
    assert_eq!(pop_word(&mut cpu, &mut mem), 0xbeef);
    assert_eq!(cpu, Cpu { cycles: 14, ..registers() });
}

#[test]
fn push_and_pop_word_across_the_page_wrap() {
    for sp in [0x00u8, 0x01, 0x02, 0xfe, 0xff] {
        let mut cpu = Cpu { sp, ..registers() };
        let mut mem = Mem::new();
        push_word(&mut cpu, &mut mem, 0xa55a);
        assert_eq!(cpu.sp, sp.wrapping_sub(2));
        assert_eq!(pop_word(&mut cpu, &mut mem), 0xa55a);
        assert_eq!(cpu.sp, sp);
        let outside = mem.data[..0x0100].iter().chain(mem.data[0x0200..].iter());
        assert!(outside.clone().all(|&b| b == 0));
    }
}

#[test]
fn pushes_and_pops_are_last_in_first_out() {
    let mut cpu = registers();
    let mut mem = Mem::new();
    push_byte(&mut cpu, &mut mem, 1);
    push_word(&mut cpu, &mut mem, 0x0203);
    push_byte(&mut cpu, &mut mem, 4);
    assert_eq!(cpu.sp, 0xfb);
    assert_eq!(pop_byte(&mut cpu, &mut mem), 4);
    assert_eq!(pop_word(&mut cpu, &mut mem), 0x0203);
    assert_eq!(pop_byte(&mut cpu, &mut mem), 1);
    assert_eq!(cpu.sp, 0xff);
    assert_eq!(cpu.cycles, 18);
}
