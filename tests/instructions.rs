use nes_emu::emulator::Emulator;

fn run(emulator: &mut Emulator, program: Vec<u8>, cycles: usize) {
    // load test program to memory and set PC to it
    emulator.load(program);

    for _ in 0..cycles {
        emulator.cpu.cycle(&mut emulator.bus);
    }
}

fn poke(emulator: &mut Emulator, addr: u16, value: u8) {
    emulator.bus.mem_write(addr, value).unwrap();
}

#[test]
fn lda_imm() {
    let mut emulator = Emulator::new();

    run(&mut emulator, vec![0xA9, 0x00, 0xA9, 0xF1], 4);

    assert_eq!(emulator.cpu.acc, 0xF1);
    assert_eq!(emulator.cpu.status, 0b10000000);
}

#[test]
fn lda_zp() {
    let mut emulator = Emulator::new();

    poke(&mut emulator, 0x0010, 0x2A);
    poke(&mut emulator, 0x0020, 0x5F);

    run(&mut emulator, vec![0xA5, 0x10, 0xA5, 0x20], 10);

    assert_eq!(emulator.cpu.acc, 0x5F);
    assert_eq!(emulator.cpu.status, 0b00000000);
}

#[test]
fn lda_zp_x() {
    let mut emulator = Emulator::new();

    poke(&mut emulator, 0x0010, 0x2A);
    poke(&mut emulator, 0x0015, 0x5F);
    emulator.cpu.idx_x = 0x05;

    run(&mut emulator, vec![0xB5, 0x0B, 0xB5, 0x10], 11);

    assert_eq!(emulator.cpu.acc, 0x5F);
    assert_eq!(emulator.cpu.status, 0b00000000);
}

#[test]
fn lda_abs() {
    let mut emulator = Emulator::new();

    poke(&mut emulator, 0x1000, 0xA9);
    poke(&mut emulator, 0x1001, 0x2A);
    poke(&mut emulator, 0x1002, 0xA9);
    poke(&mut emulator, 0x1003, 0x5F);

    run(&mut emulator, vec![0xAD, 0x00, 0x10, 0xAD, 0x02, 0x10], 10);

    assert_eq!(emulator.cpu.acc, 0xA9);
    assert_eq!(emulator.cpu.status, 0b10000000);
}

#[test]
fn lda_abs_x() {
    let mut emulator = Emulator::new();

    poke(&mut emulator, 0x1010, 0x2A);
    poke(&mut emulator, 0x1015, 0x5F);
    emulator.cpu.idx_x = 0x05;

    run(&mut emulator, vec![0xBD, 0x0B, 0x10, 0xBD, 0x10, 0x10], 11);

    assert_eq!(emulator.cpu.acc, 0x5F);
    assert_eq!(emulator.cpu.status, 0b00000000);
}

#[test]
fn lda_abs_y() {
    let mut emulator = Emulator::new();

    poke(&mut emulator, 0x0004, 0x2A);
    poke(&mut emulator, 0x1005, 0x5F);
    emulator.cpu.idx_y = 0x05;

    run(&mut emulator, vec![0xB9, 0x00, 0x10, 0xB9, 0xFF, 0xFF], 11);

    assert_eq!(emulator.cpu.acc, 0x2A);
    assert_eq!(emulator.cpu.status, 0b00000000);
}

#[test]
fn lda_indirect_x() {
    let mut emulator = Emulator::new();

    poke(&mut emulator, 0x000F, 0x20); // low byte of target address
    poke(&mut emulator, 0x0010, 0x10); // high byte of target address
    poke(&mut emulator, 0x1020, 0xAB); // value at target address
    emulator.cpu.idx_x = 0x05;

    run(&mut emulator, vec![0xA1, 0x0A], 6);

    assert_eq!(emulator.cpu.acc, 0xAB);
    assert_eq!(emulator.cpu.status, 0b10000000);
}

#[test]
fn lda_indirect_y() {
    let mut emulator = Emulator::new();

    poke(&mut emulator, 0x000A, 0x20);
    poke(&mut emulator, 0x000B, 0x10);
    poke(&mut emulator, 0x1025, 0xAB);
    emulator.cpu.idx_y = 0x05;

    run(&mut emulator, vec![0xB1, 0x0A], 6);

    assert_eq!(emulator.cpu.acc, 0xAB);
    assert_eq!(emulator.cpu.status, 0b10000000);
}

#[test]
fn lda_indirect_y_page_crossing() {
    let mut emulator = Emulator::new();

    poke(&mut emulator, 0x000B, 0x10);
    poke(&mut emulator, 0x000A, 0xFF);
    poke(&mut emulator, 0x1104, 0xAB);
    emulator.cpu.idx_y = 0x05;

    // the page crossing costs an extra cycle, so 0x12 is not loaded yet
    run(&mut emulator, vec![0xB1, 0x0A, 0xA9, 0x12], 6);

    assert_eq!(emulator.cpu.acc, 0xAB);
    assert_eq!(emulator.cpu.status, 0b10000000);
}

#[test]
fn lda_imm_tax() {
    let mut emulator = Emulator::new();

    run(&mut emulator, vec![0xA9, 0x21, 0xAA], 4);

    assert_eq!(emulator.cpu.acc, 0x21);
    assert_eq!(emulator.cpu.idx_x, 0x21);
}

#[test]
fn jmp_abs() {
    let mut emulator = Emulator::new();

    poke(&mut emulator, 0x0001, 0x10);
    poke(&mut emulator, 0x0000, 0x00);

    run(&mut emulator, vec![0x4C, 0x00, 0x00], 3);

    assert_eq!(emulator.cpu.pc, 0x0000);
}

#[test]
fn jmp_indirect() {
    let mut emulator = Emulator::new();

    poke(&mut emulator, 0x0001, 0x10);
    poke(&mut emulator, 0x0000, 0x00);
    poke(&mut emulator, 0x1001, 0x10);
    poke(&mut emulator, 0x1000, 0x20);

    run(&mut emulator, vec![0x6C, 0x00, 0x00], 5);

    assert_eq!(emulator.cpu.pc, 0x1020);
}

#[test]
fn sta_zp() {
    let mut emulator = Emulator::new();

    emulator.cpu.acc = 0x21;

    run(&mut emulator, vec![0x85, 0x10], 3);

    assert_eq!(emulator.bus.mem_read(0x0010), 0x21);
}

#[test]
fn sta_zp_x() {
    let mut emulator = Emulator::new();

    emulator.cpu.acc = 0x21;
    emulator.cpu.idx_x = 0x05;

    run(&mut emulator, vec![0x95, 0x10], 4);

    assert_eq!(emulator.bus.mem_read(0x0015), 0x21);
}

#[test]
fn sta_abs() {
    let mut emulator = Emulator::new();

    emulator.cpu.acc = 0x21;

    run(&mut emulator, vec![0x8D, 0x00, 0x10], 4);

    assert_eq!(emulator.bus.mem_read(0x1000), 0x21);
}

#[test]
fn sta_abs_x() {
    let mut emulator = Emulator::new();

    emulator.cpu.acc = 0x21;
    emulator.cpu.idx_x = 0x05;

    run(&mut emulator, vec![0x9D, 0x00, 0x10], 5);

    assert_eq!(emulator.bus.mem_read(0x1005), 0x21);
}

#[test]
fn sta_abs_y() {
    let mut emulator = Emulator::new();

    emulator.cpu.acc = 0x21;
    emulator.cpu.idx_y = 0x05;

    run(&mut emulator, vec![0x99, 0x00, 0x10], 5);

    assert_eq!(emulator.bus.mem_read(0x1005), 0x21);
}

#[test]
fn sta_indirect_x() {
    let mut emulator = Emulator::new();

    emulator.cpu.acc = 0x21;
    emulator.cpu.idx_x = 0x05;

    poke(&mut emulator, 0x000F, 0x20);
    poke(&mut emulator, 0x0010, 0x10);

    run(&mut emulator, vec![0x81, 0x0A], 6);

    assert_eq!(emulator.bus.mem_read(0x1020), 0x21);
}

#[test]
fn sta_indirect_y() {
    let mut emulator = Emulator::new();

    emulator.cpu.acc = 0x21;
    emulator.cpu.idx_y = 0x05;

    poke(&mut emulator, 0x000A, 0x20);
    poke(&mut emulator, 0x000B, 0x10);

    run(&mut emulator, vec![0x91, 0x0A], 6);

    assert_eq!(emulator.bus.mem_read(0x1025), 0x21);
}
