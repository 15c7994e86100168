use nes_emu::bus::Bus;
use nes_emu::cpu::{Flag, CPU};
use nes_emu::emulator::Emulator;
use nes_emu::memory::{RAM, ROM};
use nes_emu::opcodes::{decode, Mode, Op};

fn ticks(emulator: &mut Emulator, n: usize) {
    for _ in 0..n {
        emulator.cpu.cycle(&mut emulator.bus);
    }
}

fn loaded(program: Vec<u8>) -> Emulator {
    let mut emulator = Emulator::new();
    emulator.load(program);
    emulator
}

#[test]
fn adc_signed_overflow() {
    let mut emulator = loaded(vec![0xA9, 0x7F, 0x69, 0x01]);
    ticks(&mut emulator, 4);
    assert_eq!(emulator.cpu.acc, 0x80);
    assert!(emulator.cpu.get_flag(Flag::Overflow));
    assert!(emulator.cpu.get_flag(Flag::Negative));
    assert!(!emulator.cpu.get_flag(Flag::Carry));
    assert!(!emulator.cpu.get_flag(Flag::Zero));
}

#[test]
fn adc_carry_in_and_out() {
    let mut emulator = loaded(vec![0x38, 0xA9, 0xFF, 0x69, 0x00]);
    ticks(&mut emulator, 6);
    assert_eq!(emulator.cpu.acc, 0x00);
    assert!(emulator.cpu.get_flag(Flag::Carry));
    assert!(emulator.cpu.get_flag(Flag::Zero));
    assert!(!emulator.cpu.get_flag(Flag::Overflow));
}

#[test]
fn load_then_jump_to_zero() {
    let mut emulator = loaded(vec![0xA9, 0x12, 0x4C, 0x00, 0x00]);
    assert_eq!(emulator.bus.mem_read_u16(0xFFFC), 0x8000);
    emulator.cpu.reset(&emulator.bus);
    assert_eq!(emulator.cpu.pc, 0x8000);
    ticks(&mut emulator, 3);
    assert_eq!(emulator.cpu.acc, 0x12);
    assert_eq!(emulator.cpu.pc, 0x0000);
    ticks(&mut emulator, 2);
    assert_eq!(emulator.cpu.pc, 0x0000);
}

#[test]
fn load_flags_for_each_register() {
    let mut emulator = loaded(vec![0xA9, 0x00, 0xA2, 0x80, 0xA0, 0x7F]);
    ticks(&mut emulator, 1);
    assert!(emulator.cpu.get_flag(Flag::Zero));
    assert!(!emulator.cpu.get_flag(Flag::Negative));
    ticks(&mut emulator, 2);
    assert_eq!(emulator.cpu.idx_x, 0x80);
    assert!(!emulator.cpu.get_flag(Flag::Zero));
    assert!(emulator.cpu.get_flag(Flag::Negative));
    ticks(&mut emulator, 2);
    assert_eq!(emulator.cpu.idx_y, 0x7F);
    assert!(!emulator.cpu.get_flag(Flag::Zero));
    assert!(!emulator.cpu.get_flag(Flag::Negative));
}

#[test]
fn zero_page_x_wraps() {
    let mut emulator = loaded(vec![0xB5, 0xFF]);
    emulator.bus.mem_write(0x0004, 0x33).unwrap();
    emulator.bus.mem_write(0x0104, 0x44).unwrap();
    emulator.cpu.idx_x = 0x05;
    assert_eq!(emulator.cpu.get_addr(&emulator.bus, Mode::ZeroPageX), 0x0004);
    ticks(&mut emulator, 1);
    assert_eq!(emulator.cpu.acc, 0x33);
}

#[test]
fn zero_page_y_wraps() {
    let mut emulator = loaded(vec![0xB6, 0xF0]);
    emulator.cpu.idx_y = 0x20;
    assert_eq!(emulator.cpu.get_addr(&emulator.bus, Mode::ZeroPageY), 0x0010);
}

#[test]
fn indexed_load_page_cross_costs_one_cycle() {
    let mut same_page = loaded(vec![0xBD, 0x00, 0x10]);
    same_page.cpu.idx_x = 0x05;
    ticks(&mut same_page, 1);
    assert_eq!(same_page.cpu.sleep_cycles, 3);

    let mut crossing = loaded(vec![0xBD, 0xFE, 0x10]);
    crossing.cpu.idx_x = 0x05;
    ticks(&mut crossing, 1);
    assert_eq!(crossing.cpu.sleep_cycles, 4);
}

#[test]
fn indexed_store_page_cross_costs_nothing() {
    let mut same_page = loaded(vec![0x9D, 0x00, 0x10]);
    same_page.cpu.idx_x = 0x05;
    ticks(&mut same_page, 1);
    let mut crossing = loaded(vec![0x9D, 0xFE, 0x10]);
    crossing.cpu.idx_x = 0x05;
    ticks(&mut crossing, 1);
    assert_eq!(same_page.cpu.sleep_cycles, 4);
    assert_eq!(crossing.cpu.sleep_cycles, 4);
}

#[test]
fn jsr_then_rts_returns_after_call() {
    // 0x8000 JSR 0x8010; 0x8003 LDA #0x42; 0x8010 RTS
    let mut program = vec![0x20, 0x10, 0x80, 0xA9, 0x42];
    program.resize(0x10, 0xEA);
    program.push(0x60);
    let mut emulator = loaded(program);
    emulator.cpu.idx_x = 0x11;
    emulator.cpu.status = 0x01;
    ticks(&mut emulator, 1);
    assert_eq!(emulator.cpu.pc, 0x8010);
    assert_eq!(emulator.cpu.sp, 0xFB);
    assert_eq!(emulator.bus.mem_read(0x01FD), 0x80);
    assert_eq!(emulator.bus.mem_read(0x01FC), 0x02);
    ticks(&mut emulator, 11);
    assert_eq!(emulator.cpu.pc, 0x8003);
    assert_eq!(emulator.cpu.sp, 0xFD);
    assert_eq!(emulator.cpu.acc, 0x00);
    assert_eq!(emulator.cpu.idx_x, 0x11);
    assert_eq!(emulator.cpu.status, 0x01);
    ticks(&mut emulator, 1);
    assert_eq!(emulator.cpu.acc, 0x42);
}

#[test]
fn unknown_opcode_is_one_tick_no_op() {
    let mut emulator = loaded(vec![0x02, 0xA9, 0x07]);
    ticks(&mut emulator, 1);
    assert_eq!(emulator.cpu.pc, 0x8001);
    assert_eq!(emulator.cpu.sleep_cycles, 0);
    assert_eq!(emulator.cpu.acc, 0);
    ticks(&mut emulator, 1);
    assert_eq!(emulator.cpu.acc, 0x07);
}

#[test]
fn pending_cycles_change_nothing_else() {
    let mut emulator = loaded(vec![0xA9, 0x05, 0xA9, 0x06]);
    ticks(&mut emulator, 1);
    assert_eq!(emulator.cpu.sleep_cycles, 1);
    let pc = emulator.cpu.pc;
    ticks(&mut emulator, 1);
    assert_eq!(emulator.cpu.sleep_cycles, 0);
    assert_eq!(emulator.cpu.pc, pc);
    assert_eq!(emulator.cpu.acc, 0x05);
}

#[test]
fn shifts_set_carry() {
    let mut emulator = loaded(vec![0xA9, 0x81, 0x0A, 0x4A, 0x4A]);
    ticks(&mut emulator, 4);
    assert_eq!(emulator.cpu.acc, 0x02);
    assert!(emulator.cpu.get_flag(Flag::Carry));
    ticks(&mut emulator, 2);
    assert_eq!(emulator.cpu.acc, 0x01);
    assert!(!emulator.cpu.get_flag(Flag::Carry));
    ticks(&mut emulator, 2);
    assert_eq!(emulator.cpu.acc, 0x00);
    assert!(emulator.cpu.get_flag(Flag::Carry));
    assert!(emulator.cpu.get_flag(Flag::Zero));
}

#[test]
fn memory_shift_and_increment() {
    let mut emulator = loaded(vec![0x06, 0x10, 0xE6, 0x11, 0xC6, 0x12, 0x46, 0x13]);
    emulator.bus.mem_write(0x10, 0x40).unwrap();
    emulator.bus.mem_write(0x11, 0xFF).unwrap();
    emulator.bus.mem_write(0x12, 0x00).unwrap();
    emulator.bus.mem_write(0x13, 0x03).unwrap();
    ticks(&mut emulator, 5);
    assert_eq!(emulator.bus.mem_read(0x10), 0x80);
    assert!(emulator.cpu.get_flag(Flag::Negative));
    ticks(&mut emulator, 5);
    assert_eq!(emulator.bus.mem_read(0x11), 0x00);
    assert!(emulator.cpu.get_flag(Flag::Zero));
    ticks(&mut emulator, 5);
    assert_eq!(emulator.bus.mem_read(0x12), 0xFF);
    ticks(&mut emulator, 5);
    assert_eq!(emulator.bus.mem_read(0x13), 0x01);
    assert!(emulator.cpu.get_flag(Flag::Carry));
    assert_eq!(emulator.cpu.pc, 0x8008);
}

#[test]
fn stack_push_pull_status() {
    // SEC; PHP; CLC; PLA; PHA; PLP
    let mut emulator = loaded(vec![0x38, 0x08, 0x18, 0x68, 0x48, 0x28]);
    ticks(&mut emulator, 2 + 3 + 2 + 4);
    assert_eq!(emulator.cpu.acc, 0x31);
    assert_eq!(emulator.cpu.sp, 0xFD);
    ticks(&mut emulator, 3 + 4);
    assert_eq!(emulator.cpu.status, 0x01);
}

#[test]
fn push_and_pop_stack_directly() {
    let mut bus = Bus::new(RAM::new(), ROM::new());
    let mut cpu = CPU::new();
    cpu.push_stack(&mut bus, 0xAB);
    assert_eq!(cpu.sp, 0xFC);
    assert_eq!(bus.mem_read(0x01FD), 0xAB);
    assert_eq!(cpu.pop_stack(&bus), 0xAB);
    assert_eq!(cpu.sp, 0xFD);
}

#[test]
fn stack_pointer_wraps() {
    let mut bus = Bus::new(RAM::new(), ROM::new());
    let mut cpu = CPU::new();
    cpu.sp = 0x00;
    cpu.push_stack(&mut bus, 0x5A);
    assert_eq!(cpu.sp, 0xFF);
    assert_eq!(bus.mem_read(0x0100), 0x5A);
    assert_eq!(cpu.pop_stack(&bus), 0x5A);
    assert_eq!(cpu.sp, 0x00);
}

#[test]
fn flag_helpers() {
    let mut cpu = CPU::new();
    cpu.set_flag(Flag::Decimal);
    assert_eq!(cpu.status, 0x08);
    cpu.check_add_carry(0x100);
    assert_eq!(cpu.status, 0x09);
    cpu.check_add_overflow(0x80, 0x40, 0x40);
    assert!(cpu.get_flag(Flag::Overflow));
    cpu.check_add_overflow(0x10, 0x08, 0x08);
    assert!(!cpu.get_flag(Flag::Overflow));
    cpu.clear_flag(Flag::Decimal);
    assert_eq!(cpu.status, 0x01);
    assert!(cpu.check_page_cross(0x10FF, 0x1100));
    assert!(!cpu.check_page_cross(0x1000, 0x10FF));
    assert_eq!(Flag::Negative.mask(), 0x80);
}

#[test]
fn reset_reads_vector() {
    let mut emulator = loaded(vec![0xEA]);
    emulator.cpu.acc = 9;
    emulator.cpu.sp = 3;
    emulator.cpu.pc = 0x1234;
    emulator.cpu.reset(&emulator.bus);
    assert_eq!(emulator.cpu.pc, 0x8000);
    assert_eq!(emulator.cpu.sp, 0xFD);
    assert_eq!(emulator.cpu.acc, 0);
    assert_eq!(emulator.cpu.status, 0);
}

#[test]
fn opcode_table_covers_supported_subset() {
    let mut count = 0;
    for opcode in 0..=255u8 {
        if let Some(ins) = decode(opcode) {
            count += 1;
            assert!(ins.cycles >= 2 && ins.cycles <= 7);
        }
    }
    assert_eq!(count, 91);
    let lda = decode(0xBD).unwrap();
    assert_eq!(lda.op, Op::Lda);
    assert_eq!(lda.mode, Mode::AbsoluteX);
    assert_eq!(lda.cycles, 4);
    assert_eq!(lda.mode.operand_len(), 2);
    assert!(decode(0x00).is_none());
}

#[test]
fn toggle_debug_flips() {
    let mut emulator = Emulator::new();
    assert!(!emulator.cpu.debug_mode);
    emulator.toggle_debug();
    assert!(emulator.cpu.debug_mode);
}
