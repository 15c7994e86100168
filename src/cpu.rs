use vstd::prelude::*;

use crate::bus::{
    hi_byte, lemma_word_bytes, lo_byte, ram_after_write, read16_at, read_at, word, Bus,
};
use crate::memory::{zeros, ProgramRomBank, ROM, PRG_BANK_SIZE};
use crate::opcodes::{decode, decode_spec, operand_len, Instruction, Mode, Op};

verus! {

/// Value of the stack pointer after a reset.
pub const RESET_SP: u8 = 0xFD;

/// Address of the reset vector.
pub const RESET_VECTOR: u16 = 0xFFFC;

/// Base of the stack page.
pub const STACK_BASE: u16 = 0x0100;

/// The bits of the status register.
#[derive(Debug, Clone, Copy, PartialEq, Eq, Structural)]
pub enum Flag {
    Carry,
    Zero,
    Interrupt,
    Decimal,
    Break,
    Unused,
    Overflow,
    Negative,
}

impl Flag {
    pub open spec fn spec_mask(self) -> u8 {
        match self {
            Flag::Carry => 0x01,
            Flag::Zero => 0x02,
            Flag::Interrupt => 0x04,
            Flag::Decimal => 0x08,
            Flag::Break => 0x10,
            Flag::Unused => 0x20,
            Flag::Overflow => 0x40,
            Flag::Negative => 0x80,
        }
    }

    /// The bit of this flag in the status register.
    pub fn mask(self) -> (r: u8)
        ensures
            r == self.spec_mask(),
    {
        match self {
            Flag::Carry => 0x01,
            Flag::Zero => 0x02,
            Flag::Interrupt => 0x04,
            Flag::Decimal => 0x08,
            Flag::Break => 0x10,
            Flag::Unused => 0x20,
            Flag::Overflow => 0x40,
            Flag::Negative => 0x80,
        }
    }
}

/// `status` with flag `f` set to `on`.
pub open spec fn with_flag(status: u8, f: Flag, on: bool) -> u8 {
    if on {
        status | f.spec_mask()
    } else {
        status & !f.spec_mask()
    }
}

pub open spec fn has_flag(status: u8, f: Flag) -> bool {
    status & f.spec_mask() != 0
}

/// `status` with Zero and Negative describing `v`.
pub open spec fn with_zn(status: u8, v: u8) -> u8 {
    with_flag(with_flag(status, Flag::Zero, v == 0), Flag::Negative, v >= 0x80)
}

/// Signed overflow of `a + b` giving `r`: both operands have one sign and
/// the result the other.
pub open spec fn add_overflows(a: u8, b: u8, r: u8) -> bool {
    (a >= 0x80) == (b >= 0x80) && (a >= 0x80) != (r >= 0x80)
}

/// The high bytes of two addresses differ.
pub open spec fn page_crossed(a: u16, b: u16) -> bool {
    a / 256 != b / 256
}

pub open spec fn stack_addr(sp: u8) -> u16 {
    (STACK_BASE + sp) as u16
}

/// The six architectural registers and the count of cycles the current
/// instruction still occupies.
pub struct CPU {
    pub pc: u16,
    pub sp: u8,
    pub acc: u8,
    pub idx_x: u8,
    pub idx_y: u8,
    pub status: u8,
    /// Asks the driver to trace each tick; the core itself ignores it.
    pub debug_mode: bool,
    /// Ticks left before the next fetch.
    pub sleep_cycles: u8,
}

/// Address of the operand of the instruction at `c.pc`.
pub open spec fn operand_address(c: CPU, ram: Seq<u8>, rom: ROM, mode: Mode) -> u16 {
    let arg = c.pc.wrapping_add(1);
    let zp = read_at(ram, rom, arg);
    match mode {
        Mode::ZeroPage => zp as u16,
        Mode::ZeroPageX => zp.wrapping_add(c.idx_x) as u16,
        Mode::ZeroPageY => zp.wrapping_add(c.idx_y) as u16,
        Mode::Absolute => read16_at(ram, rom, arg),
        Mode::AbsoluteX => read16_at(ram, rom, arg).wrapping_add(c.idx_x as u16),
        Mode::AbsoluteY => read16_at(ram, rom, arg).wrapping_add(c.idx_y as u16),
        Mode::Indirect => read16_at(ram, rom, read16_at(ram, rom, arg)),
        Mode::IndirectX => read16_at(ram, rom, zp.wrapping_add(c.idx_x) as u16),
        Mode::IndirectY => read16_at(ram, rom, zp as u16).wrapping_add(c.idx_y as u16),
        _ => arg,
    }
}

/// The address an indexed mode starts from, before the index is added.
pub open spec fn base_address(c: CPU, ram: Seq<u8>, rom: ROM, mode: Mode) -> u16 {
    let arg = c.pc.wrapping_add(1);
    match mode {
        Mode::AbsoluteX | Mode::AbsoluteY => read16_at(ram, rom, arg),
        Mode::IndirectY => read16_at(ram, rom, read_at(ram, rom, arg) as u16),
        _ => operand_address(c, ram, rom, mode),
    }
}

/// Operations that only read their operand, and so pay for a page crossing.
pub open spec fn is_read_op(op: Op) -> bool {
    op == Op::Adc || op == Op::And || op == Op::Lda || op == Op::Ldx || op == Op::Ldy
}

/// The instruction takes one cycle more than its base cost.
pub open spec fn extra_cycle(c: CPU, ram: Seq<u8>, rom: ROM, ins: Instruction) -> bool {
    &&& is_read_op(ins.op)
    &&& (ins.mode == Mode::AbsoluteX || ins.mode == Mode::AbsoluteY || ins.mode
        == Mode::IndirectY)
    &&& page_crossed(base_address(c, ram, rom, ins.mode), operand_address(c, ram, rom, ins.mode))
}

/// Registers after the operation of `ins`, before the program counter moves
/// past the instruction (a jump or return sets it here).
pub open spec fn exec_regs(c: CPU, ram: Seq<u8>, rom: ROM, ins: Instruction) -> CPU {
    let addr = operand_address(c, ram, rom, ins.mode);
    let v = read_at(ram, rom, addr);
    let s = c.status;
    match ins.op {
        Op::Adc => {
            let sum = c.acc + v + if has_flag(s, Flag::Carry) { 1int } else { 0int };
            let r = (sum % 256) as u8;
            CPU {
                acc: r,
                status: with_zn(
                    with_flag(
                        with_flag(s, Flag::Overflow, add_overflows(c.acc, v, r)),
                        Flag::Carry,
                        sum > 0xFF,
                    ),
                    r,
                ),
                ..c
            }
        },
        Op::And => CPU { acc: c.acc & v, status: with_zn(s, c.acc & v), ..c },
        Op::Asl => {
            let x = if ins.mode == Mode::Accumulator { c.acc } else { v };
            let r = ((x * 2) % 256) as u8;
            let st = with_zn(with_flag(s, Flag::Carry, x >= 0x80), r);
            if ins.mode == Mode::Accumulator {
                CPU { acc: r, status: st, ..c }
            } else {
                CPU { status: st, ..c }
            }
        },
        Op::Lsr => {
            let x = if ins.mode == Mode::Accumulator { c.acc } else { v };
            let r = x / 2;
            let st = with_zn(with_flag(s, Flag::Carry, x % 2 == 1), r);
            if ins.mode == Mode::Accumulator {
                CPU { acc: r, status: st, ..c }
            } else {
                CPU { status: st, ..c }
            }
        },
        Op::Clc => CPU { status: with_flag(s, Flag::Carry, false), ..c },
        Op::Cld => CPU { status: with_flag(s, Flag::Decimal, false), ..c },
        Op::Cli => CPU { status: with_flag(s, Flag::Interrupt, false), ..c },
        Op::Clv => CPU { status: with_flag(s, Flag::Overflow, false), ..c },
        Op::Sec => CPU { status: with_flag(s, Flag::Carry, true), ..c },
        Op::Sed => CPU { status: with_flag(s, Flag::Decimal, true), ..c },
        Op::Sei => CPU { status: with_flag(s, Flag::Interrupt, true), ..c },
        Op::Dec => CPU { status: with_zn(s, v.wrapping_sub(1)), ..c },
        Op::Inc => CPU { status: with_zn(s, v.wrapping_add(1)), ..c },
        Op::Dex => CPU {
            idx_x: c.idx_x.wrapping_sub(1),
            status: with_zn(s, c.idx_x.wrapping_sub(1)),
            ..c
        },
        Op::Dey => CPU {
            idx_y: c.idx_y.wrapping_sub(1),
            status: with_zn(s, c.idx_y.wrapping_sub(1)),
            ..c
        },
        Op::Inx => CPU {
            idx_x: c.idx_x.wrapping_add(1),
            status: with_zn(s, c.idx_x.wrapping_add(1)),
            ..c
        },
        Op::Iny => CPU {
            idx_y: c.idx_y.wrapping_add(1),
            status: with_zn(s, c.idx_y.wrapping_add(1)),
            ..c
        },
        Op::Lda => CPU { acc: v, status: with_zn(s, v), ..c },
        Op::Ldx => CPU { idx_x: v, status: with_zn(s, v), ..c },
        Op::Ldy => CPU { idx_y: v, status: with_zn(s, v), ..c },
        Op::Tax => CPU { idx_x: c.acc, status: with_zn(s, c.acc), ..c },
        Op::Tay => CPU { idx_y: c.acc, status: with_zn(s, c.acc), ..c },
        Op::Tsx => CPU { idx_x: c.sp, status: with_zn(s, c.sp), ..c },
        Op::Txa => CPU { acc: c.idx_x, status: with_zn(s, c.idx_x), ..c },
        Op::Tya => CPU { acc: c.idx_y, status: with_zn(s, c.idx_y), ..c },
        Op::Txs => CPU { sp: c.idx_x, ..c },
        Op::Sta | Op::Stx | Op::Sty | Op::Nop => c,
        Op::Jmp => CPU { pc: addr, ..c },
        Op::Jsr => CPU { pc: addr, sp: c.sp.wrapping_sub(2), ..c },
        // the pulled address is that of the call's last byte; moving past
        // the (operand-less) RTS then lands just after the call
        Op::Rts => CPU {
            pc: word(
                read_at(ram, rom, stack_addr(c.sp.wrapping_add(1))),
                read_at(ram, rom, stack_addr(c.sp.wrapping_add(2))),
            ),
            sp: c.sp.wrapping_add(2),
            ..c
        },
        Op::Pha | Op::Php => CPU { sp: c.sp.wrapping_sub(1), ..c },
        Op::Pla => {
            let r = read_at(ram, rom, stack_addr(c.sp.wrapping_add(1)));
            CPU { acc: r, sp: c.sp.wrapping_add(1), status: with_zn(s, r), ..c }
        },
        // Break and the unused bit are not kept when status is pulled back
        Op::Plp => CPU {
            status: read_at(ram, rom, stack_addr(c.sp.wrapping_add(1))) & 0xCF,
            sp: c.sp.wrapping_add(1),
            ..c
        },
    }
}

/// RAM after the operation of `ins`.
pub open spec fn exec_ram(c: CPU, ram: Seq<u8>, rom: ROM, ins: Instruction) -> Seq<u8> {
    let addr = operand_address(c, ram, rom, ins.mode);
    let v = read_at(ram, rom, addr);
    match ins.op {
        Op::Asl => if ins.mode == Mode::Accumulator {
            ram
        } else {
            ram_after_write(ram, addr, ((v * 2) % 256) as u8)
        },
        Op::Lsr => if ins.mode == Mode::Accumulator {
            ram
        } else {
            ram_after_write(ram, addr, v / 2)
        },
        Op::Dec => ram_after_write(ram, addr, v.wrapping_sub(1)),
        Op::Inc => ram_after_write(ram, addr, v.wrapping_add(1)),
        Op::Sta => ram_after_write(ram, addr, c.acc),
        Op::Stx => ram_after_write(ram, addr, c.idx_x),
        Op::Sty => ram_after_write(ram, addr, c.idx_y),
        Op::Pha => ram_after_write(ram, stack_addr(c.sp), c.acc),
        Op::Php => ram_after_write(ram, stack_addr(c.sp), c.status | 0x30),
        Op::Jsr => {
            // the pushed address is that of the instruction's last byte
            let ret = c.pc.wrapping_add(2);
            ram_after_write(
                ram_after_write(ram, stack_addr(c.sp), hi_byte(ret)),
                stack_addr(c.sp.wrapping_sub(1)),
                lo_byte(ret),
            )
        },
        _ => ram,
    }
}

/// Machine state after fetching and executing `ins` from a fetching state.
pub open spec fn dispatch(c: CPU, ram: Seq<u8>, rom: ROM, ins: Instruction) -> (CPU, Seq<u8>) {
    let r = exec_regs(c, ram, rom, ins);
    let pc = if ins.op == Op::Jmp || ins.op == Op::Jsr {
        r.pc
    } else {
        r.pc.wrapping_add((1 + operand_len(ins.mode)) as u16)
    };
    let wait = ins.cycles - 1 + if extra_cycle(c, ram, rom, ins) { 1int } else { 0int };
    (CPU { pc: pc, sleep_cycles: wait as u8, ..r }, exec_ram(c, ram, rom, ins))
}

/// Machine state after one clock tick.
pub open spec fn step(c: CPU, ram: Seq<u8>, rom: ROM) -> (CPU, Seq<u8>) {
    if c.sleep_cycles > 0 {
        (CPU { sleep_cycles: (c.sleep_cycles - 1) as u8, ..c }, ram)
    } else {
        match decode_spec(read_at(ram, rom, c.pc)) {
            Some(ins) => dispatch(c, ram, rom, ins),
            None => (CPU { pc: c.pc.wrapping_add(1), ..c }, ram),
        }
    }
}

/// Longest program that `load` takes: it fills the program window up to
/// the reset vector at 0xFFFC.
pub const LOAD_LIMIT: usize = 0x7FFC;

/// The 32KB program window made by `load`: the program, zeros, a reset
/// vector holding 0x8000, and a zero interrupt vector.
pub open spec fn program_image(program: Seq<u8>) -> Seq<u8> {
    program + zeros((LOAD_LIMIT - program.len()) as nat) + seq![0x00u8, 0x80u8, 0u8, 0u8]
}

/// `CPU` with `status` replaced.
pub open spec fn with_status(c: CPU, status: u8) -> CPU {
    CPU { status: status, ..c }
}

impl CPU {
    pub open spec fn new_spec() -> CPU {
        CPU {
            pc: 0x8000,
            sp: RESET_SP,
            acc: 0,
            idx_x: 0,
            idx_y: 0,
            status: 0,
            debug_mode: false,
            sleep_cycles: 0,
        }
    }

    /// A CPU about to fetch from 0x8000, with the stack pointer at 0xFD and
    /// every other register cleared.
    pub fn new() -> (r: CPU)
        ensures
            r == CPU::new_spec(),
    {
        CPU {
            pc: 0x8000,
            sp: RESET_SP,
            acc: 0,
            idx_x: 0,
            idx_y: 0,
            status: 0,
            debug_mode: false,
            sleep_cycles: 0,
        }
    }

    pub fn get_flag(&self, flag: Flag) -> (r: bool)
        ensures
            r == has_flag(self.status, flag),
    {
        self.status & flag.mask() != 0
    }

    pub fn set_flag(&mut self, flag: Flag)
        ensures
            *final(self) == with_status(*old(self), with_flag(old(self).status, flag, true)),
    {
        self.status = self.status | flag.mask();
    }

    pub fn clear_flag(&mut self, flag: Flag)
        ensures
            *final(self) == with_status(*old(self), with_flag(old(self).status, flag, false)),
    {
        self.status = self.status & !flag.mask();
    }

    /// Sets `flag` when `on` holds and clears it otherwise.
    pub fn put_flag(&mut self, flag: Flag, on: bool)
        ensures
            *final(self) == with_status(*old(self), with_flag(old(self).status, flag, on)),
    {
        if on {
            self.set_flag(flag);
        } else {
            self.clear_flag(flag);
        }
    }

    /// Carry from an unsigned 8-bit addition whose full result is `sum`.
    pub fn check_add_carry(&mut self, sum: u16)
        ensures
            *final(self) == with_status(*old(self), with_flag(old(self).status, Flag::Carry, sum > 0xFF)),
    {
        self.put_flag(Flag::Carry, sum > 0xFF);
    }

    /// Signed overflow of `addend_1 + addend_2` giving `sum`.
    pub fn check_add_overflow(&mut self, sum: u8, addend_1: u8, addend_2: u8)
        ensures
            *final(self) == with_status(
                *old(self),
                with_flag(old(self).status, Flag::Overflow, add_overflows(addend_1, addend_2, sum)),
            ),
    {
        let ovf = (addend_1 ^ addend_2) & 0x80 == 0 && (addend_1 ^ sum) & 0x80 != 0;
        assert(ovf == add_overflows(addend_1, addend_2, sum)) by (bit_vector)
            requires
                ovf == ((addend_1 ^ addend_2) & 0x80 == 0 && (addend_1 ^ sum) & 0x80 != 0),
        ;
        self.put_flag(Flag::Overflow, ovf);
    }

    pub fn check_zero(&mut self, oper: u8)
        ensures
            *final(self) == with_status(*old(self), with_flag(old(self).status, Flag::Zero, oper == 0)),
    {
        self.put_flag(Flag::Zero, oper == 0);
    }

    pub fn check_negative(&mut self, oper: u8)
        ensures
            *final(self) == with_status(
                *old(self),
                with_flag(old(self).status, Flag::Negative, oper >= 0x80),
            ),
    {
        let neg = oper & 0x80 != 0;
        assert(neg == (oper >= 0x80)) by (bit_vector)
            requires
                neg == (oper & 0x80 != 0),
        ;
        self.put_flag(Flag::Negative, neg);
    }

    /// Zero and Negative from `oper`.
    fn check_zn(&mut self, oper: u8)
        ensures
            *final(self) == with_status(*old(self), with_zn(old(self).status, oper)),
    {
        self.check_zero(oper);
        self.check_negative(oper);
    }

    /// Whether the two addresses lie on different 256-byte pages.
    pub fn check_page_cross(&self, addr_1: u16, addr_2: u16) -> (r: bool)
        ensures
            r == page_crossed(addr_1, addr_2),
    {
        let r = addr_1 & 0xFF00 != addr_2 & 0xFF00;
        assert(r == (addr_1 / 256 != addr_2 / 256)) by (bit_vector)
            requires
                r == (addr_1 & 0xFF00 != addr_2 & 0xFF00),
        ;
        r
    }

    /// Writes `oper` at 0x0100 + SP, then decrements SP (wrapping).
    pub fn push_stack(&mut self, bus: &mut Bus, oper: u8)
        ensures
            *final(self) == (CPU { sp: old(self).sp.wrapping_sub(1), ..*old(self) }),
            final(bus).rom == old(bus).rom,
            final(bus).ram@ == ram_after_write(old(bus).ram@, stack_addr(old(self).sp), oper),
    {
        let _ = bus.mem_write(STACK_BASE + self.sp as u16, oper);
        self.sp = self.sp.wrapping_sub(1);
    }

    /// Increments SP (wrapping), then reads 0x0100 + SP.
    pub fn pop_stack(&mut self, bus: &Bus) -> (r: u8)
        ensures
            *final(self) == (CPU { sp: old(self).sp.wrapping_add(1), ..*old(self) }),
            r == bus.spec_read(stack_addr(final(self).sp)),
    {
        self.sp = self.sp.wrapping_add(1);
        bus.mem_read(STACK_BASE + self.sp as u16)
    }

    /// Effective address of the operand of the instruction at PC.
    pub fn get_addr(&self, bus: &Bus, mode: Mode) -> (r: u16)
        ensures
            r == operand_address(*self, bus.ram@, bus.rom, mode),
    {
        let arg = self.pc.wrapping_add(1);
        match mode {
            Mode::ZeroPage => bus.mem_read(arg) as u16,
            Mode::ZeroPageX => bus.mem_read(arg).wrapping_add(self.idx_x) as u16,
            Mode::ZeroPageY => bus.mem_read(arg).wrapping_add(self.idx_y) as u16,
            Mode::Absolute => bus.mem_read_u16(arg),
            Mode::AbsoluteX => bus.mem_read_u16(arg).wrapping_add(self.idx_x as u16),
            Mode::AbsoluteY => bus.mem_read_u16(arg).wrapping_add(self.idx_y as u16),
            Mode::Indirect => {
                let ptr = bus.mem_read_u16(arg);
                bus.mem_read_u16(ptr)
            },
            Mode::IndirectX => {
                let ptr = bus.mem_read(arg).wrapping_add(self.idx_x);
                bus.mem_read_u16(ptr as u16)
            },
            Mode::IndirectY => {
                let ptr = bus.mem_read(arg);
                bus.mem_read_u16(ptr as u16).wrapping_add(self.idx_y as u16)
            },
            _ => arg,
        }
    }

    /// Runs the operation of `ins` (read, modify, write, flags), sets the
    /// wait for its remaining cycles and moves PC past it.
    fn execute(&mut self, bus: &mut Bus, ins: Instruction)
        requires
            2 <= ins.cycles <= 7,
        ensures
            (*final(self), final(bus).ram@) == dispatch(*old(self), old(bus).ram@, old(bus).rom, ins),
            final(bus).rom == old(bus).rom,
    {
        let addr = self.get_addr(bus, ins.mode);
        let extra = self.page_penalty(bus, ins, addr);
        match ins.op {
            Op::Adc => {
                let value = bus.mem_read(addr);
                let before = self.acc;
                let carry: u16 = if self.get_flag(Flag::Carry) { 1 } else { 0 };
                let sum: u16 = self.acc as u16 + value as u16 + carry;
                self.acc = (sum % 256) as u8;
                self.check_add_overflow(self.acc, before, value);
                self.check_add_carry(sum);
                self.check_zn(self.acc);
            },
            Op::And => {
                let value = bus.mem_read(addr);
                self.acc = self.acc & value;
                self.check_zn(self.acc);
            },
            Op::Asl => {
                let x = if ins.mode == Mode::Accumulator { self.acc } else { bus.mem_read(addr) };
                let r = x << 1u8;
                assert(r == ((x * 2) % 256) as u8) by (bit_vector)
                    requires
                        r == x << 1u8,
                ;
                self.put_flag(Flag::Carry, x >= 0x80);
                if ins.mode == Mode::Accumulator {
                    self.acc = r;
                } else {
                    let _ = bus.mem_write(addr, r);
                }
                self.check_zn(r);
            },
            Op::Lsr => {
                let x = if ins.mode == Mode::Accumulator { self.acc } else { bus.mem_read(addr) };
                let r = x >> 1u8;
                let low = x & 1 == 1;
                assert(r == x / 2 && low == (x % 2 == 1)) by (bit_vector)
                    requires
                        r == x >> 1u8,
                        low == (x & 1 == 1),
                ;
                self.put_flag(Flag::Carry, low);
                if ins.mode == Mode::Accumulator {
                    self.acc = r;
                } else {
                    let _ = bus.mem_write(addr, r);
                }
                self.check_zn(r);
            },
            Op::Clc => self.clear_flag(Flag::Carry),
            Op::Cld => self.clear_flag(Flag::Decimal),
            Op::Cli => self.clear_flag(Flag::Interrupt),
            Op::Clv => self.clear_flag(Flag::Overflow),
            Op::Sec => self.set_flag(Flag::Carry),
            Op::Sed => self.set_flag(Flag::Decimal),
            Op::Sei => self.set_flag(Flag::Interrupt),
            Op::Dec => {
                let r = bus.mem_read(addr).wrapping_sub(1);
                let _ = bus.mem_write(addr, r);
                self.check_zn(r);
            },
            Op::Inc => {
                let r = bus.mem_read(addr).wrapping_add(1);
                let _ = bus.mem_write(addr, r);
                self.check_zn(r);
            },
            Op::Dex => {
                self.idx_x = self.idx_x.wrapping_sub(1);
                self.check_zn(self.idx_x);
            },
            Op::Dey => {
                self.idx_y = self.idx_y.wrapping_sub(1);
                self.check_zn(self.idx_y);
            },
            Op::Inx => {
                self.idx_x = self.idx_x.wrapping_add(1);
                self.check_zn(self.idx_x);
            },
            Op::Iny => {
                self.idx_y = self.idx_y.wrapping_add(1);
                self.check_zn(self.idx_y);
            },
            Op::Lda => {
                self.acc = bus.mem_read(addr);
                self.check_zn(self.acc);
            },
            Op::Ldx => {
                self.idx_x = bus.mem_read(addr);
                self.check_zn(self.idx_x);
            },
            Op::Ldy => {
                self.idx_y = bus.mem_read(addr);
                self.check_zn(self.idx_y);
            },
            Op::Tax => {
                self.idx_x = self.acc;
                self.check_zn(self.idx_x);
            },
            Op::Tay => {
                self.idx_y = self.acc;
                self.check_zn(self.idx_y);
            },
            Op::Tsx => {
                self.idx_x = self.sp;
                self.check_zn(self.idx_x);
            },
            Op::Txa => {
                self.acc = self.idx_x;
                self.check_zn(self.acc);
            },
            Op::Tya => {
                self.acc = self.idx_y;
                self.check_zn(self.acc);
            },
            Op::Txs => {
                self.sp = self.idx_x;
            },
            Op::Sta => {
                let _ = bus.mem_write(addr, self.acc);
            },
            Op::Stx => {
                let _ = bus.mem_write(addr, self.idx_x);
            },
            Op::Sty => {
                let _ = bus.mem_write(addr, self.idx_y);
            },
            Op::Nop => {},
            Op::Jmp => {
                self.pc = addr;
            },
            Op::Jsr => {
                let ret = self.pc.wrapping_add(2);
                self.push_stack(bus, (ret / 256) as u8);
                self.push_stack(bus, (ret % 256) as u8);
                self.pc = addr;
            },
            Op::Rts => {
                let lo = self.pop_stack(bus);
                let hi = self.pop_stack(bus);
                self.pc = lo as u16 + (hi as u16) * 256;
            },
            Op::Pha => {
                let a = self.acc;
                self.push_stack(bus, a);
            },
            Op::Php => {
                let st = self.status | 0x30;
                self.push_stack(bus, st);
            },
            Op::Pla => {
                self.acc = self.pop_stack(bus);
                self.check_zn(self.acc);
            },
            Op::Plp => {
                self.status = self.pop_stack(bus) & 0xCF;
            },
        }
        self.sleep_cycles = if extra { ins.cycles } else { ins.cycles - 1 };
        if ins.op != Op::Jmp && ins.op != Op::Jsr {
            self.pc = self.pc.wrapping_add(1 + ins.mode.operand_len());
        }
    }

    /// One clock tick. While the current instruction still has cycles to
    /// wait, only the wait shrinks. Otherwise the opcode at PC is fetched,
    /// decoded and executed in full; an opcode outside the table does
    /// nothing but move PC on by one.
    pub fn cycle(&mut self, bus: &mut Bus)
        ensures
            (*final(self), final(bus).ram@) == step(*old(self), old(bus).ram@, old(bus).rom),
            final(bus).rom == old(bus).rom,
    {
        if self.sleep_cycles > 0 {
            self.sleep_cycles = self.sleep_cycles - 1;
            return ;
        }
        let opcode = bus.mem_read(self.pc);
        match decode(opcode) {
            Some(ins) => self.execute(bus, ins),
            None => {
                self.pc = self.pc.wrapping_add(1);
            },
        }
    }

    /// Sets SP to 0xFD, clears A, X, Y, status and any pending wait, and
    /// loads PC from the reset vector.
    pub fn reset(&mut self, bus: &Bus)
        ensures
            *final(self) == (CPU {
                pc: bus.spec_read16(RESET_VECTOR),
                sp: RESET_SP,
                acc: 0,
                idx_x: 0,
                idx_y: 0,
                status: 0,
                sleep_cycles: 0,
                ..*old(self)
            }),
    {
        self.sp = RESET_SP;
        self.acc = 0;
        self.idx_x = 0;
        self.idx_y = 0;
        self.status = 0;
        self.sleep_cycles = 0;
        self.pc = bus.mem_read_u16(RESET_VECTOR);
    }

    /// Puts `program` at 0x8000 in the two program banks of a mapper-0
    /// cartridge, points the reset vector at 0x8000 and moves PC there.
    /// RAM, the character banks and the other registers stay as they are.
    pub fn load(&mut self, bus: &mut Bus, program: &[u8])
        requires
            program@.len() <= LOAD_LIMIT,
        ensures
            *final(self) == (CPU { pc: 0x8000, ..*old(self) }),
            final(bus).ram == old(bus).ram,
            final(bus).rom.chr_rom == old(bus).rom.chr_rom,
            final(bus).rom.mapper == 0,
            final(bus).rom.prg_rom@.len() == 2,
            final(bus).rom.prg_rom@[0].data@ == program_image(program@).subrange(
                0,
                PRG_BANK_SIZE as int,
            ),
            final(bus).rom.prg_rom@[1].data@ == program_image(program@).subrange(
                PRG_BANK_SIZE as int,
                2 * PRG_BANK_SIZE,
            ),
            forall|i: int|
                0 <= i < program@.len() ==> #[trigger] final(bus).spec_read((0x8000 + i) as u16)
                    == program@[i],
            final(bus).spec_read16(RESET_VECTOR) == 0x8000,
    {
        let mut low = ProgramRomBank::new();
        let mut high = ProgramRomBank::new();
        let n = program.len();
        let mut i: usize = 0;
        while i < n
            invariant
                n == program@.len(),
                n <= LOAD_LIMIT,
                i <= n,
                low.data@.len() == PRG_BANK_SIZE,
                high.data@.len() == PRG_BANK_SIZE,
                forall|j: int|
                    0 <= j < PRG_BANK_SIZE ==> low.data@[j] == (if j < i {
                        program@[j]
                    } else {
                        0u8
                    }),
                forall|j: int|
                    0 <= j < PRG_BANK_SIZE ==> high.data@[j] == (if PRG_BANK_SIZE + j < i {
                        program@[PRG_BANK_SIZE + j]
                    } else {
                        0u8
                    }),
            decreases n - i,
        {
            if i < PRG_BANK_SIZE {
                low.data[i] = program[i];
            } else {
                high.data[i - PRG_BANK_SIZE] = program[i];
            }
            i = i + 1;
        }
        high.data[LOAD_LIMIT - PRG_BANK_SIZE] = 0x00;
        high.data[LOAD_LIMIT - PRG_BANK_SIZE + 1] = 0x80;
        let ghost image = program_image(program@);
        assert(low.data@ =~= image.subrange(0, PRG_BANK_SIZE as int));
        assert(high.data@ =~= image.subrange(PRG_BANK_SIZE as int, 2 * PRG_BANK_SIZE));
        let mut prg_rom: Vec<ProgramRomBank> = Vec::new();
        prg_rom.push(low);
        prg_rom.push(high);
        bus.rom.prg_rom = prg_rom;
        bus.rom.mapper = 0;
        self.pc = 0x8000;
        assert forall|i: int| 0 <= i < program@.len() implies #[trigger] bus.spec_read(
            (0x8000 + i) as u16,
        ) == program@[i] by {
            assert(((0x8000 + i) as u16) as int - 0x8000 == i);
            assert(image[i] == program@[i]);
        }
        assert(image[LOAD_LIMIT as int] == 0x00);
        assert(image[LOAD_LIMIT + 1] == 0x80);
        assert(bus.spec_read(RESET_VECTOR) == 0x00);
        assert(bus.spec_read(0xFFFD) == 0x80);
    }

    /// Whether `ins` pays one cycle more for crossing a page.
    fn page_penalty(&self, bus: &Bus, ins: Instruction, addr: u16) -> (r: bool)
        requires
            addr == operand_address(*self, bus.ram@, bus.rom, ins.mode),
        ensures
            r == extra_cycle(*self, bus.ram@, bus.rom, ins),
    {
        let reads = match ins.op {
            Op::Adc | Op::And | Op::Lda | Op::Ldx | Op::Ldy => true,
            _ => false,
        };
        if !reads {
            return false;
        }
        match ins.mode {
            Mode::AbsoluteX | Mode::AbsoluteY => {
                let base = self.get_addr(bus, Mode::Absolute);
                self.check_page_cross(base, addr)
            },
            Mode::IndirectY => {
                let ptr = bus.mem_read(self.pc.wrapping_add(1));
                let base = bus.mem_read_u16(ptr as u16);
                self.check_page_cross(base, addr)
            },
            _ => false,
        }
    }
}

/// Operations that put a value into a register and report it in Zero and
/// Negative.
pub open spec fn is_register_load(op: Op) -> bool {
    op == Op::Lda || op == Op::Ldx || op == Op::Ldy || op == Op::Tax || op == Op::Tay || op
        == Op::Tsx || op == Op::Txa || op == Op::Tya || op == Op::Pla
}

/// The register that a register load fills.
pub open spec fn loaded_register(op: Op, c: CPU) -> u8 {
    if op == Op::Ldx || op == Op::Tax || op == Op::Tsx {
        c.idx_x
    } else if op == Op::Ldy || op == Op::Tay {
        c.idx_y
    } else {
        c.acc
    }
}

/// State after `n` clock ticks.
pub open spec fn run(c: CPU, ram: Seq<u8>, rom: ROM, n: nat) -> (CPU, Seq<u8>)
    decreases n,
{
    if n == 0 {
        (c, ram)
    } else {
        let (c1, ram1) = step(c, ram, rom);
        run(c1, ram1, rom, (n - 1) as nat)
    }
}

/// Zero reports a zero value and Negative its bit 7.
pub proof fn lemma_with_zn(s: u8, v: u8)
    ensures
        has_flag(with_zn(s, v), Flag::Zero) == (v == 0),
        has_flag(with_zn(s, v), Flag::Negative) == (v & 0x80 != 0),
{
    let a = if v == 0 { s | 0x02 } else { s & !0x02u8 };
    let b = if v >= 0x80 { a | 0x80 } else { a & !0x80u8 };
    assert(b == with_zn(s, v));
    assert((b & 0x02 != 0) == (v == 0) && (b & 0x80 != 0) == (v & 0x80 != 0)) by (bit_vector)
        requires
            a == (if v == 0 { s | 0x02 } else { s & !0x02u8 }),
            b == (if v >= 0x80 { a | 0x80 } else { a & !0x80u8 }),
    ;
}

/// Whatever 8-bit value an instruction loads into a register, after that
/// tick Zero is set exactly when the value is 0 and Negative exactly when
/// its bit 7 is set.
pub proof fn lemma_load_flags(c: CPU, bus: Bus)
    requires
        c.sleep_cycles == 0,
        decode_spec(bus.spec_read(c.pc)) matches Some(ins) && is_register_load(ins.op),
    ensures
        ({
            let ins = decode_spec(bus.spec_read(c.pc))->Some_0;
            let after = step(c, bus.ram@, bus.rom).0;
            let v = loaded_register(ins.op, after);
            &&& has_flag(after.status, Flag::Zero) == (v == 0)
            &&& has_flag(after.status, Flag::Negative) == (v & 0x80 != 0)
        }),
{
    let ins = decode_spec(bus.spec_read(c.pc))->Some_0;
    let r = exec_regs(c, bus.ram@, bus.rom, ins);
    lemma_with_zn(c.status, loaded_register(ins.op, r));
}

/// Zero-page addressing, plain or indexed, always stays in 0x00-0xFF: the
/// index is added modulo 256.
pub proof fn lemma_zero_page_wraps(c: CPU, bus: Bus)
    ensures
        ({
            let base = bus.spec_read(c.pc.wrapping_add(1));
            let ram = bus.ram@;
            &&& operand_address(c, ram, bus.rom, Mode::ZeroPage) == base
            &&& operand_address(c, ram, bus.rom, Mode::ZeroPageX) == (base + c.idx_x) % 256
            &&& operand_address(c, ram, bus.rom, Mode::ZeroPageY) == (base + c.idx_y) % 256
            &&& operand_address(c, ram, bus.rom, Mode::ZeroPageX) < 0x100
            &&& operand_address(c, ram, bus.rom, Mode::ZeroPageY) < 0x100
        }),
{
}

/// An indexed absolute load waits one cycle more when its effective
/// address lies on another page than its base address; an indexed
/// absolute store never does.
pub proof fn lemma_page_cross_cycles(c: CPU, bus: Bus)
    requires
        c.sleep_cycles == 0,
        decode_spec(bus.spec_read(c.pc)) matches Some(ins) && (ins.mode == Mode::AbsoluteX
            || ins.mode == Mode::AbsoluteY),
    ensures
        ({
            let ins = decode_spec(bus.spec_read(c.pc))->Some_0;
            let after = step(c, bus.ram@, bus.rom).0;
            let base = base_address(c, bus.ram@, bus.rom, ins.mode);
            let addr = operand_address(c, bus.ram@, bus.rom, ins.mode);
            &&& is_read_op(ins.op) && page_crossed(base, addr) ==> after.sleep_cycles == ins.cycles
            &&& is_read_op(ins.op) && !page_crossed(base, addr) ==> after.sleep_cycles
                == ins.cycles - 1
            &&& (ins.op == Op::Sta || ins.op == Op::Stx || ins.op == Op::Sty)
                ==> after.sleep_cycles == ins.cycles - 1
        }),
{
}

/// A JSR whose target holds an RTS comes back, once both have run their
/// cycles, to the instruction right after the JSR, with every other
/// register as it was.
pub proof fn lemma_call_return(c: CPU, bus: Bus)
    requires
        c.sleep_cycles == 0,
        bus.spec_read(c.pc) == 0x20,
        read_at(
            step(c, bus.ram@, bus.rom).1,
            bus.rom,
            read16_at(bus.ram@, bus.rom, c.pc.wrapping_add(1)),
        ) == 0x60,
    ensures
        run(c, bus.ram@, bus.rom, 12).0 == (CPU { pc: c.pc.wrapping_add(3), ..c }),
{
    let rom = bus.rom;
    let ram0 = bus.ram@;
    let ret = c.pc.wrapping_add(2);
    let (c1, ram1) = step(c, ram0, rom);
    assert(c1.sleep_cycles == 5);
    assert(c1.sp == c.sp.wrapping_sub(2));
    let hi_at = stack_addr(c.sp);
    let lo_at = stack_addr(c.sp.wrapping_sub(1));
    assert(read_at(ram1, rom, lo_at) == lo_byte(ret));
    assert(read_at(ram1, rom, hi_at) == hi_byte(ret));
    let (c6, ram6) = run(c1, ram1, rom, 5);
    assert(run(c1, ram1, rom, 5) == (CPU { sleep_cycles: 0, ..c1 }, ram1)) by {
        reveal_with_fuel(run, 6);
    }
    let (c7, ram7) = step(c6, ram6, rom);
    assert(c6.sp.wrapping_add(1) == c.sp.wrapping_sub(1));
    assert(c6.sp.wrapping_add(2) == c.sp);
    lemma_word_bytes(ret);
    assert(c7 == (CPU { pc: c.pc.wrapping_add(3), sleep_cycles: 5, ..c }));
    assert(run(c7, ram7, rom, 5) == (CPU { sleep_cycles: 0, ..c7 }, ram7)) by {
        reveal_with_fuel(run, 6);
    }
    assert(run(c, ram0, rom, 12) == run(c7, ram7, rom, 5)) by {
        reveal_with_fuel(run, 2);
        assert(run(c, ram0, rom, 12) == run(c1, ram1, rom, 11));
        lemma_run_split(c1, ram1, rom, 5, 6);
    }
}

/// Running `a + b` ticks is running `a`, then `b`.
pub proof fn lemma_run_split(c: CPU, ram: Seq<u8>, rom: ROM, a: nat, b: nat)
    ensures
        run(c, ram, rom, a + b) == ({
            let (c1, ram1) = run(c, ram, rom, a);
            run(c1, ram1, rom, b)
        }),
    decreases a,
{
    if a > 0 {
        let (c1, ram1) = step(c, ram, rom);
        lemma_run_split(c1, ram1, rom, (a - 1) as nat, b);
        assert((a + b - 1) as nat == (a - 1) as nat + b);
    }
}

} // verus!
