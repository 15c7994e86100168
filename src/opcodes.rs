use vstd::prelude::*;

verus! {

/// The operations of the supported instruction subset.
#[derive(Debug, Clone, Copy, PartialEq, Eq, Structural)]
pub enum Op {
    Adc,
    And,
    Asl,
    Clc,
    Cld,
    Cli,
    Clv,
    Dec,
    Dex,
    Dey,
    Inc,
    Inx,
    Iny,
    Jmp,
    Jsr,
    Lda,
    Ldx,
    Ldy,
    Lsr,
    Nop,
    Pha,
    Php,
    Pla,
    Plp,
    Rts,
    Sec,
    Sed,
    Sei,
    Sta,
    Stx,
    Sty,
    Tax,
    Tay,
    Tsx,
    Txa,
    Txs,
    Tya,
}

/// Addressing modes: how an instruction finds its operand.
#[derive(Debug, Clone, Copy, PartialEq, Eq, Structural)]
pub enum Mode {
    /// No operand bytes.
    Implied,
    /// Works on the accumulator; no operand bytes.
    Accumulator,
    Immediate,
    ZeroPage,
    ZeroPageX,
    ZeroPageY,
    Absolute,
    AbsoluteX,
    AbsoluteY,
    Indirect,
    IndirectX,
    IndirectY,
}

/// One entry of the opcode table.
#[derive(Debug, Clone, Copy, PartialEq, Eq, Structural)]
pub struct Instruction {
    pub op: Op,
    pub mode: Mode,
    /// Base cost in clock cycles.
    pub cycles: u8,
}

/// The opcode table: operation, addressing mode and base cycle cost of each
/// supported opcode; `None` for the others.
pub open spec fn decode_spec(opcode: u8) -> Option<Instruction> {
    match opcode {
        0x69 => Some(Instruction { op: Op::Adc, mode: Mode::Immediate, cycles: 2 }),
        0x65 => Some(Instruction { op: Op::Adc, mode: Mode::ZeroPage, cycles: 3 }),
        0x75 => Some(Instruction { op: Op::Adc, mode: Mode::ZeroPageX, cycles: 4 }),
        0x6D => Some(Instruction { op: Op::Adc, mode: Mode::Absolute, cycles: 4 }),
        0x7D => Some(Instruction { op: Op::Adc, mode: Mode::AbsoluteX, cycles: 4 }),
        0x79 => Some(Instruction { op: Op::Adc, mode: Mode::AbsoluteY, cycles: 4 }),
        0x61 => Some(Instruction { op: Op::Adc, mode: Mode::IndirectX, cycles: 6 }),
        0x71 => Some(Instruction { op: Op::Adc, mode: Mode::IndirectY, cycles: 5 }),
        0x29 => Some(Instruction { op: Op::And, mode: Mode::Immediate, cycles: 2 }),
        0x25 => Some(Instruction { op: Op::And, mode: Mode::ZeroPage, cycles: 3 }),
        0x35 => Some(Instruction { op: Op::And, mode: Mode::ZeroPageX, cycles: 4 }),
        0x2D => Some(Instruction { op: Op::And, mode: Mode::Absolute, cycles: 4 }),
        0x3D => Some(Instruction { op: Op::And, mode: Mode::AbsoluteX, cycles: 4 }),
        0x39 => Some(Instruction { op: Op::And, mode: Mode::AbsoluteY, cycles: 4 }),
        0x21 => Some(Instruction { op: Op::And, mode: Mode::IndirectX, cycles: 6 }),
        0x31 => Some(Instruction { op: Op::And, mode: Mode::IndirectY, cycles: 5 }),
        0x0A => Some(Instruction { op: Op::Asl, mode: Mode::Accumulator, cycles: 2 }),
        0x06 => Some(Instruction { op: Op::Asl, mode: Mode::ZeroPage, cycles: 5 }),
        0x16 => Some(Instruction { op: Op::Asl, mode: Mode::ZeroPageX, cycles: 6 }),
        0x0E => Some(Instruction { op: Op::Asl, mode: Mode::Absolute, cycles: 6 }),
        0x1E => Some(Instruction { op: Op::Asl, mode: Mode::AbsoluteX, cycles: 7 }),
        0x18 => Some(Instruction { op: Op::Clc, mode: Mode::Implied, cycles: 2 }),
        0xD8 => Some(Instruction { op: Op::Cld, mode: Mode::Implied, cycles: 2 }),
        0x58 => Some(Instruction { op: Op::Cli, mode: Mode::Implied, cycles: 2 }),
        0xB8 => Some(Instruction { op: Op::Clv, mode: Mode::Implied, cycles: 2 }),
        0xC6 => Some(Instruction { op: Op::Dec, mode: Mode::ZeroPage, cycles: 5 }),
        0xD6 => Some(Instruction { op: Op::Dec, mode: Mode::ZeroPageX, cycles: 6 }),
        0xCE => Some(Instruction { op: Op::Dec, mode: Mode::Absolute, cycles: 6 }),
        0xDE => Some(Instruction { op: Op::Dec, mode: Mode::AbsoluteX, cycles: 7 }),
        0xCA => Some(Instruction { op: Op::Dex, mode: Mode::Implied, cycles: 2 }),
        0x88 => Some(Instruction { op: Op::Dey, mode: Mode::Implied, cycles: 2 }),
        0xE6 => Some(Instruction { op: Op::Inc, mode: Mode::ZeroPage, cycles: 5 }),
        0xF6 => Some(Instruction { op: Op::Inc, mode: Mode::ZeroPageX, cycles: 6 }),
        0xEE => Some(Instruction { op: Op::Inc, mode: Mode::Absolute, cycles: 6 }),
        0xFE => Some(Instruction { op: Op::Inc, mode: Mode::AbsoluteX, cycles: 7 }),
        0xE8 => Some(Instruction { op: Op::Inx, mode: Mode::Implied, cycles: 2 }),
        0xC8 => Some(Instruction { op: Op::Iny, mode: Mode::Implied, cycles: 2 }),
        0x4C => Some(Instruction { op: Op::Jmp, mode: Mode::Absolute, cycles: 3 }),
        0x6C => Some(Instruction { op: Op::Jmp, mode: Mode::Indirect, cycles: 5 }),
        0x20 => Some(Instruction { op: Op::Jsr, mode: Mode::Absolute, cycles: 6 }),
        0xA9 => Some(Instruction { op: Op::Lda, mode: Mode::Immediate, cycles: 2 }),
        0xA5 => Some(Instruction { op: Op::Lda, mode: Mode::ZeroPage, cycles: 3 }),
        0xB5 => Some(Instruction { op: Op::Lda, mode: Mode::ZeroPageX, cycles: 4 }),
        0xAD => Some(Instruction { op: Op::Lda, mode: Mode::Absolute, cycles: 4 }),
        0xBD => Some(Instruction { op: Op::Lda, mode: Mode::AbsoluteX, cycles: 4 }),
        0xB9 => Some(Instruction { op: Op::Lda, mode: Mode::AbsoluteY, cycles: 4 }),
        0xA1 => Some(Instruction { op: Op::Lda, mode: Mode::IndirectX, cycles: 6 }),
        0xB1 => Some(Instruction { op: Op::Lda, mode: Mode::IndirectY, cycles: 5 }),
        0xA2 => Some(Instruction { op: Op::Ldx, mode: Mode::Immediate, cycles: 2 }),
        0xA6 => Some(Instruction { op: Op::Ldx, mode: Mode::ZeroPage, cycles: 3 }),
        0xB6 => Some(Instruction { op: Op::Ldx, mode: Mode::ZeroPageY, cycles: 4 }),
        0xAE => Some(Instruction { op: Op::Ldx, mode: Mode::Absolute, cycles: 4 }),
        0xBE => Some(Instruction { op: Op::Ldx, mode: Mode::AbsoluteY, cycles: 4 }),
        0xA0 => Some(Instruction { op: Op::Ldy, mode: Mode::Immediate, cycles: 2 }),
        0xA4 => Some(Instruction { op: Op::Ldy, mode: Mode::ZeroPage, cycles: 3 }),
        0xB4 => Some(Instruction { op: Op::Ldy, mode: Mode::ZeroPageX, cycles: 4 }),
        0xAC => Some(Instruction { op: Op::Ldy, mode: Mode::Absolute, cycles: 4 }),
        0xBC => Some(Instruction { op: Op::Ldy, mode: Mode::AbsoluteX, cycles: 4 }),
        0x4A => Some(Instruction { op: Op::Lsr, mode: Mode::Accumulator, cycles: 2 }),
        0x46 => Some(Instruction { op: Op::Lsr, mode: Mode::ZeroPage, cycles: 5 }),
        0x56 => Some(Instruction { op: Op::Lsr, mode: Mode::ZeroPageX, cycles: 6 }),
        0x4E => Some(Instruction { op: Op::Lsr, mode: Mode::Absolute, cycles: 6 }),
        0x5E => Some(Instruction { op: Op::Lsr, mode: Mode::AbsoluteX, cycles: 7 }),
        0xEA => Some(Instruction { op: Op::Nop, mode: Mode::Implied, cycles: 2 }),
        0x48 => Some(Instruction { op: Op::Pha, mode: Mode::Implied, cycles: 3 }),
        0x08 => Some(Instruction { op: Op::Php, mode: Mode::Implied, cycles: 3 }),
        0x68 => Some(Instruction { op: Op::Pla, mode: Mode::Implied, cycles: 4 }),
        0x28 => Some(Instruction { op: Op::Plp, mode: Mode::Implied, cycles: 4 }),
        0x60 => Some(Instruction { op: Op::Rts, mode: Mode::Implied, cycles: 6 }),
        0x38 => Some(Instruction { op: Op::Sec, mode: Mode::Implied, cycles: 2 }),
        0xF8 => Some(Instruction { op: Op::Sed, mode: Mode::Implied, cycles: 2 }),
        0x78 => Some(Instruction { op: Op::Sei, mode: Mode::Implied, cycles: 2 }),
        0x85 => Some(Instruction { op: Op::Sta, mode: Mode::ZeroPage, cycles: 3 }),
        0x95 => Some(Instruction { op: Op::Sta, mode: Mode::ZeroPageX, cycles: 4 }),
        0x8D => Some(Instruction { op: Op::Sta, mode: Mode::Absolute, cycles: 4 }),
        0x9D => Some(Instruction { op: Op::Sta, mode: Mode::AbsoluteX, cycles: 5 }),
        0x99 => Some(Instruction { op: Op::Sta, mode: Mode::AbsoluteY, cycles: 5 }),
        0x81 => Some(Instruction { op: Op::Sta, mode: Mode::IndirectX, cycles: 6 }),
        0x91 => Some(Instruction { op: Op::Sta, mode: Mode::IndirectY, cycles: 6 }),
        0x86 => Some(Instruction { op: Op::Stx, mode: Mode::ZeroPage, cycles: 3 }),
        0x96 => Some(Instruction { op: Op::Stx, mode: Mode::ZeroPageY, cycles: 4 }),
        0x8E => Some(Instruction { op: Op::Stx, mode: Mode::Absolute, cycles: 4 }),
        0x84 => Some(Instruction { op: Op::Sty, mode: Mode::ZeroPage, cycles: 3 }),
        0x94 => Some(Instruction { op: Op::Sty, mode: Mode::ZeroPageX, cycles: 4 }),
        0x8C => Some(Instruction { op: Op::Sty, mode: Mode::Absolute, cycles: 4 }),
        0xAA => Some(Instruction { op: Op::Tax, mode: Mode::Implied, cycles: 2 }),
        0xA8 => Some(Instruction { op: Op::Tay, mode: Mode::Implied, cycles: 2 }),
        0xBA => Some(Instruction { op: Op::Tsx, mode: Mode::Implied, cycles: 2 }),
        0x8A => Some(Instruction { op: Op::Txa, mode: Mode::Implied, cycles: 2 }),
        0x9A => Some(Instruction { op: Op::Txs, mode: Mode::Implied, cycles: 2 }),
        0x98 => Some(Instruction { op: Op::Tya, mode: Mode::Implied, cycles: 2 }),
        _ => None,
    }
}

/// Looks `opcode` up in the opcode table.
pub fn decode(opcode: u8) -> (r: Option<Instruction>)
    ensures
        r == decode_spec(opcode),
        r matches Some(ins) ==> 2 <= ins.cycles <= 7,
{
    match opcode {
        0x69 => Some(Instruction { op: Op::Adc, mode: Mode::Immediate, cycles: 2 }),
        0x65 => Some(Instruction { op: Op::Adc, mode: Mode::ZeroPage, cycles: 3 }),
        0x75 => Some(Instruction { op: Op::Adc, mode: Mode::ZeroPageX, cycles: 4 }),
        0x6D => Some(Instruction { op: Op::Adc, mode: Mode::Absolute, cycles: 4 }),
        0x7D => Some(Instruction { op: Op::Adc, mode: Mode::AbsoluteX, cycles: 4 }),
        0x79 => Some(Instruction { op: Op::Adc, mode: Mode::AbsoluteY, cycles: 4 }),
        0x61 => Some(Instruction { op: Op::Adc, mode: Mode::IndirectX, cycles: 6 }),
        0x71 => Some(Instruction { op: Op::Adc, mode: Mode::IndirectY, cycles: 5 }),
        0x29 => Some(Instruction { op: Op::And, mode: Mode::Immediate, cycles: 2 }),
        0x25 => Some(Instruction { op: Op::And, mode: Mode::ZeroPage, cycles: 3 }),
        0x35 => Some(Instruction { op: Op::And, mode: Mode::ZeroPageX, cycles: 4 }),
        0x2D => Some(Instruction { op: Op::And, mode: Mode::Absolute, cycles: 4 }),
        0x3D => Some(Instruction { op: Op::And, mode: Mode::AbsoluteX, cycles: 4 }),
        0x39 => Some(Instruction { op: Op::And, mode: Mode::AbsoluteY, cycles: 4 }),
        0x21 => Some(Instruction { op: Op::And, mode: Mode::IndirectX, cycles: 6 }),
        0x31 => Some(Instruction { op: Op::And, mode: Mode::IndirectY, cycles: 5 }),
        0x0A => Some(Instruction { op: Op::Asl, mode: Mode::Accumulator, cycles: 2 }),
        0x06 => Some(Instruction { op: Op::Asl, mode: Mode::ZeroPage, cycles: 5 }),
        0x16 => Some(Instruction { op: Op::Asl, mode: Mode::ZeroPageX, cycles: 6 }),
        0x0E => Some(Instruction { op: Op::Asl, mode: Mode::Absolute, cycles: 6 }),
        0x1E => Some(Instruction { op: Op::Asl, mode: Mode::AbsoluteX, cycles: 7 }),
        0x18 => Some(Instruction { op: Op::Clc, mode: Mode::Implied, cycles: 2 }),
        0xD8 => Some(Instruction { op: Op::Cld, mode: Mode::Implied, cycles: 2 }),
        0x58 => Some(Instruction { op: Op::Cli, mode: Mode::Implied, cycles: 2 }),
        0xB8 => Some(Instruction { op: Op::Clv, mode: Mode::Implied, cycles: 2 }),
        0xC6 => Some(Instruction { op: Op::Dec, mode: Mode::ZeroPage, cycles: 5 }),
        0xD6 => Some(Instruction { op: Op::Dec, mode: Mode::ZeroPageX, cycles: 6 }),
        0xCE => Some(Instruction { op: Op::Dec, mode: Mode::Absolute, cycles: 6 }),
        0xDE => Some(Instruction { op: Op::Dec, mode: Mode::AbsoluteX, cycles: 7 }),
        0xCA => Some(Instruction { op: Op::Dex, mode: Mode::Implied, cycles: 2 }),
        0x88 => Some(Instruction { op: Op::Dey, mode: Mode::Implied, cycles: 2 }),
        0xE6 => Some(Instruction { op: Op::Inc, mode: Mode::ZeroPage, cycles: 5 }),
        0xF6 => Some(Instruction { op: Op::Inc, mode: Mode::ZeroPageX, cycles: 6 }),
        0xEE => Some(Instruction { op: Op::Inc, mode: Mode::Absolute, cycles: 6 }),
        0xFE => Some(Instruction { op: Op::Inc, mode: Mode::AbsoluteX, cycles: 7 }),
        0xE8 => Some(Instruction { op: Op::Inx, mode: Mode::Implied, cycles: 2 }),
        0xC8 => Some(Instruction { op: Op::Iny, mode: Mode::Implied, cycles: 2 }),
        0x4C => Some(Instruction { op: Op::Jmp, mode: Mode::Absolute, cycles: 3 }),
        0x6C => Some(Instruction { op: Op::Jmp, mode: Mode::Indirect, cycles: 5 }),
        0x20 => Some(Instruction { op: Op::Jsr, mode: Mode::Absolute, cycles: 6 }),
        0xA9 => Some(Instruction { op: Op::Lda, mode: Mode::Immediate, cycles: 2 }),
        0xA5 => Some(Instruction { op: Op::Lda, mode: Mode::ZeroPage, cycles: 3 }),
        0xB5 => Some(Instruction { op: Op::Lda, mode: Mode::ZeroPageX, cycles: 4 }),
        0xAD => Some(Instruction { op: Op::Lda, mode: Mode::Absolute, cycles: 4 }),
        0xBD => Some(Instruction { op: Op::Lda, mode: Mode::AbsoluteX, cycles: 4 }),
        0xB9 => Some(Instruction { op: Op::Lda, mode: Mode::AbsoluteY, cycles: 4 }),
        0xA1 => Some(Instruction { op: Op::Lda, mode: Mode::IndirectX, cycles: 6 }),
        0xB1 => Some(Instruction { op: Op::Lda, mode: Mode::IndirectY, cycles: 5 }),
        0xA2 => Some(Instruction { op: Op::Ldx, mode: Mode::Immediate, cycles: 2 }),
        0xA6 => Some(Instruction { op: Op::Ldx, mode: Mode::ZeroPage, cycles: 3 }),
        0xB6 => Some(Instruction { op: Op::Ldx, mode: Mode::ZeroPageY, cycles: 4 }),
        0xAE => Some(Instruction { op: Op::Ldx, mode: Mode::Absolute, cycles: 4 }),
        0xBE => Some(Instruction { op: Op::Ldx, mode: Mode::AbsoluteY, cycles: 4 }),
        0xA0 => Some(Instruction { op: Op::Ldy, mode: Mode::Immediate, cycles: 2 }),
        0xA4 => Some(Instruction { op: Op::Ldy, mode: Mode::ZeroPage, cycles: 3 }),
        0xB4 => Some(Instruction { op: Op::Ldy, mode: Mode::ZeroPageX, cycles: 4 }),
        0xAC => Some(Instruction { op: Op::Ldy, mode: Mode::Absolute, cycles: 4 }),
        0xBC => Some(Instruction { op: Op::Ldy, mode: Mode::AbsoluteX, cycles: 4 }),
        0x4A => Some(Instruction { op: Op::Lsr, mode: Mode::Accumulator, cycles: 2 }),
        0x46 => Some(Instruction { op: Op::Lsr, mode: Mode::ZeroPage, cycles: 5 }),
        0x56 => Some(Instruction { op: Op::Lsr, mode: Mode::ZeroPageX, cycles: 6 }),
        0x4E => Some(Instruction { op: Op::Lsr, mode: Mode::Absolute, cycles: 6 }),
        0x5E => Some(Instruction { op: Op::Lsr, mode: Mode::AbsoluteX, cycles: 7 }),
        0xEA => Some(Instruction { op: Op::Nop, mode: Mode::Implied, cycles: 2 }),
        0x48 => Some(Instruction { op: Op::Pha, mode: Mode::Implied, cycles: 3 }),
        0x08 => Some(Instruction { op: Op::Php, mode: Mode::Implied, cycles: 3 }),
        0x68 => Some(Instruction { op: Op::Pla, mode: Mode::Implied, cycles: 4 }),
        0x28 => Some(Instruction { op: Op::Plp, mode: Mode::Implied, cycles: 4 }),
        0x60 => Some(Instruction { op: Op::Rts, mode: Mode::Implied, cycles: 6 }),
        0x38 => Some(Instruction { op: Op::Sec, mode: Mode::Implied, cycles: 2 }),
        0xF8 => Some(Instruction { op: Op::Sed, mode: Mode::Implied, cycles: 2 }),
        0x78 => Some(Instruction { op: Op::Sei, mode: Mode::Implied, cycles: 2 }),
        0x85 => Some(Instruction { op: Op::Sta, mode: Mode::ZeroPage, cycles: 3 }),
        0x95 => Some(Instruction { op: Op::Sta, mode: Mode::ZeroPageX, cycles: 4 }),
        0x8D => Some(Instruction { op: Op::Sta, mode: Mode::Absolute, cycles: 4 }),
        0x9D => Some(Instruction { op: Op::Sta, mode: Mode::AbsoluteX, cycles: 5 }),
        0x99 => Some(Instruction { op: Op::Sta, mode: Mode::AbsoluteY, cycles: 5 }),
        0x81 => Some(Instruction { op: Op::Sta, mode: Mode::IndirectX, cycles: 6 }),
        0x91 => Some(Instruction { op: Op::Sta, mode: Mode::IndirectY, cycles: 6 }),
        0x86 => Some(Instruction { op: Op::Stx, mode: Mode::ZeroPage, cycles: 3 }),
        0x96 => Some(Instruction { op: Op::Stx, mode: Mode::ZeroPageY, cycles: 4 }),
        0x8E => Some(Instruction { op: Op::Stx, mode: Mode::Absolute, cycles: 4 }),
        0x84 => Some(Instruction { op: Op::Sty, mode: Mode::ZeroPage, cycles: 3 }),
        0x94 => Some(Instruction { op: Op::Sty, mode: Mode::ZeroPageX, cycles: 4 }),
        0x8C => Some(Instruction { op: Op::Sty, mode: Mode::Absolute, cycles: 4 }),
        0xAA => Some(Instruction { op: Op::Tax, mode: Mode::Implied, cycles: 2 }),
        0xA8 => Some(Instruction { op: Op::Tay, mode: Mode::Implied, cycles: 2 }),
        0xBA => Some(Instruction { op: Op::Tsx, mode: Mode::Implied, cycles: 2 }),
        0x8A => Some(Instruction { op: Op::Txa, mode: Mode::Implied, cycles: 2 }),
        0x9A => Some(Instruction { op: Op::Txs, mode: Mode::Implied, cycles: 2 }),
        0x98 => Some(Instruction { op: Op::Tya, mode: Mode::Implied, cycles: 2 }),
        _ => None,
    }
}

/// Number of operand bytes that follow the opcode.
pub open spec fn operand_len(mode: Mode) -> u16 {
    match mode {
        Mode::Implied | Mode::Accumulator => 0,
        Mode::Absolute | Mode::AbsoluteX | Mode::AbsoluteY | Mode::Indirect => 2,
        _ => 1,
    }
}

impl Mode {
    /// Number of operand bytes that follow the opcode.
    pub fn operand_len(self) -> (r: u16)
        ensures
            r == operand_len(self),
    {
        match self {
            Mode::Implied | Mode::Accumulator => 0,
            Mode::Absolute | Mode::AbsoluteX | Mode::AbsoluteY | Mode::Indirect => 2,
            _ => 1,
        }
    }
}

} // verus!
