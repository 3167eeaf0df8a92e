use vstd::prelude::*;

verus! {

/// Bits of the 6502 status register P.
pub const FLAG_C: u8 = 0b0000_0001;
pub const FLAG_Z: u8 = 0b0000_0010;
pub const FLAG_I: u8 = 0b0000_0100;
pub const FLAG_D: u8 = 0b0000_1000;
pub const FLAG_B: u8 = 0b0001_0000;
pub const FLAG_U: u8 = 0b0010_0000;
pub const FLAG_V: u8 = 0b0100_0000;
pub const FLAG_N: u8 = 0b1000_0000;

/// How an instruction finds its operand.
#[derive(Clone, Copy, Debug, PartialEq, Eq, Structural)]
pub enum Mode {
    Implied,
    Accumulator,
    Immediate,
    ZeroPage,
    ZeroPageX,
    ZeroPageY,
    Absolute,
    AbsoluteX,
    AbsoluteY,
    IndirectX,
    IndirectY,
}

/// A register an instruction reads or writes.
#[derive(Clone, Copy, Debug, PartialEq, Eq, Structural)]
pub enum Reg {
    A,
    X,
    Y,
    SP,
}

#[derive(Clone, Copy, Debug, PartialEq, Eq, Structural)]
pub enum LogicOp {
    And,
    Ora,
    Eor,
}

#[derive(Clone, Copy, Debug, PartialEq, Eq, Structural)]
pub enum ShiftOp {
    Asl,
    Lsr,
    Rol,
    Ror,
}

/// What an opcode does. `Branch(mask, set)` branches when the status bit
/// `mask` equals `set`; `SetFlag(mask, value)` sets or clears a status bit.
#[derive(Clone, Copy, Debug, PartialEq, Eq, Structural)]
pub enum Instr {
    Brk,
    Load(Reg),
    Store(Reg),
    Adc,
    Sbc,
    Logic(LogicOp),
    Compare(Reg),
    Bit,
    Jmp,
    JmpIndirect,
    Jsr,
    Rts,
    Rti,
    Branch(u8, bool),
    Inc,
    Dec,
    IncReg(Reg),
    DecReg(Reg),
    Pha,
    Pla,
    Php,
    Plp,
    Transfer(Reg, Reg),
    Shift(ShiftOp),
    Nop,
    SetFlag(u8, bool),
    Unknown,
}

/// A decoded opcode: the operation, its addressing mode and its base cycle
/// count (a taken branch costs one more).
#[derive(Clone, Copy, Debug, PartialEq, Eq, Structural)]
pub struct Opcode {
    pub instr: Instr,
    pub mode: Mode,
    pub cycles: u8,
}

/// The opcodes this CPU implements (the official 6502 set it supports, plus
/// the two-byte NOP $89); every other opcode does nothing in 2 cycles.
#[verifier::opaque]
pub open spec fn spec_decode(opcode: u8) -> Opcode {
    match opcode {
        0x00 => Opcode { instr: Instr::Brk, mode: Mode::Implied, cycles: 7 },
        0xA9 => Opcode { instr: Instr::Load(Reg::A), mode: Mode::Immediate, cycles: 2 },
        0xA5 => Opcode { instr: Instr::Load(Reg::A), mode: Mode::ZeroPage, cycles: 3 },
        0xB5 => Opcode { instr: Instr::Load(Reg::A), mode: Mode::ZeroPageX, cycles: 4 },
        0xAD => Opcode { instr: Instr::Load(Reg::A), mode: Mode::Absolute, cycles: 4 },
        0xBD => Opcode { instr: Instr::Load(Reg::A), mode: Mode::AbsoluteX, cycles: 4 },
        0xB9 => Opcode { instr: Instr::Load(Reg::A), mode: Mode::AbsoluteY, cycles: 4 },
        0xA1 => Opcode { instr: Instr::Load(Reg::A), mode: Mode::IndirectX, cycles: 6 },
        0xB1 => Opcode { instr: Instr::Load(Reg::A), mode: Mode::IndirectY, cycles: 5 },
        0xA2 => Opcode { instr: Instr::Load(Reg::X), mode: Mode::Immediate, cycles: 2 },
        0xA6 => Opcode { instr: Instr::Load(Reg::X), mode: Mode::ZeroPage, cycles: 3 },
        0xB6 => Opcode { instr: Instr::Load(Reg::X), mode: Mode::ZeroPageY, cycles: 4 },
        0xAE => Opcode { instr: Instr::Load(Reg::X), mode: Mode::Absolute, cycles: 4 },
        0xBE => Opcode { instr: Instr::Load(Reg::X), mode: Mode::AbsoluteY, cycles: 4 },
        0xA0 => Opcode { instr: Instr::Load(Reg::Y), mode: Mode::Immediate, cycles: 2 },
        0xA4 => Opcode { instr: Instr::Load(Reg::Y), mode: Mode::ZeroPage, cycles: 3 },
        0xB4 => Opcode { instr: Instr::Load(Reg::Y), mode: Mode::ZeroPageX, cycles: 4 },
        0xAC => Opcode { instr: Instr::Load(Reg::Y), mode: Mode::Absolute, cycles: 4 },
        0xBC => Opcode { instr: Instr::Load(Reg::Y), mode: Mode::AbsoluteX, cycles: 4 },
        0x85 => Opcode { instr: Instr::Store(Reg::A), mode: Mode::ZeroPage, cycles: 3 },
        0x95 => Opcode { instr: Instr::Store(Reg::A), mode: Mode::ZeroPageX, cycles: 4 },
        0x8D => Opcode { instr: Instr::Store(Reg::A), mode: Mode::Absolute, cycles: 4 },
        0x9D => Opcode { instr: Instr::Store(Reg::A), mode: Mode::AbsoluteX, cycles: 5 },
        0x99 => Opcode { instr: Instr::Store(Reg::A), mode: Mode::AbsoluteY, cycles: 5 },
        0x81 => Opcode { instr: Instr::Store(Reg::A), mode: Mode::IndirectX, cycles: 6 },
        0x91 => Opcode { instr: Instr::Store(Reg::A), mode: Mode::IndirectY, cycles: 6 },
        0x86 => Opcode { instr: Instr::Store(Reg::X), mode: Mode::ZeroPage, cycles: 3 },
        0x96 => Opcode { instr: Instr::Store(Reg::X), mode: Mode::ZeroPageY, cycles: 4 },
        0x8E => Opcode { instr: Instr::Store(Reg::X), mode: Mode::Absolute, cycles: 4 },
        0x84 => Opcode { instr: Instr::Store(Reg::Y), mode: Mode::ZeroPage, cycles: 3 },
        0x94 => Opcode { instr: Instr::Store(Reg::Y), mode: Mode::ZeroPageX, cycles: 4 },
        0x8C => Opcode { instr: Instr::Store(Reg::Y), mode: Mode::Absolute, cycles: 4 },
        0x69 => Opcode { instr: Instr::Adc, mode: Mode::Immediate, cycles: 2 },
        0x65 => Opcode { instr: Instr::Adc, mode: Mode::ZeroPage, cycles: 3 },
        0x75 => Opcode { instr: Instr::Adc, mode: Mode::ZeroPageX, cycles: 4 },
        0x6D => Opcode { instr: Instr::Adc, mode: Mode::Absolute, cycles: 4 },
        0x7D => Opcode { instr: Instr::Adc, mode: Mode::AbsoluteX, cycles: 4 },
        0x79 => Opcode { instr: Instr::Adc, mode: Mode::AbsoluteY, cycles: 4 },
        0x61 => Opcode { instr: Instr::Adc, mode: Mode::IndirectX, cycles: 6 },
        0x71 => Opcode { instr: Instr::Adc, mode: Mode::IndirectY, cycles: 5 },
        0xE9 => Opcode { instr: Instr::Sbc, mode: Mode::Immediate, cycles: 2 },
        0xE5 => Opcode { instr: Instr::Sbc, mode: Mode::ZeroPage, cycles: 3 },
        0xF5 => Opcode { instr: Instr::Sbc, mode: Mode::ZeroPageX, cycles: 4 },
        0xED => Opcode { instr: Instr::Sbc, mode: Mode::Absolute, cycles: 4 },
        0xFD => Opcode { instr: Instr::Sbc, mode: Mode::AbsoluteX, cycles: 4 },
        0xF9 => Opcode { instr: Instr::Sbc, mode: Mode::AbsoluteY, cycles: 4 },
        0xE1 => Opcode { instr: Instr::Sbc, mode: Mode::IndirectX, cycles: 6 },
        0xF1 => Opcode { instr: Instr::Sbc, mode: Mode::IndirectY, cycles: 5 },
        0x29 => Opcode { instr: Instr::Logic(LogicOp::And), mode: Mode::Immediate, cycles: 2 },
        0x25 => Opcode { instr: Instr::Logic(LogicOp::And), mode: Mode::ZeroPage, cycles: 3 },
        0x35 => Opcode { instr: Instr::Logic(LogicOp::And), mode: Mode::ZeroPageX, cycles: 4 },
        0x2D => Opcode { instr: Instr::Logic(LogicOp::And), mode: Mode::Absolute, cycles: 4 },
        0x3D => Opcode { instr: Instr::Logic(LogicOp::And), mode: Mode::AbsoluteX, cycles: 4 },
        0x39 => Opcode { instr: Instr::Logic(LogicOp::And), mode: Mode::AbsoluteY, cycles: 4 },
        0x21 => Opcode { instr: Instr::Logic(LogicOp::And), mode: Mode::IndirectX, cycles: 6 },
        0x31 => Opcode { instr: Instr::Logic(LogicOp::And), mode: Mode::IndirectY, cycles: 5 },
        0x09 => Opcode { instr: Instr::Logic(LogicOp::Ora), mode: Mode::Immediate, cycles: 2 },
        0x05 => Opcode { instr: Instr::Logic(LogicOp::Ora), mode: Mode::ZeroPage, cycles: 3 },
        0x15 => Opcode { instr: Instr::Logic(LogicOp::Ora), mode: Mode::ZeroPageX, cycles: 4 },
        0x0D => Opcode { instr: Instr::Logic(LogicOp::Ora), mode: Mode::Absolute, cycles: 4 },
        0x1D => Opcode { instr: Instr::Logic(LogicOp::Ora), mode: Mode::AbsoluteX, cycles: 4 },
        0x19 => Opcode { instr: Instr::Logic(LogicOp::Ora), mode: Mode::AbsoluteY, cycles: 4 },
        0x01 => Opcode { instr: Instr::Logic(LogicOp::Ora), mode: Mode::IndirectX, cycles: 6 },
        0x11 => Opcode { instr: Instr::Logic(LogicOp::Ora), mode: Mode::IndirectY, cycles: 5 },
        0x49 => Opcode { instr: Instr::Logic(LogicOp::Eor), mode: Mode::Immediate, cycles: 2 },
        0x45 => Opcode { instr: Instr::Logic(LogicOp::Eor), mode: Mode::ZeroPage, cycles: 3 },
        0x55 => Opcode { instr: Instr::Logic(LogicOp::Eor), mode: Mode::ZeroPageX, cycles: 4 },
        0x4D => Opcode { instr: Instr::Logic(LogicOp::Eor), mode: Mode::Absolute, cycles: 4 },
        0x5D => Opcode { instr: Instr::Logic(LogicOp::Eor), mode: Mode::AbsoluteX, cycles: 4 },
        0x59 => Opcode { instr: Instr::Logic(LogicOp::Eor), mode: Mode::AbsoluteY, cycles: 4 },
        0x41 => Opcode { instr: Instr::Logic(LogicOp::Eor), mode: Mode::IndirectX, cycles: 6 },
        0x51 => Opcode { instr: Instr::Logic(LogicOp::Eor), mode: Mode::IndirectY, cycles: 5 },
        0xC9 => Opcode { instr: Instr::Compare(Reg::A), mode: Mode::Immediate, cycles: 2 },
        0xC5 => Opcode { instr: Instr::Compare(Reg::A), mode: Mode::ZeroPage, cycles: 3 },
        0xD5 => Opcode { instr: Instr::Compare(Reg::A), mode: Mode::ZeroPageX, cycles: 4 },
        0xCD => Opcode { instr: Instr::Compare(Reg::A), mode: Mode::Absolute, cycles: 4 },
        0xDD => Opcode { instr: Instr::Compare(Reg::A), mode: Mode::AbsoluteX, cycles: 4 },
        0xD9 => Opcode { instr: Instr::Compare(Reg::A), mode: Mode::AbsoluteY, cycles: 4 },
        0xC1 => Opcode { instr: Instr::Compare(Reg::A), mode: Mode::IndirectX, cycles: 6 },
        0xD1 => Opcode { instr: Instr::Compare(Reg::A), mode: Mode::IndirectY, cycles: 5 },
        0xE0 => Opcode { instr: Instr::Compare(Reg::X), mode: Mode::Immediate, cycles: 2 },
        0xE4 => Opcode { instr: Instr::Compare(Reg::X), mode: Mode::ZeroPage, cycles: 3 },
        0xEC => Opcode { instr: Instr::Compare(Reg::X), mode: Mode::Absolute, cycles: 4 },
        0x24 => Opcode { instr: Instr::Bit, mode: Mode::ZeroPage, cycles: 3 },
        0x2C => Opcode { instr: Instr::Bit, mode: Mode::Absolute, cycles: 4 },
        0xC0 => Opcode { instr: Instr::Compare(Reg::Y), mode: Mode::Immediate, cycles: 2 },
        0xC4 => Opcode { instr: Instr::Compare(Reg::Y), mode: Mode::ZeroPage, cycles: 3 },
        0xCC => Opcode { instr: Instr::Compare(Reg::Y), mode: Mode::Absolute, cycles: 4 },
        0x4C => Opcode { instr: Instr::Jmp, mode: Mode::Absolute, cycles: 3 },
        0x6C => Opcode { instr: Instr::JmpIndirect, mode: Mode::Absolute, cycles: 5 },
        0x20 => Opcode { instr: Instr::Jsr, mode: Mode::Absolute, cycles: 6 },
        0x60 => Opcode { instr: Instr::Rts, mode: Mode::Implied, cycles: 6 },
        0x40 => Opcode { instr: Instr::Rti, mode: Mode::Implied, cycles: 6 },
        0xF0 => Opcode { instr: Instr::Branch(FLAG_Z, true), mode: Mode::Immediate, cycles: 2 },
        0xD0 => Opcode { instr: Instr::Branch(FLAG_Z, false), mode: Mode::Immediate, cycles: 2 },
        0xB0 => Opcode { instr: Instr::Branch(FLAG_C, true), mode: Mode::Immediate, cycles: 2 },
        0x90 => Opcode { instr: Instr::Branch(FLAG_C, false), mode: Mode::Immediate, cycles: 2 },
        0x30 => Opcode { instr: Instr::Branch(FLAG_N, true), mode: Mode::Immediate, cycles: 2 },
        0x10 => Opcode { instr: Instr::Branch(FLAG_N, false), mode: Mode::Immediate, cycles: 2 },
        0x70 => Opcode { instr: Instr::Branch(FLAG_V, true), mode: Mode::Immediate, cycles: 2 },
        0x50 => Opcode { instr: Instr::Branch(FLAG_V, false), mode: Mode::Immediate, cycles: 2 },
        0xE6 => Opcode { instr: Instr::Inc, mode: Mode::ZeroPage, cycles: 5 },
        0xF6 => Opcode { instr: Instr::Inc, mode: Mode::ZeroPageX, cycles: 6 },
        0xEE => Opcode { instr: Instr::Inc, mode: Mode::Absolute, cycles: 6 },
        0xFE => Opcode { instr: Instr::Inc, mode: Mode::AbsoluteX, cycles: 7 },
        0xE8 => Opcode { instr: Instr::IncReg(Reg::X), mode: Mode::Implied, cycles: 2 },
        0xC8 => Opcode { instr: Instr::IncReg(Reg::Y), mode: Mode::Implied, cycles: 2 },
        0xC6 => Opcode { instr: Instr::Dec, mode: Mode::ZeroPage, cycles: 5 },
        0xD6 => Opcode { instr: Instr::Dec, mode: Mode::ZeroPageX, cycles: 6 },
        0xCE => Opcode { instr: Instr::Dec, mode: Mode::Absolute, cycles: 6 },
        0xDE => Opcode { instr: Instr::Dec, mode: Mode::AbsoluteX, cycles: 7 },
        0xCA => Opcode { instr: Instr::DecReg(Reg::X), mode: Mode::Implied, cycles: 2 },
        0x88 => Opcode { instr: Instr::DecReg(Reg::Y), mode: Mode::Implied, cycles: 2 },
        0x48 => Opcode { instr: Instr::Pha, mode: Mode::Implied, cycles: 3 },
        0x68 => Opcode { instr: Instr::Pla, mode: Mode::Implied, cycles: 4 },
        0x08 => Opcode { instr: Instr::Php, mode: Mode::Implied, cycles: 3 },
        0x28 => Opcode { instr: Instr::Plp, mode: Mode::Implied, cycles: 4 },
        0xAA => Opcode { instr: Instr::Transfer(Reg::A, Reg::X), mode: Mode::Implied, cycles: 2 },
        0xA8 => Opcode { instr: Instr::Transfer(Reg::A, Reg::Y), mode: Mode::Implied, cycles: 2 },
        0x8A => Opcode { instr: Instr::Transfer(Reg::X, Reg::A), mode: Mode::Implied, cycles: 2 },
        0x98 => Opcode { instr: Instr::Transfer(Reg::Y, Reg::A), mode: Mode::Implied, cycles: 2 },
        0xBA => Opcode { instr: Instr::Transfer(Reg::SP, Reg::X), mode: Mode::Implied, cycles: 2 },
        0x9A => Opcode { instr: Instr::Transfer(Reg::X, Reg::SP), mode: Mode::Implied, cycles: 2 },
        0x0A => Opcode { instr: Instr::Shift(ShiftOp::Asl), mode: Mode::Accumulator, cycles: 2 },
        0x06 => Opcode { instr: Instr::Shift(ShiftOp::Asl), mode: Mode::ZeroPage, cycles: 5 },
        0x16 => Opcode { instr: Instr::Shift(ShiftOp::Asl), mode: Mode::ZeroPageX, cycles: 6 },
        0x0E => Opcode { instr: Instr::Shift(ShiftOp::Asl), mode: Mode::Absolute, cycles: 6 },
        0x1E => Opcode { instr: Instr::Shift(ShiftOp::Asl), mode: Mode::AbsoluteX, cycles: 7 },
        0x4A => Opcode { instr: Instr::Shift(ShiftOp::Lsr), mode: Mode::Accumulator, cycles: 2 },
        0x46 => Opcode { instr: Instr::Shift(ShiftOp::Lsr), mode: Mode::ZeroPage, cycles: 5 },
        0x56 => Opcode { instr: Instr::Shift(ShiftOp::Lsr), mode: Mode::ZeroPageX, cycles: 6 },
        0x4E => Opcode { instr: Instr::Shift(ShiftOp::Lsr), mode: Mode::Absolute, cycles: 6 },
        0x5E => Opcode { instr: Instr::Shift(ShiftOp::Lsr), mode: Mode::AbsoluteX, cycles: 7 },
        0x2A => Opcode { instr: Instr::Shift(ShiftOp::Rol), mode: Mode::Accumulator, cycles: 2 },
        0x26 => Opcode { instr: Instr::Shift(ShiftOp::Rol), mode: Mode::ZeroPage, cycles: 5 },
        0x36 => Opcode { instr: Instr::Shift(ShiftOp::Rol), mode: Mode::ZeroPageX, cycles: 6 },
        0x2E => Opcode { instr: Instr::Shift(ShiftOp::Rol), mode: Mode::Absolute, cycles: 6 },
        0x3E => Opcode { instr: Instr::Shift(ShiftOp::Rol), mode: Mode::AbsoluteX, cycles: 7 },
        0x6A => Opcode { instr: Instr::Shift(ShiftOp::Ror), mode: Mode::Accumulator, cycles: 2 },
        0x66 => Opcode { instr: Instr::Shift(ShiftOp::Ror), mode: Mode::ZeroPage, cycles: 5 },
        0x76 => Opcode { instr: Instr::Shift(ShiftOp::Ror), mode: Mode::ZeroPageX, cycles: 6 },
        0x6E => Opcode { instr: Instr::Shift(ShiftOp::Ror), mode: Mode::Absolute, cycles: 6 },
        0x7E => Opcode { instr: Instr::Shift(ShiftOp::Ror), mode: Mode::AbsoluteX, cycles: 7 },
        0xEA => Opcode { instr: Instr::Nop, mode: Mode::Implied, cycles: 2 },
        0x89 => Opcode { instr: Instr::Nop, mode: Mode::Immediate, cycles: 2 },
        0x18 => Opcode { instr: Instr::SetFlag(FLAG_C, false), mode: Mode::Implied, cycles: 2 },
        0x38 => Opcode { instr: Instr::SetFlag(FLAG_C, true), mode: Mode::Implied, cycles: 2 },
        0x58 => Opcode { instr: Instr::SetFlag(FLAG_I, false), mode: Mode::Implied, cycles: 2 },
        0x78 => Opcode { instr: Instr::SetFlag(FLAG_I, true), mode: Mode::Implied, cycles: 2 },
        0xB8 => Opcode { instr: Instr::SetFlag(FLAG_V, false), mode: Mode::Implied, cycles: 2 },
        0xD8 => Opcode { instr: Instr::SetFlag(FLAG_D, false), mode: Mode::Implied, cycles: 2 },
        0xF8 => Opcode { instr: Instr::SetFlag(FLAG_D, true), mode: Mode::Implied, cycles: 2 },
        _ => Opcode { instr: Instr::Unknown, mode: Mode::Implied, cycles: 2 },
    }
}

pub fn decode(opcode: u8) -> (r: Opcode)
    ensures
        r == spec_decode(opcode),
        2 <= r.cycles <= 7,
        r.instr is Branch ==> r.cycles == 2,
{
    proof {
        reveal(spec_decode);
    }
    match opcode {
        0x00 => Opcode { instr: Instr::Brk, mode: Mode::Implied, cycles: 7 },
        0xA9 => Opcode { instr: Instr::Load(Reg::A), mode: Mode::Immediate, cycles: 2 },
        0xA5 => Opcode { instr: Instr::Load(Reg::A), mode: Mode::ZeroPage, cycles: 3 },
        0xB5 => Opcode { instr: Instr::Load(Reg::A), mode: Mode::ZeroPageX, cycles: 4 },
        0xAD => Opcode { instr: Instr::Load(Reg::A), mode: Mode::Absolute, cycles: 4 },
        0xBD => Opcode { instr: Instr::Load(Reg::A), mode: Mode::AbsoluteX, cycles: 4 },
        0xB9 => Opcode { instr: Instr::Load(Reg::A), mode: Mode::AbsoluteY, cycles: 4 },
        0xA1 => Opcode { instr: Instr::Load(Reg::A), mode: Mode::IndirectX, cycles: 6 },
        0xB1 => Opcode { instr: Instr::Load(Reg::A), mode: Mode::IndirectY, cycles: 5 },
        0xA2 => Opcode { instr: Instr::Load(Reg::X), mode: Mode::Immediate, cycles: 2 },
        0xA6 => Opcode { instr: Instr::Load(Reg::X), mode: Mode::ZeroPage, cycles: 3 },
        0xB6 => Opcode { instr: Instr::Load(Reg::X), mode: Mode::ZeroPageY, cycles: 4 },
        0xAE => Opcode { instr: Instr::Load(Reg::X), mode: Mode::Absolute, cycles: 4 },
        0xBE => Opcode { instr: Instr::Load(Reg::X), mode: Mode::AbsoluteY, cycles: 4 },
        0xA0 => Opcode { instr: Instr::Load(Reg::Y), mode: Mode::Immediate, cycles: 2 },
        0xA4 => Opcode { instr: Instr::Load(Reg::Y), mode: Mode::ZeroPage, cycles: 3 },
        0xB4 => Opcode { instr: Instr::Load(Reg::Y), mode: Mode::ZeroPageX, cycles: 4 },
        0xAC => Opcode { instr: Instr::Load(Reg::Y), mode: Mode::Absolute, cycles: 4 },
        0xBC => Opcode { instr: Instr::Load(Reg::Y), mode: Mode::AbsoluteX, cycles: 4 },
        0x85 => Opcode { instr: Instr::Store(Reg::A), mode: Mode::ZeroPage, cycles: 3 },
        0x95 => Opcode { instr: Instr::Store(Reg::A), mode: Mode::ZeroPageX, cycles: 4 },
        0x8D => Opcode { instr: Instr::Store(Reg::A), mode: Mode::Absolute, cycles: 4 },
        0x9D => Opcode { instr: Instr::Store(Reg::A), mode: Mode::AbsoluteX, cycles: 5 },
        0x99 => Opcode { instr: Instr::Store(Reg::A), mode: Mode::AbsoluteY, cycles: 5 },
        0x81 => Opcode { instr: Instr::Store(Reg::A), mode: Mode::IndirectX, cycles: 6 },
        0x91 => Opcode { instr: Instr::Store(Reg::A), mode: Mode::IndirectY, cycles: 6 },
        0x86 => Opcode { instr: Instr::Store(Reg::X), mode: Mode::ZeroPage, cycles: 3 },
        0x96 => Opcode { instr: Instr::Store(Reg::X), mode: Mode::ZeroPageY, cycles: 4 },
        0x8E => Opcode { instr: Instr::Store(Reg::X), mode: Mode::Absolute, cycles: 4 },
        0x84 => Opcode { instr: Instr::Store(Reg::Y), mode: Mode::ZeroPage, cycles: 3 },
        0x94 => Opcode { instr: Instr::Store(Reg::Y), mode: Mode::ZeroPageX, cycles: 4 },
        0x8C => Opcode { instr: Instr::Store(Reg::Y), mode: Mode::Absolute, cycles: 4 },
        0x69 => Opcode { instr: Instr::Adc, mode: Mode::Immediate, cycles: 2 },
        0x65 => Opcode { instr: Instr::Adc, mode: Mode::ZeroPage, cycles: 3 },
        0x75 => Opcode { instr: Instr::Adc, mode: Mode::ZeroPageX, cycles: 4 },
        0x6D => Opcode { instr: Instr::Adc, mode: Mode::Absolute, cycles: 4 },
        0x7D => Opcode { instr: Instr::Adc, mode: Mode::AbsoluteX, cycles: 4 },
        0x79 => Opcode { instr: Instr::Adc, mode: Mode::AbsoluteY, cycles: 4 },
        0x61 => Opcode { instr: Instr::Adc, mode: Mode::IndirectX, cycles: 6 },
        0x71 => Opcode { instr: Instr::Adc, mode: Mode::IndirectY, cycles: 5 },
        0xE9 => Opcode { instr: Instr::Sbc, mode: Mode::Immediate, cycles: 2 },
        0xE5 => Opcode { instr: Instr::Sbc, mode: Mode::ZeroPage, cycles: 3 },
        0xF5 => Opcode { instr: Instr::Sbc, mode: Mode::ZeroPageX, cycles: 4 },
        0xED => Opcode { instr: Instr::Sbc, mode: Mode::Absolute, cycles: 4 },
        0xFD => Opcode { instr: Instr::Sbc, mode: Mode::AbsoluteX, cycles: 4 },
        0xF9 => Opcode { instr: Instr::Sbc, mode: Mode::AbsoluteY, cycles: 4 },
        0xE1 => Opcode { instr: Instr::Sbc, mode: Mode::IndirectX, cycles: 6 },
        0xF1 => Opcode { instr: Instr::Sbc, mode: Mode::IndirectY, cycles: 5 },
        0x29 => Opcode { instr: Instr::Logic(LogicOp::And), mode: Mode::Immediate, cycles: 2 },
        0x25 => Opcode { instr: Instr::Logic(LogicOp::And), mode: Mode::ZeroPage, cycles: 3 },
        0x35 => Opcode { instr: Instr::Logic(LogicOp::And), mode: Mode::ZeroPageX, cycles: 4 },
        0x2D => Opcode { instr: Instr::Logic(LogicOp::And), mode: Mode::Absolute, cycles: 4 },
        0x3D => Opcode { instr: Instr::Logic(LogicOp::And), mode: Mode::AbsoluteX, cycles: 4 },
        0x39 => Opcode { instr: Instr::Logic(LogicOp::And), mode: Mode::AbsoluteY, cycles: 4 },
        0x21 => Opcode { instr: Instr::Logic(LogicOp::And), mode: Mode::IndirectX, cycles: 6 },
        0x31 => Opcode { instr: Instr::Logic(LogicOp::And), mode: Mode::IndirectY, cycles: 5 },
        0x09 => Opcode { instr: Instr::Logic(LogicOp::Ora), mode: Mode::Immediate, cycles: 2 },
        0x05 => Opcode { instr: Instr::Logic(LogicOp::Ora), mode: Mode::ZeroPage, cycles: 3 },
        0x15 => Opcode { instr: Instr::Logic(LogicOp::Ora), mode: Mode::ZeroPageX, cycles: 4 },
        0x0D => Opcode { instr: Instr::Logic(LogicOp::Ora), mode: Mode::Absolute, cycles: 4 },
        0x1D => Opcode { instr: Instr::Logic(LogicOp::Ora), mode: Mode::AbsoluteX, cycles: 4 },
        0x19 => Opcode { instr: Instr::Logic(LogicOp::Ora), mode: Mode::AbsoluteY, cycles: 4 },
        0x01 => Opcode { instr: Instr::Logic(LogicOp::Ora), mode: Mode::IndirectX, cycles: 6 },
        0x11 => Opcode { instr: Instr::Logic(LogicOp::Ora), mode: Mode::IndirectY, cycles: 5 },
        0x49 => Opcode { instr: Instr::Logic(LogicOp::Eor), mode: Mode::Immediate, cycles: 2 },
        0x45 => Opcode { instr: Instr::Logic(LogicOp::Eor), mode: Mode::ZeroPage, cycles: 3 },
        0x55 => Opcode { instr: Instr::Logic(LogicOp::Eor), mode: Mode::ZeroPageX, cycles: 4 },
        0x4D => Opcode { instr: Instr::Logic(LogicOp::Eor), mode: Mode::Absolute, cycles: 4 },
        0x5D => Opcode { instr: Instr::Logic(LogicOp::Eor), mode: Mode::AbsoluteX, cycles: 4 },
        0x59 => Opcode { instr: Instr::Logic(LogicOp::Eor), mode: Mode::AbsoluteY, cycles: 4 },
        0x41 => Opcode { instr: Instr::Logic(LogicOp::Eor), mode: Mode::IndirectX, cycles: 6 },
        0x51 => Opcode { instr: Instr::Logic(LogicOp::Eor), mode: Mode::IndirectY, cycles: 5 },
        0xC9 => Opcode { instr: Instr::Compare(Reg::A), mode: Mode::Immediate, cycles: 2 },
        0xC5 => Opcode { instr: Instr::Compare(Reg::A), mode: Mode::ZeroPage, cycles: 3 },
        0xD5 => Opcode { instr: Instr::Compare(Reg::A), mode: Mode::ZeroPageX, cycles: 4 },
        0xCD => Opcode { instr: Instr::Compare(Reg::A), mode: Mode::Absolute, cycles: 4 },
        0xDD => Opcode { instr: Instr::Compare(Reg::A), mode: Mode::AbsoluteX, cycles: 4 },
        0xD9 => Opcode { instr: Instr::Compare(Reg::A), mode: Mode::AbsoluteY, cycles: 4 },
        0xC1 => Opcode { instr: Instr::Compare(Reg::A), mode: Mode::IndirectX, cycles: 6 },
        0xD1 => Opcode { instr: Instr::Compare(Reg::A), mode: Mode::IndirectY, cycles: 5 },
        0xE0 => Opcode { instr: Instr::Compare(Reg::X), mode: Mode::Immediate, cycles: 2 },
        0xE4 => Opcode { instr: Instr::Compare(Reg::X), mode: Mode::ZeroPage, cycles: 3 },
        0xEC => Opcode { instr: Instr::Compare(Reg::X), mode: Mode::Absolute, cycles: 4 },
        0x24 => Opcode { instr: Instr::Bit, mode: Mode::ZeroPage, cycles: 3 },
        0x2C => Opcode { instr: Instr::Bit, mode: Mode::Absolute, cycles: 4 },
        0xC0 => Opcode { instr: Instr::Compare(Reg::Y), mode: Mode::Immediate, cycles: 2 },
        0xC4 => Opcode { instr: Instr::Compare(Reg::Y), mode: Mode::ZeroPage, cycles: 3 },
        0xCC => Opcode { instr: Instr::Compare(Reg::Y), mode: Mode::Absolute, cycles: 4 },
        0x4C => Opcode { instr: Instr::Jmp, mode: Mode::Absolute, cycles: 3 },
        0x6C => Opcode { instr: Instr::JmpIndirect, mode: Mode::Absolute, cycles: 5 },
        0x20 => Opcode { instr: Instr::Jsr, mode: Mode::Absolute, cycles: 6 },
        0x60 => Opcode { instr: Instr::Rts, mode: Mode::Implied, cycles: 6 },
        0x40 => Opcode { instr: Instr::Rti, mode: Mode::Implied, cycles: 6 },
        0xF0 => Opcode { instr: Instr::Branch(FLAG_Z, true), mode: Mode::Immediate, cycles: 2 },
        0xD0 => Opcode { instr: Instr::Branch(FLAG_Z, false), mode: Mode::Immediate, cycles: 2 },
        0xB0 => Opcode { instr: Instr::Branch(FLAG_C, true), mode: Mode::Immediate, cycles: 2 },
        0x90 => Opcode { instr: Instr::Branch(FLAG_C, false), mode: Mode::Immediate, cycles: 2 },
        0x30 => Opcode { instr: Instr::Branch(FLAG_N, true), mode: Mode::Immediate, cycles: 2 },
        0x10 => Opcode { instr: Instr::Branch(FLAG_N, false), mode: Mode::Immediate, cycles: 2 },
        0x70 => Opcode { instr: Instr::Branch(FLAG_V, true), mode: Mode::Immediate, cycles: 2 },
        0x50 => Opcode { instr: Instr::Branch(FLAG_V, false), mode: Mode::Immediate, cycles: 2 },
        0xE6 => Opcode { instr: Instr::Inc, mode: Mode::ZeroPage, cycles: 5 },
        0xF6 => Opcode { instr: Instr::Inc, mode: Mode::ZeroPageX, cycles: 6 },
        0xEE => Opcode { instr: Instr::Inc, mode: Mode::Absolute, cycles: 6 },
        0xFE => Opcode { instr: Instr::Inc, mode: Mode::AbsoluteX, cycles: 7 },
        0xE8 => Opcode { instr: Instr::IncReg(Reg::X), mode: Mode::Implied, cycles: 2 },
        0xC8 => Opcode { instr: Instr::IncReg(Reg::Y), mode: Mode::Implied, cycles: 2 },
        0xC6 => Opcode { instr: Instr::Dec, mode: Mode::ZeroPage, cycles: 5 },
        0xD6 => Opcode { instr: Instr::Dec, mode: Mode::ZeroPageX, cycles: 6 },
        0xCE => Opcode { instr: Instr::Dec, mode: Mode::Absolute, cycles: 6 },
        0xDE => Opcode { instr: Instr::Dec, mode: Mode::AbsoluteX, cycles: 7 },
        0xCA => Opcode { instr: Instr::DecReg(Reg::X), mode: Mode::Implied, cycles: 2 },
        0x88 => Opcode { instr: Instr::DecReg(Reg::Y), mode: Mode::Implied, cycles: 2 },
        0x48 => Opcode { instr: Instr::Pha, mode: Mode::Implied, cycles: 3 },
        0x68 => Opcode { instr: Instr::Pla, mode: Mode::Implied, cycles: 4 },
        0x08 => Opcode { instr: Instr::Php, mode: Mode::Implied, cycles: 3 },
        0x28 => Opcode { instr: Instr::Plp, mode: Mode::Implied, cycles: 4 },
        0xAA => Opcode { instr: Instr::Transfer(Reg::A, Reg::X), mode: Mode::Implied, cycles: 2 },
        0xA8 => Opcode { instr: Instr::Transfer(Reg::A, Reg::Y), mode: Mode::Implied, cycles: 2 },
        0x8A => Opcode { instr: Instr::Transfer(Reg::X, Reg::A), mode: Mode::Implied, cycles: 2 },
        0x98 => Opcode { instr: Instr::Transfer(Reg::Y, Reg::A), mode: Mode::Implied, cycles: 2 },
        0xBA => Opcode { instr: Instr::Transfer(Reg::SP, Reg::X), mode: Mode::Implied, cycles: 2 },
        0x9A => Opcode { instr: Instr::Transfer(Reg::X, Reg::SP), mode: Mode::Implied, cycles: 2 },
        0x0A => Opcode { instr: Instr::Shift(ShiftOp::Asl), mode: Mode::Accumulator, cycles: 2 },
        0x06 => Opcode { instr: Instr::Shift(ShiftOp::Asl), mode: Mode::ZeroPage, cycles: 5 },
        0x16 => Opcode { instr: Instr::Shift(ShiftOp::Asl), mode: Mode::ZeroPageX, cycles: 6 },
        0x0E => Opcode { instr: Instr::Shift(ShiftOp::Asl), mode: Mode::Absolute, cycles: 6 },
        0x1E => Opcode { instr: Instr::Shift(ShiftOp::Asl), mode: Mode::AbsoluteX, cycles: 7 },
        0x4A => Opcode { instr: Instr::Shift(ShiftOp::Lsr), mode: Mode::Accumulator, cycles: 2 },
        0x46 => Opcode { instr: Instr::Shift(ShiftOp::Lsr), mode: Mode::ZeroPage, cycles: 5 },
        0x56 => Opcode { instr: Instr::Shift(ShiftOp::Lsr), mode: Mode::ZeroPageX, cycles: 6 },
        0x4E => Opcode { instr: Instr::Shift(ShiftOp::Lsr), mode: Mode::Absolute, cycles: 6 },
        0x5E => Opcode { instr: Instr::Shift(ShiftOp::Lsr), mode: Mode::AbsoluteX, cycles: 7 },
        0x2A => Opcode { instr: Instr::Shift(ShiftOp::Rol), mode: Mode::Accumulator, cycles: 2 },
        0x26 => Opcode { instr: Instr::Shift(ShiftOp::Rol), mode: Mode::ZeroPage, cycles: 5 },
        0x36 => Opcode { instr: Instr::Shift(ShiftOp::Rol), mode: Mode::ZeroPageX, cycles: 6 },
        0x2E => Opcode { instr: Instr::Shift(ShiftOp::Rol), mode: Mode::Absolute, cycles: 6 },
        0x3E => Opcode { instr: Instr::Shift(ShiftOp::Rol), mode: Mode::AbsoluteX, cycles: 7 },
        0x6A => Opcode { instr: Instr::Shift(ShiftOp::Ror), mode: Mode::Accumulator, cycles: 2 },
        0x66 => Opcode { instr: Instr::Shift(ShiftOp::Ror), mode: Mode::ZeroPage, cycles: 5 },
        0x76 => Opcode { instr: Instr::Shift(ShiftOp::Ror), mode: Mode::ZeroPageX, cycles: 6 },
        0x6E => Opcode { instr: Instr::Shift(ShiftOp::Ror), mode: Mode::Absolute, cycles: 6 },
        0x7E => Opcode { instr: Instr::Shift(ShiftOp::Ror), mode: Mode::AbsoluteX, cycles: 7 },
        0xEA => Opcode { instr: Instr::Nop, mode: Mode::Implied, cycles: 2 },
        0x89 => Opcode { instr: Instr::Nop, mode: Mode::Immediate, cycles: 2 },
        0x18 => Opcode { instr: Instr::SetFlag(FLAG_C, false), mode: Mode::Implied, cycles: 2 },
        0x38 => Opcode { instr: Instr::SetFlag(FLAG_C, true), mode: Mode::Implied, cycles: 2 },
        0x58 => Opcode { instr: Instr::SetFlag(FLAG_I, false), mode: Mode::Implied, cycles: 2 },
        0x78 => Opcode { instr: Instr::SetFlag(FLAG_I, true), mode: Mode::Implied, cycles: 2 },
        0xB8 => Opcode { instr: Instr::SetFlag(FLAG_V, false), mode: Mode::Implied, cycles: 2 },
        0xD8 => Opcode { instr: Instr::SetFlag(FLAG_D, false), mode: Mode::Implied, cycles: 2 },
        0xF8 => Opcode { instr: Instr::SetFlag(FLAG_D, true), mode: Mode::Implied, cycles: 2 },
        _ => Opcode { instr: Instr::Unknown, mode: Mode::Implied, cycles: 2 },
    }
}

} // verus!
