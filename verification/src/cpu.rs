use vstd::prelude::*;
use crate::buffer::{zeroed, zeros};
use crate::bus::{Bus, BusState, BusFault};
use crate::ppu::{lemma_tick_advances, PpuState, CYCLES_PER_SCANLINE, SCANLINES_PER_FRAME};
use crate::opcodes::{
    Opcode, decode, spec_decode, Instr, LogicOp, Mode, Reg, ShiftOp, FLAG_B, FLAG_C, FLAG_D, FLAG_I,
    FLAG_N, FLAG_U, FLAG_V, FLAG_Z,
};
use crate::status::{set_bits, with_bits};

verus! {

/// Base of the hardware stack page.
pub const STACK: u16 = 0x0100;
/// Stack pointer after power-on and reset.
pub const STACK_RESET: u8 = 0xFD;
/// Status register after power-on and reset.
pub const STATUS_RESET: u8 = 0x24;
/// Vector read for NMI.
pub const NMI_VECTOR: u16 = 0xFFFA;
/// Vector read on reset.
pub const RESET_VECTOR: u16 = 0xFFFC;
/// Vector read by BRK.
pub const IRQ_VECTOR: u16 = 0xFFFE;

/// Bits of the status register that NMI entry sets and clears.
pub const CPU_FLAG_INTERRUPT_DISABLE: u8 = 0b0000_0100;
pub const CPU_FLAG_BREAK: u8 = 0b0001_0000;
pub const CPU_FLAG_BREAK2: u8 = 0b0010_0000;

/// A status byte as a set of flags (N V _ B D I Z C, bit 7 to bit 0).
pub struct CpuFlags {
    pub bits: u8,
}

impl CpuFlags {
    /// Every bit of the byte names a flag, so nothing is dropped.
    pub fn from_bits_truncate(bits: u8) -> (r: CpuFlags)
        ensures
            r.bits == bits,
    {
        CpuFlags { bits }
    }

    pub fn bits(&self) -> (r: u8)
        ensures
            r == self.bits,
    {
        self.bits
    }

    pub fn set(&mut self, flags: u8, value: bool)
        ensures
            final(self).bits == with_bits(old(self).bits, flags, value),
    {
        self.bits = set_bits(self.bits, flags, value);
    }

    pub fn insert(&mut self, flags: u8)
        ensures
            final(self).bits == old(self).bits | flags,
    {
        self.bits = self.bits | flags;
    }

    pub fn contains(&self, flags: u8) -> (r: bool)
        ensures
            r == (self.bits & flags == flags),
    {
        self.bits & flags == flags
    }
}

/// The flags of the status register P, by name.
#[derive(Clone, Copy, Debug, PartialEq, Eq, Structural)]
pub enum FLAGS6502 {
    C,
    Z,
    I,
    D,
    B,
    U,
    V,
    N,
}

impl FLAGS6502 {
    pub open spec fn spec_mask(self) -> u8 {
        match self {
            FLAGS6502::C => FLAG_C,
            FLAGS6502::Z => FLAG_Z,
            FLAGS6502::I => FLAG_I,
            FLAGS6502::D => FLAG_D,
            FLAGS6502::B => FLAG_B,
            FLAGS6502::U => FLAG_U,
            FLAGS6502::V => FLAG_V,
            FLAGS6502::N => FLAG_N,
        }
    }

    pub fn mask(&self) -> (r: u8)
        ensures
            r == self.spec_mask(),
    {
        match self {
            FLAGS6502::C => FLAG_C,
            FLAGS6502::Z => FLAG_Z,
            FLAGS6502::I => FLAG_I,
            FLAGS6502::D => FLAG_D,
            FLAGS6502::B => FLAG_B,
            FLAGS6502::U => FLAG_U,
            FLAGS6502::V => FLAG_V,
            FLAGS6502::N => FLAG_N,
        }
    }
}

/// Z and N as the value `v` sets them.
pub open spec fn zn(p: u8, v: u8) -> u8 {
    with_bits(with_bits(p, FLAG_Z, v == 0), FLAG_N, v & 0x80 != 0)
}

fn update_zn(p: u8, v: u8) -> (r: u8)
    ensures
        r == zn(p, v),
{
    set_bits(set_bits(p, FLAG_Z, v == 0), FLAG_N, v & 0x80 != 0)
}

/// ADC: the new accumulator and status.
pub open spec fn alu_adc(a: u8, v: u8, p: u8) -> (u8, u8) {
    let carry: u16 = if p & FLAG_C != 0 { 1 } else { 0 };
    let result = (a as u16 + v as u16 + carry) as u16;
    let p1 = with_bits(p, FLAG_C, result > 0xFF);
    let p2 = with_bits(p1, FLAG_Z, result & 0xFF == 0);
    let p3 = with_bits(p2, FLAG_N, result & 0x80 != 0);
    let p4 = with_bits(
        p3,
        FLAG_V,
        (a ^ v) & 0x80 == 0 && (a ^ (result as u8)) & 0x80 != 0,
    );
    ((result & 0xFF) as u8, p4)
}

/// SBC: the new accumulator and status.
pub open spec fn alu_sbc(a: u8, v: u8, p: u8) -> (u8, u8) {
    let carry: u16 = if p & FLAG_C != 0 { 0 } else { 1 };
    let result = (a as u16).wrapping_sub(v as u16).wrapping_sub(carry);
    let p1 = with_bits(p, FLAG_C, result < 0x100);
    let p2 = with_bits(p1, FLAG_Z, result & 0xFF == 0);
    let p3 = with_bits(p2, FLAG_N, result & 0x80 != 0);
    let p4 = with_bits(
        p3,
        FLAG_V,
        (a ^ v) & 0x80 != 0 && (a ^ (result as u8)) & 0x80 != 0,
    );
    ((result & 0xFF) as u8, p4)
}

/// CMP, CPX and CPY: the status after comparing register value `r` with `v`.
pub open spec fn alu_compare(r: u8, v: u8, p: u8) -> u8 {
    let result = r.wrapping_sub(v);
    with_bits(with_bits(with_bits(p, FLAG_C, r >= v), FLAG_Z, r == v), FLAG_N, result & 0x80 != 0)
}

/// BIT: Z from `a & v`, V and N copied from bits 6 and 7 of `v`.
pub open spec fn alu_bit(a: u8, v: u8, p: u8) -> u8 {
    with_bits(with_bits(with_bits(p, FLAG_Z, a & v == 0), FLAG_V, v & 0x40 != 0), FLAG_N, v & 0x80 != 0)
}

pub open spec fn alu_logic(op: LogicOp, a: u8, v: u8) -> u8 {
    match op {
        LogicOp::And => a & v,
        LogicOp::Ora => a | v,
        LogicOp::Eor => a ^ v,
    }
}

/// ASL, LSR, ROL and ROR: the shifted value and the new status.
pub open spec fn alu_shift(op: ShiftOp, v: u8, p: u8) -> (u8, u8) {
    match op {
        ShiftOp::Asl => {
            let r = v << 1u8;
            (r, zn(with_bits(p, FLAG_C, v & 0x80 != 0), r))
        },
        ShiftOp::Lsr => {
            let r = v >> 1u8;
            (r, with_bits(with_bits(with_bits(p, FLAG_C, v & 0x01 != 0), FLAG_Z, r == 0), FLAG_N, false))
        },
        ShiftOp::Rol => {
            let old_carry: u8 = if p & FLAG_C != 0 { 1 } else { 0 };
            let r = (v << 1u8) | old_carry;
            (r, zn(with_bits(p, FLAG_C, v & 0x80 != 0), r))
        },
        ShiftOp::Ror => {
            let old_carry: u8 = if p & FLAG_C != 0 { 0x80 } else { 0 };
            let r = (v >> 1u8) | old_carry;
            (r, zn(with_bits(p, FLAG_C, v & 0x01 != 0), r))
        },
    }
}

/// Target of a taken branch: the offset byte is a signed displacement from
/// the address after the branch.
pub open spec fn branch_target(pc: u16, offset: u8) -> u16 {
    if offset < 128 {
        pc.wrapping_add(offset as u16)
    } else {
        pc.wrapping_add((offset as u16 + 0xFF00) as u16)
    }
}

/// Little-endian word from two bytes.
pub open spec fn word(lo: u8, hi: u8) -> u16 {
    (hi * 256 + lo) as u16
}

fn make_word(lo: u8, hi: u8) -> (r: u16)
    ensures
        r == word(lo, hi),
{
    let l = lo as u16;
    let h = hi as u16;
    assert((h << 8u16) | l == h * 256 + l) by (bit_vector)
        requires h < 256, l < 256;
    (h << 8u16) | l
}

/// What one step did: whether the PPU finished a frame, and the opcode it
/// fetched when the CPU does not implement that opcode (it then does
/// nothing for two cycles).
pub struct Step {
    pub frame: bool,
    pub unknown_opcode: Option<u8>,
}

/// The 6502 CPU with the bus it drives.
pub struct Cpu {
    pub a: u8,
    pub x: u8,
    pub y: u8,
    pub stack_pointer: u8,
    pub program_counter: u16,
    pub p: u8,
    pub status: CpuFlags,
    pub memory: Vec<u8>,
    pub bus: Bus,
}

/// Mathematical value of the CPU. `p` is the status register; `status` is a
/// flag-set copy of it that power-on and reset initialise.
pub struct CpuState {
    pub a: u8,
    pub x: u8,
    pub y: u8,
    pub sp: u8,
    pub pc: u16,
    pub p: u8,
    pub status: u8,
    pub memory: Seq<u8>,
    pub bus: BusState,
}

impl View for Cpu {
    type V = CpuState;

    open spec fn view(&self) -> CpuState {
        CpuState {
            a: self.a,
            x: self.x,
            y: self.y,
            sp: self.stack_pointer,
            pc: self.program_counter,
            p: self.p,
            status: self.status.bits,
            memory: self.memory@,
            bus: self.bus@,
        }
    }
}

impl CpuState {
    pub open spec fn wf(self) -> bool {
        &&& self.memory.len() == 0x10000
        &&& self.bus.wf()
    }

    pub open spec fn fault(self) -> bool {
        self.bus.fault
    }

    pub open spec fn read(self, addr: u16) -> (CpuState, u8) {
        (CpuState { bus: self.bus.read(addr).0, ..self }, self.bus.read(addr).1)
    }

    pub open spec fn write(self, addr: u16, v: u8) -> CpuState {
        CpuState { bus: self.bus.write(addr, v), ..self }
    }

    pub open spec fn with_pc(self, pc: u16) -> CpuState {
        CpuState { pc, ..self }
    }

    pub open spec fn next_pc(self) -> CpuState {
        CpuState { pc: self.pc.wrapping_add(1), ..self }
    }

    pub open spec fn with_p(self, p: u8) -> CpuState {
        CpuState { p, ..self }
    }

    pub open spec fn flag(self, mask: u8) -> bool {
        self.p & mask != 0
    }

    pub open spec fn reg(self, r: Reg) -> u8 {
        match r {
            Reg::A => self.a,
            Reg::X => self.x,
            Reg::Y => self.y,
            Reg::SP => self.sp,
        }
    }

    pub open spec fn with_reg(self, r: Reg, v: u8) -> CpuState {
        match r {
            Reg::A => CpuState { a: v, ..self },
            Reg::X => CpuState { x: v, ..self },
            Reg::Y => CpuState { y: v, ..self },
            Reg::SP => CpuState { sp: v, ..self },
        }
    }

    /// Stores `v` at the top of the stack and moves the stack pointer down.
    pub open spec fn push(self, v: u8) -> CpuState {
        CpuState { sp: self.sp.wrapping_sub(1), ..self.write((STACK + self.sp) as u16, v) }
    }

    /// Moves the stack pointer up and reads the byte it then points at.
    pub open spec fn pop(self) -> (CpuState, u8) {
        CpuState { sp: self.sp.wrapping_add(1), ..self }.read(
            (STACK + self.sp.wrapping_add(1)) as u16,
        )
    }

    /// Fetches the operand address of `mode`, advancing the program counter
    /// past the operand bytes. Immediate operands are read at the program
    /// counter itself.
    pub open spec fn operand_addr(self, mode: Mode) -> (CpuState, u16) {
        match mode {
            Mode::Immediate => (self.next_pc(), self.pc),
            Mode::ZeroPage => {
                let (s1, z) = self.read(self.pc);
                (s1.next_pc(), z as u16)
            },
            Mode::ZeroPageX => {
                let (s1, z) = self.read(self.pc);
                (s1.next_pc(), z.wrapping_add(self.x) as u16)
            },
            Mode::ZeroPageY => {
                let (s1, z) = self.read(self.pc);
                (s1.next_pc(), z.wrapping_add(self.y) as u16)
            },
            Mode::Absolute => {
                let (s1, lo) = self.read(self.pc);
                let s2 = s1.next_pc();
                let (s3, hi) = s2.read(s2.pc);
                (s3.next_pc(), word(lo, hi))
            },
            Mode::AbsoluteX => {
                let (s1, lo) = self.read(self.pc);
                let s2 = s1.next_pc();
                let (s3, hi) = s2.read(s2.pc);
                (s3.next_pc(), word(lo, hi).wrapping_add(self.x as u16))
            },
            Mode::AbsoluteY => {
                let (s1, lo) = self.read(self.pc);
                let s2 = s1.next_pc();
                let (s3, hi) = s2.read(s2.pc);
                (s3.next_pc(), word(lo, hi).wrapping_add(self.y as u16))
            },
            Mode::IndirectX => {
                let (s1, zp) = self.read(self.pc);
                let s2 = s1.next_pc();
                let (s3, lo) = s2.read(zp.wrapping_add(self.x) as u16);
                let (s4, hi) = s3.read(zp.wrapping_add(self.x).wrapping_add(1) as u16);
                (s4, word(lo, hi))
            },
            Mode::IndirectY => {
                let (s1, zp) = self.read(self.pc);
                let s2 = s1.next_pc();
                let (s3, lo) = s2.read(zp as u16);
                let (s4, hi) = s3.read(zp.wrapping_add(1) as u16);
                (s4, word(lo, hi).wrapping_add(self.y as u16))
            },
            _ => (self, 0),
        }
    }

    /// Reads the operand of `mode`: the accumulator, or the byte at the
    /// operand address (with that address).
    pub open spec fn operand(self, mode: Mode) -> (CpuState, u16, u8) {
        let (s1, addr) = self.operand_addr(mode);
        let (s2, v) = s1.read(addr);
        (s2, addr, v)
    }

    #[verifier::opaque]
    pub open spec fn exec_load(self, r: Reg, mode: Mode) -> CpuState {
        let (s1, _, v) = self.operand(mode);
        s1.with_reg(r, v).with_p(zn(s1.p, v))
    }

    #[verifier::opaque]
    pub open spec fn exec_store(self, r: Reg, mode: Mode) -> CpuState {
        let (s1, addr) = self.operand_addr(mode);
        s1.write(addr, s1.reg(r))
    }

    #[verifier::opaque]
    pub open spec fn exec_adc(self, mode: Mode) -> CpuState {
        let (s1, _, v) = self.operand(mode);
        let (a, p) = alu_adc(s1.a, v, s1.p);
        CpuState { a, p, ..s1 }
    }

    #[verifier::opaque]
    pub open spec fn exec_sbc(self, mode: Mode) -> CpuState {
        let (s1, _, v) = self.operand(mode);
        let (a, p) = alu_sbc(s1.a, v, s1.p);
        CpuState { a, p, ..s1 }
    }

    #[verifier::opaque]
    pub open spec fn exec_logic(self, op: LogicOp, mode: Mode) -> CpuState {
        let (s1, _, v) = self.operand(mode);
        let a = alu_logic(op, s1.a, v);
        CpuState { a, p: zn(s1.p, a), ..s1 }
    }

    #[verifier::opaque]
    pub open spec fn exec_compare(self, r: Reg, mode: Mode) -> CpuState {
        let (s1, _, v) = self.operand(mode);
        s1.with_p(alu_compare(s1.reg(r), v, s1.p))
    }

    #[verifier::opaque]
    pub open spec fn exec_bit(self, mode: Mode) -> CpuState {
        let (s1, _, v) = self.operand(mode);
        s1.with_p(alu_bit(s1.a, v, s1.p))
    }

    #[verifier::opaque]
    pub open spec fn exec_jmp(self) -> CpuState {
        let (s1, addr) = self.operand_addr(Mode::Absolute);
        s1.with_pc(addr)
    }

    /// JMP ($addr), including the 6502's failure to carry into the high byte
    /// when the pointer sits at the end of a page.
    #[verifier::opaque]
    pub open spec fn exec_jmp_indirect(self) -> CpuState {
        let (s1, addr) = self.operand_addr(Mode::Absolute);
        let (s2, lo) = s1.read(addr);
        let hi_addr = if addr & 0xFF == 0xFF { addr & 0xFF00 } else { addr.wrapping_add(1) };
        let (s3, hi) = s2.read(hi_addr);
        s3.with_pc(word(lo, hi))
    }

    /// JSR: pushes the address of the last operand byte, high byte first.
    #[verifier::opaque]
    pub open spec fn exec_jsr(self) -> CpuState {
        let (s1, addr) = self.operand_addr(Mode::Absolute);
        let ret = s1.pc.wrapping_sub(1);
        s1.push((ret >> 8u16) as u8).push((ret & 0xFF) as u8).with_pc(addr)
    }

    #[verifier::opaque]
    pub open spec fn exec_rts(self) -> CpuState {
        let (s1, lo) = self.pop();
        let (s2, hi) = s1.pop();
        s2.with_pc(word(lo, hi).wrapping_add(1))
    }

    #[verifier::opaque]
    pub open spec fn exec_rti(self) -> CpuState {
        let (s1, p) = self.pop();
        let s2 = s1.with_p(p & !FLAG_B);
        let (s3, lo) = s2.pop();
        let (s4, hi) = s3.pop();
        s4.with_pc(word(lo, hi))
    }

    /// A branch: the state and whether it was taken.
    #[verifier::opaque]
    pub open spec fn exec_branch(self, mask: u8, set: bool) -> (CpuState, bool) {
        let (s1, _, offset) = self.operand(Mode::Immediate);
        if s1.flag(mask) == set {
            (s1.with_pc(branch_target(s1.pc, offset)), true)
        } else {
            (s1, false)
        }
    }

    /// INC (`up`) or DEC on memory.
    #[verifier::opaque]
    pub open spec fn exec_step_mem(self, up: bool, mode: Mode) -> CpuState {
        let (s1, addr, v) = self.operand(mode);
        let r = if up { v.wrapping_add(1) } else { v.wrapping_sub(1) };
        let s2 = s1.write(addr, r);
        s2.with_p(zn(s2.p, r))
    }

    /// INX/INY (`up`) or DEX/DEY.
    #[verifier::opaque]
    pub open spec fn exec_step_reg(self, r: Reg, up: bool) -> CpuState {
        let v = if up { self.reg(r).wrapping_add(1) } else { self.reg(r).wrapping_sub(1) };
        self.with_reg(r, v).with_p(zn(self.p, v))
    }

    #[verifier::opaque]
    pub open spec fn exec_pha(self) -> CpuState {
        self.push(self.a)
    }

    #[verifier::opaque]
    pub open spec fn exec_pla(self) -> CpuState {
        let (s1, v) = self.pop();
        CpuState { a: v, p: zn(s1.p, v), ..s1 }
    }

    /// PHP pushes the status with the B flag set.
    #[verifier::opaque]
    pub open spec fn exec_php(self) -> CpuState {
        self.push(self.p | FLAG_B)
    }

    /// PLP pulls the status with the B flag cleared.
    #[verifier::opaque]
    pub open spec fn exec_plp(self) -> CpuState {
        let (s1, v) = self.pop();
        s1.with_p(v & !FLAG_B)
    }

    /// Register transfer; all but TXS set Z and N.
    #[verifier::opaque]
    pub open spec fn exec_transfer(self, from: Reg, to: Reg) -> CpuState {
        let v = self.reg(from);
        let s1 = self.with_reg(to, v);
        match to {
            Reg::SP => s1,
            _ => s1.with_p(zn(self.p, v)),
        }
    }

    #[verifier::opaque]
    pub open spec fn exec_shift(self, op: ShiftOp, mode: Mode) -> CpuState {
        match mode {
            Mode::Accumulator => {
                let (r, p) = alu_shift(op, self.a, self.p);
                CpuState { a: r, p, ..self }
            },
            _ => {
                let (s1, addr, v) = self.operand(mode);
                let (r, p) = alu_shift(op, v, s1.p);
                s1.write(addr, r).with_p(p)
            },
        }
    }

    /// NOP skips its operand bytes without reading them.
    #[verifier::opaque]
    pub open spec fn exec_nop(self, mode: Mode) -> CpuState {
        match mode {
            Mode::Immediate => self.next_pc(),
            _ => self,
        }
    }

    /// BRK: pushes the address after its padding byte and the status with
    /// B and bit 5 set, disables interrupts and jumps through $FFFE.
    #[verifier::opaque]
    pub open spec fn exec_brk(self) -> CpuState {
        let s1 = self.next_pc();
        let s2 = s1.push((s1.pc >> 8u16) as u8).push((s1.pc & 0xFF) as u8);
        let s3 = s2.push(s2.p | 0x30);
        let s4 = s3.with_p(with_bits(s3.p, FLAG_I, true));
        let (s5, lo) = s4.read(IRQ_VECTOR);
        let (s6, hi) = s5.read(0xFFFF);
        s6.with_pc(word(lo, hi))
    }

    /// Executes the instruction `opcode` (its operands follow at the program
    /// counter): the new state and the number of CPU cycles taken.
    pub open spec fn execute(self, opcode: u8) -> (CpuState, u8) {
        self.execute_op(spec_decode(opcode))
    }

    /// Executes a decoded instruction.
    pub open spec fn execute_op(self, op: Opcode) -> (CpuState, u8) {
        match op.instr {
            Instr::Brk => (self.exec_brk(), op.cycles),
            Instr::Load(r) => (self.exec_load(r, op.mode), op.cycles),
            Instr::Store(r) => (self.exec_store(r, op.mode), op.cycles),
            Instr::Adc => (self.exec_adc(op.mode), op.cycles),
            Instr::Sbc => (self.exec_sbc(op.mode), op.cycles),
            Instr::Logic(l) => (self.exec_logic(l, op.mode), op.cycles),
            Instr::Compare(r) => (self.exec_compare(r, op.mode), op.cycles),
            Instr::Bit => (self.exec_bit(op.mode), op.cycles),
            Instr::Jmp => (self.exec_jmp(), op.cycles),
            Instr::JmpIndirect => (self.exec_jmp_indirect(), op.cycles),
            Instr::Jsr => (self.exec_jsr(), op.cycles),
            Instr::Rts => (self.exec_rts(), op.cycles),
            Instr::Rti => (self.exec_rti(), op.cycles),
            Instr::Branch(mask, set) => {
                let (s, taken) = self.exec_branch(mask, set);
                (s, if taken { (op.cycles + 1) as u8 } else { op.cycles })
            },
            Instr::Inc => (self.exec_step_mem(true, op.mode), op.cycles),
            Instr::Dec => (self.exec_step_mem(false, op.mode), op.cycles),
            Instr::IncReg(r) => (self.exec_step_reg(r, true), op.cycles),
            Instr::DecReg(r) => (self.exec_step_reg(r, false), op.cycles),
            Instr::Pha => (self.exec_pha(), op.cycles),
            Instr::Pla => (self.exec_pla(), op.cycles),
            Instr::Php => (self.exec_php(), op.cycles),
            Instr::Plp => (self.exec_plp(), op.cycles),
            Instr::Transfer(from, to) => (self.exec_transfer(from, to), op.cycles),
            Instr::Shift(s) => (self.exec_shift(s, op.mode), op.cycles),
            Instr::Nop => (self.exec_nop(op.mode), op.cycles),
            Instr::SetFlag(mask, v) => (self.with_p(with_bits(self.p, mask, v)), op.cycles),
            Instr::Unknown => (self, op.cycles),
        }
    }
    /// NMI: pushes the program counter and the status register P (B clear,
    /// bit 5 set), sets I in P, spends two cycles and jumps through $FFFA.
    /// The boolean tells whether those cycles finished a frame.
    pub open spec fn nmi(self) -> (CpuState, bool) {
        let s1 = self.push((self.pc >> 8u16) as u8).push((self.pc & 0xff) as u8);
        let flag = with_bits(with_bits(s1.p, CPU_FLAG_BREAK, false), CPU_FLAG_BREAK2, true);
        let s2 = s1.push(flag);
        let s3 = CpuState { p: s2.p | CPU_FLAG_INTERRUPT_DISABLE, ..s2 };
        let s4 = CpuState { bus: s3.bus.tick(2).0, ..s3 };
        (CpuState { bus: s4.bus.read_u16(NMI_VECTOR).0, pc: s4.bus.read_u16(NMI_VECTOR).1, ..s4 }, s3.bus.tick(2).1)
    }

    /// Reset: clears the registers and loads the program counter from $FFFC.
    pub open spec fn reset(self) -> CpuState {
        let s1 = CpuState { a: 0, x: 0, y: 0, sp: STACK_RESET, p: STATUS_RESET, status: STATUS_RESET, ..self };
        CpuState { bus: s1.bus.read_u16(RESET_VECTOR).0, pc: s1.bus.read_u16(RESET_VECTOR).1, ..s1 }
    }

    /// Takes a pending NMI, clearing it; the boolean tells whether the NMI's
    /// cycles finished a frame.
    pub open spec fn take_nmi(self) -> (CpuState, bool) {
        let s0 = CpuState {
            bus: BusState { ppu: PpuState { nmi_interrupt: None, ..self.bus.ppu }, ..self.bus },
            ..self
        };
        if self.bus.ppu.nmi_interrupt.is_some() { s0.nmi() } else { (self, false) }
    }

    /// The opcode the next step fetches.
    pub open spec fn fetched_opcode(self) -> u8 {
        let (s1, _) = self.take_nmi();
        s1.read(s1.pc).1
    }

    /// One step: takes a pending NMI, then fetches and executes one
    /// instruction and advances the machine by its cycles. The boolean tells
    /// whether the PPU finished a frame during the step.
    #[verifier::opaque]
    pub open spec fn step(self) -> (CpuState, bool) {
        let (s1, f1) = self.take_nmi();
        let (s2, opcode) = s1.read(s1.pc);
        let s3 = s2.next_pc();
        let (s4, cycles) = s3.execute(opcode);
        (CpuState { bus: s4.bus.tick(cycles).0, ..s4 }, f1 || s4.bus.tick(cycles).1)
    }

    /// The state after at most `n` steps, stopping after the first step that
    /// finishes a frame or faults; the boolean tells whether a frame finished.
    pub open spec fn run_steps(self, n: nat) -> (CpuState, bool)
        decreases n,
    {
        if n == 0 {
            (self, false)
        } else {
            let (t, done) = self.run_steps((n - 1) as nat);
            if done || t.fault() {
                (t, done)
            } else {
                t.step()
            }
        }
    }

}


fn adc_exec(a: u8, v: u8, p: u8) -> (r: (u8, u8))
    ensures
        r == alu_adc(a, v, p),
{
    let carry: u16 = if p & FLAG_C != 0 { 1 } else { 0 };
    let result: u16 = a as u16 + v as u16 + carry;
    let p1 = set_bits(p, FLAG_C, result > 0xFF);
    let p2 = set_bits(p1, FLAG_Z, result & 0xFF == 0);
    let p3 = set_bits(p2, FLAG_N, result & 0x80 != 0);
    let p4 = set_bits(p3, FLAG_V, (a ^ v) & 0x80 == 0 && (a ^ (result as u8)) & 0x80 != 0);
    ((result & 0xFF) as u8, p4)
}

fn sbc_exec(a: u8, v: u8, p: u8) -> (r: (u8, u8))
    ensures
        r == alu_sbc(a, v, p),
{
    let carry: u16 = if p & FLAG_C != 0 { 0 } else { 1 };
    let result: u16 = (a as u16).wrapping_sub(v as u16).wrapping_sub(carry);
    let p1 = set_bits(p, FLAG_C, result < 0x100);
    let p2 = set_bits(p1, FLAG_Z, result & 0xFF == 0);
    let p3 = set_bits(p2, FLAG_N, result & 0x80 != 0);
    let p4 = set_bits(p3, FLAG_V, (a ^ v) & 0x80 != 0 && (a ^ (result as u8)) & 0x80 != 0);
    ((result & 0xFF) as u8, p4)
}

fn compare_exec(r: u8, v: u8, p: u8) -> (res: u8)
    ensures
        res == alu_compare(r, v, p),
{
    let result = r.wrapping_sub(v);
    set_bits(set_bits(set_bits(p, FLAG_C, r >= v), FLAG_Z, r == v), FLAG_N, result & 0x80 != 0)
}

fn bit_exec(a: u8, v: u8, p: u8) -> (res: u8)
    ensures
        res == alu_bit(a, v, p),
{
    set_bits(set_bits(set_bits(p, FLAG_Z, a & v == 0), FLAG_V, v & 0x40 != 0), FLAG_N, v & 0x80 != 0)
}

fn logic_exec(op: &LogicOp, a: u8, v: u8) -> (r: u8)
    ensures
        r == alu_logic(*op, a, v),
{
    match op {
        LogicOp::And => a & v,
        LogicOp::Ora => a | v,
        LogicOp::Eor => a ^ v,
    }
}

fn shift_exec(op: &ShiftOp, v: u8, p: u8) -> (r: (u8, u8))
    ensures
        r == alu_shift(*op, v, p),
{
    match op {
        ShiftOp::Asl => {
            let r = v << 1u8;
            (r, update_zn(set_bits(p, FLAG_C, v & 0x80 != 0), r))
        },
        ShiftOp::Lsr => {
            let r = v >> 1u8;
            (r, set_bits(set_bits(set_bits(p, FLAG_C, v & 0x01 != 0), FLAG_Z, r == 0), FLAG_N, false))
        },
        ShiftOp::Rol => {
            let old_carry: u8 = if p & FLAG_C != 0 { 1 } else { 0 };
            let r = (v << 1u8) | old_carry;
            (r, update_zn(set_bits(p, FLAG_C, v & 0x80 != 0), r))
        },
        ShiftOp::Ror => {
            let old_carry: u8 = if p & FLAG_C != 0 { 0x80 } else { 0 };
            let r = (v >> 1u8) | old_carry;
            (r, update_zn(set_bits(p, FLAG_C, v & 0x01 != 0), r))
        },
    }
}

fn branch_target_exec(pc: u16, offset: u8) -> (r: u16)
    ensures
        r == branch_target(pc, offset),
{
    if offset < 128 {
        pc.wrapping_add(offset as u16)
    } else {
        pc.wrapping_add(offset as u16 + 0xFF00)
    }
}

/// A faulted state stays faulted through any instruction.
pub proof fn lemma_execute_keeps_fault(s: CpuState, opcode: u8)
    requires
        s.fault(),
    ensures
        s.execute(opcode).0.fault(),
{
    reveal(CpuState::exec_load);
    reveal(CpuState::exec_store);
    reveal(CpuState::exec_adc);
    reveal(CpuState::exec_sbc);
    reveal(CpuState::exec_logic);
    reveal(CpuState::exec_compare);
    reveal(CpuState::exec_bit);
    reveal(CpuState::exec_jmp);
    reveal(CpuState::exec_jmp_indirect);
    reveal(CpuState::exec_jsr);
    reveal(CpuState::exec_rts);
    reveal(CpuState::exec_rti);
    reveal(CpuState::exec_branch);
    reveal(CpuState::exec_step_mem);
    reveal(CpuState::exec_step_reg);
    reveal(CpuState::exec_pha);
    reveal(CpuState::exec_pla);
    reveal(CpuState::exec_php);
    reveal(CpuState::exec_plp);
    reveal(CpuState::exec_transfer);
    reveal(CpuState::exec_shift);
    reveal(CpuState::exec_nop);
    reveal(CpuState::exec_brk);
}

/// Whether `i` is handled by instruction group 0.
pub open spec fn in_group_0(i: Instr) -> bool {
    match i {
        Instr::Brk | Instr::Load(_) | Instr::Store(_) | Instr::Adc | Instr::Sbc | Instr::Logic(_) | Instr::Compare(_) | Instr::Bit | Instr::Jmp => true,
        _ => false,
    }
}

/// Whether `i` is handled by instruction group 1.
pub open spec fn in_group_1(i: Instr) -> bool {
    match i {
        Instr::JmpIndirect | Instr::Jsr | Instr::Rts | Instr::Rti | Instr::Branch(_, _) | Instr::Inc | Instr::Dec | Instr::IncReg(_) | Instr::DecReg(_) => true,
        _ => false,
    }
}

/// Whether `i` is handled by instruction group 2.
pub open spec fn in_group_2(i: Instr) -> bool {
    match i {
        Instr::Pha | Instr::Pla | Instr::Php | Instr::Plp | Instr::Transfer(_, _) | Instr::Shift(_) | Instr::Nop | Instr::SetFlag(_, _) | Instr::Unknown => true,
        _ => false,
    }
}

fn in_group_0_exec(i: &Instr) -> (r: bool)
    ensures
        r == in_group_0(*i),
{
    match i {
        Instr::Brk | Instr::Load(_) | Instr::Store(_) | Instr::Adc | Instr::Sbc | Instr::Logic(_) | Instr::Compare(_) | Instr::Bit | Instr::Jmp => true,
        _ => false,
    }
}

fn in_group_1_exec(i: &Instr) -> (r: bool)
    ensures
        r == in_group_1(*i),
{
    match i {
        Instr::JmpIndirect | Instr::Jsr | Instr::Rts | Instr::Rti | Instr::Branch(_, _) | Instr::Inc | Instr::Dec | Instr::IncReg(_) | Instr::DecReg(_) => true,
        _ => false,
    }
}

impl Cpu {
    /// A CPU attached to `bus`, in its power-on state.
    pub fn new(bus: Bus) -> (c: Cpu)
        requires
            bus@.wf(),
        ensures
            c@ == (CpuState {
                a: 0,
                x: 0,
                y: 0,
                sp: STACK_RESET,
                pc: 0xC000,
                p: STATUS_RESET,
                status: STATUS_RESET,
                memory: zeros(0x10000),
                bus: bus@,
            }),
            c@.wf(),
    {
        Cpu {
            a: 0,
            x: 0,
            y: 0,
            stack_pointer: STACK_RESET,
            program_counter: 0xC000,
            p: STATUS_RESET,
            status: CpuFlags::from_bits_truncate(STATUS_RESET),
            memory: zeroed(0x10000),
            bus,
        }
    }

    /// Reads the CPU's private 64KB memory.
    pub fn read(&self, addr: u16) -> (r: u8)
        requires
            self@.wf(),
        ensures
            r == self@.memory[addr as int],
    {
        self.memory[addr as usize]
    }

    /// Writes the CPU's private 64KB memory.
    pub fn write(&mut self, addr: u16, data: u8)
        requires
            old(self)@.wf(),
        ensures
            final(self)@.bus.same_clock(old(self)@.bus),
            final(self)@ == (CpuState { memory: old(self)@.memory.update(addr as int, data), ..old(self)@ }),
            final(self)@.wf(),
    {
        self.memory.set(addr as usize, data);
    }

    pub fn set_flag(&mut self, flag: FLAGS6502, value: bool)
        ensures
            final(self)@.bus.same_clock(old(self)@.bus),
            final(self)@ == old(self)@.with_p(with_bits(old(self)@.p, flag.spec_mask(), value)),
    {
        let m = flag.mask();
        self.p = set_bits(self.p, m, value);
    }

    pub fn get_flag(&self, flag: FLAGS6502) -> (r: bool)
        ensures
            r == self@.flag(flag.spec_mask()),
    {
        (self.p & flag.mask()) != 0
    }

    fn mem_read(&mut self, pos: u16) -> (r: u8)
        requires
            old(self)@.wf(),
            !old(self)@.bus.read_faults(pos),
        ensures
            final(self)@.bus.same_clock(old(self)@.bus),
            final(self)@.wf(),
            (final(self)@, r) == old(self)@.read(pos),
    {
        self.bus.read(pos)
    }

    fn mem_read_u16(&mut self, pos: u16) -> (r: u16)
        requires
            old(self)@.wf(),
            !old(self)@.bus.read_faults(pos),
            !old(self)@.bus.read(pos).0.read_faults(pos.wrapping_add(1)),
        ensures
            final(self)@.bus.same_clock(old(self)@.bus),
            final(self)@.wf(),
            final(self)@ == (CpuState { bus: old(self)@.bus.read_u16(pos).0, ..old(self)@ }),
            r == old(self)@.bus.read_u16(pos).1,
    {
        self.bus.read_u16(pos)
    }

    fn mem_write(&mut self, pos: u16, data: u8)
        requires
            old(self)@.wf(),
            !old(self)@.bus.write_faults(pos, data),
        ensures
            final(self)@.bus.same_clock(old(self)@.bus),
            final(self)@.wf(),
            final(self)@ == old(self)@.write(pos, data),
    {
        self.bus.write(pos, data);
    }

    fn bus_read(&mut self, addr: u16) -> (r: Result<u8, BusFault>)
        requires
            old(self)@.wf(),
        ensures
            final(self)@.bus.same_clock(old(self)@.bus),
            final(self)@.wf(),
            match r {
                Ok(v) => (final(self)@, v) == old(self)@.read(addr),
                Err(_) => old(self)@.read(addr).0.fault(),
            },
    {
        self.bus.try_read(addr)
    }

    fn bus_write(&mut self, addr: u16, data: u8) -> (r: Result<(), BusFault>)
        requires
            old(self)@.wf(),
        ensures
            final(self)@.bus.same_clock(old(self)@.bus),
            final(self)@.wf(),
            match r {
                Ok(_) => final(self)@ == old(self)@.write(addr, data),
                Err(_) => old(self)@.write(addr, data).fault(),
            },
    {
        self.bus.try_write(addr, data)
    }

    fn stack_push(&mut self, data: u8)
        requires
            old(self)@.wf(),
        ensures
            final(self)@.bus.same_clock(old(self)@.bus),
            final(self)@.wf(),
            final(self)@ == old(self)@.push(data),
    {
        self.mem_write(STACK + self.stack_pointer as u16, data);
        self.stack_pointer = self.stack_pointer.wrapping_sub(1);
    }

    fn stack_pop(&mut self) -> (r: u8)
        requires
            old(self)@.wf(),
        ensures
            final(self)@.bus.same_clock(old(self)@.bus),
            final(self)@.wf(),
            (final(self)@, r) == old(self)@.pop(),
    {
        self.stack_pointer = self.stack_pointer.wrapping_add(1);
        self.mem_read(STACK + self.stack_pointer as u16)
    }

    fn stack_push_u16(&mut self, data: u16)
        requires
            old(self)@.wf(),
        ensures
            final(self)@.bus.same_clock(old(self)@.bus),
            final(self)@.wf(),
            final(self)@ == old(self)@.push((data >> 8u16) as u8).push((data & 0xff) as u8),
    {
        let hi = (data >> 8u16) as u8;
        let lo = (data & 0xff) as u8;
        self.stack_push(hi);
        self.stack_push(lo);
    }

    fn stack_pop_u16(&mut self) -> (r: u16)
        requires
            old(self)@.wf(),
        ensures
            final(self)@.bus.same_clock(old(self)@.bus),
            final(self)@.wf(),
            final(self)@ == old(self)@.pop().0.pop().0,
            r == word(old(self)@.pop().1, old(self)@.pop().0.pop().1),
    {
        let lo = self.stack_pop();
        let hi = self.stack_pop();
        make_word(lo, hi)
    }

    fn reg_value(&self, r: &Reg) -> (v: u8)
        ensures
            v == self@.reg(*r),
    {
        match r {
            Reg::A => self.a,
            Reg::X => self.x,
            Reg::Y => self.y,
            Reg::SP => self.stack_pointer,
        }
    }

    fn set_reg(&mut self, r: &Reg, v: u8)
        ensures
            final(self)@.bus.same_clock(old(self)@.bus),
            final(self)@ == old(self)@.with_reg(*r, v),
    {
        match r {
            Reg::A => self.a = v,
            Reg::X => self.x = v,
            Reg::Y => self.y = v,
            Reg::SP => self.stack_pointer = v,
        }
    }

    fn interrupt_nmi(&mut self) -> (r: Result<bool, BusFault>)
        requires
            old(self)@.wf(),
        ensures
            final(self)@.wf(),
            match r {
                Ok(new_frame) => (final(self)@, new_frame) == old(self)@.nmi() && (!new_frame
                    ==> final(self)@.bus.ppu.frame_position() == old(self)@.bus.ppu.frame_position() + 6),
                Err(_) => old(self)@.nmi().0.fault(),
            },
    {
        self.stack_push_u16(self.program_counter);
        let mut flag = CpuFlags { bits: self.p };
        flag.set(CPU_FLAG_BREAK, false);
        flag.set(CPU_FLAG_BREAK2, true);
        self.stack_push(flag.bits());
        self.p = self.p | CPU_FLAG_INTERRUPT_DISABLE;
        proof {
            lemma_tick_advances(self@.bus.ppu, 6);
        }
        let new_frame = self.bus.tick(2);
        if self.bus.prg_rom.len() == 0 {
            return Err(BusFault { addr: NMI_VECTOR });
        }
        self.program_counter = self.mem_read_u16(NMI_VECTOR);
        Ok(new_frame)
    }

    /// Puts the CPU in its reset state and jumps through the reset vector,
    /// which the cartridge's PRG ROM holds.
    pub fn reset(&mut self)
        requires
            old(self)@.wf(),
            old(self)@.bus.prg_rom.len() > 0,
        ensures
            final(self)@.wf(),
            final(self)@ == old(self)@.reset(),
    {
        self.a = 0;
        self.x = 0;
        self.y = 0;
        self.stack_pointer = STACK_RESET;
        self.p = STATUS_RESET;
        self.status = CpuFlags::from_bits_truncate(STATUS_RESET);
        self.program_counter = self.mem_read_u16(RESET_VECTOR);
    }

    /// Takes a pending NMI, then fetches, executes and times one instruction.
    /// Returns whether the PPU finished a frame meanwhile and the opcode
    /// fetched if the CPU does not implement it; `Err` reports an access with
    /// no defined meaning.
    pub fn step(&mut self) -> (r: Result<Step, BusFault>)
        requires
            old(self)@.wf(),
        ensures
            final(self)@.wf(),
            match r {
                Ok(st) => (final(self)@, st.frame) == old(self)@.step()
                    && st.unknown_opcode == (if spec_decode(old(self)@.fetched_opcode()).instr is Unknown {
                        Some(old(self)@.fetched_opcode())
                    } else {
                        None
                    })
                    && (!st.frame ==> final(self)@.bus.ppu.frame_position()
                        > old(self)@.bus.ppu.frame_position()),
                Err(_) => old(self)@.step().0.fault(),
            },
    {
        proof {
            reveal(CpuState::step);
        }
        let mut frame = false;
        if let Some(_nmi) = self.bus.poll_nmi_status() {
            let ghost s0 = self@;
            match self.interrupt_nmi() {
                Ok(f) => {
                    frame = f;
                },
                Err(e) => {
                    proof {
                        let s1 = s0.nmi().0;
                        let (s2, op) = s1.read(s1.pc);
                        lemma_execute_keeps_fault(s2.next_pc(), op);
                    }
                    return Err(e);
                },
            }
        }
        let ghost s1 = self@;
        let opcode = match self.bus_read(self.program_counter) {
            Ok(v) => v,
            Err(e) => {
                proof {
                    let (s2, op) = s1.read(s1.pc);
                    lemma_execute_keeps_fault(s2.next_pc(), op);
                }
                return Err(e);
            },
        };
        self.program_counter = self.program_counter.wrapping_add(1);
        let op = decode(opcode);
        let unknown_opcode = match op.instr {
            Instr::Unknown => Some(opcode),
            _ => None,
        };
        let cycles = self.execute_op(op)?;
        proof {
            lemma_tick_advances(self@.bus.ppu, (cycles * 3) as u8);
        }
        let f2 = self.bus.tick(cycles);
        Ok(Step { frame: frame || f2, unknown_opcode })
    }

    /// Runs instructions until the PPU finishes a frame.
    pub fn run(&mut self) -> (r: Result<(), BusFault>)
        requires
            old(self)@.wf(),
        ensures
            final(self)@.wf(),
            match r {
                Ok(_) => exists|n: nat| #[trigger] old(self)@.run_steps(n) == (final(self)@, true),
                Err(_) => exists|n: nat| (#[trigger] old(self)@.run_steps(n)).0.fault(),
            },
    {
        let ghost start = self@;
        let ghost mut n: nat = 0;
        loop
            invariant
                self@.wf(),
                start == old(self)@,
                start.run_steps(n) == (self@, false),
                !self@.fault(),
            decreases SCANLINES_PER_FRAME * CYCLES_PER_SCANLINE - self@.bus.ppu.frame_position(),
        {
            let r = self.step();
            match r {
                Ok(st) => {
                    proof {
                        n = n + 1;
                    }
                    if st.frame {
                        assert(old(self)@.run_steps(n) == (self@, true));
                        return Ok(());
                    }
                },
                Err(e) => {
                    assert(old(self)@.run_steps(n + 1).0.fault());
                    return Err(e);
                },
            }
        }
    }

    fn operand_addr(&mut self, mode: &Mode) -> (r: Result<u16, BusFault>)
        requires
            old(self)@.wf(),
        ensures
            final(self)@.bus.same_clock(old(self)@.bus),
            final(self)@.wf(),
            match r {
                Ok(a) => (final(self)@, a) == old(self)@.operand_addr(*mode),
                Err(_) => old(self)@.operand_addr(*mode).0.fault(),
            },
    {
        match mode {
            Mode::Immediate => {
                let a = self.program_counter;
                self.program_counter = self.program_counter.wrapping_add(1);
                Ok(a)
            },
            Mode::ZeroPage => {
                let z = self.bus_read(self.program_counter)?;
                self.program_counter = self.program_counter.wrapping_add(1);
                Ok(z as u16)
            },
            Mode::ZeroPageX => {
                let z = self.bus_read(self.program_counter)?.wrapping_add(self.x);
                self.program_counter = self.program_counter.wrapping_add(1);
                Ok(z as u16)
            },
            Mode::ZeroPageY => {
                let z = self.bus_read(self.program_counter)?.wrapping_add(self.y);
                self.program_counter = self.program_counter.wrapping_add(1);
                Ok(z as u16)
            },
            Mode::Absolute => {
                let lo = self.bus_read(self.program_counter)?;
                self.program_counter = self.program_counter.wrapping_add(1);
                let hi = self.bus_read(self.program_counter)?;
                self.program_counter = self.program_counter.wrapping_add(1);
                Ok(make_word(lo, hi))
            },
            Mode::AbsoluteX => {
                let lo = self.bus_read(self.program_counter)?;
                self.program_counter = self.program_counter.wrapping_add(1);
                let hi = self.bus_read(self.program_counter)?;
                self.program_counter = self.program_counter.wrapping_add(1);
                Ok(make_word(lo, hi).wrapping_add(self.x as u16))
            },
            Mode::AbsoluteY => {
                let lo = self.bus_read(self.program_counter)?;
                self.program_counter = self.program_counter.wrapping_add(1);
                let hi = self.bus_read(self.program_counter)?;
                self.program_counter = self.program_counter.wrapping_add(1);
                Ok(make_word(lo, hi).wrapping_add(self.y as u16))
            },
            Mode::IndirectX => {
                let zp = self.bus_read(self.program_counter)?;
                self.program_counter = self.program_counter.wrapping_add(1);
                let lo = self.bus_read(zp.wrapping_add(self.x) as u16)?;
                let hi = self.bus_read(zp.wrapping_add(self.x).wrapping_add(1) as u16)?;
                Ok(make_word(lo, hi))
            },
            Mode::IndirectY => {
                let zp = self.bus_read(self.program_counter)?;
                self.program_counter = self.program_counter.wrapping_add(1);
                let lo = self.bus_read(zp as u16)?;
                let hi = self.bus_read(zp.wrapping_add(1) as u16)?;
                Ok(make_word(lo, hi).wrapping_add(self.y as u16))
            },
            _ => Ok(0),
        }
    }

    fn operand(&mut self, mode: &Mode) -> (r: Result<(u16, u8), BusFault>)
        requires
            old(self)@.wf(),
        ensures
            final(self)@.bus.same_clock(old(self)@.bus),
            final(self)@.wf(),
            match r {
                Ok((a, v)) => (final(self)@, a, v) == old(self)@.operand(*mode),
                Err(_) => old(self)@.operand(*mode).0.fault(),
            },
    {
        let addr = self.operand_addr(mode)?;
        let v = self.bus_read(addr)?;
        Ok((addr, v))
    }

    fn load(&mut self, r: &Reg, mode: &Mode) -> (res: Result<(), BusFault>)
        requires
            old(self)@.wf(),
        ensures
            final(self)@.bus.same_clock(old(self)@.bus),
            final(self)@.wf(),
            match res {
                Ok(_) => final(self)@ == old(self)@.exec_load(*r, *mode),
                Err(_) => old(self)@.exec_load(*r, *mode).fault(),
            },
    {
        proof {
            reveal(CpuState::exec_load);
        }
        let (_, v) = self.operand(mode)?;
        self.set_reg(r, v);
        self.p = update_zn(self.p, v);
        Ok(())
    }

    fn store(&mut self, r: &Reg, mode: &Mode) -> (res: Result<(), BusFault>)
        requires
            old(self)@.wf(),
        ensures
            final(self)@.bus.same_clock(old(self)@.bus),
            final(self)@.wf(),
            match res {
                Ok(_) => final(self)@ == old(self)@.exec_store(*r, *mode),
                Err(_) => old(self)@.exec_store(*r, *mode).fault(),
            },
    {
        proof {
            reveal(CpuState::exec_store);
        }
        let addr = self.operand_addr(mode)?;
        let v = self.reg_value(r);
        self.bus_write(addr, v)
    }

    fn adc(&mut self, mode: &Mode) -> (res: Result<(), BusFault>)
        requires
            old(self)@.wf(),
        ensures
            final(self)@.bus.same_clock(old(self)@.bus),
            final(self)@.wf(),
            match res {
                Ok(_) => final(self)@ == old(self)@.exec_adc(*mode),
                Err(_) => old(self)@.exec_adc(*mode).fault(),
            },
    {
        proof {
            reveal(CpuState::exec_adc);
        }
        let (_, v) = self.operand(mode)?;
        let (a, p) = adc_exec(self.a, v, self.p);
        self.a = a;
        self.p = p;
        Ok(())
    }

    fn sbc(&mut self, mode: &Mode) -> (res: Result<(), BusFault>)
        requires
            old(self)@.wf(),
        ensures
            final(self)@.bus.same_clock(old(self)@.bus),
            final(self)@.wf(),
            match res {
                Ok(_) => final(self)@ == old(self)@.exec_sbc(*mode),
                Err(_) => old(self)@.exec_sbc(*mode).fault(),
            },
    {
        proof {
            reveal(CpuState::exec_sbc);
        }
        let (_, v) = self.operand(mode)?;
        let (a, p) = sbc_exec(self.a, v, self.p);
        self.a = a;
        self.p = p;
        Ok(())
    }

    fn logic(&mut self, op: &LogicOp, mode: &Mode) -> (res: Result<(), BusFault>)
        requires
            old(self)@.wf(),
        ensures
            final(self)@.bus.same_clock(old(self)@.bus),
            final(self)@.wf(),
            match res {
                Ok(_) => final(self)@ == old(self)@.exec_logic(*op, *mode),
                Err(_) => old(self)@.exec_logic(*op, *mode).fault(),
            },
    {
        proof {
            reveal(CpuState::exec_logic);
        }
        let (_, v) = self.operand(mode)?;
        self.a = logic_exec(op, self.a, v);
        self.p = update_zn(self.p, self.a);
        Ok(())
    }

    fn compare(&mut self, r: &Reg, mode: &Mode) -> (res: Result<(), BusFault>)
        requires
            old(self)@.wf(),
        ensures
            final(self)@.bus.same_clock(old(self)@.bus),
            final(self)@.wf(),
            match res {
                Ok(_) => final(self)@ == old(self)@.exec_compare(*r, *mode),
                Err(_) => old(self)@.exec_compare(*r, *mode).fault(),
            },
    {
        proof {
            reveal(CpuState::exec_compare);
        }
        let (_, v) = self.operand(mode)?;
        let rv = self.reg_value(r);
        self.p = compare_exec(rv, v, self.p);
        Ok(())
    }

    fn bit(&mut self, mode: &Mode) -> (res: Result<(), BusFault>)
        requires
            old(self)@.wf(),
        ensures
            final(self)@.bus.same_clock(old(self)@.bus),
            final(self)@.wf(),
            match res {
                Ok(_) => final(self)@ == old(self)@.exec_bit(*mode),
                Err(_) => old(self)@.exec_bit(*mode).fault(),
            },
    {
        proof {
            reveal(CpuState::exec_bit);
        }
        let (_, v) = self.operand(mode)?;
        self.p = bit_exec(self.a, v, self.p);
        Ok(())
    }

    fn jmp(&mut self) -> (res: Result<(), BusFault>)
        requires
            old(self)@.wf(),
        ensures
            final(self)@.bus.same_clock(old(self)@.bus),
            final(self)@.wf(),
            match res {
                Ok(_) => final(self)@ == old(self)@.exec_jmp(),
                Err(_) => old(self)@.exec_jmp().fault(),
            },
    {
        proof {
            reveal(CpuState::exec_jmp);
        }
        let addr = self.operand_addr(&Mode::Absolute)?;
        self.program_counter = addr;
        Ok(())
    }

    fn jmp_indirect(&mut self) -> (res: Result<(), BusFault>)
        requires
            old(self)@.wf(),
        ensures
            final(self)@.bus.same_clock(old(self)@.bus),
            final(self)@.wf(),
            match res {
                Ok(_) => final(self)@ == old(self)@.exec_jmp_indirect(),
                Err(_) => old(self)@.exec_jmp_indirect().fault(),
            },
    {
        proof {
            reveal(CpuState::exec_jmp_indirect);
        }
        let addr = self.operand_addr(&Mode::Absolute)?;
        let lo = self.bus_read(addr)?;
        let hi_addr = if addr & 0xFF == 0xFF {
            addr & 0xFF00
        } else {
            addr.wrapping_add(1)
        };
        let hi = self.bus_read(hi_addr)?;
        self.program_counter = make_word(lo, hi);
        Ok(())
    }

    fn jsr(&mut self) -> (res: Result<(), BusFault>)
        requires
            old(self)@.wf(),
        ensures
            final(self)@.bus.same_clock(old(self)@.bus),
            final(self)@.wf(),
            match res {
                Ok(_) => final(self)@ == old(self)@.exec_jsr(),
                Err(_) => old(self)@.exec_jsr().fault(),
            },
    {
        proof {
            reveal(CpuState::exec_jsr);
        }
        let addr = self.operand_addr(&Mode::Absolute)?;
        let ret_addr = self.program_counter.wrapping_sub(1);
        self.stack_push((ret_addr >> 8u16) as u8);
        self.stack_push((ret_addr & 0xFF) as u8);
        self.program_counter = addr;
        Ok(())
    }

    fn rts(&mut self)
        requires
            old(self)@.wf(),
        ensures
            final(self)@.bus.same_clock(old(self)@.bus),
            final(self)@.wf(),
            final(self)@ == old(self)@.exec_rts(),
    {
        proof {
            reveal(CpuState::exec_rts);
        }
        let lo = self.stack_pop();
        let hi = self.stack_pop();
        self.program_counter = make_word(lo, hi).wrapping_add(1);
    }

    fn rti(&mut self)
        requires
            old(self)@.wf(),
        ensures
            final(self)@.bus.same_clock(old(self)@.bus),
            final(self)@.wf(),
            final(self)@ == old(self)@.exec_rti(),
    {
        proof {
            reveal(CpuState::exec_rti);
        }
        self.p = self.stack_pop() & !FLAG_B;
        let lo = self.stack_pop();
        let hi = self.stack_pop();
        self.program_counter = make_word(lo, hi);
    }

    fn branch(&mut self, mask: u8, set: bool) -> (res: Result<bool, BusFault>)
        requires
            old(self)@.wf(),
        ensures
            final(self)@.bus.same_clock(old(self)@.bus),
            final(self)@.wf(),
            match res {
                Ok(taken) => (final(self)@, taken) == old(self)@.exec_branch(mask, set),
                Err(_) => old(self)@.exec_branch(mask, set).0.fault(),
            },
    {
        proof {
            reveal(CpuState::exec_branch);
        }
        let (_, offset) = self.operand(&Mode::Immediate)?;
        if (self.p & mask != 0) == set {
            self.program_counter = branch_target_exec(self.program_counter, offset);
            Ok(true)
        } else {
            Ok(false)
        }
    }

    fn step_mem(&mut self, up: bool, mode: &Mode) -> (res: Result<(), BusFault>)
        requires
            old(self)@.wf(),
        ensures
            final(self)@.bus.same_clock(old(self)@.bus),
            final(self)@.wf(),
            match res {
                Ok(_) => final(self)@ == old(self)@.exec_step_mem(up, *mode),
                Err(_) => old(self)@.exec_step_mem(up, *mode).fault(),
            },
    {
        proof {
            reveal(CpuState::exec_step_mem);
        }
        let (addr, v) = self.operand(mode)?;
        let r = if up {
            v.wrapping_add(1)
        } else {
            v.wrapping_sub(1)
        };
        self.bus_write(addr, r)?;
        self.p = update_zn(self.p, r);
        Ok(())
    }

    fn step_reg(&mut self, r: &Reg, up: bool)
        requires
            old(self)@.wf(),
        ensures
            final(self)@.bus.same_clock(old(self)@.bus),
            final(self)@.wf(),
            final(self)@ == old(self)@.exec_step_reg(*r, up),
    {
        proof {
            reveal(CpuState::exec_step_reg);
        }
        let v = self.reg_value(r);
        let n = if up {
            v.wrapping_add(1)
        } else {
            v.wrapping_sub(1)
        };
        let p = update_zn(self.p, n);
        self.set_reg(r, n);
        self.p = p;
    }

    fn transfer(&mut self, from: &Reg, to: &Reg)
        requires
            old(self)@.wf(),
        ensures
            final(self)@.bus.same_clock(old(self)@.bus),
            final(self)@.wf(),
            final(self)@ == old(self)@.exec_transfer(*from, *to),
    {
        proof {
            reveal(CpuState::exec_transfer);
        }
        let v = self.reg_value(from);
        let p = update_zn(self.p, v);
        self.set_reg(to, v);
        match to {
            Reg::SP => {},
            _ => self.p = p,
        }
    }

    fn shift(&mut self, op: &ShiftOp, mode: &Mode) -> (res: Result<(), BusFault>)
        requires
            old(self)@.wf(),
        ensures
            final(self)@.bus.same_clock(old(self)@.bus),
            final(self)@.wf(),
            match res {
                Ok(_) => final(self)@ == old(self)@.exec_shift(*op, *mode),
                Err(_) => old(self)@.exec_shift(*op, *mode).fault(),
            },
    {
        proof {
            reveal(CpuState::exec_shift);
        }
        match mode {
            Mode::Accumulator => {
                let (r, p) = shift_exec(op, self.a, self.p);
                self.a = r;
                self.p = p;
                Ok(())
            },
            _ => {
                let (addr, v) = self.operand(mode)?;
                let (r, p) = shift_exec(op, v, self.p);
                self.bus_write(addr, r)?;
                self.p = p;
                Ok(())
            },
        }
    }

    fn brk(&mut self) -> (res: Result<(), BusFault>)
        requires
            old(self)@.wf(),
        ensures
            final(self)@.bus.same_clock(old(self)@.bus),
            final(self)@.wf(),
            match res {
                Ok(_) => final(self)@ == old(self)@.exec_brk(),
                Err(_) => old(self)@.exec_brk().fault(),
            },
    {
        proof {
            reveal(CpuState::exec_brk);
        }
        self.program_counter = self.program_counter.wrapping_add(1);
        let pc = self.program_counter;
        self.stack_push((pc >> 8u16) as u8);
        self.stack_push((pc & 0xFF) as u8);
        self.stack_push(self.p | 0x30);
        self.p = set_bits(self.p, FLAG_I, true);
        let lo = self.bus_read(IRQ_VECTOR)?;
        let hi = self.bus_read(0xFFFF)?;
        self.program_counter = make_word(lo, hi);
        Ok(())
    }

    fn pha(&mut self)
        requires
            old(self)@.wf(),
        ensures
            final(self)@.bus.same_clock(old(self)@.bus),
            final(self)@.wf(),
            final(self)@ == old(self)@.exec_pha(),
    {
        proof {
            reveal(CpuState::exec_pha);
        }
        self.stack_push(self.a);
    }

    fn pla(&mut self)
        requires
            old(self)@.wf(),
        ensures
            final(self)@.bus.same_clock(old(self)@.bus),
            final(self)@.wf(),
            final(self)@ == old(self)@.exec_pla(),
    {
        proof {
            reveal(CpuState::exec_pla);
        }
        let v = self.stack_pop();
        self.a = v;
        self.p = update_zn(self.p, v);
    }

    fn php(&mut self)
        requires
            old(self)@.wf(),
        ensures
            final(self)@.bus.same_clock(old(self)@.bus),
            final(self)@.wf(),
            final(self)@ == old(self)@.exec_php(),
    {
        proof {
            reveal(CpuState::exec_php);
        }
        self.stack_push(self.p | FLAG_B);
    }

    fn plp(&mut self)
        requires
            old(self)@.wf(),
        ensures
            final(self)@.bus.same_clock(old(self)@.bus),
            final(self)@.wf(),
            final(self)@ == old(self)@.exec_plp(),
    {
        proof {
            reveal(CpuState::exec_plp);
        }
        let v = self.stack_pop();
        self.p = v & !FLAG_B;
    }

    fn nop(&mut self, mode: &Mode)
        requires
            old(self)@.wf(),
        ensures
            final(self)@.bus.same_clock(old(self)@.bus),
            final(self)@.wf(),
            final(self)@ == old(self)@.exec_nop(*mode),
    {
        proof {
            reveal(CpuState::exec_nop);
        }
        match mode {
            Mode::Immediate => {
                self.program_counter = self.program_counter.wrapping_add(1);
            },
            _ => {},
        }
    }

    /// Executes the instruction `opcode`, whose operands follow at the
    /// program counter, and returns the CPU cycles it took. `Err` reports an
    /// access with no defined meaning, at which the instruction stops.
    pub fn execute(&mut self, opcode: u8) -> (r: Result<u8, BusFault>)
        requires
            old(self)@.wf(),
        ensures
            final(self)@.bus.same_clock(old(self)@.bus),
            final(self)@.wf(),
            match r {
                Ok(c) => (final(self)@, c) == old(self)@.execute(opcode) && 2 <= c <= 8,
                Err(_) => old(self)@.execute(opcode).0.fault(),
            },
    {
        let op = decode(opcode);
        self.execute_op(op)
    }

    fn execute_op(&mut self, op: Opcode) -> (r: Result<u8, BusFault>)
        requires
            old(self)@.wf(),
            2 <= op.cycles <= 7,
            op.instr is Branch ==> op.cycles == 2,
        ensures
            final(self)@.bus.same_clock(old(self)@.bus),
            final(self)@.wf(),
            match r {
                Ok(c) => (final(self)@, c) == old(self)@.execute_op(op) && 2 <= c <= 8,
                Err(_) => old(self)@.execute_op(op).0.fault(),
            },
    {
        if in_group_0_exec(&op.instr) {
            self.execute_group_0(op)
        } else if in_group_1_exec(&op.instr) {
            self.execute_group_1(op)
        } else {
            self.execute_group_2(op)
        }
    }

    #[verifier::spinoff_prover]
    fn execute_group_0(&mut self, op: Opcode) -> (r: Result<u8, BusFault>)
        requires
            old(self)@.wf(),
            in_group_0(op.instr),
            2 <= op.cycles <= 7,
            op.instr is Branch ==> op.cycles == 2,
        ensures
            final(self)@.bus.same_clock(old(self)@.bus),
            final(self)@.wf(),
            match r {
                Ok(c) => (final(self)@, c) == old(self)@.execute_op(op) && 2 <= c <= 8,
                Err(_) => old(self)@.execute_op(op).0.fault(),
            },
    {
        match op.instr {
            Instr::Brk => {
                self.brk()?;
            },
            Instr::Load(r) => {
                self.load(&r, &op.mode)?;
            },
            Instr::Store(r) => {
                self.store(&r, &op.mode)?;
            },
            Instr::Adc => {
                self.adc(&op.mode)?;
            },
            Instr::Sbc => {
                self.sbc(&op.mode)?;
            },
            Instr::Logic(l) => {
                self.logic(&l, &op.mode)?;
            },
            Instr::Compare(r) => {
                self.compare(&r, &op.mode)?;
            },
            Instr::Bit => {
                self.bit(&op.mode)?;
            },
            Instr::Jmp => {
                self.jmp()?;
            },
            _ => {},
        }
        Ok(op.cycles)
    }

    #[verifier::spinoff_prover]
    fn execute_group_1(&mut self, op: Opcode) -> (r: Result<u8, BusFault>)
        requires
            old(self)@.wf(),
            in_group_1(op.instr),
            2 <= op.cycles <= 7,
            op.instr is Branch ==> op.cycles == 2,
        ensures
            final(self)@.bus.same_clock(old(self)@.bus),
            final(self)@.wf(),
            match r {
                Ok(c) => (final(self)@, c) == old(self)@.execute_op(op) && 2 <= c <= 8,
                Err(_) => old(self)@.execute_op(op).0.fault(),
            },
    {
        match op.instr {
            Instr::JmpIndirect => {
                self.jmp_indirect()?;
            },
            Instr::Jsr => {
                self.jsr()?;
            },
            Instr::Rts => {
                self.rts();
            },
            Instr::Rti => {
                self.rti();
            },
            Instr::Branch(mask, set) => {
                let taken = self.branch(mask, set)?;
                if taken {
                    return Ok(op.cycles + 1);
                }
            },
            Instr::Inc => {
                self.step_mem(true, &op.mode)?;
            },
            Instr::Dec => {
                self.step_mem(false, &op.mode)?;
            },
            Instr::IncReg(r) => {
                self.step_reg(&r, true);
            },
            Instr::DecReg(r) => {
                self.step_reg(&r, false);
            },
            _ => {},
        }
        Ok(op.cycles)
    }

    #[verifier::spinoff_prover]
    fn execute_group_2(&mut self, op: Opcode) -> (r: Result<u8, BusFault>)
        requires
            old(self)@.wf(),
            in_group_2(op.instr),
            2 <= op.cycles <= 7,
            op.instr is Branch ==> op.cycles == 2,
        ensures
            final(self)@.bus.same_clock(old(self)@.bus),
            final(self)@.wf(),
            match r {
                Ok(c) => (final(self)@, c) == old(self)@.execute_op(op) && 2 <= c <= 8,
                Err(_) => old(self)@.execute_op(op).0.fault(),
            },
    {
        match op.instr {
            Instr::Pha => {
                self.pha();
            },
            Instr::Pla => {
                self.pla();
            },
            Instr::Php => {
                self.php();
            },
            Instr::Plp => {
                self.plp();
            },
            Instr::Transfer(from, to) => {
                self.transfer(&from, &to);
            },
            Instr::Shift(s) => {
                self.shift(&s, &op.mode)?;
            },
            Instr::Nop => {
                self.nop(&op.mode);
            },
            Instr::SetFlag(mask, v) => {
                self.p = set_bits(self.p, mask, v);
            },
            _ => {},
        }
        Ok(op.cycles)
    }
}

} // verus!
