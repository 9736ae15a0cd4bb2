//! The instruction set: the dispatch tables from opcode to operation and
//! cycle cost.

use vstd::prelude::*;

verus! {

/// One operation of the instruction set. Register operands are numbered as
/// in the opcodes: 8-bit B, C, D, E, H, L, (HL), A are 0 to 7; 16-bit BC,
/// DE, HL, SP (AF for PUSH and POP) are 0 to 3; conditions NZ, Z, NC, C are
/// 0 to 3.
#[derive(Clone, Copy, PartialEq, Eq, Structural, Debug)]
pub enum Op {
    Nop,
    Stop,
    Halt,
    Di,
    Ei,
    /// Loads a 16-bit immediate into a register pair.
    LdR16Imm(u8),
    /// Stores A at (BC), (DE), (HL+) or (HL-).
    StoreA(u8),
    /// Loads A from (BC), (DE), (HL+) or (HL-).
    LoadA(u8),
    IncR16(u8),
    DecR16(u8),
    IncR8(u8),
    DecR8(u8),
    LdR8Imm(u8),
    /// Copies the second register into the first.
    LdR8(u8, u8),
    /// ADD, ADC, SUB, SBC, AND, XOR, OR or CP (0 to 7) of A and a register.
    Alu(u8, u8),
    /// The same with an immediate byte.
    AluImm(u8),
    Jp,
    JpCond(u8),
    JpHl,
    Jr,
    JrCond(u8),
    Call,
    CallCond(u8),
    Ret,
    RetCond(u8),
    Reti,
    Rst(u8),
    Push(u8),
    Pop(u8),
    /// Stores A at 0xff00 plus an immediate byte.
    LdhStore,
    /// Loads A from 0xff00 plus an immediate byte.
    LdhLoad,
    /// Stores A at 0xff00 plus C.
    LdcStore,
    /// Loads A from 0xff00 plus C.
    LdcLoad,
    /// Stores A at an immediate address.
    StoreAbs,
    /// Loads A from an immediate address.
    LoadAbs,
    Cpl,
    Scf,
    Ccf,
    /// Tests a bit of a register.
    TestBit(u8, u8),
    /// Clears a bit of a register.
    ResetBit(u8, u8),
    /// Sets a bit of a register.
    SetBit(u8, u8),
    /// An opcode without a handler: it runs as a no-op.
    Unimplemented,
}

/// An operation and the cycles it takes (a taken branch adds its own).
#[derive(Clone, Copy, PartialEq, Eq, Structural, Debug)]
pub struct Instruction {
    pub op: Op,
    pub cycles: u8,
}

impl Op {
    /// Every register, pair, condition and bit number is in range.
    pub open spec fn wf(&self) -> bool {
        match *self {
            Op::LdR16Imm(r) | Op::StoreA(r) | Op::LoadA(r) | Op::IncR16(r) | Op::DecR16(r) | Op::Push(r) | Op::Pop(r)
            | Op::JpCond(r) | Op::JrCond(r) | Op::CallCond(r) | Op::RetCond(r) => r < 4,
            Op::IncR8(r) | Op::DecR8(r) | Op::LdR8Imm(r) => r < 8,
            Op::LdR8(d, s) => d < 8 && s < 8,
            Op::Alu(o, r) => o < 8 && r < 8,
            Op::AluImm(o) => o < 8,
            Op::Rst(n) => n < 8,
            Op::TestBit(b, r) | Op::ResetBit(b, r) | Op::SetBit(b, r) => b < 8 && r < 8,
            _ => true,
        }
    }
}

impl Op {
    /// The mnemonic of the operation; an opcode without a handler is
    /// tagged "! UNIMP !".
    pub fn mnemonic(&self) -> (r: &'static str)
        ensures
            *self == Op::Unimplemented ==> r@ == "! UNIMP !"@,
            *self == Op::Halt ==> r@ == "HALT"@,
    {
        match *self {
            Op::Nop => "NOP",
            Op::Stop => "STOP",
            Op::Halt => "HALT",
            Op::Di => "DI",
            Op::Ei => "EI",
            Op::LdR16Imm(_) => "LD rr, d16",
            Op::StoreA(_) => "LD (rr), A",
            Op::LoadA(_) => "LD A, (rr)",
            Op::IncR16(_) => "INC rr",
            Op::DecR16(_) => "DEC rr",
            Op::IncR8(_) => "INC r",
            Op::DecR8(_) => "DEC r",
            Op::LdR8Imm(_) => "LD r, d8",
            Op::LdR8(_, _) => "LD r, r",
            Op::Alu(_, _) => "ALU A, r",
            Op::AluImm(_) => "ALU A, d8",
            Op::Jp => "JP a16",
            Op::JpCond(_) => "JP cc, a16",
            Op::JpHl => "JP HL",
            Op::Jr => "JR r8",
            Op::JrCond(_) => "JR cc, r8",
            Op::Call => "CALL a16",
            Op::CallCond(_) => "CALL cc, a16",
            Op::Ret => "RET",
            Op::RetCond(_) => "RET cc",
            Op::Reti => "RETI",
            Op::Rst(_) => "RST n",
            Op::Push(_) => "PUSH rr",
            Op::Pop(_) => "POP rr",
            Op::LdhStore => "LDH (a8), A",
            Op::LdhLoad => "LDH A, (a8)",
            Op::LdcStore => "LD (C), A",
            Op::LdcLoad => "LD A, (C)",
            Op::StoreAbs => "LD (a16), A",
            Op::LoadAbs => "LD A, (a16)",
            Op::Cpl => "CPL",
            Op::Scf => "SCF",
            Op::Ccf => "CCF",
            Op::TestBit(_, _) => "BIT b, r",
            Op::ResetBit(_, _) => "RES b, r",
            Op::SetBit(_, _) => "SET b, r",
            Op::Unimplemented => "! UNIMP !",
        }
    }
}

fn inst(op: Op, cycles: u8) -> (r: Instruction)
    ensures
        r == (Instruction { op, cycles }),
{
    Instruction { op, cycles }
}

/// What the table gives for a one-byte opcode.
pub open spec fn decodes(opcode: u8, r: Instruction) -> bool {
    &&& r.op.wf()
    &&& (opcode == 0x00 ==> r == (Instruction { op: Op::Nop, cycles: 4 }))
    &&& (opcode == 0x10 ==> r.op == Op::Stop)
    &&& (opcode == 0x76 ==> r.op == Op::Halt)
    &&& (opcode & 0xcf == 0x01 ==> r == (Instruction { op: Op::LdR16Imm(opcode >> 4), cycles: 12 }))
    &&& (opcode & 0xcf == 0x02 ==> r == (Instruction { op: Op::StoreA(opcode >> 4), cycles: 8 }))
    &&& (opcode & 0xcf == 0x0a ==> r == (Instruction { op: Op::LoadA(opcode >> 4), cycles: 8 }))
    &&& (opcode & 0xc7 == 0x06 ==> r.op == Op::LdR8Imm((opcode >> 3) & 7))
    &&& (0x40 <= opcode < 0x80 && opcode != 0x76 ==> r.op == Op::LdR8((opcode >> 3) & 7, opcode & 7))
    &&& (0x80 <= opcode < 0xc0 ==> r.op == Op::Alu((opcode >> 3) & 7, opcode & 7))
    &&& (opcode & 0xcf == 0x03 ==> r == (Instruction { op: Op::IncR16(opcode >> 4), cycles: 8 }))
    &&& (opcode & 0xcf == 0x0b ==> r == (Instruction { op: Op::DecR16(opcode >> 4), cycles: 8 }))
    &&& (opcode < 0x40 && opcode & 0x07 == 0x04 ==> r.op == Op::IncR8((opcode >> 3) & 7))
    &&& (opcode < 0x40 && opcode & 0x07 == 0x05 ==> r.op == Op::DecR8((opcode >> 3) & 7))
    &&& (opcode == 0x18 ==> r == (Instruction { op: Op::Jr, cycles: 12 }))
    &&& (opcode == 0x20 || opcode == 0x28 || opcode == 0x30 || opcode == 0x38 ==> r == (Instruction {
        op: Op::JrCond((opcode >> 3) & 3),
        cycles: 8,
    }))
    &&& (opcode == 0x2f ==> r.op == Op::Cpl)
    &&& (opcode == 0x37 ==> r.op == Op::Scf)
    &&& (opcode == 0x3f ==> r.op == Op::Ccf)
    &&& (opcode >= 0xc0 ==> decodes_high(opcode, r))
}

/// What the table gives for an opcode from 0xc0 up.
pub open spec fn decodes_high(opcode: u8, r: Instruction) -> bool {
    &&& (opcode == 0xc3 ==> r == (Instruction { op: Op::Jp, cycles: 16 }))
    &&& (opcode == 0xc2 || opcode == 0xca || opcode == 0xd2 || opcode == 0xda ==> r == (Instruction {
        op: Op::JpCond((opcode >> 3) & 3),
        cycles: 12,
    }))
    &&& (opcode == 0xe9 ==> r == (Instruction { op: Op::JpHl, cycles: 4 }))
    &&& (opcode == 0xcd ==> r == (Instruction { op: Op::Call, cycles: 24 }))
    &&& (opcode == 0xc4 || opcode == 0xcc || opcode == 0xd4 || opcode == 0xdc ==> r == (Instruction {
        op: Op::CallCond((opcode >> 3) & 3),
        cycles: 12,
    }))
    &&& (opcode == 0xc9 ==> r == (Instruction { op: Op::Ret, cycles: 16 }))
    &&& (opcode == 0xc0 || opcode == 0xc8 || opcode == 0xd0 || opcode == 0xd8 ==> r == (Instruction {
        op: Op::RetCond((opcode >> 3) & 3),
        cycles: 8,
    }))
    &&& (opcode == 0xd9 ==> r == (Instruction { op: Op::Reti, cycles: 16 }))
    &&& (opcode & 0x07 == 0x07 ==> r == (Instruction { op: Op::Rst((opcode >> 3) & 7), cycles: 16 }))
    &&& (opcode & 0x0f == 0x05 ==> r == (Instruction { op: Op::Push((opcode >> 4) & 3), cycles: 16 }))
    &&& (opcode & 0x0f == 0x01 ==> r == (Instruction { op: Op::Pop((opcode >> 4) & 3), cycles: 12 }))
    &&& (opcode & 0x07 == 0x06 ==> r == (Instruction { op: Op::AluImm((opcode >> 3) & 7), cycles: 8 }))
    &&& (opcode == 0xe0 ==> r == (Instruction { op: Op::LdhStore, cycles: 12 }))
    &&& (opcode == 0xf0 ==> r == (Instruction { op: Op::LdhLoad, cycles: 12 }))
    &&& (opcode == 0xe2 ==> r == (Instruction { op: Op::LdcStore, cycles: 8 }))
    &&& (opcode == 0xf2 ==> r == (Instruction { op: Op::LdcLoad, cycles: 8 }))
    &&& (opcode == 0xea ==> r == (Instruction { op: Op::StoreAbs, cycles: 16 }))
    &&& (opcode == 0xfa ==> r == (Instruction { op: Op::LoadAbs, cycles: 16 }))
    &&& (opcode == 0xf3 ==> r == (Instruction { op: Op::Di, cycles: 4 }))
    &&& (opcode == 0xfb ==> r == (Instruction { op: Op::Ei, cycles: 4 }))
}

/// What the table gives for an extended opcode.
pub open spec fn decodes_extended(opcode: u8, r: Instruction) -> bool {
    &&& r.op.wf()
    &&& (0x40 <= opcode < 0x80 ==> r.op == Op::TestBit((opcode >> 3) & 7, opcode & 7))
    &&& (0x80 <= opcode < 0xc0 ==> r.op == Op::ResetBit((opcode >> 3) & 7, opcode & 7))
    &&& (0xc0 <= opcode ==> r.op == Op::SetBit((opcode >> 3) & 7, opcode & 7))
}

/// The instruction of a one-byte opcode.
pub fn decode(opcode: u8) -> (r: Instruction)
    ensures
        decodes(opcode, r),
        r.op.wf(),
        opcode == 0x00 ==> r == (Instruction { op: Op::Nop, cycles: 4 }),
        opcode == 0x10 ==> r.op == Op::Stop,
        opcode == 0x76 ==> r.op == Op::Halt,
        opcode & 0xcf == 0x01 ==> r == (Instruction { op: Op::LdR16Imm(opcode >> 4), cycles: 12 }),
        opcode & 0xcf == 0x02 ==> r == (Instruction { op: Op::StoreA(opcode >> 4), cycles: 8 }),
        opcode & 0xcf == 0x0a ==> r == (Instruction { op: Op::LoadA(opcode >> 4), cycles: 8 }),
        opcode & 0xc7 == 0x06 ==> r.op == Op::LdR8Imm((opcode >> 3) & 7),
        0x40 <= opcode < 0x80 && opcode != 0x76 ==> r.op == Op::LdR8((opcode >> 3) & 7, opcode & 7),
        0x80 <= opcode < 0xc0 ==> r.op == Op::Alu((opcode >> 3) & 7, opcode & 7),
{
    let hi = opcode >> 4;
    let r8 = (opcode >> 3) & 7;
    let lo8 = opcode & 7;
    assert(hi < 16 && r8 < 8 && lo8 < 8) by (bit_vector)
        requires
            hi == opcode >> 4,
            r8 == (opcode >> 3) & 7,
            lo8 == opcode & 7,
    ;
    assert((opcode & 0xcf == 0x01 || opcode & 0xcf == 0x02 || opcode & 0xcf == 0x0a || opcode & 0xc7 == 0x06 || opcode
        & 0xcf == 0x03 || opcode & 0xcf == 0x0b) ==> (opcode < 0x40 && opcode != 0 && opcode != 0x10)) by (bit_vector);
    assert((opcode < 0x40 && (opcode & 0x07 == 0x04 || opcode & 0x07 == 0x05)) ==> (opcode != 0 && opcode != 0x10))
        by (bit_vector);
    if opcode == 0x00 {
        inst(Op::Nop, 4)
    } else if opcode == 0x10 {
        inst(Op::Stop, 4)
    } else if opcode == 0x76 {
        inst(Op::Halt, 4)
    } else if opcode < 0x40 {
        decode_low(opcode)
    } else if opcode < 0x80 {
        inst(Op::LdR8(r8, lo8), if r8 == 6 || lo8 == 6 { 8 } else { 4 })
    } else if opcode < 0xc0 {
        inst(Op::Alu(r8, lo8), if lo8 == 6 { 8 } else { 4 })
    } else {
        decode_high(opcode)
    }
}

/// Opcodes 0x00 to 0x3f.
fn decode_low(opcode: u8) -> (r: Instruction)
    requires
        opcode < 0x40,
        opcode != 0x00,
        opcode != 0x10,
    ensures
        r.op.wf(),
        opcode & 0xcf == 0x01 ==> r == (Instruction { op: Op::LdR16Imm(opcode >> 4), cycles: 12 }),
        opcode & 0xcf == 0x02 ==> r == (Instruction { op: Op::StoreA(opcode >> 4), cycles: 8 }),
        opcode & 0xcf == 0x0a ==> r == (Instruction { op: Op::LoadA(opcode >> 4), cycles: 8 }),
        opcode & 0xc7 == 0x06 ==> r.op == Op::LdR8Imm((opcode >> 3) & 7),
        opcode & 0xcf == 0x03 ==> r == (Instruction { op: Op::IncR16(opcode >> 4), cycles: 8 }),
        opcode & 0xcf == 0x0b ==> r == (Instruction { op: Op::DecR16(opcode >> 4), cycles: 8 }),
        opcode & 0x07 == 0x04 ==> r.op == Op::IncR8((opcode >> 3) & 7),
        opcode & 0x07 == 0x05 ==> r.op == Op::DecR8((opcode >> 3) & 7),
        opcode == 0x18 ==> r == (Instruction { op: Op::Jr, cycles: 12 }),
        opcode == 0x20 || opcode == 0x28 || opcode == 0x30 || opcode == 0x38 ==> r == (Instruction {
            op: Op::JrCond((opcode >> 3) & 3),
            cycles: 8,
        }),
        opcode == 0x2f ==> r.op == Op::Cpl,
        opcode == 0x37 ==> r.op == Op::Scf,
        opcode == 0x3f ==> r.op == Op::Ccf,
{
    let hi = opcode >> 4;
    let r8 = (opcode >> 3) & 7;
    assert(hi < 4 && r8 < 8) by (bit_vector)
        requires
            opcode < 0x40,
            hi == opcode >> 4,
            r8 == (opcode >> 3) & 7,
    ;
    let low = opcode & 0x0f;
    let col = opcode & 0x07;
    assert((opcode & 0xcf == 0x01 <==> low == 0x01) && (opcode & 0xcf == 0x02 <==> low == 0x02) && (opcode & 0xcf
        == 0x0a <==> low == 0x0a) && (opcode & 0xc7 == 0x06 <==> col == 0x06)) by (bit_vector)
        requires
            opcode < 0x40,
            low == opcode & 0x0f,
            col == opcode & 0x07,
    ;
    assert((low == 1 ==> col == 1) && (low == 2 ==> col == 2) && (low == 0xa ==> col == 2) && (low == 3 ==> col == 3)
        && (low == 0xb ==> col == 3) && ((opcode >> 3) & 3) < 4) by (bit_vector)
        requires
            low == opcode & 0x0f,
            col == opcode & 0x07,
    ;
    assert((opcode & 0xcf == 0x03 <==> low == 0x03) && (opcode & 0xcf == 0x0b <==> low == 0x0b)) by (bit_vector)
        requires
            opcode < 0x40,
            low == opcode & 0x0f,
    ;
    assert((opcode == 0x18 || opcode == 0x20 || opcode == 0x28 || opcode == 0x30 || opcode == 0x38 || opcode == 0x2f
        || opcode == 0x37 || opcode == 0x3f) ==> (low != 1 && low != 2 && low != 0xa && low != 3 && low != 0xb && col
        != 4 && col != 5 && col != 6)) by (bit_vector)
        requires
            low == opcode & 0x0f,
            col == opcode & 0x07,
    ;
    if low == 0x01 {
        inst(Op::LdR16Imm(hi), 12)
    } else if low == 0x02 {
        inst(Op::StoreA(hi), 8)
    } else if low == 0x0a {
        inst(Op::LoadA(hi), 8)
    } else if low == 0x03 {
        inst(Op::IncR16(hi), 8)
    } else if low == 0x0b {
        inst(Op::DecR16(hi), 8)
    } else if col == 0x04 {
        inst(Op::IncR8(r8), if r8 == 6 { 12 } else { 4 })
    } else if col == 0x05 {
        inst(Op::DecR8(r8), if r8 == 6 { 12 } else { 4 })
    } else if col == 0x06 {
        inst(Op::LdR8Imm(r8), if r8 == 6 { 12 } else { 8 })
    } else if opcode == 0x18 {
        inst(Op::Jr, 12)
    } else if opcode == 0x20 || opcode == 0x28 || opcode == 0x30 || opcode == 0x38 {
        inst(Op::JrCond((opcode >> 3) & 3), 8)
    } else if opcode == 0x2f {
        inst(Op::Cpl, 4)
    } else if opcode == 0x37 {
        inst(Op::Scf, 4)
    } else if opcode == 0x3f {
        inst(Op::Ccf, 4)
    } else {
        inst(Op::Unimplemented, 4)
    }
}

/// Opcodes 0xc0 to 0xff.
fn decode_high(opcode: u8) -> (r: Instruction)
    requires
        opcode >= 0xc0,
    ensures
        r.op.wf(),
        decodes_high(opcode, r),
{
    let cc = (opcode >> 3) & 3;
    let pr = (opcode >> 4) & 3;
    let n = (opcode >> 3) & 7;
    assert(cc < 4 && pr < 4 && n < 8) by (bit_vector)
        requires
            cc == (opcode >> 3) & 3,
            pr == (opcode >> 4) & 3,
            n == (opcode >> 3) & 7,
    ;
    let low = opcode & 0x0f;
    let col = opcode & 0x07;
    assert((opcode == 0xc3 || opcode == 0xc2 || opcode == 0xca || opcode == 0xd2 || opcode == 0xda || opcode == 0xe9
        || opcode == 0xcd || opcode == 0xc4 || opcode == 0xcc || opcode == 0xd4 || opcode == 0xdc || opcode == 0xc9
        || opcode == 0xc0 || opcode == 0xc8 || opcode == 0xd0 || opcode == 0xd8 || opcode == 0xd9) ==> (col != 7 && low
        != 5 && low != 1 && col != 6)) by (bit_vector)
        requires
            low == opcode & 0x0f,
            col == opcode & 0x07,
    ;
    assert((col == 7 ==> low != 5 && low != 1) && (low == 5 ==> col != 6) && (low == 1 ==> col != 6) && ((opcode
        == 0xe0 || opcode == 0xf0 || opcode == 0xe2 || opcode == 0xf2 || opcode == 0xea || opcode == 0xfa || opcode == 0xf3
        || opcode == 0xfb) ==> (col != 7 && low != 5 && low != 1 && col != 6))) by (bit_vector)
        requires
            low == opcode & 0x0f,
            col == opcode & 0x07,
    ;
    if opcode == 0xc3 {
        inst(Op::Jp, 16)
    } else if opcode == 0xc2 || opcode == 0xca || opcode == 0xd2 || opcode == 0xda {
        inst(Op::JpCond(cc), 12)
    } else if opcode == 0xe9 {
        inst(Op::JpHl, 4)
    } else if opcode == 0xcd {
        inst(Op::Call, 24)
    } else if opcode == 0xc4 || opcode == 0xcc || opcode == 0xd4 || opcode == 0xdc {
        inst(Op::CallCond(cc), 12)
    } else if opcode == 0xc9 {
        inst(Op::Ret, 16)
    } else if opcode == 0xc0 || opcode == 0xc8 || opcode == 0xd0 || opcode == 0xd8 {
        inst(Op::RetCond(cc), 8)
    } else if opcode == 0xd9 {
        inst(Op::Reti, 16)
    } else if col == 0x07 {
        inst(Op::Rst(n), 16)
    } else if low == 0x05 {
        inst(Op::Push(pr), 16)
    } else if low == 0x01 {
        inst(Op::Pop(pr), 12)
    } else if col == 0x06 {
        inst(Op::AluImm(n), 8)
    } else if opcode == 0xe0 {
        inst(Op::LdhStore, 12)
    } else if opcode == 0xf0 {
        inst(Op::LdhLoad, 12)
    } else if opcode == 0xe2 {
        inst(Op::LdcStore, 8)
    } else if opcode == 0xf2 {
        inst(Op::LdcLoad, 8)
    } else if opcode == 0xea {
        inst(Op::StoreAbs, 16)
    } else if opcode == 0xfa {
        inst(Op::LoadAbs, 16)
    } else if opcode == 0xf3 {
        inst(Op::Di, 4)
    } else if opcode == 0xfb {
        inst(Op::Ei, 4)
    } else {
        inst(Op::Unimplemented, 4)
    }
}

/// The instruction of an extended opcode (the byte after the prefix).
pub fn decode_extended(opcode: u8) -> (r: Instruction)
    ensures
        decodes_extended(opcode, r),
        r.op.wf(),
        0x40 <= opcode < 0x80 ==> r.op == Op::TestBit((opcode >> 3) & 7, opcode & 7),
        0x80 <= opcode < 0xc0 ==> r.op == Op::ResetBit((opcode >> 3) & 7, opcode & 7),
        0xc0 <= opcode ==> r.op == Op::SetBit((opcode >> 3) & 7, opcode & 7),
{
    let b = (opcode >> 3) & 7;
    let reg = opcode & 7;
    assert(b < 8 && reg < 8) by (bit_vector)
        requires
            b == (opcode >> 3) & 7,
            reg == opcode & 7,
    ;
    if opcode < 0x40 {
        inst(Op::Unimplemented, 8)
    } else if opcode < 0x80 {
        inst(Op::TestBit(b, reg), if reg == 6 { 12 } else { 8 })
    } else if opcode < 0xc0 {
        inst(Op::ResetBit(b, reg), if reg == 6 { 16 } else { 8 })
    } else {
        inst(Op::SetBit(b, reg), if reg == 6 { 16 } else { 8 })
    }
}

} // verus!
