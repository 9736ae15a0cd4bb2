//! What each operation of the instruction set does to the processor and
//! the bus.

use vstd::prelude::*;
use crate::cpu::{Cpu, Registers, Flags, pair, flags_byte, flags_of};
use crate::inst::Op;
use crate::mmu::Mmu;

verus! {

/// The result byte of ALU operation `o` (ADD, ADC, SUB, SBC, AND, XOR, OR,
/// CP) on `a` and `v` with carry-in `c`; CP leaves A as it is.
pub open spec fn alu_value(o: u8, a: u8, v: u8, c: bool) -> u8 {
    let ci: int = if c { 1 } else { 0 };
    if o == 0 {
        ((a + v) % 256) as u8
    } else if o == 1 {
        ((a + v + ci) % 256) as u8
    } else if o == 2 {
        ((a + 256 - v) % 256) as u8
    } else if o == 3 {
        ((a + 512 - v - ci) % 256) as u8
    } else if o == 4 {
        a & v
    } else if o == 5 {
        a ^ v
    } else if o == 6 {
        a | v
    } else {
        a
    }
}

/// The flags that ALU operation `o` leaves.
pub open spec fn alu_flags(o: u8, a: u8, v: u8, c: bool) -> Flags {
    let ci: int = if c { 1 } else { 0 };
    let result = if o == 7 { ((a + 256 - v) % 256) as u8 } else { alu_value(o, a, v, c) };
    let zero = result == 0;
    if o == 0 {
        Flags { zero, sub: false, half_carry: a % 16 + v % 16 > 15, carry: a + v > 255 }
    } else if o == 1 {
        Flags { zero, sub: false, half_carry: a % 16 + v % 16 + ci > 15, carry: a + v + ci > 255 }
    } else if o == 2 || o == 7 {
        Flags { zero, sub: true, half_carry: a % 16 < v % 16, carry: a < v }
    } else if o == 3 {
        Flags { zero, sub: true, half_carry: a % 16 < v % 16 + ci, carry: a < v + ci }
    } else if o == 4 {
        Flags { zero, sub: false, half_carry: true, carry: false }
    } else {
        Flags { zero, sub: false, half_carry: false, carry: false }
    }
}

fn alu(o: u8, a: u8, v: u8, c: bool) -> (r: (u8, Flags))
    requires
        o < 8,
    ensures
        r.0 == alu_value(o, a, v, c),
        r.1 == alu_flags(o, a, v, c),
{
    let ci: u16 = if c { 1 } else { 0 };
    let (a16, v16) = (a as u16, v as u16);
    let sub = ((a16 + 256 - v16) % 256) as u8;
    if o == 0 {
        let r = ((a16 + v16) % 256) as u8;
        (r, Flags { zero: r == 0, sub: false, half_carry: a16 % 16 + v16 % 16 > 15, carry: a16 + v16 > 255 })
    } else if o == 1 {
        let r = ((a16 + v16 + ci) % 256) as u8;
        (r, Flags { zero: r == 0, sub: false, half_carry: a16 % 16 + v16 % 16 + ci > 15, carry: a16 + v16 + ci > 255 })
    } else if o == 2 {
        (sub, Flags { zero: sub == 0, sub: true, half_carry: a16 % 16 < v16 % 16, carry: a16 < v16 })
    } else if o == 3 {
        let r = ((a16 + 512 - v16 - ci) % 256) as u8;
        (r, Flags { zero: r == 0, sub: true, half_carry: a16 % 16 < v16 % 16 + ci, carry: a16 < v16 + ci })
    } else if o == 4 {
        (a & v, Flags { zero: a & v == 0, sub: false, half_carry: true, carry: false })
    } else if o == 5 {
        (a ^ v, Flags { zero: a ^ v == 0, sub: false, half_carry: false, carry: false })
    } else if o == 6 {
        (a | v, Flags { zero: a | v == 0, sub: false, half_carry: false, carry: false })
    } else {
        (a, Flags { zero: sub == 0, sub: true, half_carry: a16 % 16 < v16 % 16, carry: a16 < v16 })
    }
}

/// Whether condition `cc` (NZ, Z, NC, C) holds.
pub open spec fn cond(flags: Flags, cc: u8) -> bool {
    if cc == 0 {
        !flags.zero
    } else if cc == 1 {
        flags.zero
    } else if cc == 2 {
        !flags.carry
    } else {
        flags.carry
    }
}

/// `regs` with 16-bit register `r` (BC, DE, HL, SP) set to `v`.
pub open spec fn with_r16(regs: Registers, r: u8, v: u16) -> Registers {
    if r == 0 {
        Registers { b: (v / 256) as u8, c: (v % 256) as u8, ..regs }
    } else if r == 1 {
        Registers { d: (v / 256) as u8, e: (v % 256) as u8, ..regs }
    } else if r == 2 {
        Registers { h: (v / 256) as u8, l: (v % 256) as u8, ..regs }
    } else {
        Registers { sp: v, ..regs }
    }
}

/// `regs` with 8-bit register `r` (B, C, D, E, H, L, -, A) set to `v`.
pub open spec fn with_r8(regs: Registers, r: u8, v: u8) -> Registers {
    if r == 0 {
        Registers { b: v, ..regs }
    } else if r == 1 {
        Registers { c: v, ..regs }
    } else if r == 2 {
        Registers { d: v, ..regs }
    } else if r == 3 {
        Registers { e: v, ..regs }
    } else if r == 4 {
        Registers { h: v, ..regs }
    } else if r == 5 {
        Registers { l: v, ..regs }
    } else {
        Registers { a: v, ..regs }
    }
}

/// `regs` with the program counter moved `n` bytes on.
pub open spec fn skip(regs: Registers, n: u16) -> Registers {
    Registers { pc: regs.pc.wrapping_add(n), ..regs }
}

impl Cpu {
    /// The value of 16-bit register `r` (BC, DE, HL, SP).
    pub open spec fn r16_spec(&self, r: u8) -> u16 {
        if r == 0 {
            self.bc_spec()
        } else if r == 1 {
            self.de_spec()
        } else if r == 2 {
            self.hl_spec()
        } else {
            self.regs.sp
        }
    }

    /// The value of 8-bit operand `r`; 6 is the byte at (HL).
    pub open spec fn r8_spec(&self, r: u8) -> u8 {
        if r == 0 {
            self.regs.b
        } else if r == 1 {
            self.regs.c
        } else if r == 2 {
            self.regs.d
        } else if r == 3 {
            self.regs.e
        } else if r == 4 {
            self.regs.h
        } else if r == 5 {
            self.regs.l
        } else if r == 6 {
            self.mmu.read_spec(self.hl_spec())
        } else {
            self.regs.a
        }
    }

    /// The immediate byte at the program counter.
    pub open spec fn imm8(&self) -> u8 {
        self.mmu.read_spec(self.regs.pc)
    }

    /// The little-endian immediate word at the program counter.
    pub open spec fn imm16(&self) -> u16 {
        pair(self.mmu.read_spec(self.regs.pc.wrapping_add(1)), self.mmu.read_spec(self.regs.pc))
    }

    /// `new` is `old` with operand `r` set to `v` and the flags set to `f`.
    pub open spec fn r8_set(old: Cpu, new: Cpu, r: u8, v: u8, f: Flags) -> bool {
        if r == 6 {
            &&& Mmu::write_post(old.mmu, new.mmu, old.hl_spec(), v)
            &&& new == Cpu { mmu: new.mmu, flags: f, ..old }
        } else {
            new == Cpu { regs: with_r8(old.regs, r, v), flags: f, ..old }
        }
    }

    /// `new` is `old` with the byte `v` stored at `addr` and the registers
    /// set to `regs`.
    pub open spec fn stored(old: Cpu, new: Cpu, addr: u16, v: u8, regs: Registers) -> bool {
        &&& Mmu::write_post(old.mmu, new.mmu, addr, v)
        &&& new == Cpu { mmu: new.mmu, regs, ..old }
    }

    /// What running `op` (its opcode already fetched) does; `extra` is the
    /// number of cycles a taken branch adds.
    #[verifier::opaque]
    pub open spec fn exec_post(old: Cpu, new: Cpu, op: Op, extra: u8) -> bool {
        let pc = old.regs.pc;
        let hl = old.hl_spec();
        &&& (extra != 0 ==> match op {
            Op::JpCond(_) | Op::JrCond(_) => extra == 4,
            Op::CallCond(_) | Op::RetCond(_) => extra == 12,
            _ => false,
        })
        &&& match op {
            Op::Nop | Op::Unimplemented => new == old,
            Op::Stop => new == Cpu { stopped: true, ..old },
            Op::Halt => new == Cpu { halted: true, ..old },
            Op::Di => new == Cpu { ime: false, ..old },
            Op::Ei => new == Cpu { ime: true, ..old },
            Op::LdR16Imm(r) => new == Cpu { regs: with_r16(skip(old.regs, 2), r, old.imm16()), ..old },
            Op::StoreA(p) => {
                let addr = if p == 0 { old.bc_spec() } else if p == 1 { old.de_spec() } else { hl };
                let regs = if p == 2 {
                    with_r16(old.regs, 2, hl.wrapping_add(1))
                } else if p == 3 {
                    with_r16(old.regs, 2, hl.wrapping_sub(1))
                } else {
                    old.regs
                };
                Cpu::stored(old, new, addr, old.regs.a, regs)
            },
            Op::LoadA(p) => {
                let addr = if p == 0 { old.bc_spec() } else if p == 1 { old.de_spec() } else { hl };
                let regs = if p == 2 {
                    with_r16(old.regs, 2, hl.wrapping_add(1))
                } else if p == 3 {
                    with_r16(old.regs, 2, hl.wrapping_sub(1))
                } else {
                    old.regs
                };
                new == Cpu { regs: Registers { a: old.mmu.read_spec(addr), ..regs }, ..old }
            },
            Op::IncR16(r) => new == Cpu { regs: with_r16(old.regs, r, old.r16_spec(r).wrapping_add(1)), ..old },
            Op::DecR16(r) => new == Cpu { regs: with_r16(old.regs, r, old.r16_spec(r).wrapping_sub(1)), ..old },
            Op::IncR8(r) => {
                let v = old.r8_spec(r);
                let res = v.wrapping_add(1);
                Cpu::r8_set(old, new, r, res, Flags { zero: res == 0, sub: false, half_carry: v % 16 == 15, ..old.flags })
            },
            Op::DecR8(r) => {
                let v = old.r8_spec(r);
                let res = v.wrapping_sub(1);
                Cpu::r8_set(old, new, r, res, Flags { zero: res == 0, sub: true, half_carry: v % 16 == 0, ..old.flags })
            },
            Op::LdR8Imm(r) => {
                let moved = Cpu { regs: skip(old.regs, 1), ..old };
                Cpu::r8_set(moved, new, r, old.imm8(), old.flags)
            },
            Op::LdR8(d, s) => Cpu::r8_set(old, new, d, old.r8_spec(s), old.flags),
            Op::Alu(o, s) => {
                let v = old.r8_spec(s);
                new == Cpu {
                    regs: Registers { a: alu_value(o, old.regs.a, v, old.flags.carry), ..old.regs },
                    flags: alu_flags(o, old.regs.a, v, old.flags.carry),
                    ..old
                }
            },
            Op::AluImm(o) => {
                let v = old.imm8();
                new == Cpu {
                    regs: Registers { a: alu_value(o, old.regs.a, v, old.flags.carry), ..skip(old.regs, 1) },
                    flags: alu_flags(o, old.regs.a, v, old.flags.carry),
                    ..old
                }
            },
            Op::Jp => new == Cpu { regs: Registers { pc: old.imm16(), ..old.regs }, ..old },
            Op::JpCond(cc) => if cond(old.flags, cc) {
                extra == 4 && new == Cpu { regs: Registers { pc: old.imm16(), ..old.regs }, ..old }
            } else {
                extra == 0 && new == Cpu { regs: skip(old.regs, 2), ..old }
            },
            Op::JpHl => new == Cpu { regs: Registers { pc: hl, ..old.regs }, ..old },
            Op::Jr => new == Cpu {
                regs: Registers { pc: pc.wrapping_add(1).wrapping_add(((old.imm8() as i8) as i16) as u16), ..old.regs },
                ..old
            },
            Op::JrCond(cc) => if cond(old.flags, cc) {
                extra == 4 && new == Cpu {
                    regs: Registers {
                        pc: pc.wrapping_add(1).wrapping_add(((old.imm8() as i8) as i16) as u16),
                        ..old.regs
                    },
                    ..old
                }
            } else {
                extra == 0 && new == Cpu { regs: skip(old.regs, 1), ..old }
            },
            Op::Call => Cpu::called(old, new, old.imm16(), pc.wrapping_add(2)),
            Op::CallCond(cc) => if cond(old.flags, cc) {
                extra == 12 && Cpu::called(old, new, old.imm16(), pc.wrapping_add(2))
            } else {
                extra == 0 && new == Cpu { regs: skip(old.regs, 2), ..old }
            },
            Op::Ret => Cpu::returned(old, new),
            Op::RetCond(cc) => if cond(old.flags, cc) {
                extra == 12 && Cpu::returned(old, new)
            } else {
                extra == 0 && new == old
            },
            Op::Reti => exists|mid: Cpu| #[trigger] Cpu::returned(old, mid) && new == Cpu { ime: true, ..mid },
            Op::Rst(n) => Cpu::called(old, new, (n * 8) as u16, pc),
            Op::Push(r) => {
                let v = if r == 3 { old.af_spec() } else { old.r16_spec(r) };
                &&& Cpu::pushed(old.mmu, new.mmu, old.regs.sp, v)
                &&& new == Cpu { mmu: new.mmu, regs: Registers { sp: old.regs.sp.wrapping_sub(2), ..old.regs }, ..old }
            },
            Op::Pop(r) => {
                let v = pair(old.mmu.read_spec(old.regs.sp.wrapping_add(1)), old.mmu.read_spec(old.regs.sp));
                let regs = Registers { sp: old.regs.sp.wrapping_add(2), ..old.regs };
                if r == 3 {
                    new == Cpu { regs: Registers { a: (v / 256) as u8, ..regs }, flags: flags_of((v % 256) as u8), ..old }
                } else {
                    new == Cpu { regs: with_r16(regs, r, v), ..old }
                }
            },
            Op::LdhStore => Cpu::stored(old, new, (0xff00 + old.imm8()) as u16, old.regs.a, skip(old.regs, 1)),
            Op::LdhLoad => new == Cpu {
                regs: Registers { a: old.mmu.read_spec((0xff00 + old.imm8()) as u16), ..skip(old.regs, 1) },
                ..old
            },
            Op::LdcStore => Cpu::stored(old, new, (0xff00 + old.regs.c) as u16, old.regs.a, old.regs),
            Op::LdcLoad => new == Cpu {
                regs: Registers { a: old.mmu.read_spec((0xff00 + old.regs.c) as u16), ..old.regs },
                ..old
            },
            Op::StoreAbs => Cpu::stored(old, new, old.imm16(), old.regs.a, skip(old.regs, 2)),
            Op::LoadAbs => new == Cpu {
                regs: Registers { a: old.mmu.read_spec(old.imm16()), ..skip(old.regs, 2) },
                ..old
            },
            Op::Cpl => new == Cpu {
                regs: Registers { a: !old.regs.a, ..old.regs },
                flags: Flags { sub: true, half_carry: true, ..old.flags },
                ..old
            },
            Op::Scf => new == Cpu { flags: Flags { sub: false, half_carry: false, carry: true, ..old.flags }, ..old },
            Op::Ccf => new == Cpu {
                flags: Flags { sub: false, half_carry: false, carry: !old.flags.carry, ..old.flags },
                ..old
            },
            Op::TestBit(b, r) => new == Cpu {
                flags: Flags {
                    zero: old.r8_spec(r) & (1u8 << b) == 0,
                    sub: false,
                    half_carry: true,
                    ..old.flags
                },
                ..old
            },
            Op::ResetBit(b, r) => Cpu::r8_set(old, new, r, old.r8_spec(r) & !(1u8 << b), old.flags),
            Op::SetBit(b, r) => Cpu::r8_set(old, new, r, old.r8_spec(r) | (1u8 << b), old.flags),
        }
    }

    /// `new` is `old` after a call to `target` that pushed `ret`.
    pub open spec fn called(old: Cpu, new: Cpu, target: u16, ret: u16) -> bool {
        &&& Cpu::pushed(old.mmu, new.mmu, old.regs.sp, ret)
        &&& new == Cpu {
            mmu: new.mmu,
            regs: Registers { pc: target, sp: old.regs.sp.wrapping_sub(2), ..old.regs },
            ..old
        }
    }

    /// `new` is `old` after a return: the program counter popped.
    pub open spec fn returned(old: Cpu, new: Cpu) -> bool {
        new == Cpu {
            regs: Registers {
                pc: pair(old.mmu.read_spec(old.regs.sp.wrapping_add(1)), old.mmu.read_spec(old.regs.sp)),
                sp: old.regs.sp.wrapping_add(2),
                ..old.regs
            },
            ..old
        }
    }
}

/// Storing A through BC into work RAM leaves A's value at that address of
/// the bus, and the registers as they were.
pub proof fn lemma_store_a_reads_back(old: Cpu, new: Cpu)
    requires
        Cpu::exec_post(old, new, Op::StoreA(0), 0),
        0xc000 <= old.bc_spec() <= 0xdfff,
    ensures
        new.mmu.read_spec(old.bc_spec()) == old.regs.a,
        new.regs == old.regs,
{
    reveal(Cpu::exec_post);
    let addr = old.bc_spec();
    assert((addr & 0x1fff) < 8192) by (bit_vector);
}

fn with_r16_exec(regs: Registers, r: u8, v: u16) -> (out: Registers)
    ensures
        out == with_r16(regs, r, v),
{
    let mut out = regs;
    if r == 0 {
        out.b = (v / 256) as u8;
        out.c = (v % 256) as u8;
    } else if r == 1 {
        out.d = (v / 256) as u8;
        out.e = (v % 256) as u8;
    } else if r == 2 {
        out.h = (v / 256) as u8;
        out.l = (v % 256) as u8;
    } else {
        out.sp = v;
    }
    out
}

fn with_r8_exec(regs: Registers, r: u8, v: u8) -> (out: Registers)
    ensures
        out == with_r8(regs, r, v),
{
    let mut out = regs;
    if r == 0 {
        out.b = v;
    } else if r == 1 {
        out.c = v;
    } else if r == 2 {
        out.d = v;
    } else if r == 3 {
        out.e = v;
    } else if r == 4 {
        out.h = v;
    } else if r == 5 {
        out.l = v;
    } else {
        out.a = v;
    }
    out
}

/// The signed jump offset that byte `e` encodes, as a 16-bit addend.
fn offset(e: u8) -> (r: u16)
    ensures
        r == ((e as i8) as i16) as u16,
{
    let s = #[verifier::truncate] (e as i8);
    #[verifier::truncate] ((s as i16) as u16)
}

fn cond_exec(flags: Flags, cc: u8) -> (r: bool)
    ensures
        r == cond(flags, cc),
{
    if cc == 0 {
        !flags.zero
    } else if cc == 1 {
        flags.zero
    } else if cc == 2 {
        !flags.carry
    } else {
        flags.carry
    }
}

impl Cpu {
    fn r16(&self, r: u8) -> (v: u16)
        ensures
            v == self.r16_spec(r),
    {
        if r == 0 {
            self.bc()
        } else if r == 1 {
            self.de()
        } else if r == 2 {
            self.hl()
        } else {
            self.regs.sp
        }
    }

    fn get_r8(&self, r: u8) -> (v: u8)
        requires
            self.wf(),
        ensures
            v == self.r8_spec(r),
    {
        if r == 6 {
            self.mmu.read(self.hl())
        } else if r == 0 {
            self.regs.b
        } else if r == 1 {
            self.regs.c
        } else if r == 2 {
            self.regs.d
        } else if r == 3 {
            self.regs.e
        } else if r == 4 {
            self.regs.h
        } else if r == 5 {
            self.regs.l
        } else {
            self.regs.a
        }
    }

    fn set_r8(&mut self, r: u8, v: u8, f: Flags)
        requires
            old(self).wf(),
        ensures
            final(self).wf(),
            Cpu::r8_set(*old(self), *final(self), r, v, f),
    {
        if r == 6 {
            self.store_hl(v, f);
        } else {
            self.regs = with_r8_exec(self.regs, r, v);
            self.flags = f;
        }
    }

    fn store_hl(&mut self, v: u8, f: Flags)
        requires
            old(self).wf(),
        ensures
            final(self).wf(),
            Mmu::write_post(old(self).mmu, final(self).mmu, old(self).hl_spec(), v),
            *final(self) == (Cpu { mmu: final(self).mmu, flags: f, ..*old(self) }),
    {
        let hl = self.hl();
        self.mmu.write(hl, v);
        self.flags = f;
    }

    fn store(&mut self, addr: u16, v: u8, regs: Registers)
        requires
            old(self).wf(),
        ensures
            final(self).wf(),
            Cpu::stored(*old(self), *final(self), addr, v, regs),
    {
        self.mmu.write(addr, v);
        self.regs = regs;
    }

    /// Runs `op`, whose opcode has been fetched, and returns the cycles that
    /// a taken branch adds to the instruction's cost.
    pub fn execute(&mut self, op: Op) -> (extra: u8)
        requires
            old(self).wf(),
            op.wf(),
        ensures
            final(self).wf(),
            Cpu::exec_post(*old(self), *final(self), op, extra),
            final(self).cycles == old(self).cycles,
    {
        match op {
            Op::Nop | Op::Unimplemented | Op::Stop | Op::Halt | Op::Di | Op::Ei | Op::Cpl | Op::Scf | Op::Ccf => self.exec_control(op),
            Op::LdR16Imm(_) | Op::IncR16(_) | Op::DecR16(_) | Op::Push(_) | Op::Pop(_) => self.exec_wide(op),
            Op::StoreA(_) | Op::LoadA(_) | Op::LdR8Imm(_) | Op::LdR8(_, _) | Op::LdhStore => self.exec_load(op),
            Op::LdhLoad | Op::LdcStore | Op::LdcLoad | Op::StoreAbs | Op::LoadAbs => self.exec_load_high(op),
            Op::IncR8(_) | Op::DecR8(_) | Op::Alu(_, _) | Op::AluImm(_) => self.exec_arith(op),
            Op::TestBit(_, _) | Op::ResetBit(_, _) | Op::SetBit(_, _) => self.exec_bits(op),
            Op::Jp | Op::JpCond(_) | Op::JpHl | Op::Jr | Op::JrCond(_) => self.exec_jump(op),
            Op::Call | Op::CallCond(_) | Op::Ret | Op::RetCond(_) | Op::Reti | Op::Rst(_) => self.exec_call(op),
        }
    }

    fn exec_control(&mut self, op: Op) -> (extra: u8)
        requires
            old(self).wf(),
            op.wf(),
            matches!(op, Op::Nop | Op::Unimplemented | Op::Stop | Op::Halt | Op::Di | Op::Ei | Op::Cpl | Op::Scf | Op::Ccf),
        ensures
            final(self).wf(),
            Cpu::exec_post(*old(self), *final(self), op, extra),
            final(self).cycles == old(self).cycles,
    {
        proof {
            reveal(Cpu::exec_post);
        }
        match op {
            Op::Nop | Op::Unimplemented => 0,
            Op::Stop => {
                self.stopped = true;
                0
            },
            Op::Halt => {
                self.halted = true;
                0
            },
            Op::Di => {
                self.ime = false;
                0
            },
            Op::Ei => {
                self.ime = true;
                0
            },
            Op::Cpl => {
                self.regs.a = !self.regs.a;
                self.flags = Flags { sub: true, half_carry: true, ..self.flags };
                0
            },
            Op::Scf => {
                self.flags = Flags { sub: false, half_carry: false, carry: true, ..self.flags };
                0
            },
            Op::Ccf => {
                self.flags = Flags { sub: false, half_carry: false, carry: !self.flags.carry, ..self.flags };
                0
            },
            _ => 0,
        }
    }

    fn exec_wide(&mut self, op: Op) -> (extra: u8)
        requires
            old(self).wf(),
            op.wf(),
            matches!(op, Op::LdR16Imm(_) | Op::IncR16(_) | Op::DecR16(_) | Op::Push(_) | Op::Pop(_)),
        ensures
            final(self).wf(),
            Cpu::exec_post(*old(self), *final(self), op, extra),
            final(self).cycles == old(self).cycles,
    {
        proof {
            reveal(Cpu::exec_post);
        }
        match op {
            Op::LdR16Imm(r) => {
                let v = self.read_u16();
                self.regs = with_r16_exec(self.regs, r, v);
                0
            },
            Op::IncR16(r) => {
                let v = self.r16(r).wrapping_add(1);
                self.regs = with_r16_exec(self.regs, r, v);
                0
            },
            Op::DecR16(r) => {
                let v = self.r16(r).wrapping_sub(1);
                self.regs = with_r16_exec(self.regs, r, v);
                0
            },
            Op::Push(r) => {
                let v = if r == 3 { self.af() } else { self.r16(r) };
                self.push_word(v);
                0
            },
            Op::Pop(r) => {
                self.pop(r);
                0
            },
            _ => 0,
        }
    }

    fn exec_load(&mut self, op: Op) -> (extra: u8)
        requires
            old(self).wf(),
            op.wf(),
            matches!(op, Op::StoreA(_) | Op::LoadA(_) | Op::LdR8Imm(_) | Op::LdR8(_, _) | Op::LdhStore),
        ensures
            final(self).wf(),
            Cpu::exec_post(*old(self), *final(self), op, extra),
            final(self).cycles == old(self).cycles,
    {
        proof {
            reveal(Cpu::exec_post);
        }
        match op {
            Op::StoreA(p) => {
                self.store_a(p);
                0
            },
            Op::LoadA(p) => {
                self.load_a(p);
                0
            },
            Op::LdR8Imm(r) => {
                let v = self.read_u8();
                let f = self.flags;
                self.set_r8(r, v, f);
                0
            },
            Op::LdR8(d, s) => {
                let v = self.get_r8(s);
                let f = self.flags;
                self.set_r8(d, v, f);
                0
            },
            Op::LdhStore => {
                let n = self.read_u8();
                let regs = self.regs;
                self.store(0xff00 + n as u16, self.regs.a, regs);
                0
            },
            _ => 0,
        }
    }

    fn exec_load_high(&mut self, op: Op) -> (extra: u8)
        requires
            old(self).wf(),
            op.wf(),
            matches!(op, Op::LdhLoad | Op::LdcStore | Op::LdcLoad | Op::StoreAbs | Op::LoadAbs),
        ensures
            final(self).wf(),
            Cpu::exec_post(*old(self), *final(self), op, extra),
            final(self).cycles == old(self).cycles,
    {
        proof {
            reveal(Cpu::exec_post);
        }
        match op {
            Op::LdhLoad => {
                let n = self.read_u8();
                self.regs.a = self.mmu.read(0xff00 + n as u16);
                0
            },
            Op::LdcStore => {
                let regs = self.regs;
                self.store(0xff00 + self.regs.c as u16, self.regs.a, regs);
                0
            },
            Op::LdcLoad => {
                self.regs.a = self.mmu.read(0xff00 + self.regs.c as u16);
                0
            },
            Op::StoreAbs => {
                let addr = self.read_u16();
                let regs = self.regs;
                self.store(addr, self.regs.a, regs);
                0
            },
            Op::LoadAbs => {
                let addr = self.read_u16();
                self.regs.a = self.mmu.read(addr);
                0
            },
            _ => 0,
        }
    }

    fn exec_arith(&mut self, op: Op) -> (extra: u8)
        requires
            old(self).wf(),
            op.wf(),
            matches!(op, Op::IncR8(_) | Op::DecR8(_) | Op::Alu(_, _) | Op::AluImm(_)),
        ensures
            final(self).wf(),
            Cpu::exec_post(*old(self), *final(self), op, extra),
            final(self).cycles == old(self).cycles,
    {
        proof {
            reveal(Cpu::exec_post);
        }
        match op {
            Op::IncR8(r) => {
                let v = self.get_r8(r);
                let res = v.wrapping_add(1);
                let f = Flags { zero: res == 0, sub: false, half_carry: v % 16 == 15, ..self.flags };
                self.set_r8(r, res, f);
                0
            },
            Op::DecR8(r) => {
                let v = self.get_r8(r);
                let res = v.wrapping_sub(1);
                let f = Flags { zero: res == 0, sub: true, half_carry: v % 16 == 0, ..self.flags };
                self.set_r8(r, res, f);
                0
            },
            Op::Alu(o, s) => {
                let v = self.get_r8(s);
                let (res, f) = alu(o, self.regs.a, v, self.flags.carry);
                self.regs.a = res;
                self.flags = f;
                0
            },
            Op::AluImm(o) => {
                let v = self.read_u8();
                let (res, f) = alu(o, self.regs.a, v, self.flags.carry);
                self.regs.a = res;
                self.flags = f;
                0
            },
            _ => 0,
        }
    }

    fn exec_bits(&mut self, op: Op) -> (extra: u8)
        requires
            old(self).wf(),
            op.wf(),
            matches!(op, Op::TestBit(_, _) | Op::ResetBit(_, _) | Op::SetBit(_, _)),
        ensures
            final(self).wf(),
            Cpu::exec_post(*old(self), *final(self), op, extra),
            final(self).cycles == old(self).cycles,
    {
        proof {
            reveal(Cpu::exec_post);
        }
        match op {
            Op::TestBit(b, r) => {
                let v = self.get_r8(r);
                self.flags = Flags { zero: v & (1u8 << b) == 0, sub: false, half_carry: true, ..self.flags };
                0
            },
            Op::ResetBit(b, r) => {
                let v = self.get_r8(r);
                let f = self.flags;
                self.set_r8(r, v & !(1u8 << b), f);
                0
            },
            Op::SetBit(b, r) => {
                let v = self.get_r8(r);
                let f = self.flags;
                self.set_r8(r, v | (1u8 << b), f);
                0
            },
            _ => 0,
        }
    }

    fn exec_jump(&mut self, op: Op) -> (extra: u8)
        requires
            old(self).wf(),
            op.wf(),
            matches!(op, Op::Jp | Op::JpCond(_) | Op::JpHl | Op::Jr | Op::JrCond(_)),
        ensures
            final(self).wf(),
            Cpu::exec_post(*old(self), *final(self), op, extra),
            final(self).cycles == old(self).cycles,
    {
        proof {
            reveal(Cpu::exec_post);
        }
        match op {
            Op::Jp => {
                self.regs.pc = self.imm16_exec();
                0
            },
            Op::JpCond(cc) => self.jp_cond(cc),
            Op::JpHl => {
                self.regs.pc = self.hl();
                0
            },
            Op::Jr => {
                self.jr();
                0
            },
            Op::JrCond(cc) => self.jr_cond(cc),
            _ => 0,
        }
    }

    fn exec_call(&mut self, op: Op) -> (extra: u8)
        requires
            old(self).wf(),
            op.wf(),
            matches!(op, Op::Call | Op::CallCond(_) | Op::Ret | Op::RetCond(_) | Op::Reti | Op::Rst(_)),
        ensures
            final(self).wf(),
            Cpu::exec_post(*old(self), *final(self), op, extra),
            final(self).cycles == old(self).cycles,
    {
        proof {
            reveal(Cpu::exec_post);
        }
        match op {
            Op::Call => {
                self.call();
                0
            },
            Op::CallCond(cc) => self.call_cond(cc),
            Op::Ret => {
                self.ret();
                0
            },
            Op::RetCond(cc) => self.ret_cond(cc),
            Op::Reti => {
                self.ret();
                self.ime = true;
                0
            },
            Op::Rst(n) => {
                self.rst(n);
                0
            },
            _ => 0,
        }
    }

    fn imm16_exec(&self) -> (r: u16)
        requires
            self.wf(),
        ensures
            r == self.imm16(),
    {
        let lo = self.mmu.read(self.regs.pc);
        let hi = self.mmu.read(self.regs.pc.wrapping_add(1));
        (hi as u16) * 256 + lo as u16
    }

    fn store_a(&mut self, p: u8)
        requires
            old(self).wf(),
            p < 4,
        ensures
            final(self).wf(),
            Cpu::exec_post(*old(self), *final(self), Op::StoreA(p), 0),
    {
        proof {
            reveal(Cpu::exec_post);
        }
        let hl = self.hl();
        let addr = if p == 0 { self.bc() } else if p == 1 { self.de() } else { hl };
        let regs = if p == 2 {
            with_r16_exec(self.regs, 2, hl.wrapping_add(1))
        } else if p == 3 {
            with_r16_exec(self.regs, 2, hl.wrapping_sub(1))
        } else {
            self.regs
        };
        self.store(addr, self.regs.a, regs);
    }

    fn load_a(&mut self, p: u8)
        requires
            old(self).wf(),
            p < 4,
        ensures
            final(self).wf(),
            Cpu::exec_post(*old(self), *final(self), Op::LoadA(p), 0),
    {
        proof {
            reveal(Cpu::exec_post);
        }
        let hl = self.hl();
        let addr = if p == 0 { self.bc() } else if p == 1 { self.de() } else { hl };
        let regs = if p == 2 {
            with_r16_exec(self.regs, 2, hl.wrapping_add(1))
        } else if p == 3 {
            with_r16_exec(self.regs, 2, hl.wrapping_sub(1))
        } else {
            self.regs
        };
        let v = self.mmu.read(addr);
        self.regs = Registers { a: v, ..regs };
    }

    fn jp_cond(&mut self, cc: u8) -> (extra: u8)
        requires
            old(self).wf(),
            cc < 4,
        ensures
            final(self).wf(),
            Cpu::exec_post(*old(self), *final(self), Op::JpCond(cc), extra),
    {
        proof {
            reveal(Cpu::exec_post);
        }
        let target = self.read_u16();
        if cond_exec(self.flags, cc) {
            self.regs.pc = target;
            4
        } else {
            0
        }
    }

    fn jr(&mut self)
        requires
            old(self).wf(),
        ensures
            final(self).wf(),
            Cpu::exec_post(*old(self), *final(self), Op::Jr, 0),
    {
        proof {
            reveal(Cpu::exec_post);
        }
        let e = self.read_u8();
        self.regs.pc = self.regs.pc.wrapping_add(offset(e));
    }

    fn jr_cond(&mut self, cc: u8) -> (extra: u8)
        requires
            old(self).wf(),
            cc < 4,
        ensures
            final(self).wf(),
            Cpu::exec_post(*old(self), *final(self), Op::JrCond(cc), extra),
    {
        proof {
            reveal(Cpu::exec_post);
        }
        let e = self.read_u8();
        if cond_exec(self.flags, cc) {
            self.regs.pc = self.regs.pc.wrapping_add(offset(e));
            4
        } else {
            0
        }
    }

    fn call_to(&mut self, target: u16, ret: u16)
        requires
            old(self).wf(),
        ensures
            final(self).wf(),
            Cpu::called(*old(self), *final(self), target, ret),
    {
        self.push_word(ret);
        self.regs.pc = target;
    }

    fn call(&mut self)
        requires
            old(self).wf(),
        ensures
            final(self).wf(),
            Cpu::exec_post(*old(self), *final(self), Op::Call, 0),
    {
        proof {
            reveal(Cpu::exec_post);
        }
        let target = self.imm16_exec();
        let ret = self.regs.pc.wrapping_add(2);
        self.call_to(target, ret);
    }

    fn call_cond(&mut self, cc: u8) -> (extra: u8)
        requires
            old(self).wf(),
            cc < 4,
        ensures
            final(self).wf(),
            Cpu::exec_post(*old(self), *final(self), Op::CallCond(cc), extra),
    {
        proof {
            reveal(Cpu::exec_post);
        }
        if cond_exec(self.flags, cc) {
            self.call();
            12
        } else {
            self.regs.pc = self.regs.pc.wrapping_add(2);
            0
        }
    }

    fn ret(&mut self)
        requires
            old(self).wf(),
        ensures
            final(self).wf(),
            Cpu::returned(*old(self), *final(self)),
    {
        self.regs.pc = self.pop_word();
    }

    fn ret_cond(&mut self, cc: u8) -> (extra: u8)
        requires
            old(self).wf(),
            cc < 4,
        ensures
            final(self).wf(),
            Cpu::exec_post(*old(self), *final(self), Op::RetCond(cc), extra),
    {
        proof {
            reveal(Cpu::exec_post);
        }
        if cond_exec(self.flags, cc) {
            self.ret();
            12
        } else {
            0
        }
    }

    fn rst(&mut self, n: u8)
        requires
            old(self).wf(),
            n < 8,
        ensures
            final(self).wf(),
            Cpu::exec_post(*old(self), *final(self), Op::Rst(n), 0),
    {
        proof {
            reveal(Cpu::exec_post);
        }
        let ret = self.regs.pc;
        self.call_to(n as u16 * 8, ret);
    }

    fn pop(&mut self, r: u8)
        requires
            old(self).wf(),
            r < 4,
        ensures
            final(self).wf(),
            Cpu::exec_post(*old(self), *final(self), Op::Pop(r), 0),
    {
        proof {
            reveal(Cpu::exec_post);
        }
        let v = self.pop_word();
        if r == 3 {
            self.set_af(v);
        } else {
            self.regs = with_r16_exec(self.regs, r, v);
        }
    }
}

} // verus!
