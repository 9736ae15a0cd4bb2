//! The processor: register file, flags, stack, interrupt servicing and the
//! fetch/decode/execute step.

use vstd::prelude::*;
use crate::mmu::Mmu;
use crate::ppu::Ppu;
use crate::timer::Timer;
use crate::pad::Pad;
use crate::apu::Apu;
use crate::serial::Serial;

verus! {

/// The first byte of the two-byte extended opcodes.
pub const PREFIX: u8 = 0xcb;

/// The cycles that servicing an interrupt takes. (A halted processor wakes
/// on any of the five enabled sources, whatever the master enable.)
pub const INTERRUPT_CYCLES: u8 = 24;

/// The cycles that one step of a halted processor takes.
pub const HALTED_CYCLES: u8 = 4;

/// The eight 8-bit registers, the program counter and the stack pointer.
#[derive(Clone, Copy, PartialEq, Eq, Structural, Debug)]
pub struct Registers {
    pub pc: u16,
    pub sp: u16,
    pub a: u8,
    pub b: u8,
    pub c: u8,
    pub d: u8,
    pub e: u8,
    pub h: u8,
    pub l: u8,
}

/// The four condition flags.
#[derive(Clone, Copy, PartialEq, Eq, Structural, Debug)]
pub struct Flags {
    pub zero: bool,
    pub sub: bool,
    pub half_carry: bool,
    pub carry: bool,
}

/// The 16-bit value of a register pair: `hi` is the high byte.
pub open spec fn pair(hi: u8, lo: u8) -> u16 {
    (hi as u16 * 256 + lo as u16) as u16
}

/// The F register for `flags`: zero, subtract, half-carry and carry in bits
/// 7 to 4, the low nibble 0.
pub open spec fn flags_byte(flags: Flags) -> u8 {
    ((if flags.zero { 0x80u8 } else { 0u8 }) | (if flags.sub { 0x40u8 } else { 0u8 }) | (if flags.half_carry {
        0x20u8
    } else {
        0u8
    }) | (if flags.carry { 0x10u8 } else { 0u8 })) as u8
}

/// The flags that a value written to F sets.
pub open spec fn flags_of(value: u8) -> Flags {
    Flags {
        zero: value & 0x80 == 0x80,
        sub: value & 0x40 == 0x40,
        half_carry: value & 0x20 == 0x20,
        carry: value & 0x10 == 0x10,
    }
}

/// The highest-priority interrupt source among the bits of `pending`:
/// V-Blank (0) before STAT (1), Timer (2), Serial (3) and Pad (4).
pub open spec fn first_source(pending: u8) -> int {
    if pending & 0x01 != 0 {
        0
    } else if pending & 0x02 != 0 {
        1
    } else if pending & 0x04 != 0 {
        2
    } else if pending & 0x08 != 0 {
        3
    } else {
        4
    }
}

/// The handler address of interrupt source `k`.
pub open spec fn vector(k: int) -> u16 {
    (0x40 + 8 * k) as u16
}

pub struct Cpu {
    pub regs: Registers,
    pub flags: Flags,
    /// The interrupt master enable.
    pub ime: bool,
    pub halted: bool,
    /// Set once a STOP instruction ran; the processor then refuses to step.
    pub stopped: bool,
    pub mmu: Mmu,
    /// The cycles taken by the last instruction.
    pub cycles: u8,
}

/// The error a step reports.
#[derive(Clone, Copy, PartialEq, Eq, Structural, Debug)]
pub enum CpuError {
    /// STOP is not supported by this core.
    Unsupported,
}

impl Cpu {
    pub open spec fn wf(&self) -> bool {
        self.mmu.wf()
    }

    pub open spec fn af_spec(&self) -> u16 {
        pair(self.regs.a, flags_byte(self.flags))
    }

    pub open spec fn bc_spec(&self) -> u16 {
        pair(self.regs.b, self.regs.c)
    }

    pub open spec fn de_spec(&self) -> u16 {
        pair(self.regs.d, self.regs.e)
    }

    pub open spec fn hl_spec(&self) -> u16 {
        pair(self.regs.h, self.regs.l)
    }

    /// The enabled and requested interrupt sources, one bit each.
    pub open spec fn pending(&self) -> u8 {
        self.mmu.ie & self.mmu.if_value() & 0x1f
    }

    pub fn new(mmu: Mmu) -> (r: Self)
        requires
            mmu.wf(),
        ensures
            r.wf(),
            r.mmu == mmu,
            r.regs == (Registers { pc: 0, sp: 0, a: 0, b: 0, c: 0, d: 0, e: 0, h: 0, l: 0 }),
            r.flags == (Flags { zero: false, sub: false, half_carry: false, carry: false }),
            !r.ime && !r.halted && !r.stopped && r.cycles == 0,
    {
        Cpu {
            regs: Registers { pc: 0, sp: 0, a: 0, b: 0, c: 0, d: 0, e: 0, h: 0, l: 0 },
            flags: Flags { zero: false, sub: false, half_carry: false, carry: false },
            ime: false,
            halted: false,
            stopped: false,
            mmu,
            cycles: 0,
        }
    }

    /// Clears the registers, the flags and the processor state; the bus is
    /// left as it is.
    pub fn reset(&mut self)
        ensures
            final(self).mmu == old(self).mmu,
            final(self).regs == (Registers { pc: 0, sp: 0, a: 0, b: 0, c: 0, d: 0, e: 0, h: 0, l: 0 }),
            final(self).flags == (Flags { zero: false, sub: false, half_carry: false, carry: false }),
            !final(self).ime && !final(self).halted && !final(self).stopped && final(self).cycles == 0,
    {
        self.regs = Registers { pc: 0, sp: 0, a: 0, b: 0, c: 0, d: 0, e: 0, h: 0, l: 0 };
        self.flags = Flags { zero: false, sub: false, half_carry: false, carry: false };
        self.ime = false;
        self.halted = false;
        self.stopped = false;
        self.cycles = 0;
    }

    /// Seeds the registers with the values the boot ROM leaves, disables the
    /// boot ROM and switches the LCD on, so that a cartridge can start
    /// directly.
    pub fn boot(&mut self)
        requires
            old(self).wf(),
        ensures
            final(self).wf(),
            final(self).regs == (Registers {
                pc: 0x0100,
                sp: 0xfffe,
                a: 0x01,
                b: 0xff,
                c: 0x13,
                d: 0x00,
                e: 0xc1,
                h: 0x84,
                l: 0x03,
            }),
            final(self).flags == (Flags { zero: false, sub: false, half_carry: false, carry: false }),
            !final(self).mmu.memory.boot_active,
            final(self).mmu.ppu.lcd == old(self).mmu.ppu.lcd.with_lcdc(0x91),
            final(self).ime == old(self).ime,
            final(self).halted == old(self).halted,
            final(self).stopped == old(self).stopped,
            final(self).cycles == old(self).cycles,
    {
        self.regs = Registers { pc: 0x0100, sp: 0xfffe, a: 0x01, b: 0xff, c: 0x13, d: 0x00, e: 0xc1, h: 0x84, l: 0x03 };
        self.flags = Flags { zero: false, sub: false, half_carry: false, carry: false };
        self.mmu.write(0xff50, 0x01);
        self.mmu.write(0xff40, 0x91);
    }

    pub fn mmu(&mut self) -> (r: &mut Mmu)
        ensures
            *r == old(self).mmu,
            *final(self) == (Cpu { mmu: *final(r), ..*old(self) }),
    {
        &mut self.mmu
    }

    pub fn mmu_i(&self) -> (r: &Mmu)
        ensures
            *r == self.mmu,
    {
        &self.mmu
    }

    pub fn ppu(&mut self) -> (r: &mut Ppu)
        ensures
            *r == old(self).mmu.ppu,
            *final(self) == (Cpu { mmu: Mmu { ppu: *final(r), ..old(self).mmu }, ..*old(self) }),
    {
        &mut self.mmu.ppu
    }

    pub fn apu(&mut self) -> (r: &mut Apu)
        ensures
            *r == old(self).mmu.apu,
            *final(self) == (Cpu { mmu: Mmu { apu: *final(r), ..old(self).mmu }, ..*old(self) }),
    {
        &mut self.mmu.apu
    }

    pub fn apu_i(&self) -> (r: &Apu)
        ensures
            *r == self.mmu.apu,
    {
        &self.mmu.apu
    }

    pub fn pad(&mut self) -> (r: &mut Pad)
        ensures
            *r == old(self).mmu.pad,
            *final(self) == (Cpu { mmu: Mmu { pad: *final(r), ..old(self).mmu }, ..*old(self) }),
    {
        &mut self.mmu.pad
    }

    pub fn timer(&mut self) -> (r: &mut Timer)
        ensures
            *r == old(self).mmu.timer,
            *final(self) == (Cpu { mmu: Mmu { timer: *final(r), ..old(self).mmu }, ..*old(self) }),
    {
        &mut self.mmu.timer
    }

    pub fn serial(&mut self) -> (r: &mut Serial)
        ensures
            *r == old(self).mmu.serial,
            *final(self) == (Cpu { mmu: Mmu { serial: *final(r), ..old(self).mmu }, ..*old(self) }),
    {
        &mut self.mmu.serial
    }
    pub fn halted(&self) -> (r: bool)
        ensures
            r == self.halted,
    {
        self.halted
    }

    pub fn cycles(&self) -> (r: u8)
        ensures
            r == self.cycles,
    {
        self.cycles
    }

    pub fn pc(&self) -> (r: u16)
        ensures
            r == self.regs.pc,
    {
        self.regs.pc
    }

    pub fn set_pc(&mut self, value: u16)
        ensures
            *final(self) == (Cpu { regs: Registers { pc: value, ..old(self).regs }, ..*old(self) }),
    {
        self.regs.pc = value;
    }

    pub fn sp(&self) -> (r: u16)
        ensures
            r == self.regs.sp,
    {
        self.regs.sp
    }

    pub fn set_sp(&mut self, value: u16)
        ensures
            *final(self) == (Cpu { regs: Registers { sp: value, ..old(self).regs }, ..*old(self) }),
    {
        self.regs.sp = value;
    }

    pub fn ime(&self) -> (r: bool)
        ensures
            r == self.ime,
    {
        self.ime
    }

    pub fn set_ime(&mut self, value: bool)
        ensures
            *final(self) == (Cpu { ime: value, ..*old(self) }),
    {
        self.ime = value;
    }

    pub fn set_halted(&mut self, value: bool)
        ensures
            *final(self) == (Cpu { halted: value, ..*old(self) }),
    {
        self.halted = value;
    }

    pub fn stopped(&self) -> (r: bool)
        ensures
            r == self.stopped,
    {
        self.stopped
    }

    pub fn af(&self) -> (r: u16)
        ensures
            r == self.af_spec(),
    {
        (self.regs.a as u16) * 256 + self.f() as u16
    }

    pub fn bc(&self) -> (r: u16)
        ensures
            r == self.bc_spec(),
    {
        (self.regs.b as u16) * 256 + self.regs.c as u16
    }

    pub fn de(&self) -> (r: u16)
        ensures
            r == self.de_spec(),
    {
        (self.regs.d as u16) * 256 + self.regs.e as u16
    }

    pub fn hl(&self) -> (r: u16)
        ensures
            r == self.hl_spec(),
    {
        (self.regs.h as u16) * 256 + self.regs.l as u16
    }

    pub fn f(&self) -> (r: u8)
        ensures
            r == flags_byte(self.flags),
    {
        (if self.flags.zero { 0x80u8 } else { 0u8 }) | (if self.flags.sub { 0x40u8 } else { 0u8 }) | (if self.flags.half_carry {
            0x20u8
        } else {
            0u8
        }) | (if self.flags.carry { 0x10u8 } else { 0u8 })
    }

    pub fn set_f(&mut self, value: u8)
        ensures
            final(self).flags == flags_of(value),
            final(self).regs == old(self).regs,
            final(self).mmu == old(self).mmu,
            final(self).ime == old(self).ime,
            final(self).halted == old(self).halted,
            final(self).stopped == old(self).stopped,
            final(self).cycles == old(self).cycles,
    {
        self.flags = Flags {
            zero: value & 0x80 == 0x80,
            sub: value & 0x40 == 0x40,
            half_carry: value & 0x20 == 0x20,
            carry: value & 0x10 == 0x10,
        };
    }

    pub fn set_af(&mut self, value: u16)
        ensures
            final(self).regs == (Registers { a: (value / 256) as u8, ..old(self).regs }),
            final(self).flags == flags_of((value % 256) as u8),
            final(self).mmu == old(self).mmu,
            final(self).ime == old(self).ime,
            final(self).halted == old(self).halted,
            final(self).stopped == old(self).stopped,
            final(self).cycles == old(self).cycles,
    {
        self.regs.a = (value / 256) as u8;
        self.set_f((value % 256) as u8);
    }

    pub fn set_bc(&mut self, value: u16)
        ensures
            final(self).regs == (Registers { b: (value / 256) as u8, c: (value % 256) as u8, ..old(self).regs }),
            final(self).flags == old(self).flags,
            final(self).mmu == old(self).mmu,
            final(self).ime == old(self).ime,
            final(self).halted == old(self).halted,
            final(self).stopped == old(self).stopped,
            final(self).cycles == old(self).cycles,
    {
        self.regs.b = (value / 256) as u8;
        self.regs.c = (value % 256) as u8;
    }

    pub fn set_de(&mut self, value: u16)
        ensures
            final(self).regs == (Registers { d: (value / 256) as u8, e: (value % 256) as u8, ..old(self).regs }),
            final(self).flags == old(self).flags,
            final(self).mmu == old(self).mmu,
            final(self).ime == old(self).ime,
            final(self).halted == old(self).halted,
            final(self).stopped == old(self).stopped,
            final(self).cycles == old(self).cycles,
    {
        self.regs.d = (value / 256) as u8;
        self.regs.e = (value % 256) as u8;
    }

    pub fn set_hl(&mut self, value: u16)
        ensures
            final(self).regs == (Registers { h: (value / 256) as u8, l: (value % 256) as u8, ..old(self).regs }),
            final(self).flags == old(self).flags,
            final(self).mmu == old(self).mmu,
            final(self).ime == old(self).ime,
            final(self).halted == old(self).halted,
            final(self).stopped == old(self).stopped,
            final(self).cycles == old(self).cycles,
    {
        self.regs.h = (value / 256) as u8;
        self.regs.l = (value % 256) as u8;
    }

    /// Fetches the byte at the program counter and moves past it.
    pub fn read_u8(&mut self) -> (r: u8)
        requires
            old(self).wf(),
        ensures
            r == old(self).mmu.read_spec(old(self).regs.pc),
            final(self).regs == (Registers { pc: old(self).regs.pc.wrapping_add(1), ..old(self).regs }),
            final(self).flags == old(self).flags,
            final(self).mmu == old(self).mmu,
            final(self).ime == old(self).ime,
            final(self).halted == old(self).halted,
            final(self).stopped == old(self).stopped,
            final(self).cycles == old(self).cycles,
    {
        let byte = self.mmu.read(self.regs.pc);
        self.regs.pc = self.regs.pc.wrapping_add(1);
        byte
    }

    /// Fetches the little-endian word at the program counter and moves past
    /// it.
    pub fn read_u16(&mut self) -> (r: u16)
        requires
            old(self).wf(),
        ensures
            r == pair(
                old(self).mmu.read_spec(old(self).regs.pc.wrapping_add(1)),
                old(self).mmu.read_spec(old(self).regs.pc),
            ),
            final(self).regs == (Registers { pc: old(self).regs.pc.wrapping_add(2), ..old(self).regs }),
            final(self).flags == old(self).flags,
            final(self).mmu == old(self).mmu,
            final(self).ime == old(self).ime,
            final(self).halted == old(self).halted,
            final(self).stopped == old(self).stopped,
            final(self).cycles == old(self).cycles,
    {
        let byte1 = self.read_u8();
        let byte2 = self.read_u8();
        assert(old(self).regs.pc.wrapping_add(1).wrapping_add(1) == old(self).regs.pc.wrapping_add(2));
        (byte2 as u16) * 256 + byte1 as u16
    }

    /// Pushes `byte` on the stack.
    pub fn push_byte(&mut self, byte: u8)
        requires
            old(self).wf(),
        ensures
            final(self).wf(),
            final(self).regs == (Registers { sp: old(self).regs.sp.wrapping_sub(1), ..old(self).regs }),
            Mmu::write_post(old(self).mmu, final(self).mmu, old(self).regs.sp.wrapping_sub(1), byte),
            final(self).flags == old(self).flags,
            final(self).ime == old(self).ime,
            final(self).halted == old(self).halted,
            final(self).stopped == old(self).stopped,
            final(self).cycles == old(self).cycles,
    {
        self.regs.sp = self.regs.sp.wrapping_sub(1);
        self.mmu.write(self.regs.sp, byte);
    }

    /// Pushes `word` on the stack, high byte first.
    pub fn push_word(&mut self, word: u16)
        requires
            old(self).wf(),
        ensures
            final(self).wf(),
            final(self).regs == (Registers { sp: old(self).regs.sp.wrapping_sub(2), ..old(self).regs }),
            Cpu::pushed(old(self).mmu, final(self).mmu, old(self).regs.sp, word),
            final(self).flags == old(self).flags,
            final(self).ime == old(self).ime,
            final(self).halted == old(self).halted,
            final(self).stopped == old(self).stopped,
            final(self).cycles == old(self).cycles,
    {
        let ghost m0 = self.mmu;
        self.push_byte((word / 256) as u8);
        let ghost m1 = self.mmu;
        self.push_byte((word % 256) as u8);
        assert(old(self).regs.sp.wrapping_sub(1).wrapping_sub(1) == old(self).regs.sp.wrapping_sub(2));
        assert(Mmu::write_post(m0, m1, old(self).regs.sp.wrapping_sub(1), (word / 256) as u8) && Mmu::write_post(
            m1,
            self.mmu,
            old(self).regs.sp.wrapping_sub(2),
            (word % 256) as u8,
        ));
    }

    /// `new` is the bus after `word` was pushed, high byte first, on a stack
    /// whose pointer was `sp`.
    pub open spec fn pushed(old: Mmu, new: Mmu, sp: u16, word: u16) -> bool {
        exists|mid: Mmu|
            #[trigger] Mmu::write_post(old, mid, sp.wrapping_sub(1), (word / 256) as u8) && Mmu::write_post(
                mid,
                new,
                sp.wrapping_sub(2),
                (word % 256) as u8,
            )
    }

    /// Pops a byte from the stack.
    pub fn pop_byte(&mut self) -> (r: u8)
        requires
            old(self).wf(),
        ensures
            r == old(self).mmu.read_spec(old(self).regs.sp),
            final(self).regs == (Registers { sp: old(self).regs.sp.wrapping_add(1), ..old(self).regs }),
            final(self).flags == old(self).flags,
            final(self).mmu == old(self).mmu,
            final(self).ime == old(self).ime,
            final(self).halted == old(self).halted,
            final(self).stopped == old(self).stopped,
            final(self).cycles == old(self).cycles,
    {
        let byte = self.mmu.read(self.regs.sp);
        self.regs.sp = self.regs.sp.wrapping_add(1);
        byte
    }

    /// Pops a word from the stack, low byte first.
    pub fn pop_word(&mut self) -> (r: u16)
        requires
            old(self).wf(),
        ensures
            r == pair(
                old(self).mmu.read_spec(old(self).regs.sp.wrapping_add(1)),
                old(self).mmu.read_spec(old(self).regs.sp),
            ),
            final(self).regs == (Registers { sp: old(self).regs.sp.wrapping_add(2), ..old(self).regs }),
            final(self).flags == old(self).flags,
            final(self).mmu == old(self).mmu,
            final(self).ime == old(self).ime,
            final(self).halted == old(self).halted,
            final(self).stopped == old(self).stopped,
            final(self).cycles == old(self).cycles,
    {
        let lo = self.pop_byte();
        let hi = self.pop_byte();
        assert(old(self).regs.sp.wrapping_add(1).wrapping_add(1) == old(self).regs.sp.wrapping_add(2));
        (hi as u16) * 256 + lo as u16
    }

    pub fn get_zero(&self) -> (r: bool)
        ensures
            r == self.flags.zero,
    {
        self.flags.zero
    }

    pub fn set_zero(&mut self, value: bool)
        ensures
            *final(self) == (Cpu { flags: Flags { zero: value, ..old(self).flags }, ..*old(self) }),
    {
        self.flags.zero = value;
    }

    pub fn get_sub(&self) -> (r: bool)
        ensures
            r == self.flags.sub,
    {
        self.flags.sub
    }

    pub fn set_sub(&mut self, value: bool)
        ensures
            *final(self) == (Cpu { flags: Flags { sub: value, ..old(self).flags }, ..*old(self) }),
    {
        self.flags.sub = value;
    }

    pub fn get_half_carry(&self) -> (r: bool)
        ensures
            r == self.flags.half_carry,
    {
        self.flags.half_carry
    }

    pub fn set_half_carry(&mut self, value: bool)
        ensures
            *final(self) == (Cpu { flags: Flags { half_carry: value, ..old(self).flags }, ..*old(self) }),
    {
        self.flags.half_carry = value;
    }

    pub fn get_carry(&self) -> (r: bool)
        ensures
            r == self.flags.carry,
    {
        self.flags.carry
    }

    pub fn set_carry(&mut self, value: bool)
        ensures
            *final(self) == (Cpu { flags: Flags { carry: value, ..old(self).flags }, ..*old(self) }),
    {
        self.flags.carry = value;
    }

    pub fn halt(&mut self)
        ensures
            *final(self) == (Cpu { halted: true, ..*old(self) }),
    {
        self.halted = true;
    }

    /// Marks the processor stopped: STOP is not supported, and every later
    /// step reports it.
    pub fn stop(&mut self)
        ensures
            *final(self) == (Cpu { stopped: true, ..*old(self) }),
    {
        self.stopped = true;
    }

    pub fn enable_int(&mut self)
        ensures
            *final(self) == (Cpu { ime: true, ..*old(self) }),
    {
        self.ime = true;
    }

    pub fn disable_int(&mut self)
        ensures
            *final(self) == (Cpu { ime: false, ..*old(self) }),
    {
        self.ime = false;
    }
}

/// Writing a pair and reading it back gives the value written, and the high
/// byte lands in the first register of the pair: BC, DE and HL hold any
/// 16-bit value; AF keeps only the flag bits of its low byte.
pub proof fn lemma_pair_round_trip(value: u16)
    ensures
        pair((value / 256) as u8, (value % 256) as u8) == value,
        pair((value / 256) as u8, flags_byte(flags_of((value % 256) as u8))) == value & 0xfff0,
{
    let lo = (value % 256) as u8;
    lemma_flags_round_trip(lo);
    assert(pair((value / 256) as u8, lo & 0xf0) == value & 0xfff0) by (bit_vector)
        requires lo == (value % 256) as u8;
}

/// Reading a pair and writing the result back changes nothing: the high
/// byte goes to the first register and the low byte to the second.
pub proof fn lemma_pair_set_get(hi: u8, lo: u8, flags: Flags)
    ensures
        (pair(hi, lo) / 256) as u8 == hi,
        (pair(hi, lo) % 256) as u8 == lo,
        flags_of((pair(hi, flags_byte(flags)) % 256) as u8) == flags,
{
    lemma_flags_byte_round_trip(flags);
}

/// A value written to F reads back with its low nibble cleared: only the
/// four flag bits are kept.
pub proof fn lemma_flags_round_trip(value: u8)
    ensures
        flags_byte(flags_of(value)) == value & 0xf0,
{
    assert(((if value & 0x80 == 0x80 { 0x80u8 } else { 0u8 }) | (if value & 0x40 == 0x40 { 0x40u8 } else { 0u8 }) | (
    if value & 0x20 == 0x20 { 0x20u8 } else { 0u8 }) | (if value & 0x10 == 0x10 { 0x10u8 } else { 0u8 })) == value
        & 0xf0) by (bit_vector);
}

/// The F register decodes back to the flags it was built from.
pub proof fn lemma_flags_byte_round_trip(flags: Flags)
    ensures
        flags_of(flags_byte(flags)) == flags,
{
    let z = flags.zero;
    let n = flags.sub;
    let h = flags.half_carry;
    let c = flags.carry;
    let f = flags_byte(flags);
    assert(f & 0x80 == 0x80 <==> z) by (bit_vector)
        requires f == ((if z { 0x80u8 } else { 0u8 }) | (if n { 0x40u8 } else { 0u8 }) | (if h { 0x20u8 } else { 0u8 }) | (if c { 0x10u8 } else { 0u8 }));
    assert(f & 0x40 == 0x40 <==> n) by (bit_vector)
        requires f == ((if z { 0x80u8 } else { 0u8 }) | (if n { 0x40u8 } else { 0u8 }) | (if h { 0x20u8 } else { 0u8 }) | (if c { 0x10u8 } else { 0u8 }));
    assert(f & 0x20 == 0x20 <==> h) by (bit_vector)
        requires f == ((if z { 0x80u8 } else { 0u8 }) | (if n { 0x40u8 } else { 0u8 }) | (if h { 0x20u8 } else { 0u8 }) | (if c { 0x10u8 } else { 0u8 }));
    assert(f & 0x10 == 0x10 <==> c) by (bit_vector)
        requires f == ((if z { 0x80u8 } else { 0u8 }) | (if n { 0x40u8 } else { 0u8 }) | (if h { 0x20u8 } else { 0u8 }) | (if c { 0x10u8 } else { 0u8 }));
}

} // verus!
