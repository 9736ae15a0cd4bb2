//! One step of the processor: wake from halt, service an interrupt, or
//! fetch, decode and execute one instruction.

use vstd::prelude::*;
use crate::cpu::{Cpu, CpuError, Registers, first_source, vector, PREFIX, INTERRUPT_CYCLES, HALTED_CYCLES};
use crate::exec::skip;
use crate::inst::{Instruction, decode, decode_extended, decodes, decodes_extended};
use crate::mmu::Mmu;
use crate::timer::Timer;
use crate::pad::Pad;
use crate::ppu::{Ppu, LineState};
use crate::serial::SerialState;

verus! {

/// `new` is the bus `old` with the request of interrupt source `k`
/// acknowledged (cleared), and nothing else changed.
pub open spec fn acked(old: Mmu, new: Mmu, k: int) -> bool {
    if k == 0 {
        new == Mmu { ppu: Ppu { line: LineState { int_vblank: false, ..old.ppu.line }, ..old.ppu }, ..old }
    } else if k == 1 {
        new == Mmu { ppu: Ppu { line: LineState { int_stat: false, ..old.ppu.line }, ..old.ppu }, ..old }
    } else if k == 2 {
        new == Mmu { timer: Timer { int_tima: false, ..old.timer }, ..old }
    } else if k == 3 {
        new.serial.state == (SerialState { int_serial: false, ..old.serial.state }) && new == Mmu {
            serial: new.serial,
            ..old
        }
    } else {
        new == Mmu { pad: Pad { int_pad: false, ..old.pad }, ..old }
    }
}

impl Cpu {
    /// `new` is `old` after interrupt source `k` was serviced: the program
    /// counter pushed, the jump to the source's vector, the source's request
    /// acknowledged, the master enable and the halted state cleared.
    pub open spec fn serviced(old: Cpu, new: Cpu, k: int) -> bool {
        exists|mid: Mmu|
            #[trigger] Cpu::pushed(old.mmu, mid, old.regs.sp, old.regs.pc) && acked(mid, new.mmu, k) && new == Cpu {
                mmu: new.mmu,
                regs: Registers { pc: vector(k), sp: old.regs.sp.wrapping_sub(2), ..old.regs },
                ime: false,
                halted: false,
                ..old
            }
    }

    /// `old` with the halted state left when an enabled interrupt is
    /// requested, whatever the master enable.
    pub open spec fn woken(old: Cpu) -> Cpu {
        Cpu { halted: old.halted && old.pending() == 0, ..old }
    }

    /// `mid` is `old` with the opcode of `ins` fetched: one byte, or two
    /// after the prefix.
    pub open spec fn fetched(old: Cpu, mid: Cpu, ins: Instruction) -> bool {
        let opcode = old.mmu.read_spec(old.regs.pc);
        let ext = old.mmu.read_spec(old.regs.pc.wrapping_add(1));
        if opcode == PREFIX {
            decodes_extended(ext, ins) && mid == Cpu { regs: skip(old.regs, 2), ..old }
        } else {
            decodes(opcode, ins) && mid == Cpu { regs: skip(old.regs, 1), ..old }
        }
    }

    /// `new` is `old` after the instruction at the program counter ran,
    /// taking `cycles` cycles.
    pub open spec fn stepped(old: Cpu, new: Cpu, cycles: u8) -> bool {
        exists|ins: Instruction, extra: u8, mid: Cpu|
            #![trigger Cpu::fetched(old, mid, ins), Cpu::exec_post(mid, Cpu { cycles: old.cycles, ..new }, ins.op, extra)]
            {
                &&& Cpu::fetched(old, mid, ins)
                &&& Cpu::exec_post(mid, Cpu { cycles: old.cycles, ..new }, ins.op, extra)
                &&& cycles == ins.cycles.wrapping_add(extra)
                &&& new.cycles == cycles
            }
    }

    /// What `clock` does: `new` is the processor after it, `r` its result.
    pub open spec fn clock_post(old: Cpu, new: Cpu, r: Result<u8, CpuError>) -> bool {
        let w = Cpu::woken(old);
        if old.stopped {
            r == Err::<u8, CpuError>(CpuError::Unsupported) && new == old
        } else if old.ime && old.pending() != 0 {
            r == Ok::<u8, CpuError>(INTERRUPT_CYCLES) && Cpu::serviced(w, new, first_source(old.pending()))
        } else if w.halted {
            r == Ok::<u8, CpuError>(HALTED_CYCLES) && new == w
        } else {
            &&& Cpu::stepped(w, new, new.cycles)
            &&& (new.stopped ==> r == Err::<u8, CpuError>(CpuError::Unsupported))
            &&& (!new.stopped ==> r == Ok::<u8, CpuError>(new.cycles))
        }
    }

    /// Runs one step: services the highest-priority pending interrupt when
    /// the master enable is set, stays halted, or runs one instruction. A
    /// STOP instruction, and any step after it, reports `Unsupported`.
    pub fn clock(&mut self) -> (r: Result<u8, CpuError>)
        requires
            old(self).wf(),
        ensures
            final(self).wf(),
            Cpu::clock_post(*old(self), *final(self), r),
    {
        if self.stopped {
            return Err(CpuError::Unsupported);
        }
        let pending = self.mmu.ie & self.mmu.read(0xff0f) & 0x1f;
        if self.halted && pending != 0 {
            self.halted = false;
        }
        if self.ime && pending != 0 {
            self.service(pending);
            return Ok(INTERRUPT_CYCLES);
        }
        if self.halted {
            return Ok(HALTED_CYCLES);
        }
        let cycles = self.fetch_execute();
        if self.stopped {
            Err(CpuError::Unsupported)
        } else {
            Ok(cycles)
        }
    }

    fn fetch_execute(&mut self) -> (cycles: u8)
        requires
            old(self).wf(),
        ensures
            final(self).wf(),
            Cpu::stepped(*old(self), *final(self), cycles),
    {
        let ins = self.fetch();
        let ghost mid = *self;
        let extra = self.execute(ins.op);
        let ghost after = *self;
        self.cycles = ins.cycles.wrapping_add(extra);
        proof {
            assert(after == Cpu { cycles: old(self).cycles, ..*self });
            assert(Cpu::fetched(*old(self), mid, ins));
            assert(Cpu::exec_post(mid, Cpu { cycles: old(self).cycles, ..*self }, ins.op, extra));
        }
        self.cycles
    }

    fn fetch(&mut self) -> (ins: Instruction)
        requires
            old(self).wf(),
        ensures
            final(self).wf(),
            ins.op.wf(),
            Cpu::fetched(*old(self), *final(self), ins),
    {
        let opcode = self.read_u8();
        if opcode == PREFIX {
            let ext = self.read_u8();
            assert(old(self).regs.pc.wrapping_add(1).wrapping_add(1) == old(self).regs.pc.wrapping_add(2));
            decode_extended(ext)
        } else {
            decode(opcode)
        }
    }

    /// Services interrupt source `first_source(pending)`.
    fn service(&mut self, pending: u8)
        requires
            old(self).wf(),
            pending != 0,
        ensures
            final(self).wf(),
            Cpu::serviced(*old(self), *final(self), first_source(pending)),
    {
        let pc = self.regs.pc;
        self.ime = false;
        self.push_word(pc);
        let ghost pushed = self.mmu;
        let k: u8 = if pending & 0x01 != 0 {
            0
        } else if pending & 0x02 != 0 {
            1
        } else if pending & 0x04 != 0 {
            2
        } else if pending & 0x08 != 0 {
            3
        } else {
            4
        };
        self.mmu.ack(k);
        self.regs.pc = 0x40 + 8 * k as u16;
        self.halted = false;
        assert(Cpu::pushed(old(self).mmu, pushed, old(self).regs.sp, old(self).regs.pc));
    }
}

/// With the master enable set and both the V-Blank and the Timer
/// interrupts requested and enabled, one step services V-Blank: the program
/// counter goes to its vector 0x40, its request is cleared, the Timer's
/// request stays, and the master enable is cleared. (The stack pushes must
/// not land on the request register itself.)
pub proof fn lemma_vblank_first(old: Cpu, new: Cpu, r: Result<u8, CpuError>)
    requires
        old.wf(),
        !old.stopped,
        old.ime,
        old.mmu.ie & 0x01 == 0x01,
        old.mmu.ie & 0x04 == 0x04,
        old.mmu.ppu.line.int_vblank,
        old.mmu.timer.int_tima,
        old.regs.sp.wrapping_sub(1) != 0xff0f,
        old.regs.sp.wrapping_sub(2) != 0xff0f,
        Cpu::clock_post(old, new, r),
    ensures
        r == Ok::<u8, CpuError>(INTERRUPT_CYCLES),
        new.regs.pc == 0x40,
        !new.mmu.ppu.line.int_vblank,
        new.mmu.timer.int_tima,
        !new.ime,
{
    let m = old.mmu;
    let iv = m.if_value();
    let ie = m.ie;
    let b = crate::mmu::flag(m.ppu.line.int_stat, 0x02);
    let c = crate::mmu::flag(m.timer.int_tima, 0x04);
    let d = crate::mmu::flag(m.serial.state.int_serial, 0x08);
    let e = crate::mmu::flag(m.pad.int_pad, 0x10);
    assert(iv == (0xe0u8 | 0x01u8 | b | c | d | e));
    assert((ie & iv & 0x1f) & 0x01 != 0 && (ie & iv & 0x1f) != 0) by (bit_vector)
        requires
            iv == (0xe0u8 | 0x01u8 | b | c | d | e),
            ie & 0x01 == 0x01,
    ;
    assert(first_source(old.pending()) == 0);
    let w = Cpu::woken(old);
    let mid = choose|mid: Mmu|
        #[trigger] Cpu::pushed(w.mmu, mid, w.regs.sp, w.regs.pc) && acked(mid, new.mmu, 0) && new == Cpu {
            mmu: new.mmu,
            regs: Registers { pc: vector(0), sp: w.regs.sp.wrapping_sub(2), ..w.regs },
            ime: false,
            halted: false,
            ..w
        };
    let m1 = choose|m1: Mmu|
        #[trigger] Mmu::write_post(w.mmu, m1, w.regs.sp.wrapping_sub(1), (w.regs.pc / 256) as u8) && Mmu::write_post(
            m1,
            mid,
            w.regs.sp.wrapping_sub(2),
            (w.regs.pc % 256) as u8,
        );
    assert(m1.timer.int_tima);
    assert(mid.timer.int_tima);
}

impl Mmu {
    /// Acknowledges the request of interrupt source `k`.
    pub fn ack(&mut self, k: u8)
        requires
            old(self).wf(),
        ensures
            final(self).wf(),
            acked(*old(self), *final(self), k as int),
    {
        if k == 0 {
            self.ppu.line.int_vblank = false;
        } else if k == 1 {
            self.ppu.line.int_stat = false;
        } else if k == 2 {
            self.timer.ack_tima();
        } else if k == 3 {
            self.serial.ack_serial();
        } else {
            self.pad.ack_pad();
        }
    }
}

} // verus!
