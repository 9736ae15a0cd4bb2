//! The machine: the processor, which owns the bus and its devices, stepped
//! together with the video unit, the timer and the serial link.

use vstd::prelude::*;
use crate::cpu::{Cpu, CpuError};
use crate::mmu::{Mmu, BOOT_SIZE, ROM_SIZE};
use crate::ppu::Ppu;
use crate::timer::Timer;

verus! {

/// How many steps a benchmark run takes.
pub struct Benchmark {
    pub count: usize,
}

impl Benchmark {
    pub fn new(count: usize) -> (r: Self)
        ensures
            r.count == count,
    {
        Benchmark { count }
    }
}

pub struct GameBoy {
    pub cpu: Cpu,
}

impl GameBoy {
    pub open spec fn wf(&self) -> bool {
        self.cpu.wf()
    }

    /// `new` is the processor `c` after the video unit, the timer and the
    /// serial link advanced by the cycles of a successful step; after a
    /// failed one nothing moves.
    pub open spec fn devices_clocked(c: Cpu, new: Cpu, r: Result<u8, CpuError>) -> bool {
        match r {
            Ok(cycles) => {
                &&& Ppu::clock_post(c.mmu.ppu, new.mmu.ppu, cycles)
                &&& Timer::clock_post(c.mmu.timer, new.mmu.timer, cycles)
                &&& new.mmu.serial.state == c.mmu.serial.state.clocked(cycles)
                &&& new.mmu.serial.device == c.mmu.serial.device
                &&& new == Cpu {
                    mmu: Mmu { ppu: new.mmu.ppu, timer: new.mmu.timer, serial: new.mmu.serial, ..c.mmu },
                    ..c
                }
            },
            Err(_) => new == c,
        }
    }

    pub fn new() -> (r: GameBoy)
        ensures
            r.wf(),
            r.cpu.mmu.ppu.is_power_on(),
            r.cpu.regs == (crate::cpu::Registers { pc: 0, sp: 0, a: 0, b: 0, c: 0, d: 0, e: 0, h: 0, l: 0 }),
            r.cpu.flags == (crate::cpu::Flags { zero: false, sub: false, half_carry: false, carry: false }),
            r.cpu.cycles == 0,
            !r.cpu.ime && !r.cpu.halted && !r.cpu.stopped,
            forall|i: int| 0 <= i < ROM_SIZE ==> #[trigger] r.cpu.mmu.memory.rom@[i] == 0,
            forall|i: int| 0 <= i < BOOT_SIZE ==> #[trigger] r.cpu.mmu.memory.boot@[i] == 0,
            r.cpu.mmu.memory.boot_active,
            r.cpu.mmu.ie == 0,
    {
        let ppu = Ppu::new();
        let mmu = Mmu::new(ppu);
        let cpu = Cpu::new(mmu);
        GameBoy { cpu }
    }

    /// Runs one processor step and then advances the video unit, the timer
    /// and the serial link by the cycles it took. A STOP instruction stops
    /// the machine: the step reports `Unsupported` and nothing else moves.
    pub fn clock(&mut self) -> (r: Result<u8, CpuError>)
        requires
            old(self).wf(),
        ensures
            final(self).wf(),
            r is Err ==> final(self).cpu.stopped,
            r is Ok ==> !final(self).cpu.stopped,
            exists|c: Cpu| #[trigger] Cpu::clock_post(old(self).cpu, c, r) && GameBoy::devices_clocked(c, final(self).cpu, r),
    {
        let r = self.cpu.clock();
        let ghost stepped = self.cpu;
        if let Ok(cycles) = r {
            self.cpu.mmu.ppu.clock(cycles);
            self.cpu.mmu.timer.clock(cycles);
            self.cpu.mmu.serial.clock(cycles);
        }
        assert(Cpu::clock_post(old(self).cpu, stepped, r) && GameBoy::devices_clocked(stepped, self.cpu, r));
        r
    }

    /// Resets the processor and every device to the power-on state.
    pub fn reset(&mut self)
        requires
            old(self).wf(),
        ensures
            final(self).wf(),
            final(self).cpu.regs == (crate::cpu::Registers { pc: 0, sp: 0, a: 0, b: 0, c: 0, d: 0, e: 0, h: 0, l: 0 }),
            !final(self).cpu.ime && !final(self).cpu.halted && !final(self).cpu.stopped,
            final(self).cpu.mmu.ie == 0,
            final(self).cpu.mmu.memory.boot_active,
            final(self).cpu.mmu.ppu.is_power_on(),
    {
        self.cpu.reset();
        self.cpu.mmu.reset();
    }

    pub fn cpu(&mut self) -> (r: &mut Cpu)
        ensures
            *r == old(self).cpu,
            final(self).cpu == *final(r),
    {
        &mut self.cpu
    }

    pub fn cpu_i(&self) -> (r: &Cpu)
        ensures
            *r == self.cpu,
    {
        &self.cpu
    }

    /// Copies a boot ROM image in place; bytes past 256 are ignored and
    /// missing ones are left as they were.
    pub fn load_boot(&mut self, data: &[u8])
        requires
            old(self).wf(),
        ensures
            final(self).wf(),
            forall|i: int|
                0 <= i < BOOT_SIZE ==> #[trigger] final(self).cpu.mmu.memory.boot@[i] == if i < data@.len() {
                    data@[i]
                } else {
                    old(self).cpu.mmu.memory.boot@[i]
                },
    {
        self.cpu.mmu.write_boot(data);
    }

    /// Copies a cartridge image into the ROM window; bytes past 32 KiB are
    /// ignored and missing ones are left as they were.
    pub fn load_rom(&mut self, data: &[u8])
        requires
            old(self).wf(),
        ensures
            final(self).wf(),
            forall|i: int|
                0 <= i < ROM_SIZE ==> #[trigger] final(self).cpu.mmu.memory.rom@[i] == if i < data@.len() {
                    data@[i]
                } else {
                    old(self).cpu.mmu.memory.rom@[i]
                },
    {
        self.cpu.mmu.load_rom(data);
    }
}

impl Mmu {
    pub fn write_boot(&mut self, data: &[u8])
        requires
            old(self).wf(),
        ensures
            final(self).wf(),
            forall|i: int|
                0 <= i < BOOT_SIZE ==> #[trigger] final(self).memory.boot@[i] == if i < data@.len() {
                    data@[i]
                } else {
                    old(self).memory.boot@[i]
                },
    {
        let mut i: usize = 0;
        while i < BOOT_SIZE && i < data.len()
            invariant
                self.wf(),
                i <= BOOT_SIZE,
                i <= data@.len(),
                forall|j: int|
                    0 <= j < BOOT_SIZE ==> #[trigger] self.memory.boot@[j] == if j < i {
                        data@[j]
                    } else {
                        old(self).memory.boot@[j]
                    },
            decreases BOOT_SIZE - i,
        {
            self.memory.boot.set(i, data[i]);
            i += 1;
        }
    }

    pub fn load_rom(&mut self, data: &[u8])
        requires
            old(self).wf(),
        ensures
            final(self).wf(),
            forall|i: int|
                0 <= i < ROM_SIZE ==> #[trigger] final(self).memory.rom@[i] == if i < data@.len() {
                    data@[i]
                } else {
                    old(self).memory.rom@[i]
                },
    {
        let mut i: usize = 0;
        while i < ROM_SIZE && i < data.len()
            invariant
                self.wf(),
                i <= ROM_SIZE,
                i <= data@.len(),
                forall|j: int|
                    0 <= j < ROM_SIZE ==> #[trigger] self.memory.rom@[j] == if j < i {
                        data@[j]
                    } else {
                        old(self).memory.rom@[j]
                    },
            decreases ROM_SIZE - i,
        {
            self.memory.rom.set(i, data[i]);
            i += 1;
        }
    }
}

} // verus!
