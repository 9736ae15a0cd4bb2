//! The memory bus: it owns every addressable device and routes each byte
//! access by address range to exactly one of them.

use vstd::prelude::*;
use crate::apu::Apu;
use crate::pad::Pad;
use crate::ppu::Ppu;
use crate::serial::Serial;
use crate::timer::Timer;

verus! {

pub const BOOT_SIZE: usize = 256;
pub const ROM_SIZE: usize = 32768;
pub const RAM_SIZE: usize = 8192;
pub const ERAM_SIZE: usize = 8192;

/// The byte that reads of unmapped addresses give.
pub const FILL_VALUE: u8 = 0xff;

/// The plain memories on the bus: the boot ROM, the cartridge ROM window,
/// work RAM and cartridge RAM.
pub struct Memory {
    /// While set, the boot ROM overlays the first 256 bytes of the cartridge.
    pub boot_active: bool,
    pub boot: Vec<u8>,
    pub rom: Vec<u8>,
    pub ram: [u8; RAM_SIZE],
    pub eram: [u8; ERAM_SIZE],
}

pub struct Mmu {
    /// The interrupt enable mask.
    pub ie: u8,
    pub ppu: Ppu,
    pub timer: Timer,
    pub pad: Pad,
    pub serial: Serial,
    pub apu: Apu,
    pub memory: Memory,
}

pub open spec fn flag(b: bool, mask: u8) -> u8 {
    if b {
        mask
    } else {
        0
    }
}

impl Mmu {
    pub open spec fn wf(&self) -> bool {
        &&& self.ppu.wf()
        &&& self.timer.wf()
        &&& self.serial.wf()
        &&& self.memory.boot@.len() == BOOT_SIZE
        &&& self.memory.rom@.len() == ROM_SIZE
    }

    pub fn new(ppu: Ppu) -> (r: Self)
        requires
            ppu.wf(),
        ensures
            r.wf(),
            r.ppu == ppu,
            r.ie == 0,
            r.memory.boot_active,
            r.timer == (Timer { div: 0, tima: 0, tma: 0, tac: 0, tima_clock: 0, int_tima: false }),
            !r.pad.int_pad,
            !r.serial.state.int_serial,
            forall|i: int| 0 <= i < BOOT_SIZE ==> #[trigger] r.memory.boot@[i] == 0,
            forall|i: int| 0 <= i < ROM_SIZE ==> #[trigger] r.memory.rom@[i] == 0,
            forall|i: int| 0 <= i < RAM_SIZE ==> #[trigger] r.memory.ram@[i] == 0,
            forall|i: int| 0 <= i < ERAM_SIZE ==> #[trigger] r.memory.eram@[i] == 0,
    {
        Mmu {
            ie: 0,
            ppu,
            timer: Timer::new(),
            pad: Pad::new(),
            serial: Serial::new(),
            apu: Apu::new(),
            memory: Memory {
                boot_active: true,
                boot: vec![0u8; BOOT_SIZE],
                rom: vec![0u8; ROM_SIZE],
                ram: [0u8; RAM_SIZE],
                eram: [0u8; ERAM_SIZE],
            },
        }
    }

    /// Resets every device to its power-on state, clears the RAMs and the
    /// enable mask and maps the boot ROM again; the boot and cartridge
    /// images and the base colors stay.
    pub fn reset(&mut self)
        requires
            old(self).wf(),
        ensures
            final(self).wf(),
            final(self).ie == 0,
            final(self).memory.boot_active,
            final(self).memory.boot == old(self).memory.boot,
            final(self).memory.rom == old(self).memory.rom,
            final(self).ppu.is_power_on(),
            final(self).ppu.colors.palette_colors == old(self).ppu.colors.palette_colors,
            final(self).timer == (Timer { div: 0, tima: 0, tma: 0, tac: 0, tima_clock: 0, int_tima: false }),
            !final(self).pad.int_pad,
            final(self).serial.state == crate::serial::SerialState::power_on(),
            forall|i: int| 0 <= i < RAM_SIZE ==> #[trigger] final(self).memory.ram@[i] == 0,
            forall|i: int| 0 <= i < ERAM_SIZE ==> #[trigger] final(self).memory.eram@[i] == 0,
    {
        self.ie = 0;
        self.ppu.reset();
        self.timer.reset();
        self.pad.reset();
        self.serial.reset();
        self.apu.reset();
        self.memory.boot_active = true;
        self.memory.ram = [0u8; RAM_SIZE];
        self.memory.eram = [0u8; ERAM_SIZE];
    }

    /// The interrupt request register: one bit per source, V-Blank, STAT,
    /// Timer, Serial and Pad from bit 0 up; the top three bits read as 1.
    pub open spec fn if_value(&self) -> u8 {
        0xe0 | flag(self.ppu.line.int_vblank, 0x01) | flag(self.ppu.line.int_stat, 0x02) | flag(
            self.timer.int_tima,
            0x04,
        ) | flag(self.serial.state.int_serial, 0x08) | flag(self.pad.int_pad, 0x10)
    }

    /// The byte that a read of `addr` gives.
    pub open spec fn read_spec(&self, addr: u16) -> u8 {
        if addr < 0x0100 && self.memory.boot_active {
            self.memory.boot@[addr as int]
        } else if addr < 0x8000 {
            self.memory.rom@[addr as int]
        } else if addr <= 0x9fff {
            self.ppu.read_spec(addr)
        } else if addr <= 0xbfff {
            self.memory.eram@[addr - 0xa000]
        } else if addr <= 0xfdff {
            self.memory.ram@[(addr & 0x1fff) as int]
        } else if addr <= 0xfe9f {
            self.ppu.read_spec(addr)
        } else if addr <= 0xfeff {
            FILL_VALUE
        } else if addr == 0xff00 {
            self.pad.read_spec(addr)
        } else if addr == 0xff01 || addr == 0xff02 {
            self.serial.read_spec(addr)
        } else if 0xff04 <= addr <= 0xff07 {
            self.timer.read_spec(addr)
        } else if addr == 0xff0f {
            self.if_value()
        } else if 0xff10 <= addr <= 0xff3f {
            self.apu.read_spec(addr)
        } else if 0xff40 <= addr <= 0xff4f {
            self.ppu.read_spec(addr)
        } else if 0xff80 <= addr <= 0xfffe {
            self.ppu.read_spec(addr)
        } else if addr == 0xffff {
            self.ie
        } else {
            FILL_VALUE
        }
    }

    pub fn read(&self, addr: u16) -> (r: u8)
        requires
            self.wf(),
        ensures
            r == self.read_spec(addr),
    {
        if addr < 0x0100 && self.memory.boot_active {
            self.memory.boot[addr as usize]
        } else if addr < 0x8000 {
            self.memory.rom[addr as usize]
        } else if addr <= 0x9fff {
            self.ppu.read(addr)
        } else if addr <= 0xbfff {
            self.memory.eram[(addr - 0xa000) as usize]
        } else if addr <= 0xfdff {
            assert((addr & 0x1fff) < 8192) by (bit_vector);
            self.memory.ram[(addr & 0x1fff) as usize]
        } else if addr <= 0xfe9f {
            self.ppu.read(addr)
        } else if addr <= 0xfeff {
            FILL_VALUE
        } else if addr == 0xff00 {
            self.pad.read(addr)
        } else if addr == 0xff01 || addr == 0xff02 {
            self.serial.read(addr)
        } else if 0xff04 <= addr && addr <= 0xff07 {
            self.timer.read(addr)
        } else if addr == 0xff0f {
            0xe0 | (if self.ppu.line.int_vblank { 0x01u8 } else { 0u8 }) | (if self.ppu.line.int_stat {
                0x02u8
            } else {
                0u8
            }) | (if self.timer.int_tima { 0x04u8 } else { 0u8 }) | (if self.serial.state.int_serial {
                0x08u8
            } else {
                0u8
            }) | (if self.pad.int_pad { 0x10u8 } else { 0u8 })
        } else if 0xff10 <= addr && addr <= 0xff3f {
            self.apu.read(addr)
        } else if 0xff40 <= addr && addr <= 0xff4f {
            self.ppu.read(addr)
        } else if 0xff80 <= addr && addr <= 0xfffe {
            self.ppu.read(addr)
        } else if addr == 0xffff {
            self.ie
        } else {
            FILL_VALUE
        }
    }

    /// What a write of `value` to `addr` does: `new` is the bus after it.
    /// Writes to the cartridge ROM window and to unmapped addresses are
    /// dropped.
    pub open spec fn write_post(old: Mmu, new: Mmu, addr: u16, value: u8) -> bool {
        if addr < 0x8000 {
            new == old
        } else if addr <= 0x9fff || (0xfe00 <= addr <= 0xfe9f) || (0xff40 <= addr <= 0xff4f) || (0xff80 <= addr
            <= 0xfffe) {
            &&& Ppu::write_post(old.ppu, new.ppu, addr, value)
            &&& new == Mmu { ppu: new.ppu, ..old }
        } else if addr <= 0xbfff {
            &&& new.memory.eram@ == old.memory.eram@.update(addr - 0xa000, value)
            &&& new.memory == Memory { eram: new.memory.eram, ..old.memory }
            &&& new == Mmu { memory: new.memory, ..old }
        } else if addr <= 0xfdff {
            &&& new.memory.ram@ == old.memory.ram@.update((addr & 0x1fff) as int, value)
            &&& new.memory == Memory { ram: new.memory.ram, ..old.memory }
            &&& new == Mmu { memory: new.memory, ..old }
        } else if addr == 0xff00 {
            &&& new.pad == (Pad {
                selection: if value & 0x10 == 0 {
                    crate::pad::PadSelection::Direction
                } else {
                    crate::pad::PadSelection::Action
                },
                ..old.pad
            })
            &&& new == Mmu { pad: new.pad, ..old }
        } else if addr == 0xff01 || addr == 0xff02 {
            &&& crate::serial::SerialState::write_post(old.serial.state, new.serial.state, addr, value)
            &&& new == Mmu { serial: new.serial, ..old }
        } else if 0xff04 <= addr <= 0xff07 {
            &&& Timer::write_post(old.timer, new.timer, addr, value)
            &&& new == Mmu { timer: new.timer, ..old }
        } else if addr == 0xff0f {
            &&& new.ppu == Ppu {
                line: crate::ppu::LineState {
                    int_vblank: value & 0x01 == 0x01,
                    int_stat: value & 0x02 == 0x02,
                    ..old.ppu.line
                },
                ..old.ppu
            }
            &&& new.timer == Timer { int_tima: value & 0x04 == 0x04, ..old.timer }
            &&& new.serial.state == crate::serial::SerialState { int_serial: value & 0x08 == 0x08, ..old.serial.state }
            &&& new.pad == Pad { int_pad: value & 0x10 == 0x10, ..old.pad }
            &&& new == Mmu { ppu: new.ppu, timer: new.timer, serial: new.serial, pad: new.pad, ..old }
        } else if 0xff10 <= addr <= 0xff3f {
            &&& new.apu.registers@ == old.apu.registers@.update(addr - 0xff10, value)
            &&& new == Mmu { apu: new.apu, ..old }
        } else if addr == 0xff50 {
            new == Mmu { memory: Memory { boot_active: false, ..old.memory }, ..old }
        } else if addr == 0xffff {
            new == Mmu { ie: value, ..old }
        } else {
            new == old
        }
    }

    pub fn write(&mut self, addr: u16, value: u8)
        requires
            old(self).wf(),
        ensures
            final(self).wf(),
            Mmu::write_post(*old(self), *final(self), addr, value),
    {
        if addr < 0x8000 {
            // the cartridge ROM is read-only here
        } else if addr <= 0x9fff || (0xfe00 <= addr && addr <= 0xfe9f) || (0xff40 <= addr && addr <= 0xff4f) || (0xff80
            <= addr && addr <= 0xfffe) {
            self.ppu.write(addr, value);
        } else if addr <= 0xbfff {
            self.memory.eram[(addr - 0xa000) as usize] = value;
        } else if addr <= 0xfdff {
            assert((addr & 0x1fff) < 8192) by (bit_vector);
            self.memory.ram[(addr & 0x1fff) as usize] = value;
        } else if addr == 0xff00 {
            self.pad.write(addr, value);
        } else if addr == 0xff01 || addr == 0xff02 {
            self.serial.write(addr, value);
        } else if 0xff04 <= addr && addr <= 0xff07 {
            self.timer.write(addr, value);
        } else if addr == 0xff0f {
            self.write_if(value);
        } else if 0xff10 <= addr && addr <= 0xff3f {
            self.apu.write(addr, value);
        } else if addr == 0xff50 {
            self.memory.boot_active = false;
        } else if addr == 0xffff {
            self.ie = value;
        }
    }

    fn write_if(&mut self, value: u8)
        requires
            old(self).wf(),
        ensures
            final(self).wf(),
            Mmu::write_post(*old(self), *final(self), 0xff0f, value),
    {
        self.ppu.line.int_vblank = value & 0x01 == 0x01;
        self.ppu.line.int_stat = value & 0x02 == 0x02;
        self.timer.int_tima = value & 0x04 == 0x04;
        self.serial.set_int_serial(value & 0x08 == 0x08);
        self.pad.int_pad = value & 0x10 == 0x10;
    }
}


/// Whether `addr` lies in one of the plain memories that state transfer
/// copies byte for byte: VRAM, cartridge RAM, work RAM, OAM or HRAM.
pub open spec fn is_plain(addr: int) -> bool {
    ||| 0x8000 <= addr < 0xa000
    ||| 0xa000 <= addr < 0xc000
    ||| 0xc000 <= addr < 0xe000
    ||| 0xfe00 <= addr < 0xfea0
    ||| 0xff80 <= addr < 0xffff
}

/// Whether the `len` bytes from `addr` lie in one plain memory.
pub open spec fn plain_range(addr: int, len: int) -> bool {
    ||| 0x8000 <= addr && addr + len <= 0xa000
    ||| 0xa000 <= addr && addr + len <= 0xc000
    ||| 0xc000 <= addr && addr + len <= 0xe000
    ||| 0xfe00 <= addr && addr + len <= 0xfea0
    ||| 0xff80 <= addr && addr + len <= 0xffff
}

proof fn lemma_plain_write(old: Mmu, new: Mmu, addr: u16, value: u8)
    requires
        is_plain(addr as int),
        Mmu::write_post(old, new, addr, value),
    ensures
        new.read_spec(addr) == value,
        forall|a: u16| a != addr && is_plain(a as int) ==> #[trigger] new.read_spec(a) == old.read_spec(a),
        new.ie == old.ie,
{
    assert(0x8000 <= addr < 0xa000 ==> (addr & 0x1fff) == addr - 0x8000) by (bit_vector);
    assert(0xc000 <= addr < 0xe000 ==> (addr & 0x1fff) == addr - 0xc000) by (bit_vector);
    assert(0xfe00 <= addr < 0xfea0 ==> (addr & 0x00ff) == addr - 0xfe00) by (bit_vector);
    assert(0xff80 <= addr < 0xffff ==> (addr & 0x007f) == addr - 0xff80) by (bit_vector);
    assert forall|a: u16| a != addr && is_plain(a as int) implies #[trigger] new.read_spec(a) == old.read_spec(a) by {
        assert(0x8000 <= a < 0xa000 ==> (a & 0x1fff) == a - 0x8000) by (bit_vector);
        assert(0xc000 <= a < 0xe000 ==> (a & 0x1fff) == a - 0xc000) by (bit_vector);
        assert(0xfe00 <= a < 0xfea0 ==> (a & 0x00ff) == a - 0xfe00) by (bit_vector);
        assert(0xff80 <= a < 0xffff ==> (a & 0x007f) == a - 0xff80) by (bit_vector);
    }
}

impl Mmu {
    /// The `count` bytes that reads from `addr` on give.
    pub fn read_many(&self, addr: u16, count: u16) -> (r: Vec<u8>)
        requires
            self.wf(),
            addr + count <= 0x10000,
        ensures
            r@.len() == count,
            forall|i: int| 0 <= i < count ==> #[trigger] r@[i] == self.read_spec((addr + i) as u16),
    {
        let mut r: Vec<u8> = Vec::new();
        let mut i: u16 = 0;
        while i < count
            invariant
                self.wf(),
                i <= count,
                addr + count <= 0x10000,
                r@.len() == i,
                forall|j: int| 0 <= j < i ==> #[trigger] r@[j] == self.read_spec((addr + j) as u16),
            decreases count - i,
        {
            r.push(self.read(addr + i));
            i += 1;
        }
        r
    }

    /// Writes `data` from `addr` on, into one plain memory; every other
    /// plain address keeps its byte.
    pub fn write_many(&mut self, addr: u16, data: &[u8])
        requires
            old(self).wf(),
            plain_range(addr as int, data@.len() as int),
        ensures
            final(self).wf(),
            final(self).ie == old(self).ie,
            forall|i: int| 0 <= i < data@.len() ==> #[trigger] final(self).read_spec((addr + i) as u16) == data@[i],
            forall|a: u16|
                is_plain(a as int) && !(addr <= a < addr + data@.len()) ==> #[trigger] final(self).read_spec(a)
                    == old(self).read_spec(a),
    {
        let mut i: usize = 0;
        while i < data.len()
            invariant
                self.wf(),
                i <= data@.len(),
                plain_range(addr as int, data@.len() as int),
                self.ie == old(self).ie,
                forall|j: int| 0 <= j < i ==> #[trigger] self.read_spec((addr + j) as u16) == data@[j],
                forall|a: u16|
                    is_plain(a as int) && !(addr <= a < addr + i) ==> #[trigger] self.read_spec(a) == old(self).read_spec(a),
            decreases data@.len() - i,
        {
            let target = addr + i as u16;
            let ghost before = *self;
            self.write(target, data[i]);
            proof {
                lemma_plain_write(before, *self, target, data@[i as int]);
            }
            i += 1;
        }
    }

    /// A register write without the side effects that LCDC has when
    /// written normally; for restoring state.
    pub fn write_unsafe(&mut self, addr: u16, value: u8)
        requires
            old(self).wf(),
        ensures
            final(self).wf(),
            addr == 0xff40 ==> *final(self) == (Mmu {
                ppu: Ppu { lcd: old(self).ppu.lcd.with_lcdc(value), ..old(self).ppu },
                ..*old(self)
            }),
            addr != 0xff40 ==> Mmu::write_post(*old(self), *final(self), addr, value),
    {
        if addr == 0xff40 {
            self.ppu.lcd.set_lcdc_raw(value);
        } else {
            self.write(addr, value);
        }
    }

    /// Writes the I/O registers from `addr` on with `write_unsafe`.
    pub fn write_many_unsafe(&mut self, addr: u16, data: &[u8])
        requires
            old(self).wf(),
            0xff00 <= addr,
            addr + data@.len() <= 0xff80,
        ensures
            final(self).wf(),
            final(self).ie == old(self).ie,
            forall|a: u16| is_plain(a as int) ==> #[trigger] final(self).read_spec(a) == old(self).read_spec(a),
    {
        let mut i: usize = 0;
        while i < data.len()
            invariant
                self.wf(),
                i <= data@.len(),
                0xff00 <= addr,
                addr + data@.len() <= 0xff80,
                self.ie == old(self).ie,
                forall|a: u16| is_plain(a as int) ==> #[trigger] self.read_spec(a) == old(self).read_spec(a),
            decreases data@.len() - i,
        {
            let target = addr + i as u16;
            let ghost before = *self;
            self.write_unsafe(target, data[i]);
            proof {
                assert forall|a: u16| is_plain(a as int) implies #[trigger] self.read_spec(a) == before.read_spec(a) by {
                    assert(0x8000 <= a < 0xa000 ==> (a & 0x1fff) == a - 0x8000) by (bit_vector);
                    assert(0xc000 <= a < 0xe000 ==> (a & 0x1fff) == a - 0xc000) by (bit_vector);
                    assert(0xfe00 <= a < 0xfea0 ==> (a & 0x00ff) == a - 0xfe00) by (bit_vector);
                    assert(0xff80 <= a < 0xffff ==> (a & 0x007f) == a - 0xff80) by (bit_vector);
                }
            }
            i += 1;
        }
    }
}
} // verus!
