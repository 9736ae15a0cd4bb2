//! The audio unit's register file. Sound synthesis happens outside the core;
//! the core keeps what the program writes so that it can be read back.

use vstd::prelude::*;

verus! {

/// The number of audio registers, from 0xff10 to 0xff3f.
pub const APU_REGISTERS: usize = 48;

pub struct Apu {
    pub registers: [u8; APU_REGISTERS],
}

impl Apu {
    pub fn new() -> (r: Self)
        ensures
            forall|i: int| 0 <= i < APU_REGISTERS ==> #[trigger] r.registers@[i] == 0,
    {
        Apu { registers: [0u8; APU_REGISTERS] }
    }

    pub fn reset(&mut self)
        ensures
            forall|i: int| 0 <= i < APU_REGISTERS ==> #[trigger] final(self).registers@[i] == 0,
    {
        *self = Apu::new();
    }

    pub open spec fn read_spec(&self, addr: u16) -> u8 {
        if 0xff10 <= addr <= 0xff3f {
            self.registers@[addr - 0xff10]
        } else {
            0xff
        }
    }

    pub fn read(&self, addr: u16) -> (r: u8)
        ensures
            r == self.read_spec(addr),
    {
        if 0xff10 <= addr && addr <= 0xff3f {
            self.registers[(addr - 0xff10) as usize]
        } else {
            0xff
        }
    }

    pub fn write(&mut self, addr: u16, value: u8)
        ensures
            0xff10 <= addr <= 0xff3f ==> final(self).registers@ == old(self).registers@.update(addr - 0xff10, value),
            !(0xff10 <= addr <= 0xff3f) ==> *final(self) == *old(self),
    {
        if 0xff10 <= addr && addr <= 0xff3f {
            self.registers[(addr - 0xff10) as usize] = value;
        }
    }
}

} // verus!
