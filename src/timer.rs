//! The programmable timer: a free-running divider and a counter that
//! reloads from a modulo register and requests an interrupt on overflow.

use vstd::prelude::*;
use vstd::arithmetic::div_mod::lemma_fundamental_div_mod_converse;

verus! {

/// The counter value after `n` ticks from `tima`: past 0xff it reloads
/// from `tma`.
pub open spec fn tima_after(tima: u8, tma: u8, n: nat) -> u8
    decreases n,
{
    if n == 0 {
        tima
    } else {
        let t = tima_after(tima, tma, (n - 1) as nat);
        if t == 0xff {
            tma
        } else {
            (t + 1) as u8
        }
    }
}

/// Whether one of `n` ticks from `tima` overflows the counter.
pub open spec fn overflows(tima: u8, tma: u8, n: nat) -> bool
    decreases n,
{
    if n == 0 {
        false
    } else {
        overflows(tima, tma, (n - 1) as nat) || tima_after(tima, tma, (n - 1) as nat) == 0xff
    }
}

/// The number of cycles per counter tick that TAC value `tac` selects.
pub open spec fn ratio_of(tac: u8) -> u16 {
    let sel = tac & 0x03;
    if sel == 0 {
        1024
    } else if sel == 1 {
        16
    } else if sel == 2 {
        64
    } else {
        256
    }
}

pub struct Timer {
    /// The divider, one count per cycle; DIV shows its high byte.
    pub div: u16,
    pub tima: u8,
    pub tma: u8,
    pub tac: u8,
    /// Cycles accumulated towards the next counter tick.
    pub tima_clock: u16,
    pub int_tima: bool,
}

impl Timer {
    /// Cycles accumulated towards the next tick never reach the slowest
    /// rate.
    pub open spec fn wf(&self) -> bool {
        self.tima_clock < 1024
    }

    pub open spec fn enabled(&self) -> bool {
        self.tac & 0x04 == 0x04
    }

    pub fn new() -> (r: Self)
        ensures
            r.wf(),
            r == (Timer { div: 0, tima: 0, tma: 0, tac: 0, tima_clock: 0, int_tima: false }),
    {
        Timer { div: 0, tima: 0, tma: 0, tac: 0, tima_clock: 0, int_tima: false }
    }

    pub fn reset(&mut self)
        ensures
            final(self).wf(),
            *final(self) == (Timer { div: 0, tima: 0, tma: 0, tac: 0, tima_clock: 0, int_tima: false }),
    {
        *self = Timer::new();
    }

    /// What `clock(cycles)` does: the divider counts every cycle; when
    /// enabled, the counter ticks once per `ratio_of(tac)` cycles
    /// accumulated, reloading from TMA and requesting the interrupt past
    /// 0xff.
    pub open spec fn clock_post(old: Timer, new: Timer, cycles: u8) -> bool {
        &&& new.div == old.div.wrapping_add(cycles as u16)
        &&& new.tma == old.tma
        &&& new.tac == old.tac
        &&& !old.enabled() ==> new.tima == old.tima && new.tima_clock == old.tima_clock && new.int_tima == old.int_tima
        &&& old.enabled() ==> ({
            let total = old.tima_clock + cycles;
            let ratio = ratio_of(old.tac) as int;
            let ticks = (total / ratio) as nat;
            &&& new.tima_clock == total % ratio
            &&& new.tima == tima_after(old.tima, old.tma, ticks)
            &&& new.int_tima == (old.int_tima || overflows(old.tima, old.tma, ticks))
        })
    }

    /// Advances the divider and, when enabled, the counter by `cycles`.
    pub fn clock(&mut self, cycles: u8)
        requires
            old(self).wf(),
        ensures
            final(self).wf(),
            Timer::clock_post(*old(self), *final(self), cycles),
    {
        self.div = self.div.wrapping_add(cycles as u16);
        if self.tac & 0x04 != 0x04 {
            return;
        }
        let ratio = self.ratio();
        let ghost total = old(self).tima_clock + cycles;
        let ghost tima0 = self.tima;
        let mut clk = self.tima_clock + cycles as u16;
        let mut k: u16 = 0;
        while clk >= ratio
            invariant
                16 <= ratio <= 1024,
                ratio == ratio_of(self.tac),
                clk + k * ratio == total,
                total < 1024 + 256,
                self.tma == old(self).tma,
                self.tac == old(self).tac,
                self.div == old(self).div.wrapping_add(cycles as u16),
                self.tima == tima_after(tima0, self.tma, k as nat),
                self.int_tima == (old(self).int_tima || overflows(tima0, self.tma, k as nat)),
            decreases clk,
        {
            if self.tima == 0xff {
                self.int_tima = true;
                self.tima = self.tma;
            } else {
                self.tima = self.tima + 1;
            }
            clk = clk - ratio;
            assert(k + 1 <= total) by (nonlinear_arith)
                requires
                    clk + (k + 1) * ratio == total,
                    ratio >= 1,
            ;
            k = k + 1;
        }
        proof {
            lemma_fundamental_div_mod_converse(total as int, ratio as int, k as int, clk as int);
        }
        self.tima_clock = clk;
    }

    fn ratio(&self) -> (r: u16)
        ensures
            r == ratio_of(self.tac),
            16 <= r <= 1024,
    {
        let sel = self.tac & 0x03;
        if sel == 0 {
            1024
        } else if sel == 1 {
            16
        } else if sel == 2 {
            64
        } else {
            256
        }
    }

    /// The byte that a read of `addr` gives.
    pub open spec fn read_spec(&self, addr: u16) -> u8 {
        if addr == 0xff04 {
            (self.div >> 8) as u8
        } else if addr == 0xff05 {
            self.tima
        } else if addr == 0xff06 {
            self.tma
        } else if addr == 0xff07 {
            self.tac | 0xf8
        } else {
            0xff
        }
    }

    pub fn read(&self, addr: u16) -> (r: u8)
        ensures
            r == self.read_spec(addr),
    {
        if addr == 0xff04 {
            (self.div >> 8) as u8
        } else if addr == 0xff05 {
            self.tima
        } else if addr == 0xff06 {
            self.tma
        } else if addr == 0xff07 {
            self.tac | 0xf8
        } else {
            0xff
        }
    }

    /// What a write of `value` to `addr` does. A write to DIV clears the
    /// divider; a write to TAC takes effect from the next cycle on.
    pub open spec fn write_post(old: Timer, new: Timer, addr: u16, value: u8) -> bool {
        if addr == 0xff04 {
            new == Timer { div: 0, ..old }
        } else if addr == 0xff05 {
            new == Timer { tima: value, ..old }
        } else if addr == 0xff06 {
            new == Timer { tma: value, ..old }
        } else if addr == 0xff07 {
            new == Timer { tac: value & 0x07, ..old }
        } else {
            new == old
        }
    }

    pub fn write(&mut self, addr: u16, value: u8)
        requires
            old(self).wf(),
        ensures
            final(self).wf(),
            Timer::write_post(*old(self), *final(self), addr, value),
    {
        if addr == 0xff04 {
            self.div = 0;
        } else if addr == 0xff05 {
            self.tima = value;
        } else if addr == 0xff06 {
            self.tma = value;
        } else if addr == 0xff07 {
            self.tac = value & 0x07;
        }
    }

    pub fn int_tima(&self) -> (r: bool)
        ensures
            r == self.int_tima,
    {
        self.int_tima
    }

    pub fn set_int_tima(&mut self, value: bool)
        ensures
            *final(self) == (Timer { int_tima: value, ..*old(self) }),
    {
        self.int_tima = value;
    }

    pub fn ack_tima(&mut self)
        ensures
            *final(self) == (Timer { int_tima: false, ..*old(self) }),
    {
        self.int_tima = false;
    }
}

} // verus!
