//! The serial link: a byte shifted out and in one bit per tick, against a
//! pluggable external device.

use vstd::prelude::*;

verus! {

/// The cycles that one bit of a transfer takes with the internal clock.
pub const BIT_CYCLES: u16 = 512;

/// A device at the other end of the serial link.
pub trait SerialDevice {
    /// The byte that the device sends for one transfer.
    fn send(&mut self) -> u8;

    /// Delivers the byte that the link sent.
    fn receive(&mut self, byte: u8);

    /// Whether the device can act as the clock source of a transfer (the
    /// link being the slave); otherwise the link must drive the clock.
    spec fn allows_slave(&self) -> bool;

    fn allow_slave(&self) -> (r: bool)
        ensures
            r == self.allows_slave(),
    ;

    /// A short description of the device.
    fn description(&self) -> String;
}

/// The registers and progress of a transfer.
#[derive(Clone, Copy)]
pub struct SerialState {
    pub data: u8,
    /// Set when the link drives the clock.
    pub shift_clock: bool,
    pub clock_speed: bool,
    pub transferring: bool,
    /// Cycles left until the next bit moves.
    pub timer: i16,
    pub length: u16,
    /// The bits of the current byte moved so far.
    pub bit_count: u8,
    /// The byte that the device sent for the current transfer.
    pub byte_receive: u8,
    pub int_serial: bool,
}

impl SerialState {
    pub open spec fn wf(&self) -> bool {
        self.bit_count < 8 && self.length <= BIT_CYCLES
    }

    pub open spec fn power_on() -> SerialState {
        SerialState {
            data: 0,
            shift_clock: false,
            clock_speed: false,
            transferring: false,
            timer: 0,
            length: BIT_CYCLES,
            bit_count: 0,
            byte_receive: 0,
            int_serial: false,
        }
    }

    /// One bit moved; after the eighth the transfer ends and requests the
    /// serial interrupt.
    pub open spec fn ticked(self) -> SerialState {
        if self.bit_count + 1 == 8 {
            SerialState { transferring: false, length: 0, bit_count: 0, int_serial: true, ..self }
        } else {
            SerialState { bit_count: (self.bit_count + 1) as u8, ..self }
        }
    }

    /// The state after `cycles` more cycles: a running transfer counts them
    /// down and, when the count runs out, shifts the next received bit into
    /// the data register and starts the next count.
    pub open spec fn clocked(self, cycles: u8) -> SerialState {
        let t = self.timer - cycles;
        let timer = if t < -32768 { -32768 } else { t };
        if !self.transferring {
            self
        } else if timer > 0 {
            SerialState { timer: timer as i16, ..self }
        } else {
            let bit = (self.byte_receive >> (7 - self.bit_count) as u8) & 1;
            let shifted = SerialState { data: ((self.data as u16 * 2) as u8 | bit) as u8, ..self };
            SerialState { timer: shifted.ticked().length as i16, ..shifted.ticked() }
        }
    }

    /// What a write of `value` to `addr` does to the link's registers. On
    /// SC the transfer starts only on request (bit 7) and, on the external
    /// clock, only if the device can drive it (see `Serial::write`); a
    /// started transfer resets its progress, an ignored one leaves the data
    /// as it was.
    pub open spec fn write_post(s: SerialState, n: SerialState, addr: u16, value: u8) -> bool {
        if addr & 0x00ff == 0x01 {
            n == SerialState { data: value, ..s }
        } else if addr & 0x00ff == 0x02 {
            &&& n.shift_clock == (value & 0x01 == 0x01)
            &&& n.clock_speed == (value & 0x02 == 0x02)
            &&& (n.transferring ==> value & 0x80 == 0x80)
            &&& (value & 0x81 == 0x81 ==> n.transferring)
            &&& n.data == s.data
            &&& n.int_serial == s.int_serial
            &&& if n.transferring {
                n.length == BIT_CYCLES && n.bit_count == 0 && n.timer == BIT_CYCLES
            } else {
                n == SerialState { shift_clock: n.shift_clock, clock_speed: n.clock_speed, transferring: false, ..s }
            }
        } else {
            n == s
        }
    }

    /// The control register.
    pub open spec fn control(&self) -> u8 {
        (if self.shift_clock { 0x01u8 } else { 0u8 }) | (if self.clock_speed { 0x02u8 } else { 0u8 }) | (if self.transferring {
            0x80u8
        } else {
            0u8
        })
    }
}

fn power_on_state() -> (r: SerialState)
    ensures
        r == SerialState::power_on(),
{
    SerialState {
        data: 0,
        shift_clock: false,
        clock_speed: false,
        transferring: false,
        timer: 0,
        length: BIT_CYCLES,
        bit_count: 0,
        byte_receive: 0,
        int_serial: false,
    }
}

fn tick(s: SerialState) -> (r: SerialState)
    requires
        s.wf(),
    ensures
        r.wf(),
        r == s.ticked(),
{
    let mut r = s;
    r.bit_count = s.bit_count + 1;
    if r.bit_count == 8 {
        r.transferring = false;
        r.length = 0;
        r.bit_count = 0;
        r.int_serial = true;
    }
    r
}

/// The device used when nothing is attached: it sends 0xff, drops what it
/// receives and cannot drive the clock.
pub struct NullDevice {}

impl NullDevice {
    pub fn new() -> (r: Self) {
        NullDevice {  }
    }
}

impl SerialDevice for NullDevice {
    open spec fn allows_slave(&self) -> bool {
        false
    }

    fn send(&mut self) -> u8 {
        0xff
    }

    fn receive(&mut self, _byte: u8) {
    }

    fn allow_slave(&self) -> bool {
        false
    }

    fn description(&self) -> String {
        "Null".to_string()
    }
}

pub struct Serial {
    pub state: SerialState,
    pub device: Box<dyn SerialDevice>,
}

impl Serial {
    pub open spec fn wf(&self) -> bool {
        self.state.wf()
    }

    pub fn new() -> (r: Self)
        ensures
            r.wf(),
            r.state == SerialState::power_on(),
    {
        Serial { state: power_on_state(), device: Box::new(NullDevice::new()) }
    }

    /// Resets the registers; the attached device stays.
    pub fn reset(&mut self)
        ensures
            final(self).wf(),
            final(self).state == SerialState::power_on(),
            final(self).device == old(self).device,
    {
        self.state = power_on_state();
    }

    /// Counts `cycles` down towards the next bit of a running transfer; when
    /// the count runs out the next bit of the received byte is shifted into
    /// the data register.
    pub fn clock(&mut self, cycles: u8)
        requires
            old(self).wf(),
        ensures
            final(self).wf(),
            final(self).state == old(self).state.clocked(cycles),
            final(self).device == old(self).device,
    {
        if !self.state.transferring {
            return;
        }
        let mut s = self.state;
        s.timer = if (s.timer as i32) - (cycles as i32) < -32768 {
            -32768
        } else {
            ((s.timer as i32) - (cycles as i32)) as i16
        };
        if s.timer <= 0 {
            let bit = (s.byte_receive >> (7 - s.bit_count)) & 1;
            s.data = ((s.data as u16 * 2) as u8) | bit;
            s = tick(s);
            s.timer = s.length as i16;
        }
        self.state = s;
    }

    pub open spec fn read_spec(&self, addr: u16) -> u8 {
        if addr & 0x00ff == 0x01 {
            self.state.data
        } else if addr & 0x00ff == 0x02 {
            self.state.control()
        } else {
            0xff
        }
    }

    pub fn read(&self, addr: u16) -> (r: u8)
        ensures
            r == self.read_spec(addr),
    {
        if addr & 0x00ff == 0x01 {
            self.state.data
        } else if addr & 0x00ff == 0x02 {
            (if self.state.shift_clock { 0x01u8 } else { 0u8 }) | (if self.state.clock_speed { 0x02u8 } else { 0u8 })
                | (if self.state.transferring { 0x80u8 } else { 0u8 })
        } else {
            0xff
        }
    }

    /// A write to SB sets the data; a write to SC sets the clock source and
    /// speed and may start a transfer. A transfer on the external clock
    /// starts only if the attached device can drive the clock. When one
    /// starts, the byte to receive is taken from the device and the data
    /// byte is delivered to it at once.
    pub fn write(&mut self, addr: u16, value: u8)
        requires
            old(self).wf(),
        ensures
            final(self).wf(),
            SerialState::write_post(old(self).state, final(self).state, addr, value),
            addr & 0x00ff == 0x02 && value & 0x80 == 0x80 ==> (final(self).state.transferring <==> (value & 0x01
                == 0x01 || old(self).device.allows_slave())),
            addr & 0x00ff != 0x02 ==> final(self).device == old(self).device,
    {
        if addr & 0x00ff == 0x01 {
            self.state.data = value;
        } else if addr & 0x00ff == 0x02 {
            assert(value & 0x81 == 0x81 ==> (value & 0x01 == 0x01 && value & 0x80 == 0x80)) by (bit_vector);
            let shift_clock = value & 0x01 == 0x01;
            let mut transferring = value & 0x80 == 0x80;
            // on the external clock the transfer waits for the device; one
            // that cannot drive the clock never starts it
            if !shift_clock && !self.device.allow_slave() {
                transferring = false;
            }
            self.set_control(shift_clock, value & 0x02 == 0x02, transferring);
            if transferring {
                let byte = self.device.send();
                self.device.receive(self.state.data);
                self.state.byte_receive = byte;
            }
        }
    }

    fn set_control(&mut self, shift_clock: bool, clock_speed: bool, transferring: bool)
        requires
            old(self).wf(),
        ensures
            final(self).wf(),
            transferring ==> final(self).state == (SerialState {
                shift_clock,
                clock_speed,
                transferring,
                length: BIT_CYCLES,
                bit_count: 0,
                timer: BIT_CYCLES as i16,
                ..old(self).state
            }),
            !transferring ==> final(self).state == (SerialState {
                shift_clock,
                clock_speed,
                transferring,
                ..old(self).state
            }),
    {
        let mut s = self.state;
        s.shift_clock = shift_clock;
        s.clock_speed = clock_speed;
        s.transferring = transferring;
        if transferring {
            s.length = BIT_CYCLES;
            s.bit_count = 0;
            s.timer = BIT_CYCLES as i16;
        }
        self.state = s;
    }

    /// The bit that the link puts on the wire: 1 while it drives the clock,
    /// else the top bit of the data register.
    pub fn send(&self) -> (r: bool)
        ensures
            r == (self.state.shift_clock || self.state.data & 0x80 == 0x80),
    {
        if self.state.shift_clock {
            true
        } else {
            self.state.data & 0x80 == 0x80
        }
    }

    /// Takes one bit from the wire when the other side drives the clock.
    pub fn receive(&mut self, bit: bool)
        requires
            old(self).wf(),
        ensures
            final(self).wf(),
            old(self).state.shift_clock ==> final(self).state == old(self).state,
            !old(self).state.shift_clock ==> final(self).state == (SerialState {
                data: ((old(self).state.data as u16 * 2) as u8 | if bit { 1u8 } else { 0u8 }) as u8,
                ..old(self).state
            }).ticked(),
    {
        if !self.state.shift_clock {
            let mut s = self.state;
            s.data = ((s.data as u16 * 2) as u8) | (if bit { 1u8 } else { 0u8 });
            self.state = tick(s);
        }
    }

    pub fn int_serial(&self) -> (r: bool)
        ensures
            r == self.state.int_serial,
    {
        self.state.int_serial
    }

    pub fn set_int_serial(&mut self, value: bool)
        ensures
            final(self).state == (SerialState { int_serial: value, ..old(self).state }),
            final(self).device == old(self).device,
    {
        self.state.int_serial = value;
    }

    pub fn ack_serial(&mut self)
        ensures
            final(self).state == (SerialState { int_serial: false, ..old(self).state }),
            final(self).device == old(self).device,
    {
        self.state.int_serial = false;
    }

    pub fn device(&self) -> &dyn SerialDevice {
        &*self.device
    }

    /// Attaches `device` in place of the current one.
    pub fn set_device(&mut self, device: Box<dyn SerialDevice>)
        ensures
            final(self).state == old(self).state,
    {
        self.device = device;
    }
}

} // verus!
