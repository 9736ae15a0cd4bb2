//! The joypad: eight keys read through a two-way selection register.

use vstd::prelude::*;

verus! {

#[derive(Clone, Copy, PartialEq, Eq, Structural, Debug)]
pub enum PadKey {
    Up,
    Down,
    Left,
    Right,
    Start,
    Select,
    A,
    B,
}

#[derive(Clone, Copy, PartialEq, Eq, Structural, Debug)]
pub enum PadSelection {
    Action,
    Direction,
}

/// The slot of `key` in the key state array.
pub open spec fn key_slot(key: PadKey) -> int {
    match key {
        PadKey::Up => 0,
        PadKey::Down => 1,
        PadKey::Left => 2,
        PadKey::Right => 3,
        PadKey::Start => 4,
        PadKey::Select => 5,
        PadKey::A => 6,
        PadKey::B => 7,
    }
}

fn key_index(key: PadKey) -> (r: usize)
    ensures
        r == key_slot(key),
{
    match key {
        PadKey::Up => 0,
        PadKey::Down => 1,
        PadKey::Left => 2,
        PadKey::Right => 3,
        PadKey::Start => 4,
        PadKey::Select => 5,
        PadKey::A => 6,
        PadKey::B => 7,
    }
}

/// The low nibble of the joypad register for four keys: a pressed key reads
/// as 0.
pub open spec fn nibble(k0: bool, k1: bool, k2: bool, k3: bool) -> u8 {
    (if k0 { 0u8 } else { 0x01u8 }) | (if k1 { 0u8 } else { 0x02u8 }) | (if k2 { 0u8 } else { 0x04u8 }) | (if k3 {
        0u8
    } else {
        0x08u8
    })
}

pub struct Pad {
    /// Whether each key is held, by slot (see `key_slot`).
    pub keys: [bool; 8],
    pub selection: PadSelection,
    pub int_pad: bool,
}

impl Pad {
    pub fn new() -> (r: Self)
        ensures
            forall|i: int| 0 <= i < 8 ==> !#[trigger] r.keys@[i],
            r.selection == PadSelection::Action,
            !r.int_pad,
    {
        Pad { keys: [false; 8], selection: PadSelection::Action, int_pad: false }
    }

    pub fn reset(&mut self)
        ensures
            forall|i: int| 0 <= i < 8 ==> !#[trigger] final(self).keys@[i],
            final(self).selection == PadSelection::Action,
            !final(self).int_pad,
    {
        *self = Pad::new();
    }

    /// The joypad register: the selected group's keys in the low nibble, the
    /// selection in bits 4 and 5.
    pub open spec fn read_spec(&self, addr: u16) -> u8 {
        if addr == 0xff00 {
            if self.selection == PadSelection::Action {
                nibble(self.keys@[6], self.keys@[7], self.keys@[5], self.keys@[4]) | 0x20
            } else {
                nibble(self.keys@[3], self.keys@[2], self.keys@[0], self.keys@[1]) | 0x10
            }
        } else {
            0xff
        }
    }

    pub fn read(&self, addr: u16) -> (r: u8)
        ensures
            r == self.read_spec(addr),
    {
        if addr != 0xff00 {
            return 0xff;
        }
        match self.selection {
            PadSelection::Action => {
                (if self.keys[6] { 0u8 } else { 0x01u8 }) | (if self.keys[7] { 0u8 } else { 0x02u8 }) | (if self.keys[5] {
                    0u8
                } else {
                    0x04u8
                }) | (if self.keys[4] { 0u8 } else { 0x08u8 }) | 0x20
            },
            PadSelection::Direction => {
                (if self.keys[3] { 0u8 } else { 0x01u8 }) | (if self.keys[2] { 0u8 } else { 0x02u8 }) | (if self.keys[0] {
                    0u8
                } else {
                    0x04u8
                }) | (if self.keys[1] { 0u8 } else { 0x08u8 }) | 0x10
            },
        }
    }

    /// A write to the joypad register selects the direction keys when bit 4
    /// is clear and the action keys otherwise.
    pub fn write(&mut self, addr: u16, value: u8)
        ensures
            addr == 0xff00 ==> *final(self) == (Pad {
                selection: if value & 0x10 == 0 { PadSelection::Direction } else { PadSelection::Action },
                ..*old(self)
            }),
            addr != 0xff00 ==> *final(self) == *old(self),
    {
        if addr == 0xff00 {
            self.selection = if value & 0x10 == 0 { PadSelection::Direction } else { PadSelection::Action };
        }
    }

    /// Presses `key` and requests the joypad interrupt.
    pub fn key_press(&mut self, key: PadKey)
        ensures
            final(self).keys@ == old(self).keys@.update(key_slot(key), true),
            final(self).int_pad,
            final(self).selection == old(self).selection,
    {
        self.keys[key_index(key)] = true;
        self.int_pad = true;
    }

    /// Releases `key`.
    pub fn key_lift(&mut self, key: PadKey)
        ensures
            final(self).keys@ == old(self).keys@.update(key_slot(key), false),
            final(self).int_pad == old(self).int_pad,
            final(self).selection == old(self).selection,
    {
        self.keys[key_index(key)] = false;
    }

    pub fn int_pad(&self) -> (r: bool)
        ensures
            r == self.int_pad,
    {
        self.int_pad
    }

    pub fn set_int_pad(&mut self, value: bool)
        ensures
            *final(self) == (Pad { int_pad: value, ..*old(self) }),
    {
        self.int_pad = value;
    }

    pub fn ack_pad(&mut self)
        ensures
            *final(self) == (Pad { int_pad: false, ..*old(self) }),
    {
        self.int_pad = false;
    }
}

} // verus!
