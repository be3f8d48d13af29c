use vstd::prelude::*;

use crate::interrupt::Interrupt;

verus! {

/// The eight buttons of the machine.
#[derive(Clone, Copy, PartialEq, Eq, Structural, Debug)]
pub enum GBKey {
    Start,
    Select,
    B,
    A,
    Down,
    Up,
    Left,
    Right,
}

/// A button and whether it is known to be held.
#[derive(Clone, Copy, PartialEq, Eq, Structural, Debug)]
pub struct KeyWrapper {
    pub v_key: GBKey,
    pub state: bool,
}

/// The joypad register (0xFF00) and the buttons behind it, in the order
/// Start, Select, B, A, Down, Up, Left, Right.
pub struct Joypad {
    pub mapping: [KeyWrapper; 8],
    pub joypad_state: u8,
}

impl Joypad {
    /// The order of the buttons in `mapping`.
    pub open spec fn key_order(i: int) -> GBKey {
        if i == 0 {
            GBKey::Start
        } else if i == 1 {
            GBKey::Select
        } else if i == 2 {
            GBKey::B
        } else if i == 3 {
            GBKey::A
        } else if i == 4 {
            GBKey::Down
        } else if i == 5 {
            GBKey::Up
        } else if i == 6 {
            GBKey::Left
        } else {
            GBKey::Right
        }
    }

    /// A joypad with every button released and the register cleared.
    pub fn new() -> (r: Joypad)
        ensures
            r.joypad_state == 0,
            forall|i: int| 0 <= i < 8 ==> #[trigger] r.mapping[i] == (KeyWrapper { v_key: Joypad::key_order(i), state: false }),
    {
        let start: KeyWrapper = KeyWrapper { v_key: GBKey::Start, state: false };
        let select: KeyWrapper = KeyWrapper { v_key: GBKey::Select, state: false };
        let b: KeyWrapper = KeyWrapper { v_key: GBKey::B, state: false };
        let a: KeyWrapper = KeyWrapper { v_key: GBKey::A, state: false };
        let down: KeyWrapper = KeyWrapper { v_key: GBKey::Down, state: false };
        let up: KeyWrapper = KeyWrapper { v_key: GBKey::Up, state: false };
        let left: KeyWrapper = KeyWrapper { v_key: GBKey::Left, state: false };
        let right: KeyWrapper = KeyWrapper { v_key: GBKey::Right, state: false };
        Joypad { mapping: [start, select, b, a, down, up, left, right], joypad_state: 0 }
    }

    /// Some button's held state `pressed[i]` differs from the one recorded.
    pub open spec fn input_changed(&self, pressed: [bool; 8]) -> bool {
        exists|i: int| 0 <= i < 8 && #[trigger] self.mapping[i].state != pressed[i]
    }

    /// Compares the held buttons `pressed` (same order as `mapping`) with
    /// the recorded ones and reports an input interrupt when one differs.
    /// The recorded states are compared on copies and stay as they were.
    pub fn on_clock(&mut self, pressed: [bool; 8]) -> (r: Option<Interrupt>)
        ensures
            *final(self) == *old(self),
            r == if old(self).input_changed(pressed) { Some(Interrupt::Input) } else { None },
    {
        let mut ret: Option<Interrupt> = None;
        for idx in 0..8usize
            invariant
                *self == *old(self),
                ret == if exists|i: int| 0 <= i < idx && #[trigger] self.mapping[i].state != pressed[i] {
                    Some(Interrupt::Input)
                } else {
                    None
                },
        {
            let mut i = self.mapping[idx];
            let is_pressed = pressed[idx];
            if ret.is_none() && i.state != is_pressed {
                ret = Some(Interrupt::Input);
            }
            i.state = is_pressed;
        }
        ret
    }

    /// Sets the low nibble of the register and then, when a button group is
    /// selected (bit 4 or 5 clear), masks it with the buttons of the group;
    /// the masks of successive buttons share no bit, so a selected group
    /// reads as 0. Returns the register.
    pub fn set_key_stroke_nibble(&mut self) -> (r: u8)
        ensures
            r == final(self).joypad_state,
            r == if old(self).joypad_state | 0x0F < 0x30 { 0 } else { old(self).joypad_state | 0x0F },
            final(self).mapping == old(self).mapping,
    {
        self.joypad_state = self.joypad_state | 0x0F;  //We clear the lower nibble
        if self.joypad_state < 0x30 {
            let mut initial_index: usize = 0;
            if (self.joypad_state & 0x10) > 0 {
                //Fetch DPad on bit 4.
                initial_index = 4
            }
            for i in 0..4usize
                invariant
                    initial_index <= 4,
                    self.mapping == old(self).mapping,
                    i >= 2 ==> self.joypad_state == 0,
                    i == 1 ==> self.joypad_state & 0xEF == 0,
            {
                let pressed_mask: u8 = if !self.mapping[i + initial_index].state { 1u8 << ((4 - i) as u8) } else { 0 };
                let js = self.joypad_state;
                assert(1u8 << 4u8 == 16u8 && 1u8 << 3u8 == 8u8) by (bit_vector);
                self.joypad_state = js & pressed_mask;
                proof {
                    let m = pressed_mask;
                    if i == 0 {
                        assert((js & m) & 0xEF == 0) by (bit_vector)
                            requires m == 16u8 || m == 0u8;
                    } else if i == 1 {
                        assert(js & m == 0) by (bit_vector)
                            requires js & 0xEF == 0, m == 8u8 || m == 0u8;
                    } else {
                        assert(js & m == 0) by (bit_vector)
                            requires js == 0;
                    }
                }
            }
        }
        self.joypad_state
    }

    /// Reads the register (see `set_key_stroke_nibble`).
    pub fn read(&mut self) -> (r: u8)
        ensures
            r == final(self).joypad_state,
            r == if old(self).joypad_state | 0x0F < 0x30 { 0 } else { old(self).joypad_state | 0x0F },
            final(self).mapping == old(self).mapping,
    {
        self.set_key_stroke_nibble()
    }

    /// Writes the register: only the group selection bits 4 and 5 are kept.
    pub fn write(&mut self, val: u8)
        ensures
            final(self).joypad_state == val & 0x30,
            final(self).mapping == old(self).mapping,
    {
        self.joypad_state = val & 0x30
    }
}

} // verus!
