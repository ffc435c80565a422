//! The input report of a boot keyboard.

use crate::keyboard::key::{needs_shift, Key, LEFT_SHIFT};
use vstd::prelude::*;

verus! {

/// One input report of a boot keyboard: which keys are down at one moment. On
/// the wire it is nine bytes, in the order of the fields: the modifier bits, a
/// reserved byte, the LED byte, and six slots that each name a key that is down.
#[derive(Copy, Clone, Debug, PartialEq, Eq)]
pub struct ReportFrame {
    /// One bit for each modifier key that is held.
    pub modifier: u8,
    /// Always zero.
    pub reserved: u8,
    /// State of the LEDs. A device that only types leaves it zero.
    pub leds: u8,
    /// Usage ids of the keys that are down; zero marks an empty slot.
    pub keycodes: [u8; 6],
}

impl ReportFrame {
    /// The report that says that no key is down.
    pub open spec fn released() -> ReportFrame {
        ReportFrame { modifier: 0, reserved: 0, leds: 0, keycodes: [0, 0, 0, 0, 0, 0] }
    }

    /// The report that says that `key` alone is down, with the modifier keys of
    /// `modifier` held.
    pub open spec fn pressed(key: Key, modifier: u8) -> ReportFrame {
        ReportFrame { modifier, reserved: 0, leds: 0, keycodes: [key.usage_id(), 0, 0, 0, 0, 0] }
    }

    /// The report that types `c`: the key of `c` alone, under left shift where
    /// `c` takes it. `None` where the keyboard has no such character.
    pub open spec fn typing(c: char) -> Option<ReportFrame> {
        match Key::of_char(c) {
            Some(key) => Some(
                Self::pressed(
                    key,
                    if needs_shift(c) {
                        LEFT_SHIFT
                    } else {
                        0
                    },
                ),
            ),
            None => None,
        }
    }

    /// Whether the report says that nothing is pressed: no modifier is held and
    /// every slot is empty.
    pub open spec fn is_release(self) -> bool {
        self.modifier == 0 && forall|slot: int| 0 <= slot < 6 ==> self.keycodes[slot] == 0
    }

    /// Whether the report is one that typing character by character gives: at
    /// most the first slot is filled, no modifier but left shift is held, and the
    /// reserved byte and the LED byte are zero.
    pub open spec fn is_serial(self) -> bool {
        &&& self.modifier == 0 || self.modifier == LEFT_SHIFT
        &&& self.reserved == 0
        &&& self.leds == 0
        &&& forall|slot: int| 1 <= slot < 6 ==> self.keycodes[slot] == 0
    }

    /// The report that releases every key.
    pub fn release() -> (frame: ReportFrame)
        ensures
            frame == Self::released(),
    {
        ReportFrame { modifier: 0x00, reserved: 0x00, leds: 0x00, keycodes: [0, 0, 0, 0, 0, 0] }
    }

    /// The report that presses `key` alone while the modifier keys of `modifier`
    /// are held.
    pub fn press(key: Key, modifier: u8) -> (frame: ReportFrame)
        ensures
            frame == Self::pressed(key, modifier),
    {
        ReportFrame { modifier, reserved: 0x00, leds: 0x00, keycodes: [key.code(), 0, 0, 0, 0, 0] }
    }

    /// The report that types `c`, or `None` where the keyboard has no such
    /// character.
    pub fn for_char(c: char) -> (frame: Option<ReportFrame>)
        ensures
            frame == Self::typing(c),
    {
        let key = Key::try_from_char(c)?;
        let modifier = Key::get_modifier(c);
        Some(Self::press(key, modifier.unwrap_or(0x00)))
    }
}

} // verus!
