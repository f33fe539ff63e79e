//! Virtual keys and the keyboard records handed to the input subsystem.

use vstd::prelude::*;

verus! {

/// Virtual-key code of the Tab key.
pub const VK_TAB: u16 = 0x09;

/// Virtual-key code of the Enter key.
pub const VK_RETURN: u16 = 0x0D;

/// Virtual-key code of the Ctrl key.
pub const VK_CONTROL: u16 = 0x11;

/// Virtual-key code of the Alt key.
pub const VK_MENU: u16 = 0x12;

/// Virtual-key code of the Escape key.
pub const VK_ESCAPE: u16 = 0x1B;

/// Virtual-key code of the Up-arrow key.
pub const VK_UP: u16 = 0x26;

/// Virtual-key code of the letter A on the primary layout.
pub const VK_A: u16 = 0x41;

/// Virtual-key code of the letter V on the primary layout.
pub const VK_V: u16 = 0x56;

/// Flag bit that marks a keyboard record as a key release.
pub const KEYEVENTF_KEYUP: u32 = 0x0002;

/// Tag of an input record that carries a keyboard event.
pub const INPUT_KEYBOARD: u32 = 1;

/// One keyboard record of an input batch, field for field as the input
/// subsystem takes it.
#[derive(Clone, Copy, Debug, PartialEq, Eq, Structural)]
pub struct KeyboardInput {
    /// Kind of input record; always `INPUT_KEYBOARD` for records made here.
    pub kind: u32,
    /// Virtual-key code.
    pub virtual_key: u16,
    /// Hardware scan code.
    pub scan_code: u16,
    /// Flag bits; `KEYEVENTF_KEYUP` marks a release.
    pub flags: u32,
    /// Time stamp; zero lets the system supply its own.
    pub time: u32,
    /// Extra value attached to the event.
    pub extra_info: usize,
}

/// The record that `create_keyboard_input` makes for a key and flag bits.
pub open spec fn keyboard_input(key: u16, flags: u32) -> KeyboardInput {
    KeyboardInput {
        kind: INPUT_KEYBOARD,
        virtual_key: key,
        scan_code: 0,
        flags,
        time: 0,
        extra_info: 0,
    }
}

impl KeyboardInput {
    /// Whether the record releases its key: the release bit is set among its
    /// flags.
    pub open spec fn is_release(self) -> bool {
        self.flags & KEYEVENTF_KEYUP == KEYEVENTF_KEYUP
    }

    /// Whether the record presses its key.
    pub open spec fn is_press(self) -> bool {
        !self.is_release()
    }
}

/// The record that presses `key`.
pub open spec fn key_down(key: u16) -> KeyboardInput {
    keyboard_input(key, 0)
}

/// The record that releases `key`.
pub open spec fn key_up(key: u16) -> KeyboardInput {
    keyboard_input(key, KEYEVENTF_KEYUP)
}

/// A record made with no flag presses its key, and one made with the release
/// flag releases it.
pub proof fn lemma_key_phases(key: u16)
    ensures
        key_down(key).is_press(),
        key_down(key).virtual_key == key,
        key_up(key).is_release(),
        key_up(key).virtual_key == key,
{
    assert(0u32 & 0x0002u32 != 0x0002u32) by (bit_vector);
    assert(0x0002u32 & 0x0002u32 == 0x0002u32) by (bit_vector);
}

/// Makes the keyboard record for `key` with the given flag bits; the record
/// is tagged as a keyboard event and every other field is zero.
pub fn create_keyboard_input(key: u16, flags: u32) -> (input: KeyboardInput)
    ensures
        input == keyboard_input(key, flags),
{
    KeyboardInput {
        kind: INPUT_KEYBOARD,
        virtual_key: key,
        scan_code: 0,
        flags,
        time: 0,
        extra_info: 0,
    }
}

} // verus!
