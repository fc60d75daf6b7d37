use vstd::prelude::*;

use crate::event::{KeyAction, KeyEvent, Modifiers};
use crate::key::KeyCode;

verus! {

/// What the platform reports of a key: its virtual-key code, its scan
/// code, and a set of flags whose lowest bit marks an extended key.
#[derive(Debug, Clone, Copy)]
pub struct RawKey {
    pub vk_code: u32,
    pub scan_code: u32,
    pub flags: u32,
}

impl RawKey {
    /// Whether the key is an extended one, such as the keypad's Enter.
    pub open spec fn extended(self) -> bool {
        self.flags & 0x01 != 0
    }

    /// Whether the scan code is that of a keypad key that, with the number
    /// lock off, reports the virtual-key code of a navigation key.
    pub open spec fn keypad_scan(self) -> bool {
        0x47 <= self.scan_code <= 0x53 && !self.extended()
    }

    /// Whether the key sits on the numeric keypad: its virtual-key code is
    /// a keypad code, or it is the extended Enter key, or its scan code
    /// is a keypad one.
    pub open spec fn on_keypad(self) -> bool {
        ||| 0x60 <= self.vk_code <= 0x6F
        ||| (self.vk_code == 0x0D && self.extended())
        ||| self.keypad_scan()
    }

    /// The key code that stands for the key. Keypad codes are kept; Enter
    /// is told apart by the extended flag; a keypad scan code decides
    /// where the number lock is off; every other key keeps its
    /// virtual-key code.
    pub open spec fn key_code(self) -> KeyCode {
        if 0x60 <= self.vk_code <= 0x6F {
            KeyCode(self.vk_code)
        } else if self.vk_code == 0x0D {
            if self.extended() {
                KeyCode(KeyCode::NUMPAD_ENTER)
            } else {
                KeyCode(KeyCode::ENTER)
            }
        } else if self.keypad_scan() {
            keypad_key_of_scan(self.scan_code)
        } else {
            KeyCode(self.vk_code)
        }
    }

    /// The key event that the platform's report amounts to.
    pub open spec fn event(self, action: KeyAction, modifiers: Modifiers, timestamp: u64) -> KeyEvent {
        KeyEvent {
            key: self.key_code(),
            action,
            modifiers,
            is_numpad: self.on_keypad(),
            scan_code: self.scan_code,
            timestamp,
        }
    }

    fn is_extended(&self) -> (extended: bool)
        ensures
            extended == self.extended(),
    {
        self.flags & 0x01 != 0
    }
}

/// The keypad key with a given scan code; a scan code that belongs to no
/// digit and not to the decimal point is taken for a key code as it is.
pub open spec fn keypad_key_of_scan(scan: u32) -> KeyCode {
    match scan {
        0x47 => KeyCode(KeyCode::NUMPAD_7),
        0x48 => KeyCode(KeyCode::NUMPAD_8),
        0x49 => KeyCode(KeyCode::NUMPAD_9),
        0x4B => KeyCode(KeyCode::NUMPAD_4),
        0x4C => KeyCode(KeyCode::NUMPAD_5),
        0x4D => KeyCode(KeyCode::NUMPAD_6),
        0x4F => KeyCode(KeyCode::NUMPAD_1),
        0x50 => KeyCode(KeyCode::NUMPAD_2),
        0x51 => KeyCode(KeyCode::NUMPAD_3),
        0x52 => KeyCode(KeyCode::NUMPAD_0),
        0x53 => KeyCode(KeyCode::NUMPAD_DECIMAL),
        _ => KeyCode(scan),
    }
}

/// Whether a virtual-key code is that of one of the three lock keys.
pub open spec fn lock_code(vk: u32) -> bool {
    vk == KeyCode::CAPS_LOCK || vk == KeyCode::NUM_LOCK || vk == KeyCode::SCROLL_LOCK
}

/// What a keyboard message of the platform says of a key: the two
/// key-down messages mean a press, the two key-up messages a release,
/// any other message nothing.
pub open spec fn action_of_message(message: u32) -> Option<KeyAction> {
    if message == 0x0100 || message == 0x0104 {
        Some(KeyAction::Down)
    } else if message == 0x0101 || message == 0x0105 {
        Some(KeyAction::Up)
    } else {
        None
    }
}

/// The keypad key with a given scan code.
pub fn numpad_scan_to_key(scan: u32) -> (key: KeyCode)
    ensures
        key == keypad_key_of_scan(scan),
{
    match scan {
        0x47 => KeyCode(KeyCode::NUMPAD_7),
        0x48 => KeyCode(KeyCode::NUMPAD_8),
        0x49 => KeyCode(KeyCode::NUMPAD_9),
        0x4B => KeyCode(KeyCode::NUMPAD_4),
        0x4C => KeyCode(KeyCode::NUMPAD_5),
        0x4D => KeyCode(KeyCode::NUMPAD_6),
        0x4F => KeyCode(KeyCode::NUMPAD_1),
        0x50 => KeyCode(KeyCode::NUMPAD_2),
        0x51 => KeyCode(KeyCode::NUMPAD_3),
        0x52 => KeyCode(KeyCode::NUMPAD_0),
        0x53 => KeyCode(KeyCode::NUMPAD_DECIMAL),
        _ => KeyCode(scan),
    }
}

/// The key code that stands for a key as the platform reports it.
pub fn to_key_code(kb: &RawKey) -> (key: KeyCode)
    ensures
        key == kb.key_code(),
        kb.vk_code < 0x100 && KeyCode::numpad_code(key.0) ==> kb.on_keypad(),
{
    let vk = kb.vk_code;
    let scan = kb.scan_code;
    let extended = kb.is_extended();
    if 0x60 <= vk && vk <= 0x6F {
        KeyCode(vk)
    } else if vk == 0x0D {
        if extended {
            KeyCode(KeyCode::NUMPAD_ENTER)
        } else {
            KeyCode(KeyCode::ENTER)
        }
    } else if 0x47 <= scan && scan <= 0x53 && !extended {
        numpad_scan_to_key(scan)
    } else {
        KeyCode(vk)
    }
}

/// Whether a key as the platform reports it sits on the numeric keypad.
pub fn is_numpad_key(kb: &RawKey) -> (on_keypad: bool)
    ensures
        on_keypad == kb.on_keypad(),
{
    let vk = kb.vk_code;
    let scan = kb.scan_code;
    let extended = kb.is_extended();
    if 0x60 <= vk && vk <= 0x6F {
        return true;
    }
    if vk == 0x0D && extended {
        return true;
    }
    if 0x47 <= scan && scan <= 0x53 && !extended {
        return true;
    }
    false
}

/// Whether a virtual-key code is that of one of the three lock keys.
pub fn is_lock_key(vk: u32) -> (lock: bool)
    ensures
        lock == lock_code(vk),
{
    vk == KeyCode::CAPS_LOCK || vk == KeyCode::NUM_LOCK || vk == KeyCode::SCROLL_LOCK
}

/// What a keyboard message of the platform says of a key.
pub fn key_action(message: u32) -> (action: Option<KeyAction>)
    ensures
        action == action_of_message(message),
{
    if message == 0x0100 || message == 0x0104 {
        Some(KeyAction::Down)
    } else if message == 0x0101 || message == 0x0105 {
        Some(KeyAction::Up)
    } else {
        None
    }
}

/// Makes the key event for a key that the platform reports.
pub fn key_event(kb: &RawKey, action: KeyAction, modifiers: Modifiers, timestamp: u64) -> (event:
    KeyEvent)
    ensures
        event == kb.event(action, modifiers, timestamp),
{
    KeyEvent {
        key: to_key_code(kb),
        action,
        modifiers,
        is_numpad: is_numpad_key(kb),
        scan_code: kb.scan_code,
        timestamp,
    }
}

} // verus!
