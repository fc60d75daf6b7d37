use vstd::prelude::*;

verus! {

/// A key identifier: a virtual-key code, with the keypad's Enter key told
/// apart from the main one by the extra bit `0x200`.
#[derive(Debug, Clone, Copy, PartialEq, Eq, Structural, Hash)]
pub struct KeyCode(pub u32);

impl KeyCode {
    // Digit row
    pub const KEY_0: u32 = 0x30;
    pub const KEY_1: u32 = 0x31;
    pub const KEY_2: u32 = 0x32;
    pub const KEY_3: u32 = 0x33;
    pub const KEY_4: u32 = 0x34;
    pub const KEY_5: u32 = 0x35;
    pub const KEY_6: u32 = 0x36;
    pub const KEY_7: u32 = 0x37;
    pub const KEY_8: u32 = 0x38;
    pub const KEY_9: u32 = 0x39;

    // Letters
    pub const KEY_A: u32 = 0x41;
    pub const KEY_B: u32 = 0x42;
    pub const KEY_C: u32 = 0x43;
    pub const KEY_D: u32 = 0x44;
    pub const KEY_E: u32 = 0x45;
    pub const KEY_F: u32 = 0x46;
    pub const KEY_G: u32 = 0x47;
    pub const KEY_H: u32 = 0x48;
    pub const KEY_I: u32 = 0x49;
    pub const KEY_J: u32 = 0x4A;
    pub const KEY_K: u32 = 0x4B;
    pub const KEY_L: u32 = 0x4C;
    pub const KEY_M: u32 = 0x4D;
    pub const KEY_N: u32 = 0x4E;
    pub const KEY_O: u32 = 0x4F;
    pub const KEY_P: u32 = 0x50;
    pub const KEY_Q: u32 = 0x51;
    pub const KEY_R: u32 = 0x52;
    pub const KEY_S: u32 = 0x53;
    pub const KEY_T: u32 = 0x54;
    pub const KEY_U: u32 = 0x55;
    pub const KEY_V: u32 = 0x56;
    pub const KEY_W: u32 = 0x57;
    pub const KEY_X: u32 = 0x58;
    pub const KEY_Y: u32 = 0x59;
    pub const KEY_Z: u32 = 0x5A;

    // Numeric keypad
    pub const NUMPAD_0: u32 = 0x60;
    pub const NUMPAD_1: u32 = 0x61;
    pub const NUMPAD_2: u32 = 0x62;
    pub const NUMPAD_3: u32 = 0x63;
    pub const NUMPAD_4: u32 = 0x64;
    pub const NUMPAD_5: u32 = 0x65;
    pub const NUMPAD_6: u32 = 0x66;
    pub const NUMPAD_7: u32 = 0x67;
    pub const NUMPAD_8: u32 = 0x68;
    pub const NUMPAD_9: u32 = 0x69;
    pub const NUMPAD_MULTIPLY: u32 = 0x6A;
    pub const NUMPAD_ADD: u32 = 0x6B;
    pub const NUMPAD_SEPARATOR: u32 = 0x6C;
    pub const NUMPAD_SUBTRACT: u32 = 0x6D;
    pub const NUMPAD_DECIMAL: u32 = 0x6E;
    pub const NUMPAD_DIVIDE: u32 = 0x6F;
    pub const NUMPAD_ENTER: u32 = 0x20D;

    // Modifiers
    pub const L_SHIFT: u32 = 0xA0;
    pub const R_SHIFT: u32 = 0xA1;
    pub const L_CTRL: u32 = 0xA2;
    pub const R_CTRL: u32 = 0xA3;
    pub const L_ALT: u32 = 0xA4;
    pub const R_ALT: u32 = 0xA5;
    pub const L_WIN: u32 = 0x5B;
    pub const R_WIN: u32 = 0x5C;

    // Function keys
    pub const F1: u32 = 0x70;
    pub const F2: u32 = 0x71;
    pub const F3: u32 = 0x72;
    pub const F4: u32 = 0x73;
    pub const F5: u32 = 0x74;
    pub const F6: u32 = 0x75;
    pub const F7: u32 = 0x76;
    pub const F8: u32 = 0x77;
    pub const F9: u32 = 0x78;
    pub const F10: u32 = 0x79;
    pub const F11: u32 = 0x7A;
    pub const F12: u32 = 0x7B;

    // Editing and navigation
    pub const BACKSPACE: u32 = 0x08;
    pub const TAB: u32 = 0x09;
    pub const ENTER: u32 = 0x0D;
    pub const PAUSE: u32 = 0x13;
    pub const CAPS_LOCK: u32 = 0x14;
    pub const ESCAPE: u32 = 0x1B;
    pub const SPACE: u32 = 0x20;
    pub const PAGE_UP: u32 = 0x21;
    pub const PAGE_DOWN: u32 = 0x22;
    pub const END: u32 = 0x23;
    pub const HOME: u32 = 0x24;
    pub const LEFT: u32 = 0x25;
    pub const UP: u32 = 0x26;
    pub const RIGHT: u32 = 0x27;
    pub const DOWN: u32 = 0x28;
    pub const PRINT_SCREEN: u32 = 0x2C;
    pub const INSERT: u32 = 0x2D;
    pub const DELETE: u32 = 0x2E;
    pub const NUM_LOCK: u32 = 0x90;
    pub const SCROLL_LOCK: u32 = 0x91;

    /// The label a key is shown with, keypad keys marked by the prefix `Num`.
    /// Codes outside the table are shown as `?`.
    pub open spec fn label_of(code: u32) -> Seq<char> {
        match code {
            0x30 => "0"@,
            0x31 => "1"@,
            0x32 => "2"@,
            0x33 => "3"@,
            0x34 => "4"@,
            0x35 => "5"@,
            0x36 => "6"@,
            0x37 => "7"@,
            0x38 => "8"@,
            0x39 => "9"@,
            0x41 => "A"@,
            0x42 => "B"@,
            0x43 => "C"@,
            0x44 => "D"@,
            0x45 => "E"@,
            0x46 => "F"@,
            0x47 => "G"@,
            0x48 => "H"@,
            0x49 => "I"@,
            0x4A => "J"@,
            0x4B => "K"@,
            0x4C => "L"@,
            0x4D => "M"@,
            0x4E => "N"@,
            0x4F => "O"@,
            0x50 => "P"@,
            0x51 => "Q"@,
            0x52 => "R"@,
            0x53 => "S"@,
            0x54 => "T"@,
            0x55 => "U"@,
            0x56 => "V"@,
            0x57 => "W"@,
            0x58 => "X"@,
            0x59 => "Y"@,
            0x5A => "Z"@,
            0x60 => "Num0"@,
            0x61 => "Num1"@,
            0x62 => "Num2"@,
            0x63 => "Num3"@,
            0x64 => "Num4"@,
            0x65 => "Num5"@,
            0x66 => "Num6"@,
            0x67 => "Num7"@,
            0x68 => "Num8"@,
            0x69 => "Num9"@,
            0x6A => "Num*"@,
            0x6B => "Num+"@,
            0x6C => "NumSep"@,
            0x6D => "Num-"@,
            0x6E => "Num."@,
            0x6F => "Num/"@,
            0x20D => "NumEnter"@,
            0xA2 | 0xA3 => "Ctrl"@,
            0xA0 | 0xA1 => "Shift"@,
            0xA4 | 0xA5 => "Alt"@,
            0x5B | 0x5C => "Win"@,
            0x08 => "BS"@,
            0x09 => "Tab"@,
            0x0D => "Enter"@,
            0x13 => "Pause"@,
            0x14 => "CapsLock"@,
            0x1B => "Esc"@,
            0x20 => "Space"@,
            0x21 => "PgUp"@,
            0x22 => "PgDn"@,
            0x23 => "End"@,
            0x24 => "Home"@,
            0x25 => "Left"@,
            0x26 => "Up"@,
            0x27 => "Right"@,
            0x28 => "Down"@,
            0x2C => "PrtSc"@,
            0x2D => "Ins"@,
            0x2E => "Del"@,
            0x90 => "NumLock"@,
            0x91 => "ScrLk"@,
            0x70 => "F1"@,
            0x71 => "F2"@,
            0x72 => "F3"@,
            0x73 => "F4"@,
            0x74 => "F5"@,
            0x75 => "F6"@,
            0x76 => "F7"@,
            0x77 => "F8"@,
            0x78 => "F9"@,
            0x79 => "F10"@,
            0x7A => "F11"@,
            0x7B => "F12"@,
            _ => "?"@,
        }
    }

    /// The label of a key when keypad keys are not told apart from the
    /// main block: keypad keys lose their prefix, every other key keeps
    /// its label.
    pub open spec fn plain_label_of(code: u32) -> Seq<char> {
        match code {
            0x60 => "0"@,
            0x61 => "1"@,
            0x62 => "2"@,
            0x63 => "3"@,
            0x64 => "4"@,
            0x65 => "5"@,
            0x66 => "6"@,
            0x67 => "7"@,
            0x68 => "8"@,
            0x69 => "9"@,
            0x6A => "*"@,
            0x6B => "+"@,
            0x6C => "Sep"@,
            0x6D => "-"@,
            0x6E => "."@,
            0x6F => "/"@,
            0x20D => "Enter"@,
            _ => Self::label_of(code),
        }
    }

    /// Whether a code is one of the eight modifier keys.
    pub open spec fn modifier_code(code: u32) -> bool {
        ||| code == Self::L_CTRL
        ||| code == Self::R_CTRL
        ||| code == Self::L_SHIFT
        ||| code == Self::R_SHIFT
        ||| code == Self::L_ALT
        ||| code == Self::R_ALT
        ||| code == Self::L_WIN
        ||| code == Self::R_WIN
    }

    /// Whether a code belongs to the numeric keypad.
    pub open spec fn numpad_code(code: u32) -> bool {
        0x60 <= code <= 0x6F || code == Self::NUMPAD_ENTER
    }

    /// The label the key is shown with.
    pub fn label(&self) -> (s: &'static str)
        ensures
            s@ == Self::label_of(self.0),
    {
        match self.0 {
            0x30 => "0",
            0x31 => "1",
            0x32 => "2",
            0x33 => "3",
            0x34 => "4",
            0x35 => "5",
            0x36 => "6",
            0x37 => "7",
            0x38 => "8",
            0x39 => "9",
            0x41 => "A",
            0x42 => "B",
            0x43 => "C",
            0x44 => "D",
            0x45 => "E",
            0x46 => "F",
            0x47 => "G",
            0x48 => "H",
            0x49 => "I",
            0x4A => "J",
            0x4B => "K",
            0x4C => "L",
            0x4D => "M",
            0x4E => "N",
            0x4F => "O",
            0x50 => "P",
            0x51 => "Q",
            0x52 => "R",
            0x53 => "S",
            0x54 => "T",
            0x55 => "U",
            0x56 => "V",
            0x57 => "W",
            0x58 => "X",
            0x59 => "Y",
            0x5A => "Z",
            0x60 => "Num0",
            0x61 => "Num1",
            0x62 => "Num2",
            0x63 => "Num3",
            0x64 => "Num4",
            0x65 => "Num5",
            0x66 => "Num6",
            0x67 => "Num7",
            0x68 => "Num8",
            0x69 => "Num9",
            0x6A => "Num*",
            0x6B => "Num+",
            0x6C => "NumSep",
            0x6D => "Num-",
            0x6E => "Num.",
            0x6F => "Num/",
            0x20D => "NumEnter",
            0xA2 | 0xA3 => "Ctrl",
            0xA0 | 0xA1 => "Shift",
            0xA4 | 0xA5 => "Alt",
            0x5B | 0x5C => "Win",
            0x08 => "BS",
            0x09 => "Tab",
            0x0D => "Enter",
            0x13 => "Pause",
            0x14 => "CapsLock",
            0x1B => "Esc",
            0x20 => "Space",
            0x21 => "PgUp",
            0x22 => "PgDn",
            0x23 => "End",
            0x24 => "Home",
            0x25 => "Left",
            0x26 => "Up",
            0x27 => "Right",
            0x28 => "Down",
            0x2C => "PrtSc",
            0x2D => "Ins",
            0x2E => "Del",
            0x90 => "NumLock",
            0x91 => "ScrLk",
            0x70 => "F1",
            0x71 => "F2",
            0x72 => "F3",
            0x73 => "F4",
            0x74 => "F5",
            0x75 => "F6",
            0x76 => "F7",
            0x77 => "F8",
            0x78 => "F9",
            0x79 => "F10",
            0x7A => "F11",
            0x7B => "F12",
            _ => "?",
        }
    }

    /// The label of the key when keypad keys are not told apart.
    pub fn label_plain(&self) -> (s: &'static str)
        ensures
            s@ == Self::plain_label_of(self.0),
            !Self::numpad_code(self.0) ==> s@ == Self::label_of(self.0),
    {
        match self.0 {
            0x60 => "0",
            0x61 => "1",
            0x62 => "2",
            0x63 => "3",
            0x64 => "4",
            0x65 => "5",
            0x66 => "6",
            0x67 => "7",
            0x68 => "8",
            0x69 => "9",
            0x6A => "*",
            0x6B => "+",
            0x6C => "Sep",
            0x6D => "-",
            0x6E => ".",
            0x6F => "/",
            0x20D => "Enter",
            _ => self.label(),
        }
    }

    /// Whether the key is one of the eight modifier keys.
    pub fn is_modifier(&self) -> (b: bool)
        ensures
            b == Self::modifier_code(self.0),
    {
        let code: u32 = self.0;
        code == Self::L_CTRL || code == Self::R_CTRL || code == Self::L_SHIFT || code
            == Self::R_SHIFT || code == Self::L_ALT || code == Self::R_ALT || code == Self::L_WIN
            || code == Self::R_WIN
    }

    /// Whether the key belongs to the numeric keypad.
    pub fn is_numpad(&self) -> (b: bool)
        ensures
            b == Self::numpad_code(self.0),
    {
        (0x60 <= self.0 && self.0 <= 0x6F) || self.0 == Self::NUMPAD_ENTER
    }
}

} // verus!
