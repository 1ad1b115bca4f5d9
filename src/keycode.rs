use vstd::prelude::*;

use crate::text::{lower_of, lowercase, same_text};

verus! {

/// A platform key code: identifies a physical key in the HID key-code space.
pub type Keycode = u16;

/// Key codes of the letters `a` to `z`, in alphabetical order.
pub open spec fn letter_codes() -> Seq<Keycode> {
    seq![
        0x00u16, 0x0B, 0x08, 0x02, 0x0E, 0x03, 0x05, 0x04, 0x22, 0x26, 0x28, 0x25, 0x2E,
        0x2D, 0x1F, 0x23, 0x0C, 0x0F, 0x01, 0x11, 0x20, 0x09, 0x0D, 0x07, 0x10, 0x06,
    ]
}

/// Key codes of the digits `0` to `9`, in order.
pub open spec fn digit_codes() -> Seq<Keycode> {
    seq![0x1Du16, 0x12, 0x13, 0x14, 0x15, 0x17, 0x16, 0x1A, 0x1C, 0x19]
}

/// The key code of a single character: lowercase ASCII letters, digits and
/// a fixed set of punctuation have one; every other character has none.
pub open spec fn char_keycode(c: char) -> Option<Keycode> {
    if 'a' <= c && c <= 'z' {
        Some(letter_codes()[c as int - 'a' as int])
    } else if '0' <= c && c <= '9' {
        Some(digit_codes()[c as int - '0' as int])
    } else {
        match c {
            ' ' => Some(0x31),
            '=' => Some(0x18),
            '-' => Some(0x1B),
            ']' => Some(0x1E),
            '[' => Some(0x21),
            '/' => Some(0x2C),
            ';' => Some(0x29),
            ',' => Some(0x2B),
            '.' => Some(0x2F),
            '`' => Some(0x32),
            '"' => Some(0x27),
            '\\' => Some(0x2A),
            _ => None,
        }
    }
}

/// Returns the key code of a character, or `None` if there is no known key code.
pub fn keycode_from_char(c: char) -> (r: Option<Keycode>)
    ensures
        r == char_keycode(c),
{
    if 'a' <= c && c <= 'z' {
        let letters: [Keycode; 26] = [
            0x00, 0x0B, 0x08, 0x02, 0x0E, 0x03, 0x05, 0x04, 0x22, 0x26, 0x28, 0x25, 0x2E,
            0x2D, 0x1F, 0x23, 0x0C, 0x0F, 0x01, 0x11, 0x20, 0x09, 0x0D, 0x07, 0x10, 0x06,
        ];
        assert(letters@ =~= letter_codes());
        Some(letters[(c as u32 - 'a' as u32) as usize])
    } else if '0' <= c && c <= '9' {
        let digits: [Keycode; 10] = [0x1D, 0x12, 0x13, 0x14, 0x15, 0x17, 0x16, 0x1A, 0x1C, 0x19];
        assert(digits@ =~= digit_codes());
        Some(digits[(c as u32 - '0' as u32) as usize])
    } else {
        match c {
            ' ' => Some(0x31),
            '=' => Some(0x18),
            '-' => Some(0x1B),
            ']' => Some(0x1E),
            '[' => Some(0x21),
            '/' => Some(0x2C),
            ';' => Some(0x29),
            ',' => Some(0x2B),
            '.' => Some(0x2F),
            '`' => Some(0x32),
            '"' => Some(0x27),
            '\\' => Some(0x2A),
            _ => None,
        }
    }
}

/// The key code of a named key (`"return"`, `"tab"`, `"leftarrow"`, ...), or
/// `None` if the name is not in the table. Names are matched exactly.
pub open spec fn named_keycode(name: Seq<char>) -> Option<Keycode> {
    if name == "return"@ || name == "enter"@ {
        Some(0x24)
    } else if name == "tab"@ {
        Some(0x30)
    } else if name == "space"@ {
        Some(0x31)
    } else if name == "delete"@ {
        Some(0x33)
    } else if name == "escape"@ {
        Some(0x35)
    } else if name == "capslock"@ {
        Some(0x39)
    } else if name == "volumeup"@ {
        Some(0x48)
    } else if name == "volumedown"@ {
        Some(0x49)
    } else if name == "mute"@ {
        Some(0x4A)
    } else if name == "help"@ {
        Some(0x72)
    } else if name == "home"@ {
        Some(0x73)
    } else if name == "pageup"@ {
        Some(0x74)
    } else if name == "forwarddelete"@ {
        Some(0x75)
    } else if name == "end"@ {
        Some(0x77)
    } else if name == "pagedown"@ {
        Some(0x79)
    } else if name == "leftarrow"@ {
        Some(0x7B)
    } else if name == "rightarrow"@ {
        Some(0x7C)
    } else if name == "downarrow"@ {
        Some(0x7D)
    } else if name == "uparrow"@ {
        Some(0x7E)
    } else {
        None
    }
}

/// The key code of a lowercase key name: a single character through
/// `char_keycode`, else a named key through `named_keycode`.
pub open spec fn keycode_of_name(name: Seq<char>) -> Option<Keycode> {
    if name.len() == 1 && char_keycode(name[0]) is Some {
        char_keycode(name[0])
    } else {
        named_keycode(name)
    }
}

fn named_keycode_exec(name: &str) -> (r: Option<Keycode>)
    ensures
        r == named_keycode(name@),
{
    if same_text(name, "return") || same_text(name, "enter") {
        Some(0x24)
    } else if same_text(name, "tab") {
        Some(0x30)
    } else if same_text(name, "space") {
        Some(0x31)
    } else if same_text(name, "delete") {
        Some(0x33)
    } else if same_text(name, "escape") {
        Some(0x35)
    } else if same_text(name, "capslock") {
        Some(0x39)
    } else if same_text(name, "volumeup") {
        Some(0x48)
    } else if same_text(name, "volumedown") {
        Some(0x49)
    } else if same_text(name, "mute") {
        Some(0x4A)
    } else if same_text(name, "help") {
        Some(0x72)
    } else if same_text(name, "home") {
        Some(0x73)
    } else if same_text(name, "pageup") {
        Some(0x74)
    } else if same_text(name, "forwarddelete") {
        Some(0x75)
    } else if same_text(name, "end") {
        Some(0x77)
    } else if same_text(name, "pagedown") {
        Some(0x79)
    } else if same_text(name, "leftarrow") {
        Some(0x7B)
    } else if same_text(name, "rightarrow") {
        Some(0x7C)
    } else if same_text(name, "downarrow") {
        Some(0x7D)
    } else if same_text(name, "uparrow") {
        Some(0x7E)
    } else {
        None
    }
}

/// Returns the key code of a key name that is already in lowercase, or `None`
/// if there is no known key code.
pub fn keycode_from_lowercase(name: &str) -> (r: Option<Keycode>)
    ensures
        r == keycode_of_name(name@),
{
    if name.unicode_len() == 1 {
        let code = keycode_from_char(name.get_char(0));
        if code.is_some() {
            return code;
        }
    }
    named_keycode_exec(name)
}

/// No key name in the table is empty.
proof fn lemma_empty_name_has_no_keycode()
    ensures
        keycode_of_name(Seq::empty()) is None,
{
    reveal_strlit("return");
    reveal_strlit("enter");
    reveal_strlit("tab");
    reveal_strlit("space");
    reveal_strlit("delete");
    reveal_strlit("escape");
    reveal_strlit("capslock");
    reveal_strlit("volumeup");
    reveal_strlit("volumedown");
    reveal_strlit("mute");
    reveal_strlit("help");
    reveal_strlit("home");
    reveal_strlit("pageup");
    reveal_strlit("forwarddelete");
    reveal_strlit("end");
    reveal_strlit("pagedown");
    reveal_strlit("leftarrow");
    reveal_strlit("rightarrow");
    reveal_strlit("downarrow");
    reveal_strlit("uparrow");
    assert("return"@.len() > 0);
    assert("enter"@.len() > 0);
    assert("tab"@.len() > 0);
    assert("space"@.len() > 0);
    assert("delete"@.len() > 0);
    assert("escape"@.len() > 0);
    assert("capslock"@.len() > 0);
    assert("volumeup"@.len() > 0);
    assert("volumedown"@.len() > 0);
    assert("mute"@.len() > 0);
    assert("help"@.len() > 0);
    assert("home"@.len() > 0);
    assert("pageup"@.len() > 0);
    assert("forwarddelete"@.len() > 0);
    assert("end"@.len() > 0);
    assert("pagedown"@.len() > 0);
    assert("leftarrow"@.len() > 0);
    assert("rightarrow"@.len() > 0);
    assert("downarrow"@.len() > 0);
    assert("uparrow"@.len() > 0);
}

/// Returns the key code of a key name, ignoring case, or `None` if there is
/// no known key code.
pub fn keycode_from_str(s: &str) -> (r: Option<Keycode>)
    ensures
        r == keycode_of_name(lower_of(s@)),
        s@.len() == 0 ==> r is None,
{
    let lowered = lowercase(s);
    proof {
        lemma_empty_name_has_no_keycode();
        if s@.len() == 0 {
            assert(lowered@ =~= Seq::<char>::empty());
        }
    }
    keycode_from_lowercase(lowered.as_str())
}

} // verus!
