//! The fixed lookup tables: legacy identifier to canonical identifier, one
//! table per category (key codes, pointer buttons, modifier flags). Lookup is
//! exact-match and case-sensitive; a miss is reported to the caller, never
//! defaulted.

use vstd::prelude::*;

use crate::strutil::str_eq;

verus! {

/// Letter keys.
pub open spec fn key_letters(id: Seq<char>) -> Option<Seq<char>> {
    if id == "A"@ {
        Some("a"@)
    } else if id == "B"@ {
        Some("b"@)
    } else if id == "C"@ {
        Some("c"@)
    } else if id == "D"@ {
        Some("d"@)
    } else if id == "E"@ {
        Some("e"@)
    } else if id == "F"@ {
        Some("f"@)
    } else if id == "G"@ {
        Some("g"@)
    } else if id == "H"@ {
        Some("h"@)
    } else if id == "I"@ {
        Some("i"@)
    } else if id == "J"@ {
        Some("j"@)
    } else if id == "K"@ {
        Some("k"@)
    } else if id == "L"@ {
        Some("l"@)
    } else if id == "M"@ {
        Some("m"@)
    } else if id == "N"@ {
        Some("n"@)
    } else if id == "O"@ {
        Some("o"@)
    } else if id == "P"@ {
        Some("p"@)
    } else if id == "Q"@ {
        Some("q"@)
    } else if id == "R"@ {
        Some("r"@)
    } else if id == "S"@ {
        Some("s"@)
    } else if id == "T"@ {
        Some("t"@)
    } else if id == "U"@ {
        Some("u"@)
    } else if id == "V"@ {
        Some("v"@)
    } else if id == "W"@ {
        Some("w"@)
    } else if id == "X"@ {
        Some("x"@)
    } else if id == "Y"@ {
        Some("y"@)
    } else if id == "Z"@ {
        Some("z"@)
    } else {
        None
    }
}

fn key_letters_lookup(id: &str) -> (r: Option<String>)
    ensures
        r.deep_view() == key_letters(id@),
{
    if str_eq(id, "A") {
        Some("a".to_owned())
    } else if str_eq(id, "B") {
        Some("b".to_owned())
    } else if str_eq(id, "C") {
        Some("c".to_owned())
    } else if str_eq(id, "D") {
        Some("d".to_owned())
    } else if str_eq(id, "E") {
        Some("e".to_owned())
    } else if str_eq(id, "F") {
        Some("f".to_owned())
    } else if str_eq(id, "G") {
        Some("g".to_owned())
    } else if str_eq(id, "H") {
        Some("h".to_owned())
    } else if str_eq(id, "I") {
        Some("i".to_owned())
    } else if str_eq(id, "J") {
        Some("j".to_owned())
    } else if str_eq(id, "K") {
        Some("k".to_owned())
    } else if str_eq(id, "L") {
        Some("l".to_owned())
    } else if str_eq(id, "M") {
        Some("m".to_owned())
    } else if str_eq(id, "N") {
        Some("n".to_owned())
    } else if str_eq(id, "O") {
        Some("o".to_owned())
    } else if str_eq(id, "P") {
        Some("p".to_owned())
    } else if str_eq(id, "Q") {
        Some("q".to_owned())
    } else if str_eq(id, "R") {
        Some("r".to_owned())
    } else if str_eq(id, "S") {
        Some("s".to_owned())
    } else if str_eq(id, "T") {
        Some("t".to_owned())
    } else if str_eq(id, "U") {
        Some("u".to_owned())
    } else if str_eq(id, "V") {
        Some("v".to_owned())
    } else if str_eq(id, "W") {
        Some("w".to_owned())
    } else if str_eq(id, "X") {
        Some("x".to_owned())
    } else if str_eq(id, "Y") {
        Some("y".to_owned())
    } else if str_eq(id, "Z") {
        Some("z".to_owned())
    } else {
        None
    }
}

/// Digit keys, in the bare and the legacy `KEY_` alias forms.
pub open spec fn key_digits(id: Seq<char>) -> Option<Seq<char>> {
    if id == "0"@ {
        Some("0"@)
    } else if id == "1"@ {
        Some("1"@)
    } else if id == "2"@ {
        Some("2"@)
    } else if id == "3"@ {
        Some("3"@)
    } else if id == "4"@ {
        Some("4"@)
    } else if id == "5"@ {
        Some("5"@)
    } else if id == "6"@ {
        Some("6"@)
    } else if id == "7"@ {
        Some("7"@)
    } else if id == "8"@ {
        Some("8"@)
    } else if id == "9"@ {
        Some("9"@)
    } else if id == "KEY_0"@ {
        Some("0"@)
    } else if id == "KEY_1"@ {
        Some("1"@)
    } else if id == "KEY_2"@ {
        Some("2"@)
    } else if id == "KEY_3"@ {
        Some("3"@)
    } else if id == "KEY_4"@ {
        Some("4"@)
    } else if id == "KEY_5"@ {
        Some("5"@)
    } else if id == "KEY_6"@ {
        Some("6"@)
    } else if id == "KEY_7"@ {
        Some("7"@)
    } else if id == "KEY_8"@ {
        Some("8"@)
    } else if id == "KEY_9"@ {
        Some("9"@)
    } else {
        None
    }
}

fn key_digits_lookup(id: &str) -> (r: Option<String>)
    ensures
        r.deep_view() == key_digits(id@),
{
    if str_eq(id, "0") {
        Some("0".to_owned())
    } else if str_eq(id, "1") {
        Some("1".to_owned())
    } else if str_eq(id, "2") {
        Some("2".to_owned())
    } else if str_eq(id, "3") {
        Some("3".to_owned())
    } else if str_eq(id, "4") {
        Some("4".to_owned())
    } else if str_eq(id, "5") {
        Some("5".to_owned())
    } else if str_eq(id, "6") {
        Some("6".to_owned())
    } else if str_eq(id, "7") {
        Some("7".to_owned())
    } else if str_eq(id, "8") {
        Some("8".to_owned())
    } else if str_eq(id, "9") {
        Some("9".to_owned())
    } else if str_eq(id, "KEY_0") {
        Some("0".to_owned())
    } else if str_eq(id, "KEY_1") {
        Some("1".to_owned())
    } else if str_eq(id, "KEY_2") {
        Some("2".to_owned())
    } else if str_eq(id, "KEY_3") {
        Some("3".to_owned())
    } else if str_eq(id, "KEY_4") {
        Some("4".to_owned())
    } else if str_eq(id, "KEY_5") {
        Some("5".to_owned())
    } else if str_eq(id, "KEY_6") {
        Some("6".to_owned())
    } else if str_eq(id, "KEY_7") {
        Some("7".to_owned())
    } else if str_eq(id, "KEY_8") {
        Some("8".to_owned())
    } else if str_eq(id, "KEY_9") {
        Some("9".to_owned())
    } else {
        None
    }
}

/// Keypad keys.
pub open spec fn key_keypad(id: Seq<char>) -> Option<Seq<char>> {
    if id == "KEYPAD_0"@ {
        Some("keypad_0"@)
    } else if id == "KEYPAD_1"@ {
        Some("keypad_1"@)
    } else if id == "KEYPAD_2"@ {
        Some("keypad_2"@)
    } else if id == "KEYPAD_3"@ {
        Some("keypad_3"@)
    } else if id == "KEYPAD_4"@ {
        Some("keypad_4"@)
    } else if id == "KEYPAD_5"@ {
        Some("keypad_5"@)
    } else if id == "KEYPAD_6"@ {
        Some("keypad_6"@)
    } else if id == "KEYPAD_7"@ {
        Some("keypad_7"@)
    } else if id == "KEYPAD_8"@ {
        Some("keypad_8"@)
    } else if id == "KEYPAD_9"@ {
        Some("keypad_9"@)
    } else if id == "KEYPAD_DOT"@ {
        Some("keypad_period"@)
    } else if id == "KEYPAD_EQUAL"@ {
        Some("keypad_equal_sign"@)
    } else if id == "KEYPAD_PLUS"@ {
        Some("keypad_plus"@)
    } else if id == "KEYPAD_SLASH"@ {
        Some("keypad_slash"@)
    } else if id == "KEYPAD_MULTIPLY"@ {
        Some("keypad_asterisk"@)
    } else if id == "KEYPAD_MINUS"@ {
        Some("keypad_hyphen"@)
    } else {
        None
    }
}

fn key_keypad_lookup(id: &str) -> (r: Option<String>)
    ensures
        r.deep_view() == key_keypad(id@),
{
    if str_eq(id, "KEYPAD_0") {
        Some("keypad_0".to_owned())
    } else if str_eq(id, "KEYPAD_1") {
        Some("keypad_1".to_owned())
    } else if str_eq(id, "KEYPAD_2") {
        Some("keypad_2".to_owned())
    } else if str_eq(id, "KEYPAD_3") {
        Some("keypad_3".to_owned())
    } else if str_eq(id, "KEYPAD_4") {
        Some("keypad_4".to_owned())
    } else if str_eq(id, "KEYPAD_5") {
        Some("keypad_5".to_owned())
    } else if str_eq(id, "KEYPAD_6") {
        Some("keypad_6".to_owned())
    } else if str_eq(id, "KEYPAD_7") {
        Some("keypad_7".to_owned())
    } else if str_eq(id, "KEYPAD_8") {
        Some("keypad_8".to_owned())
    } else if str_eq(id, "KEYPAD_9") {
        Some("keypad_9".to_owned())
    } else if str_eq(id, "KEYPAD_DOT") {
        Some("keypad_period".to_owned())
    } else if str_eq(id, "KEYPAD_EQUAL") {
        Some("keypad_equal_sign".to_owned())
    } else if str_eq(id, "KEYPAD_PLUS") {
        Some("keypad_plus".to_owned())
    } else if str_eq(id, "KEYPAD_SLASH") {
        Some("keypad_slash".to_owned())
    } else if str_eq(id, "KEYPAD_MULTIPLY") {
        Some("keypad_asterisk".to_owned())
    } else if str_eq(id, "KEYPAD_MINUS") {
        Some("keypad_hyphen".to_owned())
    } else {
        None
    }
}

/// Punctuation and editing keys.
pub open spec fn key_punct(id: Seq<char>) -> Option<Seq<char>> {
    if id == "BACKQUOTE"@ {
        Some("grave_accent_and_tilde"@)
    } else if id == "BACKSLASH"@ {
        Some("backslash"@)
    } else if id == "BRACKET_LEFT"@ {
        Some("open_bracket"@)
    } else if id == "BRACKET_RIGHT"@ {
        Some("close_bracket"@)
    } else if id == "COMMA"@ {
        Some("comma"@)
    } else if id == "DOT"@ {
        Some("period"@)
    } else if id == "EQUAL"@ {
        Some("equal_sign"@)
    } else if id == "MINUS"@ {
        Some("hyphen"@)
    } else if id == "QUOTE"@ {
        Some("quote"@)
    } else if id == "SEMICOLON"@ {
        Some("semicolon"@)
    } else if id == "SLASH"@ {
        Some("slash"@)
    } else if id == "DELETE"@ {
        Some("delete_or_backspace"@)
    } else if id == "ENTER"@ {
        Some("return_or_enter"@)
    } else if id == "ESCAPE"@ {
        Some("escape"@)
    } else if id == "RETURN"@ {
        Some("return_or_enter"@)
    } else if id == "SPACE"@ {
        Some("spacebar"@)
    } else if id == "TAB"@ {
        Some("tab"@)
    } else {
        None
    }
}

fn key_punct_lookup(id: &str) -> (r: Option<String>)
    ensures
        r.deep_view() == key_punct(id@),
{
    if str_eq(id, "BACKQUOTE") {
        Some("grave_accent_and_tilde".to_owned())
    } else if str_eq(id, "BACKSLASH") {
        Some("backslash".to_owned())
    } else if str_eq(id, "BRACKET_LEFT") {
        Some("open_bracket".to_owned())
    } else if str_eq(id, "BRACKET_RIGHT") {
        Some("close_bracket".to_owned())
    } else if str_eq(id, "COMMA") {
        Some("comma".to_owned())
    } else if str_eq(id, "DOT") {
        Some("period".to_owned())
    } else if str_eq(id, "EQUAL") {
        Some("equal_sign".to_owned())
    } else if str_eq(id, "MINUS") {
        Some("hyphen".to_owned())
    } else if str_eq(id, "QUOTE") {
        Some("quote".to_owned())
    } else if str_eq(id, "SEMICOLON") {
        Some("semicolon".to_owned())
    } else if str_eq(id, "SLASH") {
        Some("slash".to_owned())
    } else if str_eq(id, "DELETE") {
        Some("delete_or_backspace".to_owned())
    } else if str_eq(id, "ENTER") {
        Some("return_or_enter".to_owned())
    } else if str_eq(id, "ESCAPE") {
        Some("escape".to_owned())
    } else if str_eq(id, "RETURN") {
        Some("return_or_enter".to_owned())
    } else if str_eq(id, "SPACE") {
        Some("spacebar".to_owned())
    } else if str_eq(id, "TAB") {
        Some("tab".to_owned())
    } else {
        None
    }
}

/// Function keys.
pub open spec fn key_fkeys(id: Seq<char>) -> Option<Seq<char>> {
    if id == "F1"@ {
        Some("f1"@)
    } else if id == "F2"@ {
        Some("f2"@)
    } else if id == "F3"@ {
        Some("f3"@)
    } else if id == "F4"@ {
        Some("f4"@)
    } else if id == "F5"@ {
        Some("f5"@)
    } else if id == "F6"@ {
        Some("f6"@)
    } else if id == "F7"@ {
        Some("f7"@)
    } else if id == "F8"@ {
        Some("f8"@)
    } else if id == "F9"@ {
        Some("f9"@)
    } else if id == "F10"@ {
        Some("f10"@)
    } else if id == "F11"@ {
        Some("f11"@)
    } else if id == "F12"@ {
        Some("f12"@)
    } else if id == "F13"@ {
        Some("f13"@)
    } else if id == "F14"@ {
        Some("f14"@)
    } else if id == "F15"@ {
        Some("f15"@)
    } else if id == "F16"@ {
        Some("f16"@)
    } else if id == "F17"@ {
        Some("f17"@)
    } else if id == "F18"@ {
        Some("f18"@)
    } else if id == "F19"@ {
        Some("f19"@)
    } else {
        None
    }
}

fn key_fkeys_lookup(id: &str) -> (r: Option<String>)
    ensures
        r.deep_view() == key_fkeys(id@),
{
    if str_eq(id, "F1") {
        Some("f1".to_owned())
    } else if str_eq(id, "F2") {
        Some("f2".to_owned())
    } else if str_eq(id, "F3") {
        Some("f3".to_owned())
    } else if str_eq(id, "F4") {
        Some("f4".to_owned())
    } else if str_eq(id, "F5") {
        Some("f5".to_owned())
    } else if str_eq(id, "F6") {
        Some("f6".to_owned())
    } else if str_eq(id, "F7") {
        Some("f7".to_owned())
    } else if str_eq(id, "F8") {
        Some("f8".to_owned())
    } else if str_eq(id, "F9") {
        Some("f9".to_owned())
    } else if str_eq(id, "F10") {
        Some("f10".to_owned())
    } else if str_eq(id, "F11") {
        Some("f11".to_owned())
    } else if str_eq(id, "F12") {
        Some("f12".to_owned())
    } else if str_eq(id, "F13") {
        Some("f13".to_owned())
    } else if str_eq(id, "F14") {
        Some("f14".to_owned())
    } else if str_eq(id, "F15") {
        Some("f15".to_owned())
    } else if str_eq(id, "F16") {
        Some("f16".to_owned())
    } else if str_eq(id, "F17") {
        Some("f17".to_owned())
    } else if str_eq(id, "F18") {
        Some("f18".to_owned())
    } else if str_eq(id, "F19") {
        Some("f19".to_owned())
    } else {
        None
    }
}

/// Media, navigation, lock, modifier and arrow keys.
pub open spec fn key_misc(id: Seq<char>) -> Option<Seq<char>> {
    if id == "BRIGHTNESS_DOWN"@ {
        Some("display_brightness_decrement"@)
    } else if id == "BRIGHTNESS_UP"@ {
        Some("display_brightness_increment"@)
    } else if id == "DASHBOARD"@ {
        Some("dashboard"@)
    } else if id == "LAUNCHPAD"@ {
        Some("launchpad"@)
    } else if id == "MISSION_CONTROL"@ {
        Some("mission_control"@)
    } else if id == "PAGEUP"@ {
        Some("page_up"@)
    } else if id == "PAGEDOWN"@ {
        Some("page_down"@)
    } else if id == "HOME"@ {
        Some("home"@)
    } else if id == "END"@ {
        Some("end"@)
    } else if id == "CAPSLOCK"@ {
        Some("caps_lock"@)
    } else if id == "COMMAND_L"@ {
        Some("left_command"@)
    } else if id == "COMMAND_R"@ {
        Some("right_command"@)
    } else if id == "CONTROL_L"@ {
        Some("left_control"@)
    } else if id == "CONTROL_R"@ {
        Some("right_control"@)
    } else if id == "FN"@ {
        Some("fn"@)
    } else if id == "OPTION_L"@ {
        Some("left_option"@)
    } else if id == "OPTION_R"@ {
        Some("right_option"@)
    } else if id == "SHIFT_L"@ {
        Some("left_shift"@)
    } else if id == "SHIFT_R"@ {
        Some("right_shift"@)
    } else if id == "CURSOR_LEFT"@ {
        Some("left_arrow"@)
    } else if id == "CURSOR_RIGHT"@ {
        Some("right_arrow"@)
    } else if id == "CURSOR_UP"@ {
        Some("up_arrow"@)
    } else if id == "CURSOR_DOWN"@ {
        Some("down_arrow"@)
    } else {
        None
    }
}

fn key_misc_lookup(id: &str) -> (r: Option<String>)
    ensures
        r.deep_view() == key_misc(id@),
{
    if str_eq(id, "BRIGHTNESS_DOWN") {
        Some("display_brightness_decrement".to_owned())
    } else if str_eq(id, "BRIGHTNESS_UP") {
        Some("display_brightness_increment".to_owned())
    } else if str_eq(id, "DASHBOARD") {
        Some("dashboard".to_owned())
    } else if str_eq(id, "LAUNCHPAD") {
        Some("launchpad".to_owned())
    } else if str_eq(id, "MISSION_CONTROL") {
        Some("mission_control".to_owned())
    } else if str_eq(id, "PAGEUP") {
        Some("page_up".to_owned())
    } else if str_eq(id, "PAGEDOWN") {
        Some("page_down".to_owned())
    } else if str_eq(id, "HOME") {
        Some("home".to_owned())
    } else if str_eq(id, "END") {
        Some("end".to_owned())
    } else if str_eq(id, "CAPSLOCK") {
        Some("caps_lock".to_owned())
    } else if str_eq(id, "COMMAND_L") {
        Some("left_command".to_owned())
    } else if str_eq(id, "COMMAND_R") {
        Some("right_command".to_owned())
    } else if str_eq(id, "CONTROL_L") {
        Some("left_control".to_owned())
    } else if str_eq(id, "CONTROL_R") {
        Some("right_control".to_owned())
    } else if str_eq(id, "FN") {
        Some("fn".to_owned())
    } else if str_eq(id, "OPTION_L") {
        Some("left_option".to_owned())
    } else if str_eq(id, "OPTION_R") {
        Some("right_option".to_owned())
    } else if str_eq(id, "SHIFT_L") {
        Some("left_shift".to_owned())
    } else if str_eq(id, "SHIFT_R") {
        Some("right_shift".to_owned())
    } else if str_eq(id, "CURSOR_LEFT") {
        Some("left_arrow".to_owned())
    } else if str_eq(id, "CURSOR_RIGHT") {
        Some("right_arrow".to_owned())
    } else if str_eq(id, "CURSOR_UP") {
        Some("up_arrow".to_owned())
    } else if str_eq(id, "CURSOR_DOWN") {
        Some("down_arrow".to_owned())
    } else {
        None
    }
}

/// The key-code table: the canonical identifier of a legacy key identifier.
/// Several legacy identifiers map to one canonical identifier on purpose.
pub open spec fn key_table(id: Seq<char>) -> Option<Seq<char>> {
    if key_letters(id) is Some {
        key_letters(id)
    } else if key_digits(id) is Some {
        key_digits(id)
    } else if key_keypad(id) is Some {
        key_keypad(id)
    } else if key_punct(id) is Some {
        key_punct(id)
    } else if key_fkeys(id) is Some {
        key_fkeys(id)
    } else if key_misc(id) is Some {
        key_misc(id)
    } else {
        None
    }
}

/// Resolve a key identifier in the key-code table.
pub fn key_lookup(id: &str) -> (r: Option<String>)
    ensures
        r.deep_view() == key_table(id@),
{
    if let Some(c) = key_letters_lookup(id) {
        return Some(c);
    }
    if let Some(c) = key_digits_lookup(id) {
        return Some(c);
    }
    if let Some(c) = key_keypad_lookup(id) {
        return Some(c);
    }
    if let Some(c) = key_punct_lookup(id) {
        return Some(c);
    }
    if let Some(c) = key_fkeys_lookup(id) {
        return Some(c);
    }
    if let Some(c) = key_misc_lookup(id) {
        return Some(c);
    }
    None
}

/// The pointer-button table: the canonical identifier of a legacy button
/// identifier.
pub open spec fn button_table(id: Seq<char>) -> Option<Seq<char>> {
    if id == "LEFT"@ {
        Some("button1"@)
    } else if id == "RIGHT"@ {
        Some("button2"@)
    } else if id == "MIDDLE"@ {
        Some("button3"@)
    } else if id == "BUTTON1"@ {
        Some("button1"@)
    } else if id == "BUTTON2"@ {
        Some("button2"@)
    } else if id == "BUTTON3"@ {
        Some("button3"@)
    } else if id == "BUTTON4"@ {
        Some("button4"@)
    } else if id == "BUTTON5"@ {
        Some("button5"@)
    } else if id == "BUTTON6"@ {
        Some("button6"@)
    } else if id == "BUTTON7"@ {
        Some("button7"@)
    } else if id == "BUTTON8"@ {
        Some("button8"@)
    } else if id == "BUTTON9"@ {
        Some("button9"@)
    } else {
        None
    }
}

/// Resolve a button identifier in the pointer-button table.
pub fn button_lookup(id: &str) -> (r: Option<String>)
    ensures
        r.deep_view() == button_table(id@),
{
    if str_eq(id, "LEFT") {
        Some("button1".to_owned())
    } else if str_eq(id, "RIGHT") {
        Some("button2".to_owned())
    } else if str_eq(id, "MIDDLE") {
        Some("button3".to_owned())
    } else if str_eq(id, "BUTTON1") {
        Some("button1".to_owned())
    } else if str_eq(id, "BUTTON2") {
        Some("button2".to_owned())
    } else if str_eq(id, "BUTTON3") {
        Some("button3".to_owned())
    } else if str_eq(id, "BUTTON4") {
        Some("button4".to_owned())
    } else if str_eq(id, "BUTTON5") {
        Some("button5".to_owned())
    } else if str_eq(id, "BUTTON6") {
        Some("button6".to_owned())
    } else if str_eq(id, "BUTTON7") {
        Some("button7".to_owned())
    } else if str_eq(id, "BUTTON8") {
        Some("button8".to_owned())
    } else if str_eq(id, "BUTTON9") {
        Some("button9".to_owned())
    } else {
        None
    }
}

/// The modifier-flag table: the canonical identifier of a legacy modifier
/// identifier. `NONE` is not an entry: it marks explicit absence and is
/// handled by the converter itself.
pub open spec fn mod_table(id: Seq<char>) -> Option<Seq<char>> {
    if id == "ZERO"@ {
        Some("zero"@)
    } else if id == "CAPSLOCK"@ {
        Some("caps_lock"@)
    } else if id == "SHIFT"@ {
        Some("left_shift"@)
    } else if id == "SHIFT_L"@ {
        Some("left_shift"@)
    } else if id == "SHIFT_R"@ {
        Some("right_shift"@)
    } else if id == "CONTROL"@ {
        Some("left_control"@)
    } else if id == "CONTROL_L"@ {
        Some("left_control"@)
    } else if id == "CONTROL_R"@ {
        Some("right_control"@)
    } else if id == "OPTION_L"@ {
        Some("left_option"@)
    } else if id == "OPTION_R"@ {
        Some("right_option"@)
    } else if id == "COMMAND"@ {
        Some("left_command"@)
    } else if id == "COMMAND_L"@ {
        Some("left_command"@)
    } else if id == "COMMAND_R"@ {
        Some("right_command"@)
    } else if id == "FN"@ {
        Some("fn"@)
    } else {
        None
    }
}

/// Resolve a modifier identifier in the modifier-flag table.
pub fn mod_lookup(id: &str) -> (r: Option<String>)
    ensures
        r.deep_view() == mod_table(id@),
{
    if str_eq(id, "ZERO") {
        Some("zero".to_owned())
    } else if str_eq(id, "CAPSLOCK") {
        Some("caps_lock".to_owned())
    } else if str_eq(id, "SHIFT") {
        Some("left_shift".to_owned())
    } else if str_eq(id, "SHIFT_L") {
        Some("left_shift".to_owned())
    } else if str_eq(id, "SHIFT_R") {
        Some("right_shift".to_owned())
    } else if str_eq(id, "CONTROL") {
        Some("left_control".to_owned())
    } else if str_eq(id, "CONTROL_L") {
        Some("left_control".to_owned())
    } else if str_eq(id, "CONTROL_R") {
        Some("right_control".to_owned())
    } else if str_eq(id, "OPTION_L") {
        Some("left_option".to_owned())
    } else if str_eq(id, "OPTION_R") {
        Some("right_option".to_owned())
    } else if str_eq(id, "COMMAND") {
        Some("left_command".to_owned())
    } else if str_eq(id, "COMMAND_L") {
        Some("left_command".to_owned())
    } else if str_eq(id, "COMMAND_R") {
        Some("right_command".to_owned())
    } else if str_eq(id, "FN") {
        Some("fn".to_owned())
    } else {
        None
    }
}

} // verus!
