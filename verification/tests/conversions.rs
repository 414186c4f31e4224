use keyconv::collect_keys;
use keyconv::convert_key_or_button;
use keyconv::convert_modifier_flags;
use keyconv::ConvError;
use keyconv::KeyOrButton;

fn s(x: &str) -> String {
    x.to_string()
}

fn mods(xs: &[&str]) -> Vec<String> {
    xs.iter().map(|x| x.to_string()).collect()
}

#[test]
fn keycode_table_hits_never_error() {
    let cases = [
        ("KeyCode::A", "a"),
        ("KeyCode::Z", "z"),
        ("KeyCode::0", "0"),
        ("KeyCode::KEY_7", "7"),
        ("KeyCode::KEYPAD_MULTIPLY", "keypad_asterisk"),
        ("KeyCode::KEYPAD_0", "keypad_0"),
        ("KeyCode::BACKQUOTE", "grave_accent_and_tilde"),
        ("KeyCode::BRACKET_LEFT", "open_bracket"),
        ("KeyCode::DOT", "period"),
        ("KeyCode::ENTER", "return_or_enter"),
        ("KeyCode::RETURN", "return_or_enter"),
        ("KeyCode::SPACE", "spacebar"),
        ("KeyCode::F1", "f1"),
        ("KeyCode::F19", "f19"),
        ("KeyCode::BRIGHTNESS_UP", "display_brightness_increment"),
        ("KeyCode::PAGEUP", "page_up"),
        ("KeyCode::CAPSLOCK", "caps_lock"),
        ("KeyCode::SHIFT_L", "left_shift"),
        ("KeyCode::FN", "fn"),
        ("KeyCode::CURSOR_DOWN", "down_arrow"),
    ];
    for (token, canonical) in cases {
        assert_eq!(convert_key_or_button(token), Ok(KeyOrButton::Key(s(canonical))));
    }
}

#[test]
fn pointing_buttons_resolve() {
    assert_eq!(convert_key_or_button("PointingButton::LEFT"), Ok(KeyOrButton::Button(s("button1"))));
    assert_eq!(convert_key_or_button("PointingButton::MIDDLE"), Ok(KeyOrButton::Button(s("button3"))));
    assert_eq!(convert_key_or_button("PointingButton::BUTTON9"), Ok(KeyOrButton::Button(s("button9"))));
}

#[test]
fn token_without_separator_is_malformed() {
    assert_eq!(convert_key_or_button("KeyCodeA"), Err(ConvError::MalformedToken(s("KeyCodeA"))));
    assert_eq!(convert_key_or_button(""), Err(ConvError::MalformedToken(s(""))));
    assert_eq!(convert_key_or_button("KeyCode:A"), Err(ConvError::MalformedToken(s("KeyCode:A"))));
}

#[test]
fn unknown_key_identifier_is_reported() {
    assert_eq!(
        convert_key_or_button("KeyCode::LEFT_BRACKET"),
        Err(ConvError::UnknownKeyCode(s("LEFT_BRACKET")))
    );
    assert_eq!(convert_key_or_button("KeyCode::a"), Err(ConvError::UnknownKeyCode(s("a"))));
}

#[test]
fn unknown_button_identifier_is_reported() {
    assert_eq!(
        convert_key_or_button("PointingButton::WHEEL"),
        Err(ConvError::UnknownButton(s("WHEEL")))
    );
}

#[test]
fn unknown_category_is_reported() {
    assert_eq!(convert_key_or_button("Foo::A"), Err(ConvError::NotAKeyCode(s("Foo"))));
    assert_eq!(
        convert_key_or_button("ModifierFlag::SHIFT"),
        Err(ConvError::NotAKeyCode(s("ModifierFlag")))
    );
}

#[test]
fn token_parts_are_trimmed() {
    assert_eq!(convert_key_or_button("  KeyCode  ::  A  "), Ok(KeyOrButton::Key(s("a"))));
}

#[test]
fn extra_separator_parts_are_ignored() {
    assert_eq!(convert_key_or_button("KeyCode::A::junk"), Ok(KeyOrButton::Key(s("a"))));
}

#[test]
fn modifier_none_gives_empty_list() {
    assert_eq!(convert_modifier_flags("ModifierFlag::NONE"), Ok(vec![]));
}

#[test]
fn modifier_zero_is_distinct_from_none() {
    assert_eq!(convert_modifier_flags("ModifierFlag::ZERO"), Ok(mods(&["zero"])));
}

#[test]
fn legacy_shim_matches_new_syntax() {
    assert_eq!(convert_modifier_flags("VK_SHIFT"), convert_modifier_flags("ModifierFlag::SHIFT"));
    assert_eq!(convert_modifier_flags("VK_SHIFT"), Ok(mods(&["left_shift"])));
    assert_eq!(convert_modifier_flags("VK_COMMAND"), convert_modifier_flags("ModifierFlag::COMMAND"));
    assert_eq!(convert_modifier_flags("VK_NONE"), convert_modifier_flags("ModifierFlag::NONE"));
}

#[test]
fn modifiers_collapse_to_canonical_sides() {
    assert_eq!(convert_modifier_flags("ModifierFlag::SHIFT"), Ok(mods(&["left_shift"])));
    assert_eq!(convert_modifier_flags("ModifierFlag::SHIFT_L"), Ok(mods(&["left_shift"])));
    assert_eq!(convert_modifier_flags("ModifierFlag::SHIFT_R"), Ok(mods(&["right_shift"])));
    assert_eq!(convert_modifier_flags("ModifierFlag::CONTROL"), Ok(mods(&["left_control"])));
    assert_eq!(convert_modifier_flags("ModifierFlag::COMMAND_R"), Ok(mods(&["right_command"])));
}

#[test]
fn modifier_list_keeps_order_and_elides_none() {
    assert_eq!(
        convert_modifier_flags("ModifierFlag::COMMAND | ModifierFlag::NONE | VK_FN"),
        Ok(mods(&["left_command", "fn"]))
    );
}

#[test]
fn empty_modifier_token_is_empty_list_error() {
    assert_eq!(convert_modifier_flags(""), Err(ConvError::EmptyModifierList(s(""))));
}

#[test]
fn modifier_with_foreign_category_is_rejected() {
    assert_eq!(convert_modifier_flags("Bogus"), Err(ConvError::NotAModifier(s("Bogus"))));
    assert_eq!(convert_modifier_flags("KeyCode::A"), Err(ConvError::NotAModifier(s("KeyCode"))));
}

#[test]
fn modifier_category_check_precedes_lookup() {
    assert_eq!(
        convert_modifier_flags("ModifierFlag::BAD | XX::Y"),
        Err(ConvError::NotAModifier(s("XX")))
    );
}

#[test]
fn unknown_modifier_identifier_is_reported() {
    assert_eq!(
        convert_modifier_flags("ModifierFlag::BAD"),
        Err(ConvError::UnknownModifier(s("BAD")))
    );
}

#[test]
fn shim_remainder_is_not_retrimmed() {
    assert_eq!(convert_modifier_flags("VK_ SHIFT"), Err(ConvError::UnknownModifier(s(" SHIFT"))));
}

#[test]
fn empty_category_is_not_a_key_code() {
    assert_eq!(convert_key_or_button("::A"), Err(ConvError::NotAKeyCode(s(""))));
}

#[test]
fn trailing_pipe_leaves_an_empty_piece() {
    assert_eq!(convert_modifier_flags("VK_SHIFT|"), Err(ConvError::NotAModifier(s(""))));
}

#[test]
fn modifier_without_identifier_is_malformed() {
    assert_eq!(
        convert_modifier_flags("ModifierFlag"),
        Err(ConvError::MalformedToken(s("ModifierFlag")))
    );
    assert_eq!(
        convert_modifier_flags("ModifierFlag | VK_SHIFT"),
        Err(ConvError::MalformedToken(s("ModifierFlag")))
    );
}

#[test]
fn category_pass_runs_over_all_pieces_first() {
    assert_eq!(
        convert_modifier_flags("ModifierFlag | XX::Y"),
        Err(ConvError::NotAModifier(s("XX")))
    );
}

#[test]
fn sequence_pairs_keys_with_following_modifiers() {
    assert_eq!(
        collect_keys("KeyCode::A, ModifierFlag::SHIFT, KeyCode::B"),
        Ok(vec![
            (KeyOrButton::Key(s("a")), mods(&["left_shift"])),
            (KeyOrButton::Key(s("b")), vec![]),
        ])
    );
}

#[test]
fn sequence_of_bare_keys() {
    assert_eq!(
        collect_keys("KeyCode::A, KeyCode::B"),
        Ok(vec![
            (KeyOrButton::Key(s("a")), vec![]),
            (KeyOrButton::Key(s("b")), vec![]),
        ])
    );
}

#[test]
fn sequence_mixes_buttons_and_piped_modifiers() {
    assert_eq!(
        collect_keys("PointingButton::LEFT, ModifierFlag::COMMAND|ModifierFlag::SHIFT"),
        Ok(vec![(KeyOrButton::Button(s("button1")), mods(&["left_command", "left_shift"]))])
    );
}

#[test]
fn sequence_unknown_key_aborts_whole_parse() {
    assert_eq!(
        collect_keys("KeyCode::LEFT_BRACKET"),
        Err(ConvError::UnknownKeyCode(s("LEFT_BRACKET")))
    );
    assert_eq!(
        collect_keys("KeyCode::A, ModifierFlag::SHIFT, KeyCode::LEFT_BRACKET"),
        Err(ConvError::UnknownKeyCode(s("LEFT_BRACKET")))
    );
}

#[test]
fn sequence_modifier_error_aborts_whole_parse() {
    assert_eq!(
        collect_keys("KeyCode::A, ModifierFlag::BAD"),
        Err(ConvError::UnknownModifier(s("BAD")))
    );
}

#[test]
fn empty_input_yields_no_entries() {
    assert_eq!(collect_keys(""), Ok(vec![]));
}

#[test]
fn trailing_comma_is_a_malformed_token() {
    assert_eq!(collect_keys("KeyCode::A,"), Err(ConvError::MalformedToken(s(""))));
}

#[test]
fn lookahead_is_syntactic_only() {
    assert_eq!(
        collect_keys("KeyCode::A, VK_SHIFT, ModifierFlag::CONTROL"),
        Err(ConvError::NotAKeyCode(s("ModifierFlag")))
    );
}

#[test]
fn sequence_tokens_are_trimmed() {
    assert_eq!(
        collect_keys("  KeyCode::A ,  VK_CONTROL  "),
        Ok(vec![(KeyOrButton::Key(s("a")), mods(&["left_control"]))])
    );
}

#[test]
fn rerunning_gives_identical_output() {
    let input = "KeyCode::Q, ModifierFlag::COMMAND | VK_SHIFT, PointingButton::RIGHT";
    let first = collect_keys(input);
    let second = collect_keys(input);
    assert_eq!(first, second);
    assert_eq!(
        first,
        Ok(vec![
            (KeyOrButton::Key(s("q")), mods(&["left_command", "left_shift"])),
            (KeyOrButton::Button(s("button2")), vec![]),
        ])
    );
}
