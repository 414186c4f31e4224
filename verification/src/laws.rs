//! The library's laws: properties that relate the conversions across all
//! inputs, each stated and proved over the same spec functions that the
//! executable functions' contracts use.

use vstd::prelude::*;

use crate::convert::collect_keys_spec;
use crate::convert::conv_key_spec;
use crate::convert::conv_mod_spec;
use crate::convert::mod_canon;
use crate::convert::mod_ident_of;
use crate::convert::mod_idents;
use crate::keys::ConvErrorView;
use crate::keys::KeyOrButtonView;
use crate::strutil::is_prefix;
use crate::strutil::is_wsp;
use crate::strutil::lemma_ltrim_at;
use crate::strutil::lemma_rtrim_at;
use crate::strutil::lemma_split_by_first;
use crate::strutil::lemma_split_by_single;
use crate::strutil::ltrim;
use crate::strutil::match_at;
use crate::strutil::rtrim;
use crate::strutil::split_by;
use crate::strutil::split_trim_spec;
use crate::strutil::tokens_spec;
use crate::strutil::trim_spec;
use crate::tables::key_digits;
use crate::tables::key_fkeys;
use crate::tables::key_keypad;
use crate::tables::key_letters;
use crate::tables::key_misc;
use crate::tables::key_punct;
use crate::tables::key_table;

verus! {

proof fn lemma_key_letters_wf(id: Seq<char>)
    requires
        key_letters(id) is Some,
    ensures
        trim_spec(id) == id,
        forall|j: int| 0 <= j < id.len() ==> id[j] != ':',
{
    reveal_strlit("A");
    reveal_strlit("B");
    reveal_strlit("C");
    reveal_strlit("D");
    reveal_strlit("E");
    reveal_strlit("F");
    reveal_strlit("G");
    reveal_strlit("H");
    reveal_strlit("I");
    reveal_strlit("J");
    reveal_strlit("K");
    reveal_strlit("L");
    reveal_strlit("M");
    reveal_strlit("N");
    reveal_strlit("O");
    reveal_strlit("P");
    reveal_strlit("Q");
    reveal_strlit("R");
    reveal_strlit("S");
    reveal_strlit("T");
    reveal_strlit("U");
    reveal_strlit("V");
    reveal_strlit("W");
    reveal_strlit("X");
    reveal_strlit("Y");
    reveal_strlit("Z");
}

proof fn lemma_key_digits_wf(id: Seq<char>)
    requires
        key_digits(id) is Some,
    ensures
        trim_spec(id) == id,
        forall|j: int| 0 <= j < id.len() ==> id[j] != ':',
{
    reveal_strlit("0");
    reveal_strlit("1");
    reveal_strlit("2");
    reveal_strlit("3");
    reveal_strlit("4");
    reveal_strlit("5");
    reveal_strlit("6");
    reveal_strlit("7");
    reveal_strlit("8");
    reveal_strlit("9");
    reveal_strlit("KEY_0");
    reveal_strlit("KEY_1");
    reveal_strlit("KEY_2");
    reveal_strlit("KEY_3");
    reveal_strlit("KEY_4");
    reveal_strlit("KEY_5");
    reveal_strlit("KEY_6");
    reveal_strlit("KEY_7");
    reveal_strlit("KEY_8");
    reveal_strlit("KEY_9");
}

proof fn lemma_key_keypad_wf(id: Seq<char>)
    requires
        key_keypad(id) is Some,
    ensures
        trim_spec(id) == id,
        forall|j: int| 0 <= j < id.len() ==> id[j] != ':',
{
    reveal_strlit("KEYPAD_0");
    reveal_strlit("KEYPAD_1");
    reveal_strlit("KEYPAD_2");
    reveal_strlit("KEYPAD_3");
    reveal_strlit("KEYPAD_4");
    reveal_strlit("KEYPAD_5");
    reveal_strlit("KEYPAD_6");
    reveal_strlit("KEYPAD_7");
    reveal_strlit("KEYPAD_8");
    reveal_strlit("KEYPAD_9");
    reveal_strlit("KEYPAD_DOT");
    reveal_strlit("KEYPAD_EQUAL");
    reveal_strlit("KEYPAD_PLUS");
    reveal_strlit("KEYPAD_SLASH");
    reveal_strlit("KEYPAD_MULTIPLY");
    reveal_strlit("KEYPAD_MINUS");
}

proof fn lemma_key_punct_wf(id: Seq<char>)
    requires
        key_punct(id) is Some,
    ensures
        trim_spec(id) == id,
        forall|j: int| 0 <= j < id.len() ==> id[j] != ':',
{
    reveal_strlit("BACKQUOTE");
    reveal_strlit("BACKSLASH");
    reveal_strlit("BRACKET_LEFT");
    reveal_strlit("BRACKET_RIGHT");
    reveal_strlit("COMMA");
    reveal_strlit("DOT");
    reveal_strlit("EQUAL");
    reveal_strlit("MINUS");
    reveal_strlit("QUOTE");
    reveal_strlit("SEMICOLON");
    reveal_strlit("SLASH");
    reveal_strlit("DELETE");
    reveal_strlit("ENTER");
    reveal_strlit("ESCAPE");
    reveal_strlit("RETURN");
    reveal_strlit("SPACE");
    reveal_strlit("TAB");
}

proof fn lemma_key_fkeys_wf(id: Seq<char>)
    requires
        key_fkeys(id) is Some,
    ensures
        trim_spec(id) == id,
        forall|j: int| 0 <= j < id.len() ==> id[j] != ':',
{
    reveal_strlit("F1");
    reveal_strlit("F2");
    reveal_strlit("F3");
    reveal_strlit("F4");
    reveal_strlit("F5");
    reveal_strlit("F6");
    reveal_strlit("F7");
    reveal_strlit("F8");
    reveal_strlit("F9");
    reveal_strlit("F10");
    reveal_strlit("F11");
    reveal_strlit("F12");
    reveal_strlit("F13");
    reveal_strlit("F14");
    reveal_strlit("F15");
    reveal_strlit("F16");
    reveal_strlit("F17");
    reveal_strlit("F18");
    reveal_strlit("F19");
}

proof fn lemma_key_misc_wf(id: Seq<char>)
    requires
        key_misc(id) is Some,
    ensures
        trim_spec(id) == id,
        forall|j: int| 0 <= j < id.len() ==> id[j] != ':',
{
    reveal_strlit("BRIGHTNESS_DOWN");
    reveal_strlit("BRIGHTNESS_UP");
    reveal_strlit("DASHBOARD");
    reveal_strlit("LAUNCHPAD");
    reveal_strlit("MISSION_CONTROL");
    reveal_strlit("PAGEUP");
    reveal_strlit("PAGEDOWN");
    reveal_strlit("HOME");
    reveal_strlit("END");
    reveal_strlit("CAPSLOCK");
    reveal_strlit("COMMAND_L");
    reveal_strlit("COMMAND_R");
    reveal_strlit("CONTROL_L");
    reveal_strlit("CONTROL_R");
    reveal_strlit("FN");
    reveal_strlit("OPTION_L");
    reveal_strlit("OPTION_R");
    reveal_strlit("SHIFT_L");
    reveal_strlit("SHIFT_R");
    reveal_strlit("CURSOR_LEFT");
    reveal_strlit("CURSOR_RIGHT");
    reveal_strlit("CURSOR_UP");
    reveal_strlit("CURSOR_DOWN");
}

/// Every key-table entry is already trimmed and holds no colon, so a
/// `KeyCode::` token built from it splits cleanly.
pub proof fn lemma_key_entry_wf(id: Seq<char>)
    requires
        key_table(id) is Some,
    ensures
        trim_spec(id) == id,
        forall|j: int| 0 <= j < id.len() ==> id[j] != ':',
{
    if key_letters(id) is Some {
        lemma_key_letters_wf(id);
    } else if key_digits(id) is Some {
        lemma_key_digits_wf(id);
    } else if key_keypad(id) is Some {
        lemma_key_keypad_wf(id);
    } else if key_punct(id) is Some {
        lemma_key_punct_wf(id);
    } else if key_fkeys(id) is Some {
        lemma_key_fkeys_wf(id);
    } else {
        lemma_key_misc_wf(id);
    }
}

/// Law: for every identifier that is a key-table entry, the token
/// `KeyCode::` followed by that identifier converts to `Key` of the entry's
/// canonical identifier, and never to an error.
pub proof fn lemma_keycode_hit(id: Seq<char>)
    requires
        key_table(id) is Some,
    ensures
        conv_key_spec("KeyCode::"@ + id) == Ok::<KeyOrButtonView, ConvErrorView>(
            KeyOrButtonView::Key(key_table(id)->Some_0),
        ),
{
    lemma_key_entry_wf(id);
    reveal_strlit("KeyCode::");
    reveal_strlit("KeyCode");
    reveal_strlit("::");
    let s = "KeyCode::"@ + id;
    let sep = "::"@;
    assert(s.subrange(7, 9) =~= sep);
    assert(match_at(s, sep, 7));
    assert forall|j: int| 0 <= j < 7 implies !match_at(s, sep, j) by {
        if s.subrange(j, j + 2) == sep {
            assert(s.subrange(j, j + 2)[0] == s[j]);
            assert(s[j] == ':');
        }
    }
    lemma_split_by_first(s, sep, 7);
    assert(s.skip(9) =~= id);
    assert forall|j: int| !match_at(id, sep, j) by {
        if 0 <= j && j + 2 <= id.len() {
            if id.subrange(j, j + 2) == sep {
                assert(id.subrange(j, j + 2)[0] == id[j]);
                assert(id[j] == ':');
            }
        }
    }
    lemma_split_by_single(id, sep);
    assert(split_by(s, sep) == seq![s.subrange(0, 7)] + seq![id]);
    assert(s.subrange(0, 7) =~= "KeyCode"@);
    assert(split_trim_spec(s, sep) =~= seq!["KeyCode"@, id]);
}

/// Law: a token in which the separator `::` never occurs is always rejected
/// as malformed, whatever else it holds.
pub proof fn lemma_no_separator_is_malformed(s: Seq<char>)
    requires
        forall|j: int| 0 <= j && j + 1 < s.len() ==> !(#[trigger] s[j] == ':' && s[j + 1] == ':'),
    ensures
        conv_key_spec(s) == Err::<KeyOrButtonView, ConvErrorView>(
            ConvErrorView::MalformedToken(s),
        ),
{
    reveal_strlit("::");
    let sep = "::"@;
    assert forall|j: int| !match_at(s, sep, j) by {
        if 0 <= j && j + 2 <= s.len() {
            if s.subrange(j, j + 2) == sep {
                assert(s.subrange(j, j + 2)[0] == s[j]);
                assert(s.subrange(j, j + 2)[1] == s[j + 1]);
            }
        }
    }
    lemma_split_by_single(s, sep);
    assert(split_trim_spec(s, sep) =~= seq![trim_spec(s)]);
}

/// A string whose delimiters never include `sep`'s character and whose ends
/// hold no whitespace is its own single trimmed piece.
proof fn lemma_clean_single_piece(s: Seq<char>, sep: Seq<char>)
    requires
        s.len() > 0,
        sep.len() == 1,
        forall|j: int| 0 <= j < s.len() ==> (#[trigger] s[j]) != sep[0],
        !is_wsp(s[0]),
        !is_wsp(s[s.len() - 1]),
    ensures
        tokens_spec(s, sep) == seq![s],
{
    assert forall|j: int| !match_at(s, sep, j) by {
        if 0 <= j && j + 1 <= s.len() {
            if s.subrange(j, j + 1) == sep {
                assert(s.subrange(j, j + 1)[0] == s[j]);
            }
        }
    }
    lemma_split_by_single(s, sep);
    lemma_ltrim_at(s, 0);
    assert(ltrim(s) == s.skip(0));
    assert(s.skip(0) =~= s);
    lemma_rtrim_at(s, s.len() as int);
    assert(rtrim(s) == s.take(s.len() as int));
    assert(s.take(s.len() as int) =~= s);
    assert(trim_spec(s) == s);
    assert(tokens_spec(s, sep) =~= seq![s]);
}

/// An identifier free of colons and of surrounding whitespace is its own
/// trimmed form.
proof fn lemma_clean_ident_trim(id: Seq<char>)
    requires
        id.len() > 0 ==> !is_wsp(id[0]) && !is_wsp(id[id.len() - 1]),
    ensures
        trim_spec(id) == id,
{
    lemma_ltrim_at(id, 0);
    assert(id.skip(0) =~= id);
    lemma_rtrim_at(id, id.len() as int);
    assert(id.take(id.len() as int) =~= id);
}

/// The old-format piece `VK_` + identifier is one clean piece and the shim
/// resolves it to the identifier.
proof fn lemma_shim_old(id: Seq<char>)
    requires
        forall|j: int| 0 <= j < id.len() ==> (#[trigger] id[j]) != ':' && id[j] != '|',
        id.len() > 0 ==> !is_wsp(id[0]) && !is_wsp(id[id.len() - 1]),
    ensures
        tokens_spec("VK_"@ + id, "|"@) == seq!["VK_"@ + id],
        mod_ident_of("VK_"@ + id) == Ok::<Option<Seq<char>>, ConvErrorView>(Some(id)),
{
    reveal_strlit("VK_");
    reveal_strlit("ModifierFlag");
    reveal_strlit("|");
    reveal_strlit("::");
    let a = "VK_"@ + id;
    let bar = "|"@;
    let sep = "::"@;
    assert forall|j: int| 0 <= j < a.len() implies (#[trigger] a[j]) != '|' && a[j] != ':' by {
        if j >= 3 {
            assert(a[j] == id[j - 3]);
        }
    }
    assert(!is_wsp(a[0]) && !is_wsp(a[a.len() - 1]));
    lemma_clean_single_piece(a, bar);
    assert forall|j: int| !match_at(a, sep, j) by {
        if 0 <= j && j + 2 <= a.len() {
            if a.subrange(j, j + 2) == sep {
                assert(a.subrange(j, j + 2)[0] == a[j]);
            }
        }
    }
    lemma_split_by_single(a, sep);
    lemma_clean_ident_trim(a);
    assert(split_trim_spec(a, sep) =~= seq![a]);
    assert(a != "ModifierFlag"@) by {
        if a == "ModifierFlag"@ {
            assert(a[0] == 'M');
        }
    }
    assert(is_prefix("VK_"@, a)) by {
        assert(a.take(3) =~= "VK_"@);
    }
    assert(a.skip(3) =~= id);
}

/// The new-format piece `ModifierFlag::` + identifier is one clean piece and
/// resolves to the identifier.
proof fn lemma_shim_new(id: Seq<char>)
    requires
        forall|j: int| 0 <= j < id.len() ==> (#[trigger] id[j]) != ':' && id[j] != '|',
        id.len() > 0 ==> !is_wsp(id[0]) && !is_wsp(id[id.len() - 1]),
    ensures
        tokens_spec("ModifierFlag::"@ + id, "|"@) == seq!["ModifierFlag::"@ + id],
        mod_ident_of("ModifierFlag::"@ + id) == Ok::<Option<Seq<char>>, ConvErrorView>(Some(id)),
{
    reveal_strlit("ModifierFlag::");
    reveal_strlit("ModifierFlag");
    reveal_strlit("|");
    reveal_strlit("::");
    let b = "ModifierFlag::"@ + id;
    let bar = "|"@;
    let sep = "::"@;
    assert forall|j: int| 0 <= j < b.len() implies (#[trigger] b[j]) != '|' by {
        if j >= 14 {
            assert(b[j] == id[j - 14]);
        }
    }
    assert(!is_wsp(b[0]) && !is_wsp(b[b.len() - 1]));
    lemma_clean_single_piece(b, bar);
    assert(b.subrange(12, 14) =~= sep);
    assert(match_at(b, sep, 12));
    assert forall|j: int| 0 <= j < 12 implies !match_at(b, sep, j) by {
        if b.subrange(j, j + 2) == sep {
            assert(b.subrange(j, j + 2)[0] == b[j]);
            assert(b[j] == ':');
        }
    }
    lemma_split_by_first(b, sep, 12);
    assert(b.skip(14) =~= id);
    assert forall|j: int| !match_at(id, sep, j) by {
        if 0 <= j && j + 2 <= id.len() {
            if id.subrange(j, j + 2) == sep {
                assert(id.subrange(j, j + 2)[0] == id[j]);
            }
        }
    }
    lemma_split_by_single(id, sep);
    assert(split_by(b, sep) == seq![b.subrange(0, 12)] + seq![id]);
    assert(b.subrange(0, 12) =~= "ModifierFlag"@);
    lemma_clean_ident_trim(id);
    assert(split_trim_spec(b, sep) =~= seq!["ModifierFlag"@, id]);
}

/// Law: the legacy shim is an exact equivalence. For every identifier free
/// of the delimiter characters `:` and `|` and of surrounding whitespace, the
/// old-format piece `VK_` followed by the identifier converts to the same
/// modifier list, or the same error, as the new-format piece `ModifierFlag::`
/// followed by it.
pub proof fn lemma_legacy_shim(id: Seq<char>)
    requires
        forall|j: int| 0 <= j < id.len() ==> (#[trigger] id[j]) != ':' && id[j] != '|',
        id.len() > 0 ==> !is_wsp(id[0]) && !is_wsp(id[id.len() - 1]),
    ensures
        conv_mod_spec("VK_"@ + id) == conv_mod_spec("ModifierFlag::"@ + id),
{
    lemma_shim_old(id);
    lemma_shim_new(id);
    let a = "VK_"@ + id;
    let b = "ModifierFlag::"@ + id;
    assert(mod_idents(Seq::<Seq<char>>::empty()) == Ok::<
        Seq<(Seq<char>, Option<Seq<char>>)>,
        ConvErrorView,
    >(seq![]));
    assert(seq![a].drop_first() =~= Seq::<Seq<char>>::empty());
    assert(seq![b].drop_first() =~= Seq::<Seq<char>>::empty());
    assert(seq![a][0] == a);
    assert(seq![b][0] == b);
    assert(seq![(a, Some(id))] + Seq::<(Seq<char>, Option<Seq<char>>)>::empty() =~= seq![
        (a, Some(id)),
    ]);
    assert(seq![(b, Some(id))] + Seq::<(Seq<char>, Option<Seq<char>>)>::empty() =~= seq![
        (b, Some(id)),
    ]);
    assert(mod_idents(seq![a]) == Ok::<Seq<(Seq<char>, Option<Seq<char>>)>, ConvErrorView>(seq![
        (a, Some(id)),
    ]));
    assert(mod_idents(seq![b]) == Ok::<Seq<(Seq<char>, Option<Seq<char>>)>, ConvErrorView>(seq![
        (b, Some(id)),
    ]));
    lemma_mod_canon_ignores_piece(a, b, id);
}

/// Which piece an identifier came from does not change how the resolution
/// pass treats a single entry that holds one.
proof fn lemma_mod_canon_ignores_piece(p1: Seq<char>, p2: Seq<char>, id: Seq<char>)
    ensures
        mod_canon(seq![(p1, Some(id))]) == mod_canon(seq![(p2, Some(id))]),
{
    assert(mod_canon(Seq::<(Seq<char>, Option<Seq<char>>)>::empty()) == Ok::<
        Seq<Seq<char>>,
        ConvErrorView,
    >(seq![]));
    assert(seq![(p1, Some(id))].drop_first() =~= Seq::<(Seq<char>, Option<Seq<char>>)>::empty());
    assert(seq![(p2, Some(id))].drop_first() =~= Seq::<(Seq<char>, Option<Seq<char>>)>::empty());
    assert(seq![(p1, Some(id))][0] == (p1, Some(id)));
    assert(seq![(p2, Some(id))][0] == (p2, Some(id)));
}

/// Law: the whole conversion is a function of the input string alone; two
/// runs on equal inputs yield equal outputs, for the tables are immutable and
/// there is no hidden state.
pub proof fn lemma_collect_keys_deterministic(s1: Seq<char>, s2: Seq<char>)
    requires
        s1 == s2,
    ensures
        collect_keys_spec(s1) == collect_keys_spec(s2),
{
}

} // verus!
