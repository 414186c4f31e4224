//! The three conversions: a key-or-button token, a modifier-flag token, and a
//! comma-delimited sequence of keys with optional modifiers. Each executable
//! function is verified against a spec function that states, for every input,
//! exactly which value or which error it returns.

use vstd::prelude::*;

use crate::keys::ConvError;
use crate::keys::ConvErrorView;
use crate::keys::KeyOrButton;
use crate::keys::KeyOrButtonView;
use crate::keys::KeySpec;
use crate::strutil::is_prefix;
use crate::strutil::split_trim;
use crate::strutil::split_trim_spec;
use crate::strutil::str_eq;
use crate::strutil::str_starts_with;
use crate::strutil::tokens;
use crate::strutil::tokens_spec;
use crate::tables::button_lookup;
use crate::tables::button_table;
use crate::tables::key_lookup;
use crate::tables::key_table;
use crate::tables::mod_lookup;
use crate::tables::mod_table;

verus! {

/// What `convert_key_or_button` returns: the token is split on `::` with the
/// parts trimmed; a token without two parts is malformed; the category picks
/// the table, and the identifier is resolved in it.
pub open spec fn conv_key_spec(s: Seq<char>) -> Result<KeyOrButtonView, ConvErrorView> {
    let parts = split_trim_spec(s, "::"@);
    if parts.len() < 2 {
        Err(ConvErrorView::MalformedToken(s))
    } else if parts[0] == "KeyCode"@ {
        match key_table(parts[1]) {
            Some(c) => Ok(KeyOrButtonView::Key(c)),
            None => Err(ConvErrorView::UnknownKeyCode(parts[1])),
        }
    } else if parts[0] == "PointingButton"@ {
        match button_table(parts[1]) {
            Some(c) => Ok(KeyOrButtonView::Button(c)),
            None => Err(ConvErrorView::UnknownButton(parts[1])),
        }
    } else {
        Err(ConvErrorView::NotAKeyCode(parts[0]))
    }
}

/// View of a key-or-button conversion result.
pub open spec fn kob_result_view(r: Result<KeyOrButton, ConvError>) -> Result<
    KeyOrButtonView,
    ConvErrorView,
> {
    match r {
        Ok(k) => Ok(k@),
        Err(e) => Err(e@),
    }
}

/// Convert one `Category::Identifier` key or button token to its canonical
/// form, exactly as [`conv_key_spec`] states.
pub fn convert_key_or_button(s: &str) -> (r: Result<KeyOrButton, ConvError>)
    ensures
        kob_result_view(r) == conv_key_spec(s@),
{
    proof {
        reveal_strlit("::");
    }
    let parts = split_trim(s, "::");
    proof {
        assert(parts.deep_view().len() == parts@.len());
    }
    if parts.len() < 2 {
        return Err(ConvError::MalformedToken(s.to_owned()));
    }
    proof {
        assert(parts.deep_view()[0] == parts@[0]@);
        assert(parts.deep_view()[1] == parts@[1]@);
    }
    if str_eq(parts[0].as_str(), "KeyCode") {
        match key_lookup(parts[1].as_str()) {
            Some(c) => Ok(KeyOrButton::Key(c)),
            None => Err(ConvError::UnknownKeyCode(parts[1].clone())),
        }
    } else if str_eq(parts[0].as_str(), "PointingButton") {
        match button_lookup(parts[1].as_str()) {
            Some(c) => Ok(KeyOrButton::Button(c)),
            None => Err(ConvError::UnknownButton(parts[1].clone())),
        }
    } else {
        Err(ConvError::NotAKeyCode(parts[0].clone()))
    }
}

/// The category check and legacy shim on one trimmed piece: a
/// `ModifierFlag` piece passes with its identifier, or without one where the
/// piece has no second part; a piece whose category starts with `VK_` passes
/// with the category's remainder after that prefix; any other category is
/// not a modifier.
pub open spec fn mod_ident_of(piece: Seq<char>) -> Result<Option<Seq<char>>, ConvErrorView> {
    let parts = split_trim_spec(piece, "::"@);
    if parts[0] == "ModifierFlag"@ {
        if parts.len() >= 2 {
            Ok(Some(parts[1]))
        } else {
            Ok(None)
        }
    } else if is_prefix("VK_"@, parts[0]) {
        Ok(Some(parts[0].skip(3)))
    } else {
        Err(ConvErrorView::NotAModifier(parts[0]))
    }
}

/// The category pass over all pieces: each piece paired with its identifier,
/// if it has one, or the first piece whose category is not a modifier's.
pub open spec fn mod_idents(pieces: Seq<Seq<char>>) -> Result<
    Seq<(Seq<char>, Option<Seq<char>>)>,
    ConvErrorView,
>
    decreases pieces.len(),
{
    if pieces.len() == 0 {
        Ok(seq![])
    } else {
        match mod_ident_of(pieces[0]) {
            Err(e) => Err(e),
            Ok(id) => match mod_idents(pieces.drop_first()) {
                Err(e) => Err(e),
                Ok(rest) => Ok(seq![(pieces[0], id)] + rest),
            },
        }
    }
}

/// The resolution pass: the canonical forms of the identifiers, in order,
/// with `NONE` entries elided; a piece without an identifier is malformed,
/// and an identifier the modifier table does not hold is unknown, each
/// reported at its position.
pub open spec fn mod_canon(entries: Seq<(Seq<char>, Option<Seq<char>>)>) -> Result<
    Seq<Seq<char>>,
    ConvErrorView,
>
    decreases entries.len(),
{
    if entries.len() == 0 {
        Ok(seq![])
    } else {
        match entries[0].1 {
            None => Err(ConvErrorView::MalformedToken(entries[0].0)),
            Some(id) => if id == "NONE"@ {
                mod_canon(entries.drop_first())
            } else {
                match mod_table(id) {
                    Some(c) => match mod_canon(entries.drop_first()) {
                        Err(e) => Err(e),
                        Ok(rest) => Ok(seq![c] + rest),
                    },
                    None => Err(ConvErrorView::UnknownModifier(id)),
                }
            },
        }
    }
}

/// What `convert_modifier_flags` returns: the token is split on `|` with the
/// pieces trimmed; no pieces at all is an empty modifier list; otherwise a
/// first pass checks every piece's category under the legacy shim, and a
/// second pass resolves each identifier in the modifier table, `NONE`
/// entries elided.
pub open spec fn conv_mod_spec(s: Seq<char>) -> Result<Seq<Seq<char>>, ConvErrorView> {
    let pieces = tokens_spec(s, "|"@);
    if pieces.len() == 0 {
        Err(ConvErrorView::EmptyModifierList(s))
    } else {
        match mod_idents(pieces) {
            Err(e) => Err(e),
            Ok(ids) => mod_canon(ids),
        }
    }
}

/// View of a modifier conversion result.
pub open spec fn mods_result_view(r: Result<Vec<String>, ConvError>) -> Result<
    Seq<Seq<char>>,
    ConvErrorView,
> {
    match r {
        Ok(v) => Ok(v.deep_view()),
        Err(e) => Err(e@),
    }
}

/// The category check and shim on a single trimmed piece.
fn mod_ident_exec(piece: &str) -> (r: Result<Option<String>, ConvError>)
    ensures
        match r {
            Ok(id) => mod_ident_of(piece@) == Ok::<Option<Seq<char>>, ConvErrorView>(
                id.deep_view(),
            ),
            Err(e) => mod_ident_of(piece@) == Err::<Option<Seq<char>>, ConvErrorView>(e@),
        },
{
    proof {
        reveal_strlit("::");
    }
    let parts = split_trim(piece, "::");
    proof {
        crate::strutil::lemma_split_by_len(piece@, "::"@);
        assert(parts.deep_view().len() == parts@.len());
        assert(parts.deep_view()[0] == parts@[0]@);
    }
    if str_eq(parts[0].as_str(), "ModifierFlag") {
        if parts.len() >= 2 {
            proof {
                assert(parts.deep_view()[1] == parts@[1]@);
            }
            Ok(Some(parts[1].clone()))
        } else {
            Ok(None)
        }
    } else if str_starts_with(parts[0].as_str(), "VK_") {
        let p0 = parts[0].as_str();
        proof {
            reveal_strlit("VK_");
        }
        let rest = p0.substring_char(3, p0.unicode_len());
        proof {
            assert(rest@ =~= parts.deep_view()[0].skip(3));
        }
        Ok(Some(rest.to_owned()))
    } else {
        Err(ConvError::NotAModifier(parts[0].clone()))
    }
}

/// Convert a `|`-delimited modifier-flag token to the ordered list of
/// canonical modifier identifiers, exactly as [`conv_mod_spec`] states.
pub fn convert_modifier_flags(s: &str) -> (r: Result<Vec<String>, ConvError>)
    ensures
        mods_result_view(r) == conv_mod_spec(s@),
{
    proof {
        reveal_strlit("|");
    }
    let pieces = tokens(s, "|");
    let ghost pv = pieces.deep_view();
    proof {
        assert(pv.len() == pieces@.len());
    }
    if pieces.len() == 0 {
        return Err(ConvError::EmptyModifierList(s.to_owned()));
    }
    let mut entries: Vec<(String, Option<String>)> = Vec::new();
    let mut i: usize = 0;
    proof {
        assert(pv.skip(0) =~= pv);
        assert(entries.deep_view() =~= Seq::<(Seq<char>, Option<Seq<char>>)>::empty());
        if mod_idents(pv) is Ok {
            assert(entries.deep_view() + mod_idents(pv)->Ok_0 =~= mod_idents(pv)->Ok_0);
        }
    }
    while i < pieces.len()
        invariant
            pv == pieces.deep_view(),
            pv == tokens_spec(s@, "|"@),
            pv.len() > 0,
            pv.len() == pieces@.len(),
            i <= pieces@.len(),
            mod_idents(pv) == match mod_idents(pv.skip(i as int)) {
                Ok(rest) => Ok::<Seq<(Seq<char>, Option<Seq<char>>)>, ConvErrorView>(
                    entries.deep_view() + rest,
                ),
                Err(e) => Err::<Seq<(Seq<char>, Option<Seq<char>>)>, ConvErrorView>(e),
            },
        decreases pieces@.len() - i,
    {
        proof {
            assert(pv.skip(i as int)[0] == pv[i as int]);
            assert(pv[i as int] == pieces@[i as int]@);
            assert(pv.skip(i as int).drop_first() =~= pv.skip(i + 1));
        }
        match mod_ident_exec(pieces[i].as_str()) {
            Err(e) => {
                return Err(e);
            },
            Ok(id) => {
                let ghost old_dv = entries.deep_view();
                let ghost edv = (pv[i as int], id.deep_view());
                entries.push((pieces[i].clone(), id));
                proof {
                    assert(entries.deep_view() =~= old_dv + seq![edv]);
                    let tail = mod_idents(pv.skip(i + 1));
                    if tail is Ok {
                        assert(old_dv + (seq![edv] + tail->Ok_0) =~= (old_dv + seq![edv])
                            + tail->Ok_0);
                    }
                }
                i += 1;
            },
        }
    }
    proof {
        assert(pv.skip(pieces@.len() as int) =~= Seq::<Seq<char>>::empty());
        assert(entries.deep_view() + Seq::<(Seq<char>, Option<Seq<char>>)>::empty()
            =~= entries.deep_view());
        assert(mod_idents(pv) == Ok::<Seq<(Seq<char>, Option<Seq<char>>)>, ConvErrorView>(
            entries.deep_view(),
        ));
    }
    let ghost iv = entries.deep_view();
    let mut out: Vec<String> = Vec::new();
    let mut j: usize = 0;
    proof {
        assert(iv.skip(0) =~= iv);
        assert(out.deep_view() =~= Seq::<Seq<char>>::empty());
        if mod_canon(iv) is Ok {
            assert(out.deep_view() + mod_canon(iv)->Ok_0 =~= mod_canon(iv)->Ok_0);
        }
    }
    while j < entries.len()
        invariant
            iv == entries.deep_view(),
            pv == tokens_spec(s@, "|"@),
            pv.len() > 0,
            mod_idents(pv) == Ok::<Seq<(Seq<char>, Option<Seq<char>>)>, ConvErrorView>(iv),
            iv.len() == entries@.len(),
            j <= entries@.len(),
            mod_canon(iv) == match mod_canon(iv.skip(j as int)) {
                Ok(rest) => Ok::<Seq<Seq<char>>, ConvErrorView>(out.deep_view() + rest),
                Err(e) => Err::<Seq<Seq<char>>, ConvErrorView>(e),
            },
        decreases entries@.len() - j,
    {
        proof {
            assert(iv.skip(j as int)[0] == iv[j as int]);
            assert(iv[j as int] == entries@[j as int].deep_view());
            assert(iv.skip(j as int).drop_first() =~= iv.skip(j + 1));
        }
        let entry = &entries[j];
        match &entry.1 {
            None => {
                proof {
                    assert(iv[j as int].1 is None);
                }
                return Err(ConvError::MalformedToken(entry.0.clone()));
            },
            Some(id) => {
                proof {
                    assert(iv[j as int].1 == Some(id@));
                }
                if str_eq(id.as_str(), "NONE") {
                    j += 1;
                } else {
                    match mod_lookup(id.as_str()) {
                        Some(c) => {
                            let ghost old_dv = out.deep_view();
                            let ghost cv = c@;
                            out.push(c);
                            proof {
                                assert(cv == mod_table(iv[j as int].1->Some_0)->Some_0);
                                assert(out.deep_view() =~= old_dv + seq![cv]);
                                let tail = mod_canon(iv.skip(j + 1));
                                if tail is Ok {
                                    assert(old_dv + (seq![cv] + tail->Ok_0) =~= (old_dv + seq![cv])
                                        + tail->Ok_0);
                                }
                            }
                            j += 1;
                        },
                        None => {
                            return Err(ConvError::UnknownModifier(id.clone()));
                        },
                    }
                }
            },
        }
    }
    proof {
        assert(iv.skip(entries@.len() as int) =~= Seq::<(Seq<char>, Option<Seq<char>>)>::empty());
        assert(out.deep_view() + Seq::<Seq<char>>::empty() =~= out.deep_view());
    }
    Ok(out)
}

/// A token that the sequence parser treats as a modifier token: it starts
/// with `Mod` or with `VK`. The test is syntactic lookahead only.
pub open spec fn is_mod_token(t: Seq<char>) -> bool {
    is_prefix("Mod"@, t) || is_prefix("VK"@, t)
}

/// What `collect_keys` returns for a token stream: each key or button token,
/// paired with the converted modifier token that immediately follows it, if
/// one does, else with an empty modifier list; the first error aborts all.
pub open spec fn collect_from(toks: Seq<Seq<char>>) -> Result<
    Seq<(KeyOrButtonView, Seq<Seq<char>>)>,
    ConvErrorView,
>
    decreases toks.len(),
{
    if toks.len() == 0 {
        Ok(seq![])
    } else {
        match conv_key_spec(toks[0]) {
            Err(e) => Err(e),
            Ok(k) => if toks.len() >= 2 && is_mod_token(toks[1]) {
                match conv_mod_spec(toks[1]) {
                    Err(e) => Err(e),
                    Ok(ms) => match collect_from(toks.skip(2)) {
                        Err(e) => Err(e),
                        Ok(rest) => Ok(seq![(k, ms)] + rest),
                    },
                }
            } else {
                match collect_from(toks.skip(1)) {
                    Err(e) => Err(e),
                    Ok(rest) => Ok(seq![(k, Seq::<Seq<char>>::empty())] + rest),
                }
            },
        }
    }
}

/// What `collect_keys` returns: the comma-delimited, trimmed tokens of the
/// whole attribute value, parsed as alternating keys and optional modifiers;
/// an empty value holds no tokens and yields no entries.
pub open spec fn collect_keys_spec(s: Seq<char>) -> Result<
    Seq<(KeyOrButtonView, Seq<Seq<char>>)>,
    ConvErrorView,
> {
    collect_from(tokens_spec(s, ","@))
}

/// View of a sequence-parse result.
pub open spec fn keys_result_view(r: Result<Vec<KeySpec>, ConvError>) -> Result<
    Seq<(KeyOrButtonView, Seq<Seq<char>>)>,
    ConvErrorView,
> {
    match r {
        Ok(v) => Ok(v.deep_view()),
        Err(e) => Err(e@),
    }
}

/// Parse a comma-delimited sequence of key tokens, each with an optional
/// following modifier token, exactly as [`collect_keys_spec`] states.
pub fn collect_keys(s: &str) -> (r: Result<Vec<KeySpec>, ConvError>)
    ensures
        keys_result_view(r) == collect_keys_spec(s@),
{
    proof {
        reveal_strlit(",");
    }
    let toks = tokens(s, ",");
    let ghost tv = toks.deep_view();
    let mut acc: Vec<KeySpec> = Vec::new();
    let mut i: usize = 0;
    proof {
        assert(tv.skip(0) =~= tv);
        assert(acc.deep_view() =~= Seq::<(KeyOrButtonView, Seq<Seq<char>>)>::empty());
        if collect_from(tv) is Ok {
            assert(acc.deep_view() + collect_from(tv)->Ok_0 =~= collect_from(tv)->Ok_0);
        }
    }
    while i < toks.len()
        invariant
            tv == toks.deep_view(),
            tv == tokens_spec(s@, ","@),
            tv.len() == toks@.len(),
            i <= toks@.len(),
            collect_from(tv) == match collect_from(tv.skip(i as int)) {
                Ok(rest) => Ok::<Seq<(KeyOrButtonView, Seq<Seq<char>>)>, ConvErrorView>(
                    acc.deep_view() + rest,
                ),
                Err(e) => Err::<Seq<(KeyOrButtonView, Seq<Seq<char>>)>, ConvErrorView>(e),
            },
        decreases toks@.len() - i,
    {
        proof {
            assert(tv.skip(i as int)[0] == tv[i as int]);
            assert(tv[i as int] == toks@[i as int]@);
        }
        let k = match convert_key_or_button(toks[i].as_str()) {
            Ok(k) => k,
            Err(e) => {
                return Err(e);
            },
        };
        let has_mod = i + 1 < toks.len() && (str_starts_with(toks[i + 1].as_str(), "Mod")
            || str_starts_with(toks[i + 1].as_str(), "VK"));
        proof {
            if i + 1 < toks@.len() {
                assert(tv.skip(i as int)[1] == tv[i + 1]);
                assert(tv[i + 1] == toks@[i + 1]@);
            }
        }
        if has_mod {
            proof {
                assert(tv.skip(i as int).skip(2) =~= tv.skip(i + 2));
            }
            match convert_modifier_flags(toks[i + 1].as_str()) {
                Ok(ms) => {
                    let ghost old_dv = acc.deep_view();
                    let ghost kv = k@;
                    let ghost msv = ms.deep_view();
                    acc.push((k, ms));
                    proof {
                        assert(acc.deep_view() =~= old_dv + seq![(kv, msv)]);
                        let tail = collect_from(tv.skip(i + 2));
                        if tail is Ok {
                            assert(old_dv + (seq![(kv, msv)] + tail->Ok_0) =~= (old_dv + seq![
                                (kv, msv),
                            ]) + tail->Ok_0);
                        }
                    }
                    i += 2;
                },
                Err(e) => {
                    return Err(e);
                },
            }
        } else {
            proof {
                assert(tv.skip(i as int).skip(1) =~= tv.skip(i + 1));
            }
            let ghost old_dv = acc.deep_view();
            let ghost kv = k@;
            let empty_mods: Vec<String> = Vec::new();
            proof {
                assert(empty_mods.deep_view() =~= Seq::<Seq<char>>::empty());
            }
            acc.push((k, empty_mods));
            proof {
                assert(acc.deep_view() =~= old_dv + seq![
                    (kv, Seq::<Seq<char>>::empty()),
                ]);
                let tail = collect_from(tv.skip(i + 1));
                if tail is Ok {
                    assert(old_dv + (seq![(kv, Seq::<Seq<char>>::empty())] + tail->Ok_0) =~= (
                    old_dv + seq![(kv, Seq::<Seq<char>>::empty())]) + tail->Ok_0);
                }
            }
            i += 1;
        }
    }
    proof {
        assert(tv.skip(toks@.len() as int) =~= Seq::<Seq<char>>::empty());
        assert(acc.deep_view() + Seq::<(KeyOrButtonView, Seq<Seq<char>>)>::empty()
            =~= acc.deep_view());
    }
    Ok(acc)
}

} // verus!
