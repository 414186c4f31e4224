//! Verified string helpers: whitespace trimming, equality, prefix tests and
//! splitting on a separator, each stated over `Seq<char>` views.

use vstd::prelude::*;

verus! {

/// Whitespace as `str::trim` understands it: the Unicode `White_Space` characters.
pub open spec fn is_wsp(c: char) -> bool {
    c == ' ' || c == '\t' || c == '\n' || c == '\u{b}' || c == '\u{c}' || c == '\r'
        || c == '\u{85}' || c == '\u{a0}' || c == '\u{1680}' || c == '\u{2000}' || c == '\u{2001}'
        || c == '\u{2002}' || c == '\u{2003}' || c == '\u{2004}' || c == '\u{2005}'
        || c == '\u{2006}' || c == '\u{2007}' || c == '\u{2008}' || c == '\u{2009}'
        || c == '\u{200a}' || c == '\u{2028}' || c == '\u{2029}' || c == '\u{202f}'
        || c == '\u{205f}' || c == '\u{3000}'
}

fn is_wsp_exec(c: char) -> (r: bool)
    ensures
        r == is_wsp(c),
{
    c == ' ' || c == '\t' || c == '\n' || c == '\u{b}' || c == '\u{c}' || c == '\r'
        || c == '\u{85}' || c == '\u{a0}' || c == '\u{1680}' || c == '\u{2000}' || c == '\u{2001}'
        || c == '\u{2002}' || c == '\u{2003}' || c == '\u{2004}' || c == '\u{2005}'
        || c == '\u{2006}' || c == '\u{2007}' || c == '\u{2008}' || c == '\u{2009}'
        || c == '\u{200a}' || c == '\u{2028}' || c == '\u{2029}' || c == '\u{202f}'
        || c == '\u{205f}' || c == '\u{3000}'
}

/// The sequence with its leading whitespace removed.
pub open spec fn ltrim(s: Seq<char>) -> Seq<char>
    decreases s.len(),
{
    if s.len() > 0 && is_wsp(s[0]) {
        ltrim(s.skip(1))
    } else {
        s
    }
}

/// The sequence with its trailing whitespace removed.
pub open spec fn rtrim(s: Seq<char>) -> Seq<char>
    decreases s.len(),
{
    if s.len() > 0 && is_wsp(s[s.len() - 1]) {
        rtrim(s.take(s.len() - 1))
    } else {
        s
    }
}

/// The sequence with whitespace removed from both ends, as `str::trim` does.
pub open spec fn trim_spec(s: Seq<char>) -> Seq<char> {
    rtrim(ltrim(s))
}

pub proof fn lemma_ltrim_at(s: Seq<char>, k: int)
    requires
        0 <= k <= s.len(),
        forall|j: int| 0 <= j < k ==> is_wsp(s[j]),
        k == s.len() || !is_wsp(s[k]),
    ensures
        ltrim(s) == s.skip(k),
    decreases k,
{
    if k == 0 {
        assert(s.skip(0) =~= s);
    } else {
        let t = s.skip(1);
        assert(forall|j: int| 0 <= j < k - 1 ==> t[j] == s[j + 1] && is_wsp(t[j]));
        lemma_ltrim_at(t, k - 1);
        assert(t.skip(k - 1) =~= s.skip(k));
    }
}

pub proof fn lemma_rtrim_at(s: Seq<char>, k: int)
    requires
        0 <= k <= s.len(),
        forall|j: int| k <= j < s.len() ==> is_wsp(s[j]),
        k == 0 || !is_wsp(s[k - 1]),
    ensures
        rtrim(s) == s.take(k),
    decreases s.len(),
{
    if k == s.len() {
        assert(s.take(k) =~= s);
    } else {
        let t = s.take(s.len() - 1);
        assert(forall|j: int| k <= j < t.len() ==> t[j] == s[j] && is_wsp(t[j]));
        lemma_rtrim_at(t, k);
        assert(t.take(k) =~= s.take(k));
    }
}

/// Remove whitespace from both ends of a string slice.
pub fn trim(s: &str) -> (r: &str)
    ensures
        r@ == trim_spec(s@),
{
    let len = s.unicode_len();
    let mut lo: usize = 0;
    while lo < len && is_wsp_exec(s.get_char(lo))
        invariant
            len == s@.len(),
            lo <= len,
            forall|j: int| 0 <= j < lo ==> is_wsp(s@[j]),
        decreases len - lo,
    {
        lo += 1;
    }
    let mut hi: usize = len;
    while hi > lo && is_wsp_exec(s.get_char(hi - 1))
        invariant
            len == s@.len(),
            lo <= hi <= len,
            forall|j: int| hi <= j < len ==> is_wsp(s@[j]),
        decreases hi,
    {
        hi -= 1;
    }
    proof {
        lemma_ltrim_at(s@, lo as int);
        let t = s@.skip(lo as int);
        assert(forall|j: int| hi - lo <= j < t.len() ==> t[j] == s@[j + lo] && is_wsp(t[j]));
        lemma_rtrim_at(t, hi - lo);
        assert(t.take(hi - lo) =~= s@.subrange(lo as int, hi as int));
    }
    s.substring_char(lo, hi)
}

/// Character-for-character string equality.
pub fn str_eq(a: &str, b: &str) -> (r: bool)
    ensures
        r == (a@ == b@),
{
    let alen = a.unicode_len();
    if alen != b.unicode_len() {
        return false;
    }
    let mut i: usize = 0;
    while i < alen
        invariant
            alen == a@.len() && alen == b@.len(),
            i <= alen,
            forall|j: int| 0 <= j < i ==> a@[j] == b@[j],
        decreases alen - i,
    {
        if a.get_char(i) != b.get_char(i) {
            return false;
        }
        i += 1;
    }
    proof {
        assert(a@ =~= b@);
    }
    true
}

/// `p` is an initial segment of `s`.
pub open spec fn is_prefix(p: Seq<char>, s: Seq<char>) -> bool {
    p.len() <= s.len() && s.take(p.len() as int) == p
}

/// Whether `s` starts with the prefix `p`.
pub fn str_starts_with(s: &str, p: &str) -> (r: bool)
    ensures
        r == is_prefix(p@, s@),
{
    let plen = p.unicode_len();
    if plen > s.unicode_len() {
        return false;
    }
    let mut i: usize = 0;
    while i < plen
        invariant
            plen == p@.len(),
            plen <= s@.len(),
            i <= plen,
            forall|j: int| 0 <= j < i ==> s@[j] == p@[j],
        decreases plen - i,
    {
        if s.get_char(i) != p.get_char(i) {
            proof {
                assert(s@.take(plen as int)[i as int] == s@[i as int]);
            }
            return false;
        }
        i += 1;
    }
    proof {
        assert(s@.take(plen as int) =~= p@);
    }
    true
}

/// The separator occurs in `s` at position `j`.
pub open spec fn match_at(s: Seq<char>, sep: Seq<char>, j: int) -> bool {
    0 <= j && j + sep.len() <= s.len() && s.subrange(j, j + sep.len()) == sep
}

/// Position of the leftmost occurrence of `sep` in `s`, or `-1` if there is none.
pub open spec fn first_match(s: Seq<char>, sep: Seq<char>) -> int
    recommends
        sep.len() >= 1,
    decreases s.len(),
{
    if s.len() < sep.len() {
        -1
    } else if s.subrange(0, sep.len() as int) == sep {
        0
    } else if s.len() == 0 {
        -1
    } else {
        let r = first_match(s.skip(1), sep);
        if r == -1 {
            -1
        } else {
            r + 1
        }
    }
}

pub proof fn lemma_first_match_found(s: Seq<char>, sep: Seq<char>, m: int)
    requires
        sep.len() >= 1,
        match_at(s, sep, m),
        forall|j: int| 0 <= j < m ==> !match_at(s, sep, j),
    ensures
        first_match(s, sep) == m,
    decreases m,
{
    if m == 0 {
    } else {
        assert(!match_at(s, sep, 0));
        let t = s.skip(1);
        assert forall|j: int| 0 <= j < m - 1 implies !match_at(t, sep, j) by {
            assert(!match_at(s, sep, j + 1));
            if j + sep.len() <= t.len() {
                assert(t.subrange(j, j + sep.len()) =~= s.subrange(j + 1, j + 1 + sep.len()));
            }
        }
        assert(t.subrange(m - 1, m - 1 + sep.len()) =~= s.subrange(m, m + sep.len()));
        lemma_first_match_found(t, sep, m - 1);
    }
}

pub proof fn lemma_first_match_none(s: Seq<char>, sep: Seq<char>)
    requires
        sep.len() >= 1,
        forall|j: int| !match_at(s, sep, j),
    ensures
        first_match(s, sep) == -1,
    decreases s.len(),
{
    if s.len() >= sep.len() {
        assert(!match_at(s, sep, 0));
        let t = s.skip(1);
        assert forall|j: int| !match_at(t, sep, j) by {
            if 0 <= j && j + sep.len() <= t.len() {
                assert(!match_at(s, sep, j + 1));
                assert(t.subrange(j, j + sep.len()) =~= s.subrange(j + 1, j + 1 + sep.len()));
            }
        }
        lemma_first_match_none(t, sep);
    }
}

/// The pieces of `s` delimited by `sep`, leftmost occurrence first; a string
/// with no occurrence is a single piece, so the result is never empty.
pub open spec fn split_by(s: Seq<char>, sep: Seq<char>) -> Seq<Seq<char>>
    recommends
        sep.len() >= 1,
    decreases s.len(),
{
    let m = first_match(s, sep);
    if sep.len() < 1 || m < 0 || m + sep.len() > s.len() {
        seq![s]
    } else {
        seq![s.subrange(0, m)] + split_by(s.skip(m + sep.len()), sep)
    }
}

pub proof fn lemma_split_by_len(s: Seq<char>, sep: Seq<char>)
    ensures
        split_by(s, sep).len() >= 1,
    decreases s.len(),
{
    let m = first_match(s, sep);
    if !(sep.len() < 1 || m < 0 || m + sep.len() > s.len()) {
        lemma_split_by_len(s.skip(m + sep.len()), sep)
    }
}

/// A string in which the separator never occurs is a single piece.
pub proof fn lemma_split_by_single(s: Seq<char>, sep: Seq<char>)
    requires
        sep.len() >= 1,
        forall|j: int| !match_at(s, sep, j),
    ensures
        split_by(s, sep) == seq![s],
{
    lemma_first_match_none(s, sep);
}

/// Splitting takes off everything up to the leftmost separator occurrence.
pub proof fn lemma_split_by_first(s: Seq<char>, sep: Seq<char>, m: int)
    requires
        sep.len() >= 1,
        match_at(s, sep, m),
        forall|j: int| 0 <= j < m ==> !match_at(s, sep, j),
    ensures
        split_by(s, sep) == seq![s.subrange(0, m)] + split_by(s.skip(m + sep.len()), sep),
{
    lemma_first_match_found(s, sep, m);
}

/// Find the leftmost occurrence of `sep` in `s`.
fn find_sep(s: &str, sep: &str) -> (r: Option<usize>)
    requires
        sep@.len() >= 1,
    ensures
        match r {
            Some(m) => first_match(s@, sep@) == m as int && match_at(s@, sep@, m as int),
            None => first_match(s@, sep@) == -1,
        },
{
    let slen = s.unicode_len();
    let seplen = sep.unicode_len();
    if seplen > slen {
        proof {
            assert forall|j: int| !match_at(s@, sep@, j) by {}
            lemma_first_match_none(s@, sep@);
        }
        return None;
    }
    let mut i: usize = 0;
    while i <= slen - seplen
        invariant
            slen == s@.len(),
            seplen == sep@.len(),
            1 <= seplen <= slen,
            i <= slen - seplen + 1,
            forall|j: int| 0 <= j < i ==> !match_at(s@, sep@, j),
        decreases slen - i,
    {
        let mut k: usize = 0;
        let mut hit = true;
        while k < seplen
            invariant
                slen == s@.len(),
                seplen == sep@.len(),
                1 <= seplen <= slen,
                i + seplen <= slen,
                k <= seplen,
                hit ==> forall|j: int| 0 <= j < k ==> s@[i + j] == sep@[j],
                !hit ==> !match_at(s@, sep@, i as int),
            decreases seplen - k,
        {
            if s.get_char(i + k) != sep.get_char(k) {
                proof {
                    assert(s@.subrange(i as int, i + seplen)[k as int] == s@[i + k]);
                }
                hit = false;
                k = seplen;
            } else {
                k += 1;
            }
        }
        if hit {
            proof {
                assert(s@.subrange(i as int, i + seplen) =~= sep@);
                lemma_first_match_found(s@, sep@, i as int);
            }
            return Some(i);
        }
        i += 1;
    }
    proof {
        assert forall|j: int| !match_at(s@, sep@, j) by {}
        lemma_first_match_none(s@, sep@);
    }
    None
}

/// The pieces of `s` delimited by `sep`, each trimmed of surrounding whitespace.
pub open spec fn split_trim_spec(s: Seq<char>, sep: Seq<char>) -> Seq<Seq<char>> {
    split_by(s, sep).map_values(|t: Seq<char>| trim_spec(t))
}

proof fn lemma_map_trim_snoc(a: Seq<Seq<char>>, x: Seq<char>)
    ensures
        (a + seq![x]).map_values(|t: Seq<char>| trim_spec(t)) == a.map_values(
            |t: Seq<char>| trim_spec(t),
        ) + seq![trim_spec(x)],
{
    assert((a + seq![x]).map_values(|t: Seq<char>| trim_spec(t)) =~= a.map_values(
        |t: Seq<char>| trim_spec(t),
    ) + seq![trim_spec(x)]);
}

/// Split `s` on `sep` and trim each piece.
pub fn split_trim(s: &str, sep: &str) -> (r: Vec<String>)
    requires
        sep@.len() >= 1,
    ensures
        r.deep_view() == split_trim_spec(s@, sep@),
{
    let mut r: Vec<String> = Vec::new();
    let mut rem: &str = s;
    let ghost mut done: Seq<Seq<char>> = seq![];
    proof {
        assert(split_by(s@, sep@) =~= done + split_by(rem@, sep@));
        assert(r.deep_view() =~= done.map_values(|t: Seq<char>| trim_spec(t)));
    }
    loop
        invariant
            sep@.len() >= 1,
            split_by(s@, sep@) == done + split_by(rem@, sep@),
            r.deep_view() == done.map_values(|t: Seq<char>| trim_spec(t)),
        decreases rem@.len(),
    {
        let rlen = rem.unicode_len();
        match find_sep(rem, sep) {
            None => {
                let piece = trim(rem);
                r.push(piece.to_owned());
                proof {
                    assert(split_by(rem@, sep@) =~= seq![rem@]);
                    assert(split_by(s@, sep@) == done + seq![rem@]);
                    lemma_map_trim_snoc(done, rem@);
                    assert(r.deep_view() =~= done.map_values(|t: Seq<char>| trim_spec(t)) + seq![
                        trim_spec(rem@),
                    ]);
                    assert(r.deep_view() == split_trim_spec(s@, sep@));
                }
                return r;
            },
            Some(m) => {
                let seplen = sep.unicode_len();
                let piece = trim(rem.substring_char(0, m));
                r.push(piece.to_owned());
                let next = rem.substring_char(m + seplen, rlen);
                proof {
                    let ghost head = rem@.subrange(0, m as int);
                    assert(next@ == rem@.skip(m + seplen));
                    assert(split_by(rem@, sep@) == seq![head] + split_by(next@, sep@));
                    lemma_map_trim_snoc(done, head);
                    assert(r.deep_view() =~= done.map_values(|t: Seq<char>| trim_spec(t)) + seq![
                        trim_spec(head),
                    ]);
                    done = done + seq![head];
                    assert(split_by(s@, sep@) =~= done + split_by(next@, sep@));
                }
                rem = next;
            },
        }
    }
}

/// The comma- or pipe-delimited tokens of `s`, trimmed; an empty input holds
/// no tokens at all.
pub open spec fn tokens_spec(s: Seq<char>, sep: Seq<char>) -> Seq<Seq<char>> {
    if s.len() == 0 {
        seq![]
    } else {
        split_trim_spec(s, sep)
    }
}

/// Split a delimited attribute value into trimmed tokens; empty input gives none.
pub fn tokens(s: &str, sep: &str) -> (r: Vec<String>)
    requires
        sep@.len() >= 1,
    ensures
        r.deep_view() == tokens_spec(s@, sep@),
{
    if s.unicode_len() == 0 {
        let r: Vec<String> = Vec::new();
        proof {
            assert(r.deep_view() =~= tokens_spec(s@, sep@));
        }
        r
    } else {
        split_trim(s, sep)
    }
}

} // verus!
