//! Character and substring utilities shared by the schema parser and the
//! synthesizers: first-occurrence search, whole-identifier matching, and
//! ASCII lowercasing.

use vstd::prelude::*;
use vstd::string::StrSliceExecFns;

verus! {

/// The views of a list of strings, in order.
pub open spec fn str_views(ss: Seq<String>) -> Seq<Seq<char>> {
    ss.map_values(|s: String| s@)
}

/// An identifier character: ASCII letter, digit or underscore.
pub open spec fn is_ident_char(c: char) -> bool {
    (97 <= c as u32 && c as u32 <= 122)  // a-z
    || (65 <= c as u32 && c as u32 <= 90)  // A-Z
    || (48 <= c as u32 && c as u32 <= 57)  // 0-9
    || c == '_'
}

/// The ASCII-lowercased counterpart of a character; anything but an ASCII
/// uppercase letter is left unchanged.
pub open spec fn lower_char(c: char) -> char {
    if 65 <= c as u32 && c as u32 <= 90 {
        ((c as u32 + 32) as u8) as char
    } else {
        c
    }
}

/// A text lowercased character by character.
pub open spec fn lower(s: Seq<char>) -> Seq<char> {
    s.map_values(|c: char| lower_char(c))
}

/// `pat` occurs in `text` starting at position `i`.
pub open spec fn occurs_at(text: Seq<char>, pat: Seq<char>, i: int) -> bool {
    0 <= i && i + pat.len() <= text.len() && text.subrange(i, i + pat.len() as int) == pat
}

/// `pat` occurs somewhere in `text`.
pub open spec fn has_occurrence(text: Seq<char>, pat: Seq<char>) -> bool {
    exists|i: int| occurs_at(text, pat, i)
}

/// The position of the first occurrence of `pat` in `text`; meaningful only
/// when `has_occurrence(text, pat)` holds.
pub open spec fn first_occurrence(text: Seq<char>, pat: Seq<char>) -> int
    decreases text.len(),
{
    if occurs_at(text, pat, 0) {
        0
    } else if text.len() == 0 {
        0
    } else {
        1 + first_occurrence(text.subrange(1, text.len() as int), pat)
    }
}

/// `sym` occurs in `text` at `i` as a whole identifier: the surrounding
/// characters, where present, are not identifier characters.
pub open spec fn ident_at(text: Seq<char>, sym: Seq<char>, i: int) -> bool {
    occurs_at(text, sym, i)
    && (i == 0 || !is_ident_char(text[i - 1]))
    && (i + sym.len() == text.len() || !is_ident_char(text[i + sym.len() as int]))
}

/// `sym` occurs somewhere in `text` as a whole identifier.
pub open spec fn mentions(text: Seq<char>, sym: Seq<char>) -> bool {
    exists|i: int| ident_at(text, sym, i)
}

/// `text` carries `prefix` immediately before position `i`.
pub open spec fn preceded_by(text: Seq<char>, prefix: Seq<char>, i: int) -> bool {
    prefix.len() <= i && i <= text.len() && text.subrange(i - prefix.len(), i) == prefix
}

/// Dropping the first character shifts every occurrence by one.
proof fn lemma_occurrence_shift(text: Seq<char>, pat: Seq<char>, k: int)
    requires
        1 <= k,
        text.len() >= 1,
    ensures
        occurs_at(text, pat, k) <==> occurs_at(text.subrange(1, text.len() as int), pat, k - 1),
{
    let tail = text.subrange(1, text.len() as int);
    if occurs_at(text, pat, k) {
        assert(tail.subrange(k - 1, k - 1 + pat.len() as int) =~= text.subrange(
            k,
            k + pat.len() as int,
        ));
    }
    if occurs_at(tail, pat, k - 1) {
        assert(text.subrange(k, k + pat.len() as int) =~= tail.subrange(
            k - 1,
            k - 1 + pat.len() as int,
        ));
    }
}

/// Where `pat` occurs at all, `first_occurrence` names its earliest position.
pub proof fn lemma_first_occurrence(text: Seq<char>, pat: Seq<char>)
    requires
        has_occurrence(text, pat),
    ensures
        occurs_at(text, pat, first_occurrence(text, pat)),
        forall|k: int| 0 <= k < first_occurrence(text, pat) ==> !occurs_at(text, pat, k),
    decreases text.len(),
{
    if occurs_at(text, pat, 0) {
    } else {
        let w = choose|i: int| occurs_at(text, pat, i);
        if text.len() == 0 {
            assert(text.subrange(0, pat.len() as int) =~= text.subrange(
                w,
                w + pat.len() as int,
            ));
            assert(false);
        } else {
            let tail = text.subrange(1, text.len() as int);
            assert(w >= 1);
            lemma_occurrence_shift(text, pat, w);
            assert(occurs_at(tail, pat, w - 1));
            lemma_first_occurrence(tail, pat);
            let f = first_occurrence(tail, pat);
            lemma_occurrence_shift(text, pat, f + 1);
            assert forall|k: int| 0 <= k < 1 + f implies !occurs_at(text, pat, k) by {
                if k >= 1 {
                    lemma_occurrence_shift(text, pat, k);
                }
            }
        }
    }
}

/// A position that carries an occurrence and is preceded by none is the
/// first occurrence.
pub proof fn lemma_found_is_first(text: Seq<char>, pat: Seq<char>, i: int)
    requires
        occurs_at(text, pat, i),
        forall|k: int| 0 <= k < i ==> !occurs_at(text, pat, k),
    ensures
        i == first_occurrence(text, pat),
{
    lemma_first_occurrence(text, pat);
}

/// ASCII-lowercase a character.
pub fn lower_char_exec(c: char) -> (r: char)
    ensures
        r == lower_char(c),
{
    let u = c as u32;
    if 65 <= u && u <= 90 {
        ((u + 32) as u8) as char
    } else {
        c
    }
}

/// Decide `is_ident_char`.
pub fn is_ident_char_exec(c: char) -> (r: bool)
    ensures
        r == is_ident_char(c),
{
    let u = c as u32;
    (97 <= u && u <= 122) || (65 <= u && u <= 90) || (48 <= u && u <= 57) || c == '_'
}

/// Relies on `String::push` of std: it appends exactly the one character at
/// the end of the string.
#[verifier::external_body]
pub(crate) fn push_char(s: &mut String, c: char)
    ensures
        final(s)@ == old(s)@.push(c),
{
    s.push(c);
}

/// ASCII-lowercase a text, character by character.
pub fn lower_str(s: &str) -> (r: String)
    ensures
        r@ == lower(s@),
{
    let n = s.unicode_len();
    let mut out = String::new();
    let mut i: usize = 0;
    while i < n
        invariant
            n == s@.len(),
            0 <= i <= n,
            out@.len() == i,
            forall|j: int| 0 <= j < i ==> out@[j] == lower_char(s@[j]),
        decreases n - i,
    {
        let c = s.get_char(i);
        push_char(&mut out, lower_char_exec(c));
        i = i + 1;
    }
    assert(out@ =~= lower(s@));
    out
}

/// `pat` occurs in `text` at position `i`: checked character by character.
pub fn occurs_at_exec(text: &str, pat: &str, i: usize) -> (r: bool)
    ensures
        r == occurs_at(text@, pat@, i as int),
{
    let m = text.unicode_len();
    let n = pat.unicode_len();
    if n > m || i > m - n {
        return false;
    }
    let mut j: usize = 0;
    while j < n
        invariant
            m == text@.len(),
            n == pat@.len(),
            n <= m,
            i <= m - n,
            0 <= j <= n,
            forall|k: int| 0 <= k < j ==> text@[i + k] == pat@[k],
        decreases n - j,
    {
        if text.get_char(i + j) != pat.get_char(j) {
            assert(!occurs_at(text@, pat@, i as int)) by {
                assert(text@.subrange(i as int, i + n) != pat@) by {
                    assert(text@.subrange(i as int, i + n)[j as int] != pat@[j as int]);
                }
            }
            return false;
        }
        j = j + 1;
    }
    assert(text@.subrange(i as int, i + n) =~= pat@);
    true
}

/// The earliest position where `pat` occurs in `text`, if any.
pub fn find_first(text: &str, pat: &str) -> (r: Option<usize>)
    ensures
        match r {
            Some(i) => occurs_at(text@, pat@, i as int) && i as int == first_occurrence(
                text@,
                pat@,
            ),
            None => !has_occurrence(text@, pat@),
        },
{
    let m = text.unicode_len();
    let n = pat.unicode_len();
    if n > m {
        assert(forall|k: int| !occurs_at(text@, pat@, k));
        return None;
    }
    let last = m - n;
    let mut i: usize = 0;
    loop
        invariant
            m == text@.len(),
            n == pat@.len(),
            n <= m,
            last == m - n,
            0 <= i <= last,
            forall|k: int| 0 <= k < i ==> !occurs_at(text@, pat@, k),
        decreases last - i,
    {
        if occurs_at_exec(text, pat, i) {
            proof {
                lemma_found_is_first(text@, pat@, i as int);
            }
            return Some(i);
        }
        if i == last {
            assert(forall|k: int| !occurs_at(text@, pat@, k));
            return None;
        }
        i = i + 1;
    }
}

/// `sym` occurs somewhere in `text` as a whole identifier.
pub fn mentions_exec(text: &str, sym: &str) -> (r: bool)
    ensures
        r == mentions(text@, sym@),
{
    let m = text.unicode_len();
    let n = sym.unicode_len();
    if n > m {
        assert(forall|k: int| !ident_at(text@, sym@, k));
        return false;
    }
    let last = m - n;
    let mut i: usize = 0;
    loop
        invariant
            m == text@.len(),
            n == sym@.len(),
            n <= m,
            last == m - n,
            0 <= i <= last,
            forall|k: int| 0 <= k < i ==> !ident_at(text@, sym@, k),
        decreases last - i,
    {
        if occurs_at_exec(text, sym, i) {
            let left_free = i == 0 || !is_ident_char_exec(text.get_char(i - 1));
            let right_free = i + n == m || !is_ident_char_exec(text.get_char(i + n));
            if left_free && right_free {
                assert(ident_at(text@, sym@, i as int));
                return true;
            }
        }
        if i == last {
            assert(forall|k: int| !ident_at(text@, sym@, k));
            return false;
        }
        i = i + 1;
    }
}

/// Every whole-identifier occurrence of `sym` in `text` is directly preceded
/// by one of the two wrapper openings `w1` or `w2`.
pub open spec fn refs_wrapped(text: Seq<char>, sym: Seq<char>, w1: Seq<char>, w2: Seq<char>) -> bool {
    forall|i: int|
        ident_at(text, sym, i) ==> preceded_by(text, w1, i) || preceded_by(text, w2, i)
}

/// `text` carries `prefix` immediately before position `i`.
pub fn preceded_by_exec(text: &str, prefix: &str, i: usize) -> (r: bool)
    ensures
        r == preceded_by(text@, prefix@, i as int),
{
    let m = text.unicode_len();
    let w = prefix.unicode_len();
    if i > m || w > i {
        return false;
    }
    let r = occurs_at_exec(text, prefix, i - w);
    proof {
        if occurs_at(text@, prefix@, i - w as int) {
            assert(text@.subrange(i - w as int, i as int) == prefix@);
        }
        if preceded_by(text@, prefix@, i as int) {
            assert(occurs_at(text@, prefix@, i - w as int));
        }
    }
    r
}

/// Decide `refs_wrapped`: every whole-identifier occurrence of `sym` stands
/// directly behind `w1` or `w2`.
pub fn refs_wrapped_exec(text: &str, sym: &str, w1: &str, w2: &str) -> (r: bool)
    ensures
        r == refs_wrapped(text@, sym@, w1@, w2@),
{
    let m = text.unicode_len();
    let n = sym.unicode_len();
    if n > m {
        assert(forall|k: int| !ident_at(text@, sym@, k));
        return true;
    }
    let last = m - n;
    let mut i: usize = 0;
    loop
        invariant
            m == text@.len(),
            n == sym@.len(),
            n <= m,
            last == m - n,
            0 <= i <= last,
            forall|k: int|
                0 <= k < i ==> (ident_at(text@, sym@, k) ==> preceded_by(text@, w1@, k)
                    || preceded_by(text@, w2@, k)),
        decreases last - i,
    {
        if occurs_at_exec(text, sym, i) {
            let left_free = i == 0 || !is_ident_char_exec(text.get_char(i - 1));
            let right_free = i + n == m || !is_ident_char_exec(text.get_char(i + n));
            if left_free && right_free {
                if !preceded_by_exec(text, w1, i) && !preceded_by_exec(text, w2, i) {
                    assert(ident_at(text@, sym@, i as int));
                    return false;
                }
            }
        }
        if i == last {
            assert(forall|k: int| k > last ==> !ident_at(text@, sym@, k));
            return true;
        }
        i = i + 1;
    }
}

} // verus!
