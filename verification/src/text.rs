//! Trimming and prefixes of texts, over their characters.

use vstd::prelude::*;
use vstd::string::StrSliceExecFns;

verus! {

/// Whether `c` has the Unicode property `White_Space`: the controls from tab to carriage
/// return, the space, next line, the no-break space, the Ogham space mark, the spaces
/// from en quad to hair space, the line and the paragraph separator, the narrow no-break
/// space, the medium mathematical space and the ideographic space.
pub open spec fn is_whitespace(c: char) -> bool {
    let code = c as u32;
    ||| 0x09 <= code <= 0x0d
    ||| code == 0x20
    ||| code == 0x85
    ||| code == 0xa0
    ||| code == 0x1680
    ||| 0x2000 <= code <= 0x200a
    ||| code == 0x2028
    ||| code == 0x2029
    ||| code == 0x202f
    ||| code == 0x205f
    ||| code == 0x3000
}

/// Calls `char::is_whitespace`, which its documentation defines as having the Unicode
/// property `White_Space`.
#[verifier::external_body]
pub(crate) fn char_is_whitespace(c: char) -> (space: bool)
    ensures
        space == is_whitespace(c),
{
    c.is_whitespace()
}

/// The first position from `from` on that holds no whitespace, or the length.
pub open spec fn skip_space(s: Seq<char>, from: int) -> int
    decreases s.len() - from,
{
    if 0 <= from < s.len() && is_whitespace(s[from]) {
        skip_space(s, from + 1)
    } else {
        from
    }
}

/// The end of the text between `from` and `to` once the whitespace at its end is cut.
pub open spec fn cut_space(s: Seq<char>, from: int, to: int) -> int
    decreases to - from,
{
    if from < to <= s.len() && is_whitespace(s[to - 1]) {
        cut_space(s, from, to - 1)
    } else {
        to
    }
}

/// The text without the whitespace at its start and at its end.
pub open spec fn spec_trim(s: Seq<char>) -> Seq<char> {
    s.subrange(skip_space(s, 0), cut_space(s, skip_space(s, 0), s.len() as int))
}

/// Whether the text starts with `prefix`.
pub open spec fn spec_starts_with(s: Seq<char>, prefix: Seq<char>) -> bool {
    prefix.len() <= s.len() && s.subrange(0, prefix.len() as int) == prefix
}

/// Whether the text has no whitespace at its start or at its end.
pub open spec fn is_trimmed(s: Seq<char>) -> bool {
    s.len() > 0 ==> !is_whitespace(s[0]) && !is_whitespace(s[s.len() - 1])
}

proof fn lemma_skip_space(s: Seq<char>, from: int)
    requires
        0 <= from <= s.len(),
    ensures
        from <= skip_space(s, from) <= s.len(),
        forall|i: int| from <= i < skip_space(s, from) ==> is_whitespace(s[i]),
        skip_space(s, from) < s.len() ==> !is_whitespace(s[skip_space(s, from)]),
    decreases s.len() - from,
{
    if from < s.len() && is_whitespace(s[from]) {
        lemma_skip_space(s, from + 1);
    }
}

proof fn lemma_cut_space(s: Seq<char>, from: int, to: int)
    requires
        0 <= from <= to <= s.len(),
    ensures
        from <= cut_space(s, from, to) <= to,
        forall|i: int| cut_space(s, from, to) <= i < to ==> is_whitespace(s[i]),
        from < cut_space(s, from, to) ==> !is_whitespace(s[cut_space(s, from, to) - 1]),
    decreases to - from,
{
    if from < to && is_whitespace(s[to - 1]) {
        lemma_cut_space(s, from, to - 1);
    }
}

/// Trimming leaves a text that is trimmed, and leaves a trimmed text as it is.
pub proof fn lemma_trim(s: Seq<char>)
    ensures
        is_trimmed(spec_trim(s)),
        spec_trim(s).len() <= s.len(),
        is_trimmed(s) <==> spec_trim(s) == s,
        spec_trim(s).len() == s.len() <==> spec_trim(s) == s,
        spec_trim(spec_trim(s)) == spec_trim(s),
{
    let a = skip_space(s, 0);
    lemma_skip_space(s, 0);
    let b = cut_space(s, a, s.len() as int);
    lemma_cut_space(s, a, s.len() as int);
    let t = spec_trim(s);
    if a < b {
        assert(t[0] == s[a]);
        assert(t[t.len() - 1] == s[b - 1]);
    }
    if is_trimmed(s) {
        if s.len() > 0 {
            assert(a == 0);
            assert(b == s.len());
        }
        assert(t =~= s);
    }
    if t.len() == s.len() {
        assert(t =~= s);
    }
    lemma_skip_space(t, 0);
    lemma_cut_space(t, skip_space(t, 0), t.len() as int);
    if t.len() > 0 {
        assert(skip_space(t, 0) == 0);
        assert(cut_space(t, 0, t.len() as int) == t.len());
    }
    assert(spec_trim(t) =~= t);
}

/// The text without the whitespace at its start and at its end.
pub fn trim<'a>(s: &'a str) -> (t: &'a str)
    ensures
        t@ == spec_trim(s@),
{
    let len = s.unicode_len();
    let mut from: usize = 0;
    while from < len && char_is_whitespace(s.get_char(from))
        invariant
            from <= len,
            len == s@.len(),
            skip_space(s@, 0) == skip_space(s@, from as int),
        decreases len - from,
    {
        from += 1;
    }
    let mut to: usize = len;
    while from < to && char_is_whitespace(s.get_char(to - 1))
        invariant
            from <= to <= len,
            len == s@.len(),
            cut_space(s@, from as int, len as int) == cut_space(s@, from as int, to as int),
        decreases to - from,
    {
        to -= 1;
    }
    s.substring_char(from, to)
}

/// Whether the text starts with `prefix`.
pub fn starts_with(s: &str, prefix: &str) -> (found: bool)
    ensures
        found == spec_starts_with(s@, prefix@),
{
    let len = prefix.unicode_len();
    if s.unicode_len() < len {
        return false;
    }
    let mut i: usize = 0;
    while i < len
        invariant
            i <= len,
            len == prefix@.len(),
            len <= s@.len(),
            forall|k: int| 0 <= k < i ==> s@[k] == prefix@[k],
        decreases len - i,
    {
        if s.get_char(i) != prefix.get_char(i) {
            assert(s@.subrange(0, prefix@.len() as int)[i as int] != prefix@[i as int]);
            return false;
        }
        i += 1;
    }
    assert(s@.subrange(0, prefix@.len() as int) =~= prefix@);
    true
}

/// Whether both texts hold the same characters.
pub fn same_text(a: &str, b: &str) -> (same: bool)
    ensures
        same == (a@ == b@),
{
    let len = a.unicode_len();
    if b.unicode_len() != len {
        return false;
    }
    let mut i: usize = 0;
    while i < len
        invariant
            i <= len,
            len == a@.len(),
            len == b@.len(),
            forall|k: int| 0 <= k < i ==> a@[k] == b@[k],
        decreases len - i,
    {
        if a.get_char(i) != b.get_char(i) {
            return false;
        }
        i += 1;
    }
    assert(a@ =~= b@);
    true
}

} // verus!
