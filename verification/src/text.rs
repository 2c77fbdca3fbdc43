//! Whitespace around captured text.

use vstd::prelude::*;
use vstd::string::*;

verus! {

/// Whether `c` has the Unicode `White_Space` property, as
/// `char::is_whitespace` reports it.
pub uninterp spec fn is_whitespace(c: char) -> bool;

/// `s` without its leading and trailing whitespace.
pub open spec fn trimmed(s: Seq<char>) -> Seq<char>
    decreases s.len(),
{
    if s.len() > 0 && is_whitespace(s.first()) {
        trimmed(s.drop_first())
    } else if s.len() > 0 && is_whitespace(s.last()) {
        trimmed(s.drop_last())
    } else {
        s
    }
}

/// A text is blank when it holds nothing but whitespace.
pub open spec fn is_blank(s: Seq<char>) -> bool {
    forall|i: int| 0 <= i < s.len() ==> is_whitespace(#[trigger] s[i])
}

/// Trimming leaves nothing exactly of the blank texts.
pub proof fn lemma_trimmed_empty_iff_blank(s: Seq<char>)
    ensures
        trimmed(s).len() == 0 <==> is_blank(s),
    decreases s.len(),
{
    if s.len() > 0 && is_whitespace(s.first()) {
        let rest = s.drop_first();
        lemma_trimmed_empty_iff_blank(rest);
        if is_blank(rest) {
            assert forall|i: int| 0 <= i < s.len() implies is_whitespace(#[trigger] s[i]) by {
                if i > 0 {
                    assert(s[i] == rest[i - 1]);
                }
            }
        }
        if is_blank(s) {
            assert forall|i: int| 0 <= i < rest.len() implies is_whitespace(#[trigger] rest[i]) by {
                assert(rest[i] == s[i + 1]);
            }
        }
    } else if s.len() > 0 && is_whitespace(s.last()) {
        let rest = s.drop_last();
        lemma_trimmed_empty_iff_blank(rest);
        assert(s.len() >= 2);
        assert(rest[0] == s[0]);
        assert(!is_whitespace(rest[0]));
    } else if s.len() > 0 {
        assert(!is_whitespace(s[0]));
    }
}

/// Where a text is not blank, trimming leaves the stretch from its first
/// to its last character that is no whitespace.
pub proof fn lemma_trimmed_is_stretch(s: Seq<char>, first: int, last: int)
    requires
        0 <= first <= last < s.len(),
        !is_whitespace(s[first]),
        !is_whitespace(s[last]),
        forall|i: int| 0 <= i < first ==> is_whitespace(#[trigger] s[i]),
        forall|i: int| last < i < s.len() ==> is_whitespace(#[trigger] s[i]),
    ensures
        trimmed(s) == s.subrange(first, last + 1),
    decreases s.len(),
{
    if is_whitespace(s.first()) {
        let rest = s.drop_first();
        assert(first > 0);
        assert forall|i: int| 0 <= i < first - 1 implies is_whitespace(#[trigger] rest[i]) by {
            assert(rest[i] == s[i + 1]);
        }
        assert forall|i: int| last - 1 < i < rest.len() implies is_whitespace(
            #[trigger] rest[i],
        ) by {
            assert(rest[i] == s[i + 1]);
        }
        lemma_trimmed_is_stretch(rest, first - 1, last - 1);
        assert(rest.subrange(first - 1, last) =~= s.subrange(first, last + 1));
    } else if is_whitespace(s.last()) {
        let rest = s.drop_last();
        assert(last < s.len() - 1);
        assert forall|i: int| 0 <= i < first implies is_whitespace(#[trigger] rest[i]) by {
            assert(rest[i] == s[i]);
        }
        assert forall|i: int| last < i < rest.len() implies is_whitespace(#[trigger] rest[i]) by {
            assert(rest[i] == s[i]);
        }
        lemma_trimmed_is_stretch(rest, first, last);
        assert(rest.subrange(first, last + 1) =~= s.subrange(first, last + 1));
    } else {
        assert(first == 0) by {
            if first > 0 {
                assert(is_whitespace(s[0]));
            }
        }
        assert(last == s.len() - 1) by {
            if last < s.len() - 1 {
                assert(is_whitespace(s[s.len() - 1]));
            }
        }
        assert(s.subrange(0, s.len() as int) =~= s);
    }
}

/// Calls `char::is_whitespace`, which tells whether the character has the
/// `White_Space` property.
#[verifier::external_body]
fn has_white_space(c: char) -> (white: bool)
    ensures
        white == is_whitespace(c),
{
    c.is_whitespace()
}

/// Calls `==` of `str`, which holds exactly of two slices with the same
/// characters.
#[verifier::external_body]
pub(crate) fn same_text(a: &str, b: &str) -> (same: bool)
    ensures
        same == (a@ == b@),
{
    a == b
}

/// Tells whether `s` holds nothing but whitespace.
pub fn is_blank_text(s: &str) -> (blank: bool)
    ensures
        blank == is_blank(s@),
{
    for c in it: s.chars()
        invariant
            it.seq() == s@,
            forall|i: int| 0 <= i < it.index() ==> is_whitespace(#[trigger] s@[i]),
    {
        if !has_white_space(c) {
            assert(!is_whitespace(s@[it.index() as int]));
            return false;
        }
    }
    true
}

/// The number of characters of `s` between its leading and trailing
/// whitespace.
pub fn trimmed_len(s: &str) -> (n: usize)
    ensures
        n == trimmed(s@).len(),
{
    let total = s.unicode_len();
    let mut seen: usize = 0;
    let mut found = false;
    let mut first: usize = 0;
    let mut last: usize = 0;
    for c in it: s.chars()
        invariant
            it.seq() == s@,
            total == s@.len(),
            seen == it.index(),
            seen <= total,
            !found ==> forall|i: int| 0 <= i < seen ==> is_whitespace(#[trigger] s@[i]),
            found ==> {
                &&& first <= last < seen
                &&& !is_whitespace(s@[first as int])
                &&& !is_whitespace(s@[last as int])
                &&& forall|i: int| 0 <= i < first ==> is_whitespace(#[trigger] s@[i])
                &&& forall|i: int| last < i < seen ==> is_whitespace(#[trigger] s@[i])
            },
    {
        if !has_white_space(c) {
            if !found {
                found = true;
                first = seen;
            }
            last = seen;
        }
        seen = seen + 1;
    }
    if found {
        proof {
            lemma_trimmed_is_stretch(s@, first as int, last as int);
        }
        last - first + 1
    } else {
        proof {
            lemma_trimmed_empty_iff_blank(s@);
        }
        0
    }
}

} // verus!
