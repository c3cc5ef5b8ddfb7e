//! White space in request fields: what trimming leaves, and the test for a
//! field that holds nothing else.

use vstd::prelude::*;
use vstd::std_specs::iter::IteratorSpec;

verus! {

/// Whether `c` has Unicode's `White_Space` property.
pub uninterp spec fn is_unicode_whitespace(c: char) -> bool;

/// `char::is_whitespace` of the standard library: its answer is the
/// `White_Space` property of the character, named by
/// [`is_unicode_whitespace`].
#[verifier::external_body]
fn char_is_whitespace(c: char) -> (b: bool)
    ensures
        b == is_unicode_whitespace(c),
{
    c.is_whitespace()
}

/// `s` without its leading white space.
pub open spec fn trim_start(s: Seq<char>) -> Seq<char>
    decreases s.len(),
{
    if s.len() > 0 && is_unicode_whitespace(s.first()) {
        trim_start(s.drop_first())
    } else {
        s
    }
}

/// `s` without its trailing white space.
pub open spec fn trim_end(s: Seq<char>) -> Seq<char>
    decreases s.len(),
{
    if s.len() > 0 && is_unicode_whitespace(s.last()) {
        trim_end(s.drop_last())
    } else {
        s
    }
}

/// `s` with leading and trailing white space removed.
pub open spec fn trimmed(s: Seq<char>) -> Seq<char> {
    trim_end(trim_start(s))
}

/// A field is blank when nothing is left of it after trimming.
pub open spec fn blank(s: Seq<char>) -> bool {
    trimmed(s).len() == 0
}

/// Every character of `s` is white space.
pub open spec fn all_whitespace(s: Seq<char>) -> bool {
    forall|i: int| 0 <= i < s.len() ==> is_unicode_whitespace(#[trigger] s[i])
}

proof fn lemma_trim_start_shape(s: Seq<char>)
    ensures
        trim_start(s).len() <= s.len(),
        trim_start(s) == s.skip(s.len() - trim_start(s).len()),
        all_whitespace(s.take(s.len() - trim_start(s).len())),
        trim_start(s).len() > 0 ==> !is_unicode_whitespace(trim_start(s).first()),
    decreases s.len(),
{
    if s.len() > 0 && is_unicode_whitespace(s.first()) {
        let rest = s.drop_first();
        lemma_trim_start_shape(rest);
        let cut = s.len() - trim_start(s).len();
        assert(trim_start(s) =~= s.skip(cut));
        assert forall|i: int| 0 <= i < cut implies is_unicode_whitespace(
            #[trigger] s.take(cut)[i],
        ) by {
            if i > 0 {
                assert(rest.take(cut - 1)[i - 1] == s[i]);
            }
        }
    } else {
        assert(s =~= s.skip(0));
    }
}

proof fn lemma_trim_end_of_whitespace(s: Seq<char>)
    ensures
        all_whitespace(s) ==> trim_end(s).len() == 0,
        trim_end(s).len() == 0 ==> all_whitespace(s),
    decreases s.len(),
{
    if s.len() > 0 && is_unicode_whitespace(s.last()) {
        let rest = s.drop_last();
        lemma_trim_end_of_whitespace(rest);
        if all_whitespace(s) {
            assert forall|i: int| 0 <= i < rest.len() implies is_unicode_whitespace(
                #[trigger] rest[i],
            ) by {
                assert(rest[i] == s[i]);
            }
        }
        if trim_end(s).len() == 0 {
            assert forall|i: int| 0 <= i < s.len() implies is_unicode_whitespace(
                #[trigger] s[i],
            ) by {
                if i < rest.len() {
                    assert(rest[i] == s[i]);
                }
            }
        }
    }
}

/// A field is blank exactly when it consists of white space alone (the empty
/// field included).
pub proof fn lemma_blank_iff_all_whitespace(s: Seq<char>)
    ensures
        blank(s) <==> all_whitespace(s),
{
    lemma_trim_start_shape(s);
    let kept = trim_start(s);
    let cut = s.len() - kept.len();
    lemma_trim_end_of_whitespace(kept);
    if all_whitespace(s) {
        if kept.len() > 0 {
            assert(kept.first() == s[cut]);
        }
    }
    if blank(s) {
        assert forall|i: int| 0 <= i < s.len() implies is_unicode_whitespace(#[trigger] s[i]) by {
            if i < cut {
                assert(s.take(cut)[i] == s[i]);
            } else {
                assert(kept[i - cut] == s[i]);
            }
        }
    }
}

/// Whether nothing is left of `s` after trimming white space.
pub fn is_blank(s: &str) -> (b: bool)
    ensures
        b == blank(s@),
{
    let mut rest = s.chars();
    let ghost mut seen: int = 0;
    loop
        invariant
            0 <= seen <= s@.len(),
            rest.remaining() == s@.skip(seen),
            forall|i: int| 0 <= i < seen ==> is_unicode_whitespace(#[trigger] s@[i]),
        decreases s@.len() - seen,
    {
        match rest.next() {
            None => {
                proof {
                    lemma_blank_iff_all_whitespace(s@);
                }
                return true;
            },
            Some(c) => {
                assert(c == s@[seen]);
                if !char_is_whitespace(c) {
                    proof {
                        lemma_blank_iff_all_whitespace(s@);
                    }
                    return false;
                }
                proof {
                    assert(s@.skip(seen).drop_first() =~= s@.skip(seen + 1));
                    seen = seen + 1;
                }
            },
        }
    }
}

} // verus!
