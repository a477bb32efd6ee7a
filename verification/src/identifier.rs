//! The two lexical classes that the tool accepts: C identifiers (for the
//! macro prefix) and identifier segments (for the macro suffix).

use vstd::prelude::*;

verus! {

/// ASCII letter: `A`..=`Z` or `a`..=`z`.
pub open spec fn is_ascii_letter(c: char) -> bool {
    ('A' <= c && c <= 'Z') || ('a' <= c && c <= 'z')
}

/// ASCII decimal digit: `0`..=`9`.
pub open spec fn is_ascii_digit(c: char) -> bool {
    '0' <= c && c <= '9'
}

/// A character that may start a C identifier: an ASCII letter or `_`.
pub open spec fn is_identifier_start(c: char) -> bool {
    is_ascii_letter(c) || c == '_'
}

/// A character that may follow the first one in a C identifier:
/// an ASCII letter, an ASCII digit or `_`.
pub open spec fn is_identifier_continue(c: char) -> bool {
    is_ascii_letter(c) || is_ascii_digit(c) || c == '_'
}

/// Every character of `s` is an identifier-continue character.
pub open spec fn all_identifier_continue(s: Seq<char>) -> bool {
    forall|i: int| 0 <= i < s.len() ==> #[trigger] is_identifier_continue(s[i])
}

/// `s` is a non-empty ASCII C identifier.
pub open spec fn spec_is_c_identifier(s: Seq<char>) -> bool {
    &&& s.len() > 0
    &&& is_identifier_start(s[0])
    &&& all_identifier_continue(s.drop_first())
}

/// `s` is a non-empty run of ASCII letters, digits and underscores.
pub open spec fn spec_is_suffix_segment(s: Seq<char>) -> bool {
    &&& s.len() > 0
    &&& all_identifier_continue(s)
}

fn char_is_identifier_start(c: char) -> (b: bool)
    ensures
        b == is_identifier_start(c),
{
    ('A' <= c && c <= 'Z') || ('a' <= c && c <= 'z') || c == '_'
}

fn char_is_identifier_continue(c: char) -> (b: bool)
    ensures
        b == is_identifier_continue(c),
{
    ('A' <= c && c <= 'Z') || ('a' <= c && c <= 'z') || ('0' <= c && c <= '9') || c == '_'
}

/// Whether `value` is a non-empty ASCII C identifier.
pub fn is_c_identifier(value: &str) -> (b: bool)
    ensures
        b == spec_is_c_identifier(value@),
{
    broadcast use vstd::string::group_string_axioms;
    let mut first = true;
    for c in it: value.chars()
        invariant
            it.seq() == value@,
            first == (it.index() == 0),
            it.index() > 0 ==> is_identifier_start(value@[0]),
            forall|j: int| 1 <= j < it.index() ==> #[trigger] is_identifier_continue(value@[j]),
    {
        if first {
            if !char_is_identifier_start(c) {
                return false;
            }
            first = false;
        } else if !char_is_identifier_continue(c) {
            proof {
                let k = it.index() - 1;
                assert(value@.drop_first()[k] == value@[k + 1]);
            }
            return false;
        }
    }
    proof {
        if !first {
            assert forall|i: int| 0 <= i < value@.drop_first().len() implies
                #[trigger] is_identifier_continue(value@.drop_first()[i]) by {
                assert(value@.drop_first()[i] == value@[i + 1]);
            }
        }
    }
    !first
}

/// Whether `value` is a non-empty run of ASCII letters, digits and underscores.
pub fn is_suffix_segment(value: &str) -> (b: bool)
    ensures
        b == spec_is_suffix_segment(value@),
{
    broadcast use vstd::string::group_string_axioms;
    let mut empty = true;
    for c in it: value.chars()
        invariant
            it.seq() == value@,
            empty == (it.index() == 0),
            forall|j: int| 0 <= j < it.index() ==> #[trigger] is_identifier_continue(value@[j]),
    {
        if !char_is_identifier_continue(c) {
            return false;
        }
        empty = false;
    }
    !empty
}

/// Every C identifier is also a valid identifier segment: the prefix rule is
/// the suffix rule plus a constraint on the first character.
pub proof fn lemma_c_identifier_is_suffix_segment(s: Seq<char>)
    requires
        spec_is_c_identifier(s),
    ensures
        spec_is_suffix_segment(s),
{
    assert forall|i: int| 0 <= i < s.len() implies #[trigger] is_identifier_continue(s[i]) by {
        if i > 0 {
            assert(s[i] == s.drop_first()[i - 1]);
        }
    }
}

/// Appending `_` and an identifier segment to a C identifier gives a C
/// identifier. This is why a macro name built as `prefix_..._suffix` from an
/// accepted prefix, segments and an accepted suffix is a valid macro name.
pub proof fn lemma_join_keeps_c_identifier(prefix: Seq<char>, segment: Seq<char>)
    requires
        spec_is_c_identifier(prefix),
        spec_is_suffix_segment(segment),
    ensures
        spec_is_c_identifier(prefix + seq!['_'] + segment),
{
    let joined = prefix + seq!['_'] + segment;
    assert(joined[0] == prefix[0]);
    assert forall|i: int| 0 <= i < joined.drop_first().len() implies
        #[trigger] is_identifier_continue(joined.drop_first()[i]) by {
        let k = i + 1;
        assert(joined.drop_first()[i] == joined[k]);
        if k < prefix.len() {
            assert(joined[k] == prefix.drop_first()[k - 1]);
        } else if k == prefix.len() {
            assert(joined[k] == '_');
        } else {
            assert(joined[k] == segment[k - prefix.len() - 1]);
        }
    }
}

/// A string is a C identifier exactly when it is non-empty, its first
/// character is one of `A`..=`Z`, `a`..=`z` or `_`, and each later character
/// is one of `A`..=`Z`, `a`..=`z`, `0`..=`9` or `_`; no other condition.
pub proof fn law_c_identifier_by_characters(s: Seq<char>)
    ensures
        spec_is_c_identifier(s) <==> {
            &&& s.len() > 0
            &&& ('A' <= s[0] && s[0] <= 'Z') || ('a' <= s[0] && s[0] <= 'z') || s[0] == '_'
            &&& forall|i: int|
                1 <= i < s.len() ==> ('A' <= #[trigger] s[i] && s[i] <= 'Z') || ('a' <= s[i]
                    && s[i] <= 'z') || ('0' <= s[i] && s[i] <= '9') || s[i] == '_'
        },
{
    if s.len() > 0 {
        if all_identifier_continue(s.drop_first()) {
            assert forall|i: int| 1 <= i < s.len() implies ('A' <= #[trigger] s[i] && s[i] <= 'Z')
                || ('a' <= s[i] && s[i] <= 'z') || ('0' <= s[i] && s[i] <= '9') || s[i] == '_' by {
                assert(s[i] == s.drop_first()[i - 1]);
                assert(is_identifier_continue(s.drop_first()[i - 1]));
            }
        }
        if forall|i: int|
            1 <= i < s.len() ==> ('A' <= #[trigger] s[i] && s[i] <= 'Z') || ('a' <= s[i] && s[i]
                <= 'z') || ('0' <= s[i] && s[i] <= '9') || s[i] == '_' {
            assert forall|i: int| 0 <= i < s.drop_first().len() implies
                #[trigger] is_identifier_continue(s.drop_first()[i]) by {
                assert(s.drop_first()[i] == s[i + 1]);
            }
        }
    }
}

/// A string is an identifier segment exactly when it is non-empty and each
/// character is one of `A`..=`Z`, `a`..=`z`, `0`..=`9` or `_`; no other condition.
pub proof fn law_suffix_segment_by_characters(s: Seq<char>)
    ensures
        spec_is_suffix_segment(s) <==> {
            &&& s.len() > 0
            &&& forall|i: int|
                0 <= i < s.len() ==> ('A' <= #[trigger] s[i] && s[i] <= 'Z') || ('a' <= s[i]
                    && s[i] <= 'z') || ('0' <= s[i] && s[i] <= '9') || s[i] == '_'
        },
{
    if all_identifier_continue(s) {
        assert forall|i: int| 0 <= i < s.len() implies ('A' <= #[trigger] s[i] && s[i] <= 'Z')
            || ('a' <= s[i] && s[i] <= 'z') || ('0' <= s[i] && s[i] <= '9') || s[i] == '_' by {
            assert(is_identifier_continue(s[i]));
        }
    }
    if forall|i: int|
        0 <= i < s.len() ==> ('A' <= #[trigger] s[i] && s[i] <= 'Z') || ('a' <= s[i] && s[i]
            <= 'z') || ('0' <= s[i] && s[i] <= '9') || s[i] == '_' {
        assert forall|i: int| 0 <= i < s.len() implies #[trigger] is_identifier_continue(s[i]) by {
            assert(('A' <= s[i] && s[i] <= 'Z') || ('a' <= s[i] && s[i] <= 'z') || ('0' <= s[i]
                && s[i] <= '9') || s[i] == '_');
        }
    }
}

/// Each ASCII letter and `_` is, on its own, a C identifier; each ASCII letter,
/// digit and `_` is, on its own, an identifier segment.
pub proof fn law_single_characters(c: char)
    ensures
        ('A' <= c && c <= 'Z') || ('a' <= c && c <= 'z') || c == '_' ==> spec_is_c_identifier(
            seq![c],
        ),
        ('A' <= c && c <= 'Z') || ('a' <= c && c <= 'z') || ('0' <= c && c <= '9') || c == '_'
            ==> spec_is_suffix_segment(seq![c]),
{
    law_c_identifier_by_characters(seq![c]);
    law_suffix_segment_by_characters(seq![c]);
}

} // verus!
