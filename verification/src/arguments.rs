//! The arguments of the `generate_include_guard` tool, their defaults, and the
//! rule that decides which argument sets are handed on to the generator.

use vstd::prelude::*;

use crate::error::{invalid_params, ToolError, INVALID_PARAMS};
use crate::identifier::{
    is_c_identifier, is_suffix_segment, is_identifier_continue, is_identifier_start,
    lemma_join_keeps_c_identifier, law_c_identifier_by_characters,
    law_suffix_segment_by_characters, spec_is_c_identifier,
    spec_is_suffix_segment,
};

verus! {

/// Header linkage wrapper emitted inside the include guard.
///
/// `C` adds an `extern "C"` linkage section around the header body.
/// `Plain` (default, `none` on the wire) and `Cxx` emit only the include-guard scaffold.
#[derive(Debug, Clone, Copy, PartialEq, Eq, Structural)]
pub enum Language {
    /// Recommended default: no language-linkage wrapper.
    Plain,
    C,
    Cxx,
}

impl Default for Language {
    fn default() -> (language: Self)
        ensures
            language == Language::Plain,
    {
        Language::Plain
    }
}

/// Line ending used in the generated source.
///
/// Default (and recommended when unspecified): `Native` (`none` on the wire),
/// the platform-native line ending instead of forcing LF or CRLF.
#[derive(Debug, Clone, Copy, PartialEq, Eq, Structural)]
pub enum LineEnding {
    /// Recommended default: platform-native line ending.
    Native,
    Lf,
    Crlf,
}

impl Default for LineEnding {
    fn default() -> (line_ending: Self)
        ensures
            line_ending == LineEnding::Native,
    {
        LineEnding::Native
    }
}

/// UUID version used to make the guard macro name unique.
///
/// Default (and recommended when unspecified): `V7`, time-ordered UUIDs,
/// preferred over `V4` for readability and sortability across guards.
#[derive(Debug, Clone, Copy, PartialEq, Eq, Structural)]
pub enum UuidVersion {
    /// Recommended default: time-ordered, sortable UUIDs.
    V7,
    V4,
}

impl Default for UuidVersion {
    fn default() -> (uuid_version: Self)
        ensures
            uuid_version == UuidVersion::V7,
    {
        UuidVersion::V7
    }
}

/// The arguments of one `generate_include_guard` call.
#[derive(Debug, Clone)]
pub struct GenerateIncludeGuardArguments {
    /// Macro name prefix. Defaults to `"UUID"` (see [`default_prefix`]).
    pub prefix: String,
    /// Optional macro name suffix, appended after the UUID segment.
    /// Default: none.
    pub suffix: Option<String>,
    /// Default: `Language::Plain`.
    pub language: Language,
    /// Default: `LineEnding::Native`.
    pub line_ending: LineEnding,
    /// Default: `UuidVersion::V7`.
    pub uuid_version: UuidVersion,
}

/// The prefix used when a call gives none.
pub open spec fn spec_default_prefix() -> Seq<char> {
    seq!['U', 'U', 'I', 'D']
}

/// The prefix used when a call gives none: `"UUID"`.
pub fn default_prefix() -> (prefix: String)
    ensures
        prefix@ == spec_default_prefix(),
{
    proof {
        reveal_strlit("UUID");
    }
    "UUID".to_owned()
}

/// Whether the generator may be called with `arguments`: the prefix is a
/// C identifier, and the suffix, where there is one, is an identifier segment.
pub open spec fn arguments_accepted(arguments: GenerateIncludeGuardArguments) -> bool {
    &&& spec_is_c_identifier(arguments.prefix@)
    &&& (arguments.suffix matches Some(suffix) ==> spec_is_suffix_segment(suffix@))
}

/// The message that refuses arguments that are not accepted: the prefix is
/// checked first, then the suffix.
pub open spec fn rejection_message(arguments: GenerateIncludeGuardArguments) -> Seq<char> {
    if !spec_is_c_identifier(arguments.prefix@) {
        "prefix must be a non-empty ASCII C identifier"@
    } else {
        "suffix must be a non-empty ASCII alphanumeric/underscore segment"@
    }
}

/// Checks the arguments of a `generate_include_guard` call before they are
/// handed to the generator. The prefix is checked first, then the suffix.
pub fn validate_arguments(arguments: &GenerateIncludeGuardArguments) -> (result: Result<(), ToolError>)
    ensures
        result is Ok <==> arguments_accepted(*arguments),
        result matches Err(error) ==> (error.code == INVALID_PARAMS && error.message@
            == rejection_message(*arguments)),
{
    if !is_c_identifier(arguments.prefix.as_str()) {
        return Err(invalid_params("prefix must be a non-empty ASCII C identifier".to_owned()));
    }
    if let Some(suffix) = &arguments.suffix {
        if !is_suffix_segment(suffix.as_str()) {
            return Err(
                invalid_params(
                    "suffix must be a non-empty ASCII alphanumeric/underscore segment".to_owned(),
                ),
            );
        }
    }
    Ok(())
}

/// Every argument is optional: a call that gives the default prefix and no
/// suffix is accepted, whatever language, line ending and UUID version it asks for.
pub proof fn lemma_defaults_accepted(arguments: GenerateIncludeGuardArguments)
    requires
        arguments.prefix@ == spec_default_prefix(),
        arguments.suffix is None,
    ensures
        arguments_accepted(arguments),
{
    let p = spec_default_prefix();
    assert(is_identifier_start(p[0]));
    assert forall|i: int| 0 <= i < p.drop_first().len() implies
        #[trigger] is_identifier_continue(p.drop_first()[i]) by {
        assert(p.drop_first()[i] == p[i + 1]);
    }
}

/// Acceptance depends on the prefix and the suffix alone: two calls that give
/// the same prefix and suffix are both accepted or both refused, with the same
/// message, whatever language, line ending and UUID version each asks for.
pub proof fn lemma_acceptance_ignores_choices(
    first: GenerateIncludeGuardArguments,
    second: GenerateIncludeGuardArguments,
)
    requires
        first.prefix@ == second.prefix@,
        first.suffix is Some <==> second.suffix is Some,
        first.suffix is Some ==> first.suffix->0@ == second.suffix->0@,
    ensures
        arguments_accepted(first) == arguments_accepted(second),
        rejection_message(first) == rejection_message(second),
{
}

/// The name of the guard macro: the prefix, then each segment of the unique
/// part, then the suffix where there is one, joined by `_`.
pub open spec fn guard_macro_name(
    prefix: Seq<char>,
    unique: Seq<Seq<char>>,
    suffix: Option<Seq<char>>,
) -> Seq<char>
    decreases unique.len(),
{
    if unique.len() == 0 {
        match suffix {
            Some(s) => prefix + seq!['_'] + s,
            None => prefix,
        }
    } else {
        guard_macro_name(prefix + seq!['_'] + unique[0], unique.drop_first(), suffix)
    }
}

/// The point of the checks: for accepted arguments, the guard macro built from
/// the prefix, segments of letters, digits and underscores (such as the groups
/// of a UUID) and the suffix is a valid C identifier.
pub proof fn lemma_accepted_arguments_name_a_c_identifier(
    arguments: GenerateIncludeGuardArguments,
    unique: Seq<Seq<char>>,
)
    requires
        arguments_accepted(arguments),
        forall|i: int| 0 <= i < unique.len() ==> spec_is_suffix_segment(#[trigger] unique[i]),
    ensures
        spec_is_c_identifier(
            guard_macro_name(
                arguments.prefix@,
                unique,
                match arguments.suffix {
                    Some(s) => Some(s@),
                    None => None,
                },
            ),
        ),
{
    let suffix = match arguments.suffix {
        Some(s) => Some(s@),
        None => None,
    };
    lemma_macro_name_is_c_identifier(arguments.prefix@, unique, suffix);
}

proof fn lemma_macro_name_is_c_identifier(
    prefix: Seq<char>,
    unique: Seq<Seq<char>>,
    suffix: Option<Seq<char>>,
)
    requires
        spec_is_c_identifier(prefix),
        forall|i: int| 0 <= i < unique.len() ==> spec_is_suffix_segment(#[trigger] unique[i]),
        suffix matches Some(s) ==> spec_is_suffix_segment(s),
    ensures
        spec_is_c_identifier(guard_macro_name(prefix, unique, suffix)),
    decreases unique.len(),
{
    if unique.len() == 0 {
        if let Some(s) = suffix {
            lemma_join_keeps_c_identifier(prefix, s);
        }
    } else {
        assert(spec_is_suffix_segment(unique[0]));
        lemma_join_keeps_c_identifier(prefix, unique[0]);
        let rest = unique.drop_first();
        assert forall|i: int| 0 <= i < rest.len() implies spec_is_suffix_segment(#[trigger] rest[i]) by {
            assert(rest[i] == unique[i + 1]);
        }
        lemma_macro_name_is_c_identifier(prefix + seq!['_'] + unique[0], rest, suffix);
    }
}

/// Which calls `validate_arguments` accepts, by characters: exactly those whose
/// prefix is non-empty, starts with `A`..=`Z`, `a`..=`z` or `_` and continues
/// with `A`..=`Z`, `a`..=`z`, `0`..=`9` or `_`, and whose suffix, where there is
/// one, is non-empty and made of `A`..=`Z`, `a`..=`z`, `0`..=`9` and `_` only.
/// A refused call is answered with the prefix message when the prefix breaks
/// that rule, and with the suffix message otherwise.
pub proof fn law_acceptance_by_characters(arguments: GenerateIncludeGuardArguments)
    ensures
        arguments_accepted(arguments) <==> {
            &&& arguments.prefix@.len() > 0
            &&& ('A' <= arguments.prefix@[0] && arguments.prefix@[0] <= 'Z') || ('a'
                <= arguments.prefix@[0] && arguments.prefix@[0] <= 'z') || arguments.prefix@[0]
                == '_'
            &&& forall|i: int|
                1 <= i < arguments.prefix@.len() ==> ('A' <= #[trigger] arguments.prefix@[i]
                    && arguments.prefix@[i] <= 'Z') || ('a' <= arguments.prefix@[i]
                    && arguments.prefix@[i] <= 'z') || ('0' <= arguments.prefix@[i]
                    && arguments.prefix@[i] <= '9') || arguments.prefix@[i] == '_'
            &&& arguments.suffix is Some ==> {
                &&& arguments.suffix->0@.len() > 0
                &&& forall|i: int|
                    0 <= i < arguments.suffix->0@.len() ==> ('A' <= #[trigger] arguments.suffix->0@[i]
                        && arguments.suffix->0@[i] <= 'Z') || ('a' <= arguments.suffix->0@[i]
                        && arguments.suffix->0@[i] <= 'z') || ('0' <= arguments.suffix->0@[i]
                        && arguments.suffix->0@[i] <= '9') || arguments.suffix->0@[i] == '_'
            }
        },
        !arguments_accepted(arguments) ==> rejection_message(arguments) == (if spec_is_c_identifier(
            arguments.prefix@,
        ) {
            "suffix must be a non-empty ASCII alphanumeric/underscore segment"@
        } else {
            "prefix must be a non-empty ASCII C identifier"@
        }),
{
    law_c_identifier_by_characters(arguments.prefix@);
    if let Some(suffix) = arguments.suffix {
        law_suffix_segment_by_characters(suffix@);
    }
}

} // verus!
