use guardgen_mcp::{
    default_prefix, invalid_arguments, invalid_params, is_c_identifier, is_suffix_segment, validate_arguments,
    GenerateIncludeGuardArguments, Language, LineEnding, ToolError, UuidVersion, INVALID_PARAMS,
};

const PREFIX_MESSAGE: &str = "prefix must be a non-empty ASCII C identifier";
const SUFFIX_MESSAGE: &str = "suffix must be a non-empty ASCII alphanumeric/underscore segment";

fn arguments(prefix: &str, suffix: Option<&str>) -> GenerateIncludeGuardArguments {
    GenerateIncludeGuardArguments {
        prefix: prefix.to_owned(),
        suffix: suffix.map(|s| s.to_owned()),
        language: Language::default(),
        line_ending: LineEnding::default(),
        uuid_version: UuidVersion::default(),
    }
}

#[test]
fn defaults_are_uuid_plain_native_v7() {
    assert_eq!(default_prefix(), "UUID");
    assert_eq!(Language::default(), Language::Plain);
    assert_eq!(LineEnding::default(), LineEnding::Native);
    assert_eq!(UuidVersion::default(), UuidVersion::V7);
}

#[test]
fn default_arguments_are_accepted() {
    let defaults = arguments(&default_prefix(), None);
    assert_eq!(validate_arguments(&defaults), Ok(()));
}

#[test]
fn c_identifier_classification() {
    for accepted in ["UUID", "_", "_x", "a1", "MY_GUARD", "Z9_", "__a__"] {
        assert!(is_c_identifier(accepted), "{accepted:?} should be accepted");
    }
    for refused in ["", "9PREFIX", "1a", "a-b", "a b", "pr\u{e9}fix", "\u{e9}", "a.b", "A$"] {
        assert!(!is_c_identifier(refused), "{refused:?} should be refused");
    }
}

#[test]
fn suffix_segment_classification() {
    for accepted in ["9_SUFFIX", "9", "_", "abc", "A1_b2"] {
        assert!(is_suffix_segment(accepted), "{accepted:?} should be accepted");
    }
    for refused in ["", "bad-suffix", "\u{e9}", "a b", "x\u{e9}", "-"] {
        assert!(!is_suffix_segment(refused), "{refused:?} should be refused");
    }
}

#[test]
fn every_c_identifier_is_a_suffix_segment() {
    for value in ["UUID", "_", "_x", "a1", "MY_GUARD"] {
        assert!(is_c_identifier(value));
        assert!(is_suffix_segment(value));
    }
    assert!(is_suffix_segment("9PREFIX") && !is_c_identifier("9PREFIX"));
}

#[test]
fn invalid_prefixes_are_invalid_params() {
    for prefix in ["", "9PREFIX", "pr\u{e9}fix"] {
        let refused = validate_arguments(&arguments(prefix, None));
        assert_eq!(
            refused,
            Err(ToolError { code: -32602, message: PREFIX_MESSAGE.to_owned() }),
            "prefix {prefix:?}"
        );
    }
}

#[test]
fn invalid_suffixes_are_invalid_params() {
    for suffix in ["", "bad-suffix", "\u{e9}"] {
        let refused = validate_arguments(&arguments("OK", Some(suffix)));
        assert_eq!(
            refused,
            Err(ToolError { code: -32602, message: SUFFIX_MESSAGE.to_owned() }),
            "suffix {suffix:?}"
        );
    }
}

#[test]
fn prefix_is_checked_before_suffix() {
    let refused = validate_arguments(&arguments("9PREFIX", Some("bad-suffix")));
    assert_eq!(refused.unwrap_err().message, PREFIX_MESSAGE);
}

#[test]
fn forwarded_prefix_and_suffix_are_accepted() {
    let mut request = arguments("MY_GUARD", Some("9_SUFFIX"));
    request.uuid_version = UuidVersion::V4;
    assert_eq!(validate_arguments(&request), Ok(()));
}

#[test]
fn every_language_and_line_ending_is_accepted() {
    for language in [Language::Plain, Language::C, Language::Cxx] {
        for line_ending in [LineEnding::Lf, LineEnding::Crlf, LineEnding::Native] {
            for uuid_version in [UuidVersion::V7, UuidVersion::V4] {
                let request = GenerateIncludeGuardArguments {
                    prefix: "MAP".to_owned(),
                    suffix: None,
                    language,
                    line_ending,
                    uuid_version,
                };
                assert_eq!(validate_arguments(&request), Ok(()));
            }
        }
    }
}

#[test]
fn choices_do_not_change_a_refusal() {
    for language in [Language::Plain, Language::C, Language::Cxx] {
        let mut request = arguments("OK", Some("bad-suffix"));
        request.language = language;
        assert_eq!(validate_arguments(&request).unwrap_err().message, SUFFIX_MESSAGE);
    }
}

#[test]
fn invalid_params_keeps_message_and_code() {
    let error = invalid_params("invalid arguments: unknown field `unknown`".to_owned());
    assert_eq!(INVALID_PARAMS, -32602);
    assert_eq!(error.code, -32602);
    assert_eq!(error.message, "invalid arguments: unknown field `unknown`");
}

#[test]
fn guard_macro_names_from_accepted_arguments_are_c_identifiers() {
    let name = ["MY_GUARD", "0190A7C2", "1B3D", "7E4F", "8A9B", "0123456789AB", "9_SUFFIX"].join("_");
    assert!(is_c_identifier(&name));
    let default_name = ["UUID", "0190A7C2", "1B3D", "7E4F", "8A9B", "0123456789AB"].join("_");
    assert!(is_c_identifier(&default_name));
    assert_eq!(default_name.split('_').count(), 6);
}

#[test]
fn undecodable_arguments_are_invalid_params() {
    let error = invalid_arguments("unknown field `unknown`");
    assert_eq!(error.code, INVALID_PARAMS);
    assert_eq!(error.message, "invalid arguments: unknown field `unknown`");
    assert_eq!(invalid_arguments("").message, "invalid arguments: ");
}
