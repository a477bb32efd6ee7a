//! Argument model and validation rules for the `generate_include_guard` tool.

pub mod arguments;
pub mod error;
pub mod identifier;

pub use arguments::{
    default_prefix, validate_arguments, GenerateIncludeGuardArguments, Language, LineEnding,
    UuidVersion,
};
pub use error::{invalid_arguments, invalid_params, ToolError, INVALID_PARAMS};
pub use identifier::{is_c_identifier, is_suffix_segment};
