//! The error answered to a request the tool refuses.

use vstd::prelude::*;
use vstd::string::StringExecFns;

verus! {

/// JSON-RPC error code for invalid method parameters.
pub const INVALID_PARAMS: i32 = -32602;

/// An error reported to the MCP client: a JSON-RPC error code and a message.
#[derive(Debug, Clone, PartialEq, Eq)]
pub struct ToolError {
    pub code: i32,
    pub message: String,
}

/// An invalid-parameters error carrying `message`.
pub fn invalid_params(message: String) -> (error: ToolError)
    ensures
        error.code == INVALID_PARAMS,
        error.message@ == message@,
{
    ToolError { code: INVALID_PARAMS, message }
}

/// The invalid-parameters error for arguments that do not decode (an unknown
/// field, a value of the wrong type or outside an enumeration): its message is
/// `invalid arguments: ` followed by what the decoder reported.
pub fn invalid_arguments(detail: &str) -> (error: ToolError)
    ensures
        error.code == INVALID_PARAMS,
        error.message@ == "invalid arguments: "@ + detail@,
{
    let mut message = "invalid arguments: ".to_owned();
    message.append(detail);
    invalid_params(message)
}

} // verus!
