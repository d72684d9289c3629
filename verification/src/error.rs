//! The error a tool reports.
use vstd::prelude::*;

verus! {

/// Why a tool did not complete.
#[derive(Debug, PartialEq, Eq)]
pub enum ToolError {
    /// The request, or what the host printed for it, was not acceptable.
    InvalidInput(String),
    /// The host process that runs the script failed.
    Sidecar(String),
    /// What the host printed was not JSON.
    Json(String),
}

/// The error is an `InvalidInput` that carries exactly `msg`.
pub open spec fn is_invalid_input(e: ToolError, msg: Seq<char>) -> bool {
    e matches ToolError::InvalidInput(m) && m@ == msg
}

/// The outcome of building a tool's script: the first input problem, when
/// there is one, is reported as `InvalidInput`; otherwise the script comes out.
pub open spec fn script_outcome(
    r: Result<String, ToolError>,
    problem: Option<Seq<char>>,
    script: Seq<char>,
) -> bool {
    match problem {
        Some(msg) => r matches Err(e) && is_invalid_input(e, msg),
        None => r matches Ok(s) && s@ == script,
    }
}

/// An `InvalidInput` error with the given message.
pub fn invalid_input(msg: &str) -> (e: ToolError)
    ensures
        is_invalid_input(e, msg@),
{
    ToolError::InvalidInput(msg.to_string())
}

} // verus!
