//! The error taxonomy: the closed set of failure kinds shared by every
//! pipeline stage and backend.

use vstd::prelude::*;
use vstd::string::StringExecFns;

verus! {

/// A failure of the execution core.
///
/// `UnsupportedLanguage` carries the filetype that no backend is registered
/// for; `CompilationError` the toolchain's diagnostic text (possibly empty);
/// `RuntimeError` the produced artifact's captured error stream;
/// `InternalFailure` a host-communication or filesystem fault outside the
/// language taxonomy.
#[derive(Debug)]
pub enum SniprunError {
    UnsupportedLanguage(String),
    CompilationError(String),
    RuntimeError(String),
    InternalFailure(String),
}

impl SniprunError {
    /// The message rendered to the user, as a character sequence.
    pub open spec fn spec_message(self) -> Seq<char> {
        match self {
            SniprunError::UnsupportedLanguage(ft) => "Sniprun does not support the filetype "@
                + ft@,
            SniprunError::CompilationError(diag) => "Compilation error: "@ + diag@,
            SniprunError::RuntimeError(diag) => "Runtime error: "@ + diag@,
            SniprunError::InternalFailure(diag) => "Internal error: "@ + diag@,
        }
    }

    /// Render the error for the host's error-reporting channel.
    pub fn message(&self) -> (r: String)
        ensures
            r@ == self.spec_message(),
    {
        match self {
            SniprunError::UnsupportedLanguage(ft) => {
                let mut s = String::from_str("Sniprun does not support the filetype ");
                s.append(ft.as_str());
                s
            },
            SniprunError::CompilationError(diag) => {
                let mut s = String::from_str("Compilation error: ");
                s.append(diag.as_str());
                s
            },
            SniprunError::RuntimeError(diag) => {
                let mut s = String::from_str("Runtime error: ");
                s.append(diag.as_str());
                s
            },
            SniprunError::InternalFailure(diag) => {
                let mut s = String::from_str("Internal error: ");
                s.append(diag.as_str());
                s
            },
        }
    }
}

} // verus!
