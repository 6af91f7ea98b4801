//! The host event names the dispatcher understands: `"run"` and `"clean"`;
//! any other name is carried through so it can be logged and ignored.

use vstd::prelude::*;

use crate::strings::str_eq;

verus! {

/// A host-originated event, decoded from its name.
#[derive(Debug)]
pub enum Messages {
    /// Capture the context and run the selected fragment.
    Run,
    /// Delete and recreate the shared working directory.
    Clean,
    /// Anything else: logged and ignored without error.
    Unknown(String),
}

impl From<String> for Messages {
    /// Decode one event name.
    fn from(event: String) -> (r: Messages) {
        if str_eq(event.as_str(), "run") {
            Messages::Run
        } else if str_eq(event.as_str(), "clean") {
            Messages::Clean
        } else {
            Messages::Unknown(event)
        }
    }
}

impl vstd::std_specs::convert::FromSpecImpl<String> for Messages {
    open spec fn obeys_from_spec() -> bool {
        true
    }

    open spec fn from_spec(event: String) -> Messages {
        if event@ == "run"@ {
            Messages::Run
        } else if event@ == "clean"@ {
            Messages::Clean
        } else {
            Messages::Unknown(event)
        }
    }
}

} // verus!
