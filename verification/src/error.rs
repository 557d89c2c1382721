//! The library's error type.

use vstd::prelude::*;

verus! {

/// What can go wrong before or while a batch is set up.  Per-job failures are
/// never errors: they surface as failed outcomes instead.
#[derive(Debug, Clone)]
pub enum Error {
    /// A general failure, carrying its description.
    Generic(String),
    /// The external executable at the carried path cannot be used.
    AutomateC(String),
    /// The external executable was not found at all.
    AutomateCNotFound,
}

impl Error {
    /// The description an operator sees for this error.
    pub open spec fn spec_message(self) -> Seq<char> {
        match self {
            Error::Generic(s) => "Generic error handler: "@ + s@,
            Error::AutomateC(p) => "AutomateC error: "@ + p@,
            Error::AutomateCNotFound => "The AutomateC binary that is required to run this application couldn't be found!"@,
        }
    }

    /// Renders the description of this error.
    pub fn message(&self) -> (r: String)
        ensures
            r@ == self.spec_message(),
    {
        match self {
            Error::Generic(s) => {
                let mut r = String::from_str("Generic error handler: ");
                r.append(s.as_str());
                r
            },
            Error::AutomateC(p) => {
                let mut r = String::from_str("AutomateC error: ");
                r.append(p.as_str());
                r
            },
            Error::AutomateCNotFound => String::from_str(
                "The AutomateC binary that is required to run this application couldn't be found!",
            ),
        }
    }
}

} // verus!
