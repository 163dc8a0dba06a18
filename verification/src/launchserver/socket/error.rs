use vstd::prelude::*;
use vstd::string::StringExecFns;

verus! {

/// What a call on the socket can fail with.
#[derive(Clone, Copy, Debug, PartialEq, Eq, Structural)]
pub enum Error {
    /// The per-call timeout elapsed before a reply was delivered.
    ResponseNotReceived,
    /// The client itself is broken.
    Internal,
}

impl Error {
    /// The human-readable text of each error.
    pub open spec fn message_text(self) -> Seq<char> {
        match self {
            Error::ResponseNotReceived => "response not received"@,
            Error::Internal => "internal error occurred"@,
        }
    }

    /// The error as text.
    pub fn message(&self) -> (text: String)
        ensures
            text@ == self.message_text(),
    {
        match self {
            Error::ResponseNotReceived => String::from_str("response not received"),
            Error::Internal => String::from_str("internal error occurred"),
        }
    }
}

} // verus!
