use crate::launchserver::socket;
use crate::launchserver::types::response;
use vstd::prelude::*;
use vstd::string::StringExecFns;

verus! {

/// What a call on the client can fail with.
#[derive(Debug)]
pub enum Error {
    /// The reply was not of the kind that the call expects. This includes the
    /// refusal that a token restore did not cure.
    UnexpectedResponse(response::Kind),
    /// The socket failed.
    Internal(socket::Error),
}

impl From<socket::Error> for Error {
    fn from(value: socket::Error) -> (error: Error) {
        Error::Internal(value)
    }
}

impl vstd::std_specs::convert::FromSpecImpl<socket::Error> for Error {
    open spec fn obeys_from_spec() -> bool {
        true
    }

    open spec fn from_spec(value: socket::Error) -> Error {
        Error::Internal(value)
    }
}

impl Error {
    /// The human-readable text of the error: for an unexpected reply its tag,
    /// for a socket error the socket's own text.
    pub open spec fn message_text(self) -> Seq<char> {
        match self {
            Error::UnexpectedResponse(kind) => "unexpected response received: "@ + kind.tag(),
            Error::Internal(inner) => "internal socket error: "@ + inner.message_text(),
        }
    }

    /// The error as text.
    pub fn message(&self) -> (text: String)
        ensures
            text@ == self.message_text(),
    {
        match self {
            Error::UnexpectedResponse(kind) => {
                let mut text = String::from_str("unexpected response received: ");
                text.append(kind.tag_name());
                text
            },
            Error::Internal(inner) => {
                let mut text = String::from_str("internal socket error: ");
                let detail = inner.message();
                text.append(detail.as_str());
                text
            },
        }
    }
}

} // verus!
