//! Sending a request safely: one try, and, where the backend refuses the stale
//! token, one restore followed by exactly one more try.
use crate::identifier::fresh;
use crate::launchserver::error::Error;
use crate::launchserver::socket;
use crate::launchserver::types::{request, response};
use crate::launchserver::{restore_request, Client};
use vstd::prelude::*;

verus! {

/// Where a safe send stands.
pub enum SafeSend {
    /// The request is out for the first time.
    First { request: request::Any },
    /// The backend refused with `denied`; the restore is out.
    Restoring { request: request::Any, denied: response::Kind },
    /// The restore went well; the request is out for the second and last time.
    Retrying,
}

/// What the socket made of one transmission: the reply, or its error.
pub type Reply = Result<response::Kind, socket::Error>;

/// What is to be done after a reply.
pub enum Progress {
    /// Send this request, wait for its reply and come back with it.
    Transmit(SafeSend, request::Any),
    /// The call is over with this result.
    Done(Result<response::Kind, Error>),
}

/// The value of a [`Progress`]: a request to transmit counts by its value.
pub enum ProgressView {
    Transmit { next: SafeSend, request: request::RequestView },
    Done { result: Result<response::Kind, Error> },
}

impl View for Progress {
    type V = ProgressView;

    open spec fn view(&self) -> ProgressView {
        match self {
            Progress::Transmit(next, request) => ProgressView::Transmit {
                next: *next,
                request: request@,
            },
            Progress::Done(result) => ProgressView::Done { result: *result },
        }
    }
}

/// What the caller gets where a transmission is the last one: the reply as it
/// is, or the socket's error.
pub open spec fn passed_on(reply: Reply) -> Result<response::Kind, Error> {
    match reply {
        Ok(kind) => Ok(kind),
        Err(e) => Err(Error::Internal(e)),
    }
}

/// What follows a reply.
///
/// - After the first try, a `PermissionsDenied` refusal sends out a restore of
///   the token under the identifier `restore_id`; anything else ends the call
///   with what came back.
/// - After the restore, a reply that lists no invalid token sends the request
///   of the first try out once more; anything else ends the call with the
///   refusal from the first try as an unexpected response.
/// - After the second try the call ends with what came back, whatever it is.
pub open spec fn advanced(state: SafeSend, reply: Reply, token: Seq<char>, restore_id: u128)
    -> ProgressView {
    match state {
        SafeSend::First { request } => match reply {
            Ok(kind) => if kind.denied() {
                ProgressView::Transmit {
                    next: SafeSend::Restoring { request, denied: kind },
                    request: restore_request(restore_id, token),
                }
            } else {
                ProgressView::Done { result: Ok(kind) }
            },
            Err(e) => ProgressView::Done { result: Err(Error::Internal(e)) },
        },
        SafeSend::Restoring { request, denied } => match reply {
            Ok(kind) => if kind.restored() {
                ProgressView::Transmit { next: SafeSend::Retrying, request: request@ }
            } else {
                ProgressView::Done { result: Err(Error::UnexpectedResponse(denied)) }
            },
            Err(_) => ProgressView::Done { result: Err(Error::UnexpectedResponse(denied)) },
        },
        SafeSend::Retrying => ProgressView::Done { result: passed_on(reply) },
    }
}

impl SafeSend {
    /// Starts a safe send: the request is kept for a later retry, and a copy of
    /// it is to be transmitted now.
    pub fn start(request: request::Any) -> (started: (SafeSend, request::Any))
        ensures
            started.0 == (SafeSend::First { request }),
            started.1@ == request@,
    {
        let copy = request.duplicate();
        (SafeSend::First { request }, copy)
    }

    /// Takes the reply to the last transmission and says what follows, for a
    /// restore that would go out under `restore_id`.
    pub fn advance_with(self, reply: Reply, client: &Client, restore_id: u128) -> (progress:
        Progress)
        ensures
            progress@ == advanced(self, reply, client.token_text(), restore_id),
    {
        match self {
            SafeSend::First { request } => match reply {
                Ok(kind) => {
                    if kind.is_permissions_denied() {
                        Progress::Transmit(
                            SafeSend::Restoring { request, denied: kind },
                            client.restore_token(restore_id),
                        )
                    } else {
                        Progress::Done(Ok(kind))
                    }
                },
                Err(e) => Progress::Done(Err(Error::Internal(e))),
            },
            SafeSend::Restoring { request, denied } => match reply {
                Ok(kind) => {
                    if kind.is_restored() {
                        Progress::Transmit(SafeSend::Retrying, request)
                    } else {
                        Progress::Done(Err(Error::UnexpectedResponse(denied)))
                    }
                },
                Err(_) => Progress::Done(Err(Error::UnexpectedResponse(denied))),
            },
            SafeSend::Retrying => match reply {
                Ok(kind) => Progress::Done(Ok(kind)),
                Err(e) => Progress::Done(Err(Error::Internal(e))),
            },
        }
    }

    /// Takes the reply to the last transmission and says what follows. A
    /// restore goes out under a fresh identifier.
    pub fn advance(self, reply: Reply, client: &Client) -> (progress: Progress)
        ensures
            exists|restore_id: u128|
                progress@ == advanced(self, reply, client.token_text(), restore_id),
    {
        let restore_id = fresh();
        self.advance_with(reply, client, restore_id)
    }
}

/// The body of a `checkServer` reply; any other reply is unexpected.
pub fn expect_check_server(kind: response::Kind) -> (out: Result<response::CheckServer, Error>)
    ensures
        match out {
            Ok(body) => kind == response::Kind::CheckServer(body),
            Err(e) => !(kind is CheckServer) && e == Error::UnexpectedResponse(kind),
        },
{
    match kind {
        response::Kind::CheckServer(body) => Ok(body),
        other => Err(Error::UnexpectedResponse(other)),
    }
}

/// The body of a `profileByUUID` reply; any other reply is unexpected.
pub fn expect_profile_by_uuid(kind: response::Kind) -> (out: Result<
    response::GetProfileByUuid,
    Error,
>)
    ensures
        match out {
            Ok(body) => kind == response::Kind::GetProfileByUuid(body),
            Err(e) => !(kind is GetProfileByUuid) && e == Error::UnexpectedResponse(kind),
        },
{
    match kind {
        response::Kind::GetProfileByUuid(body) => Ok(body),
        other => Err(Error::UnexpectedResponse(other)),
    }
}

/// The body of a `profileByUsername` reply; any other reply is unexpected.
pub fn expect_profile_by_username(kind: response::Kind) -> (out: Result<
    response::GetProfileByUsername,
    Error,
>)
    ensures
        match out {
            Ok(body) => kind == response::Kind::GetProfileByUsername(body),
            Err(e) => !(kind is GetProfileByUsername) && e == Error::UnexpectedResponse(kind),
        },
{
    match kind {
        response::Kind::GetProfileByUsername(body) => Ok(body),
        other => Err(Error::UnexpectedResponse(other)),
    }
}

/// The body of a `batchProfileByUsername` reply; any other reply is
/// unexpected.
pub fn expect_batch_profiles(kind: response::Kind) -> (out: Result<
    response::BatchProfilesByUsernames,
    Error,
>)
    ensures
        match out {
            Ok(body) => kind == response::Kind::BatchProfilesByUsernames(body),
            Err(e) => !(kind is BatchProfilesByUsernames) && e == Error::UnexpectedResponse(kind),
        },
{
    match kind {
        response::Kind::BatchProfilesByUsernames(body) => Ok(body),
        other => Err(Error::UnexpectedResponse(other)),
    }
}

/// The body of a `restore` reply; any other reply is unexpected.
pub fn expect_restore_token(kind: response::Kind) -> (out: Result<response::RestoreToken, Error>)
    ensures
        match out {
            Ok(body) => kind == response::Kind::RestoreToken(body),
            Err(e) => !(kind is RestoreToken) && e == Error::UnexpectedResponse(kind),
        },
{
    match kind {
        response::Kind::RestoreToken(body) => Ok(body),
        other => Err(Error::UnexpectedResponse(other)),
    }
}

/// A refusal on the first try, followed by a restore that lists no invalid
/// token, causes exactly one retry of the refused request, and the caller
/// gets whatever that retry brings: the reply as it is, or the socket's error.
pub proof fn law_restore_then_one_retry(
    request: request::Any,
    denied: response::Kind,
    restore: response::Kind,
    last: Reply,
    token: Seq<char>,
    first_id: u128,
    second_id: u128,
)
    requires
        denied.denied(),
        restore.restored(),
    ensures
        ({
            let first = advanced(SafeSend::First { request }, Ok(denied), token, first_id);
            &&& first == (ProgressView::Transmit {
                next: SafeSend::Restoring { request, denied },
                request: restore_request(first_id, token),
            })
            &&& advanced(first->next, Ok(restore), token, second_id) == (ProgressView::Transmit {
                next: SafeSend::Retrying,
                request: request@,
            })
            &&& advanced(SafeSend::Retrying, last, token, second_id) == (ProgressView::Done {
                result: passed_on(last),
            })
        }),
{
}

/// A refusal on the first try, followed by a restore that fails, is answered
/// by something else or lists an invalid token, ends the call with that
/// refusal as an unexpected response; nothing is sent again.
pub proof fn law_failed_restore_no_retry(
    request: request::Any,
    denied: response::Kind,
    restore: Reply,
    token: Seq<char>,
    first_id: u128,
    second_id: u128,
)
    requires
        denied.denied(),
        !(restore matches Ok(kind) && kind.restored()),
    ensures
        ({
            let first = advanced(SafeSend::First { request }, Ok(denied), token, first_id);
            advanced(first->next, restore, token, second_id) == (ProgressView::Done {
                result: Err(Error::UnexpectedResponse(denied)),
            })
        }),
{
}

/// A restore is never itself restored, and a timed-out try is never repeated:
/// only a refusal on the first try sends anything out again.
pub proof fn law_only_a_refusal_retries(
    request: request::Any,
    reply: Reply,
    token: Seq<char>,
    restore_id: u128,
)
    requires
        !(reply matches Ok(kind) && kind.denied()),
    ensures
        advanced(SafeSend::First { request }, reply, token, restore_id) == (ProgressView::Done {
            result: passed_on(reply),
        }),
{
}

/// A call sends at most three requests: the first try, one restore and one
/// retry. Whatever the replies are, the third of them ends the call.
pub proof fn law_ends_within_three_transmissions(
    request: request::Any,
    first: Reply,
    second: Reply,
    third: Reply,
    token: Seq<char>,
    restore_id: u128,
)
    ensures
        ({
            let one = advanced(SafeSend::First { request }, first, token, restore_id);
            one matches ProgressView::Transmit { next, .. } ==> {
                let two = advanced(next, second, token, restore_id);
                &&& next is Restoring
                &&& two matches ProgressView::Transmit { next: last, .. } ==> {
                    &&& last is Retrying
                    &&& advanced(last, third, token, restore_id) is Done
                }
            }
        }),
{
}

} // verus!
