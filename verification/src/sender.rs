//! The send as a whole: the request, the transport's answer, the verdict.

use vstd::prelude::*;
use crate::error::SendError;
use crate::form::{MessageRequest, MessageText};
use crate::request::{prepare, prepared, Dispatch, DispatchText, Environment, EnvironmentText};

verus! {

/// What a transport reports of one request.
#[derive(Clone, Copy, Debug, PartialEq, Eq, Structural)]
pub enum Exchange {
    /// The request went out and a response came back, with this status code.
    Completed { status: u16 },
    /// No HTTP client could be built, so nothing went out.
    ClientBuildFailed,
    /// The transport could not carry the request through: no connection, no
    /// name resolution, a broken exchange.
    SendFailed,
}

/// The verdict on a transport's report. A completed exchange is a success
/// whatever its status code; the two failures keep their kind.
pub open spec fn concluded(report: Exchange) -> Result<(), SendError> {
    match report {
        Exchange::Completed { .. } => Ok(()),
        Exchange::ClientBuildFailed => Err(SendError::ClientBuild),
        Exchange::SendFailed => Err(SendError::Transport),
    }
}

/// Judges what the transport reported. The status code of a response is not
/// looked at.
pub fn conclude(report: Exchange) -> (verdict: Result<(), SendError>)
    ensures
        verdict == concluded(report),
{
    match report {
        Exchange::Completed { .. } => Ok(()),
        Exchange::ClientBuildFailed => Err(SendError::ClientBuild),
        Exchange::SendFailed => Err(SendError::Transport),
    }
}

/// How a send of `msg` under `env` ends when the transport, if it is asked,
/// reports `report`: with the first failure of the preparation, else with the
/// verdict on the report.
pub open spec fn send_outcome(msg: MessageText, env: EnvironmentText, report: Exchange) -> Result<
    (),
    SendError,
> {
    match prepared(msg, env) {
        Err(e) => Err(e),
        Ok(_) => concluded(report),
    }
}

/// Sends one message: prepares the request, hands it to `post`, and tells
/// whether every step went through.
///
/// `post` has to take only the request that `prepare` gives for this message
/// and these settings. So where the preparation fails there is nothing that it
/// could be called on: no request is made and the answer is `false`. Where a
/// request is made, the answer is the verdict on what `post` reported of it.
pub fn send<F: FnOnce(Dispatch) -> Exchange>(
    to: String,
    from: String,
    body: String,
    env: &Environment,
    post: F,
) -> (sent: bool)
    requires
        forall|request: Dispatch|
            prepared(MessageText { to: to@, from: from@, body: body@ }, env@) == Ok::<
                DispatchText,
                SendError,
            >(request@) ==> post.requires((request,)),
    ensures
        ({
            let msg = MessageText { to: to@, from: from@, body: body@ };
            &&& prepared(msg, env@) is Err ==> !sent
            &&& prepared(msg, env@) is Ok ==> exists|request: Dispatch, report: Exchange|
                {
                    &&& prepared(msg, env@) == Ok::<DispatchText, SendError>(request@)
                    &&& post.ensures((request,), report)
                    &&& sent == (send_outcome(msg, env@, report) is Ok)
                }
        }),
{
    let msg = MessageRequest::new(to, from, body);
    match prepare(&msg, env) {
        Err(_) => false,
        Ok(request) => {
            let report = post(request);
            conclude(report).is_ok()
        },
    }
}

} // verus!
