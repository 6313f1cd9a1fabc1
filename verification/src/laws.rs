//! What holds of every send, stated over `prepared` and `send_outcome`.

use vstd::prelude::*;
use crate::error::SendError;
use crate::form::MessageText;
use crate::proxy::{proxy_url_accepted, proxy_usable};
use crate::request::{messages_url_text, prepared, DispatchText, EnvironmentText};
use crate::sender::{concluded, send_outcome, Exchange};

verus! {

/// A send succeeds exactly when every step does: the message can be written,
/// both credentials are set, the proxy setting is absent or accepted, and the
/// transport completed the exchange.
pub proof fn send_succeeds_exactly_when_every_step_does(
    msg: MessageText,
    env: EnvironmentText,
    report: Exchange,
)
    ensures
        send_outcome(msg, env, report) is Ok <==> {
            &&& msg.form_body() is Some
            &&& env.sid is Some
            &&& env.token is Some
            &&& proxy_usable(env.proxy)
            &&& report is Completed
        },
{
}

/// With both credentials set and no proxy configured, a message that can be
/// written is posted to the account's Messages endpoint under those
/// credentials, and the send succeeds once the transport completes the
/// exchange, whatever the status code of the response.
pub proof fn send_without_proxy_succeeds(
    msg: MessageText,
    sid: Seq<char>,
    token: Seq<char>,
    status: u16,
)
    ensures
        msg.form_body() is Some ==> {
            let env = EnvironmentText { sid: Some(sid), token: Some(token), proxy: None };
            &&& prepared(msg, env) == Ok::<DispatchText, SendError>(
                DispatchText {
                    url: messages_url_text(sid),
                    username: sid,
                    password: token,
                    content_type: "application/x-www-form-urlencoded"@,
                    body: msg.form_body()->Some_0,
                    proxy: None,
                },
            )
            &&& send_outcome(msg, env, Exchange::Completed { status }) is Ok
        },
{
}

/// Without the account identifier or without the auth token there is no
/// request to make, and the send fails whatever a transport would have
/// reported.
pub proof fn send_without_credentials_makes_no_request(
    msg: MessageText,
    env: EnvironmentText,
    report: Exchange,
)
    ensures
        env.sid is None || env.token is None ==> {
            &&& prepared(msg, env) is Err
            &&& send_outcome(msg, env, report) is Err
        },
{
}

/// With a proxy configured whose value is not accepted as a proxy URL there is
/// no request to make, and the send fails.
pub proof fn send_with_unusable_proxy_fails(
    msg: MessageText,
    env: EnvironmentText,
    report: Exchange,
)
    ensures
        env.proxy is Some && !proxy_url_accepted(env.proxy->Some_0) ==> {
            &&& prepared(msg, env) is Err
            &&& send_outcome(msg, env, report) is Err
        },
{
}

/// An absent proxy setting is no failure and changes nothing but the route:
/// the request is the one that an accepted proxy would give, with no proxy in
/// it, and the send ends as it would with that proxy.
pub proof fn absent_proxy_changes_only_the_route(
    msg: MessageText,
    env: EnvironmentText,
    url: Seq<char>,
    report: Exchange,
)
    ensures
        ({
            let without = EnvironmentText { proxy: None, ..env };
            let with = EnvironmentText { proxy: Some(url), ..env };
            &&& prepared(msg, without) != Err::<DispatchText, SendError>(SendError::InvalidProxy)
            &&& prepared(msg, without) matches Ok(d) ==> d.proxy is None
            &&& proxy_url_accepted(url) ==> {
                &&& send_outcome(msg, without, report) == send_outcome(msg, with, report)
                &&& prepared(msg, with) matches Ok(d) ==> prepared(msg, without) == Ok::<
                    DispatchText,
                    SendError,
                >(DispatchText { proxy: None, ..d })
                &&& prepared(msg, with) matches Err(e) ==> prepared(msg, without) == Err::<
                    DispatchText,
                    SendError,
                >(e)
            }
        }),
{
}

/// A transport that did not complete the exchange fails the send, whatever
/// the message and the settings.
pub proof fn transport_failure_fails_send(msg: MessageText, env: EnvironmentText, report: Exchange)
    ensures
        !(report is Completed) ==> {
            &&& concluded(report) is Err
            &&& send_outcome(msg, env, report) is Err
        },
{
}

/// The verdict on a completed exchange does not depend on the status code of
/// the response.
pub proof fn status_code_is_not_judged(msg: MessageText, env: EnvironmentText, a: u16, b: u16)
    ensures
        send_outcome(msg, env, Exchange::Completed { status: a }) == send_outcome(
            msg,
            env,
            Exchange::Completed { status: b },
        ),
{
}

} // verus!
