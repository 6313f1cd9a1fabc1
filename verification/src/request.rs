//! From a message and the configuration to the one request that is sent.

use vstd::prelude::*;
use vstd::string::StringExecFns;
use crate::error::SendError;
use crate::form::{MessageRequest, MessageText};
use crate::proxy::{check_proxy, proxy_usable};

verus! {

/// The environment variable that holds the account identifier.
pub const SID_KEY: &'static str = "TWILIO_SEND_SID";

/// The environment variable that holds the auth token.
pub const TOKEN_KEY: &'static str = "TWILIO_SEND_TOKEN";

/// The environment variable that may hold a proxy URL.
pub const PROXY_KEY: &'static str = "TWILIO_SEND_PROXY";

/// The content type of every request body.
pub const FORM_CONTENT_TYPE: &'static str = "application/x-www-form-urlencoded";

/// The three settings of a send, each as it was found: `None` where the
/// variable is not set.
#[derive(Clone, Debug, PartialEq, Eq)]
pub struct Environment {
    /// Account identifier, under `TWILIO_SEND_SID`.
    pub sid: Option<String>,
    /// Auth token, under `TWILIO_SEND_TOKEN`.
    pub token: Option<String>,
    /// Proxy URL, under `TWILIO_SEND_PROXY`.
    pub proxy: Option<String>,
}

/// The settings as sequences of characters.
pub struct EnvironmentText {
    pub sid: Option<Seq<char>>,
    pub token: Option<Seq<char>>,
    pub proxy: Option<Seq<char>>,
}

/// The characters of a setting, where it is set.
pub open spec fn setting_text(setting: Option<String>) -> Option<Seq<char>> {
    match setting {
        Some(value) => Some(value@),
        None => None,
    }
}

impl View for Environment {
    type V = EnvironmentText;

    open spec fn view(&self) -> EnvironmentText {
        EnvironmentText {
            sid: setting_text(self.sid),
            token: setting_text(self.token),
            proxy: setting_text(self.proxy),
        }
    }
}

/// One HTTP POST, ready for a transport: where it goes, the Basic
/// authentication it carries, its `Content-Type` header and body, and the
/// proxy it is routed through, if any.
#[derive(Clone, Debug, PartialEq, Eq)]
pub struct Dispatch {
    pub url: String,
    pub username: String,
    pub password: String,
    pub content_type: String,
    pub body: String,
    pub proxy: Option<String>,
}

/// A request as sequences of characters.
pub struct DispatchText {
    pub url: Seq<char>,
    pub username: Seq<char>,
    pub password: Seq<char>,
    pub content_type: Seq<char>,
    pub body: Seq<char>,
    pub proxy: Option<Seq<char>>,
}

impl View for Dispatch {
    type V = DispatchText;

    open spec fn view(&self) -> DispatchText {
        DispatchText {
            url: self.url@,
            username: self.username@,
            password: self.password@,
            content_type: self.content_type@,
            body: self.body@,
            proxy: setting_text(self.proxy),
        }
    }
}

/// The Messages endpoint of the account `sid`.
pub open spec fn messages_url_text(sid: Seq<char>) -> Seq<char> {
    "https://api.twilio.com/2010-04-01/Accounts/"@ + sid + "/Messages"@
}

/// The URL that a message of the account `sid` is posted to. The identifier
/// goes into the path as it is.
pub fn messages_url(sid: &str) -> (url: String)
    ensures
        url@ == messages_url_text(sid@),
{
    let mut url = String::from_str("https://api.twilio.com/2010-04-01/Accounts/");
    url.append(sid);
    url.append("/Messages");
    url
}

/// The request that comes of a written body and the settings, or the first
/// failure: no body, then no account identifier, then no auth token, then a
/// proxy that cannot be used.
pub open spec fn assembled(
    written: Option<Seq<char>>,
    env: EnvironmentText,
    proxy_usable: bool,
) -> Result<DispatchText, SendError> {
    if written is None {
        Err(SendError::Serialize)
    } else if env.sid is None {
        Err(SendError::MissingSid)
    } else if env.token is None {
        Err(SendError::MissingToken)
    } else if env.proxy is Some && !proxy_usable {
        Err(SendError::InvalidProxy)
    } else {
        Ok(
            DispatchText {
                url: messages_url_text(env.sid->Some_0),
                username: env.sid->Some_0,
                password: env.token->Some_0,
                content_type: "application/x-www-form-urlencoded"@,
                body: written->Some_0,
                proxy: env.proxy,
            },
        )
    }
}

/// Puts the request together from the written body (`None` where writing it
/// failed), the settings, and whether the proxy setting can be used. The
/// account identifier is both part of the URL and the user name; the auth
/// token is the password.
pub fn assemble(written: Option<String>, env: &Environment, proxy_usable: bool) -> (request: Result<
    Dispatch,
    SendError,
>)
    ensures
        match request {
            Ok(d) => assembled(setting_text(written), env@, proxy_usable) == Ok::<
                DispatchText,
                SendError,
            >(d@),
            Err(e) => assembled(setting_text(written), env@, proxy_usable) == Err::<
                DispatchText,
                SendError,
            >(e),
        },
{
    let body = match written {
        Some(text) => text,
        None => { return Err(SendError::Serialize); },
    };
    let sid = match &env.sid {
        Some(s) => s.clone(),
        None => { return Err(SendError::MissingSid); },
    };
    let token = match &env.token {
        Some(t) => t.clone(),
        None => { return Err(SendError::MissingToken); },
    };
    let proxy = match &env.proxy {
        Some(p) => {
            if !proxy_usable {
                return Err(SendError::InvalidProxy);
            }
            Some(p.clone())
        },
        None => None,
    };
    Ok(
        Dispatch {
            url: messages_url(sid.as_str()),
            username: sid,
            password: token,
            content_type: String::from_str(FORM_CONTENT_TYPE),
            body,
            proxy,
        },
    )
}

/// What `prepare` gives for a message and settings.
pub open spec fn prepared(msg: MessageText, env: EnvironmentText) -> Result<
    DispatchText,
    SendError,
> {
    assembled(msg.form_body(), env, proxy_usable(env.proxy))
}

/// Decides the one request that sending `msg` under `env` takes, or why there
/// is none. Reads nothing but its arguments.
pub fn prepare(msg: &MessageRequest, env: &Environment) -> (request: Result<Dispatch, SendError>)
    ensures
        match request {
            Ok(d) => prepared(msg@, env@) == Ok::<DispatchText, SendError>(d@),
            Err(e) => prepared(msg@, env@) == Err::<DispatchText, SendError>(e),
        },
{
    let written = match msg.form_body() {
        Ok(text) => Some(text),
        Err(_) => None,
    };
    let usable = check_proxy(&env.proxy);
    assemble(written, env, usable)
}

} // verus!
