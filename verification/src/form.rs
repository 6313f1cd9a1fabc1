//! The message and its form-encoded request body.

use vstd::prelude::*;
use vstd::string::StringExecFns;
use crate::error::SendError;

verus! {

/// What `serde_qs::to_string` writes for a map of the one entry `key`, `value`:
/// `None` where it reports an error.
pub uninterp spec fn encoded_field(key: Seq<char>, value: Seq<char>) -> Option<Seq<char>>;

/// Calls `serde_qs::to_string` on a map that holds `value` under `key` and
/// nothing else. Its result depends on the two strings alone, so it is named:
/// the contract says only that what comes back is `encoded_field` of them, and
/// promises neither success nor any shape of the text.
#[verifier::external_body]
fn encode_field(key: &str, value: &str) -> (written: Option<String>)
    ensures
        written matches Some(text) ==> encoded_field(key@, value@) == Some(text@),
        written is None ==> encoded_field(key@, value@) is None,
{
    let mut entry = std::collections::BTreeMap::new();
    entry.insert(key, value);
    serde_qs::to_string(&entry).ok()
}

/// Three written fields in the order of the request body, an `&` between each
/// two.
pub open spec fn joined(to: Seq<char>, from: Seq<char>, body: Seq<char>) -> Seq<char> {
    to + seq!['&'] + from + seq!['&'] + body
}

/// Joins the three written fields into one request body.
pub fn join_fields(to: &str, from: &str, body: &str) -> (text: String)
    ensures
        text@ == joined(to@, from@, body@),
{
    proof {
        reveal_strlit("&");
        assert("&"@ =~= seq!['&']);
    }
    let mut text = String::from_str(to);
    text.append("&");
    text.append(from);
    text.append("&");
    text.append(body);
    text
}

/// One message: where it goes, whom it is from, and what it says. Nothing is
/// asked of the three texts; the remote service judges them.
#[derive(Clone, Debug, PartialEq, Eq)]
pub struct MessageRequest {
    pub to: String,
    pub from: String,
    pub body: String,
}

/// A message as three sequences of characters.
pub struct MessageText {
    pub to: Seq<char>,
    pub from: Seq<char>,
    pub body: Seq<char>,
}

impl View for MessageRequest {
    type V = MessageText;

    open spec fn view(&self) -> MessageText {
        MessageText { to: self.to@, from: self.from@, body: self.body@ }
    }
}

impl MessageText {
    /// The request body: the fields `To`, `From` and `Body`, in that order,
    /// each as `encoded_field` gives it. `None` where one of them cannot be
    /// written.
    pub open spec fn form_body(self) -> Option<Seq<char>> {
        match (
            encoded_field("To"@, self.to),
            encoded_field("From"@, self.from),
            encoded_field("Body"@, self.body),
        ) {
            (Some(to), Some(from), Some(body)) => Some(joined(to, from, body)),
            _ => None,
        }
    }
}

impl MessageRequest {
    /// A message from its three texts.
    pub fn new(to: String, from: String, body: String) -> (msg: MessageRequest)
        ensures
            msg.to == to,
            msg.from == from,
            msg.body == body,
    {
        MessageRequest { to, from, body }
    }

    /// Writes the message as `application/x-www-form-urlencoded` text under the
    /// keys `To`, `From` and `Body`.
    pub fn form_body(&self) -> (written: Result<String, SendError>)
        ensures
            match written {
                Ok(text) => self@.form_body() == Some(text@),
                Err(e) => e == SendError::Serialize && self@.form_body() is None,
            },
    {
        let to = match encode_field("To", self.to.as_str()) {
            Some(t) => t,
            None => { return Err(SendError::Serialize); },
        };
        let from = match encode_field("From", self.from.as_str()) {
            Some(f) => f,
            None => { return Err(SendError::Serialize); },
        };
        let body = match encode_field("Body", self.body.as_str()) {
            Some(b) => b,
            None => { return Err(SendError::Serialize); },
        };
        Ok(join_fields(to.as_str(), from.as_str(), body.as_str()))
    }
}

} // verus!
