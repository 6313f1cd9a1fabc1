//! Sending one SMS through Twilio's Messages endpoint, as decisions on plain
//! values: what the one HTTP request holds, on which configurations no request
//! is made, and what the caller is told once the transport has answered.
//!
//! Nothing here touches the process environment or the network. A caller reads
//! the three settings, hands them over as an [`Environment`], and performs the
//! [`Dispatch`] it gets back; [`send`] runs that sequence around a transport
//! given as a closure.

pub mod error;
pub mod form;
pub mod laws;
pub mod proxy;
pub mod request;
pub mod sender;

pub use error::SendError;
pub use form::{join_fields, MessageRequest};
pub use proxy::check_proxy;
pub use request::{
    assemble, messages_url, prepare, Dispatch, Environment, FORM_CONTENT_TYPE, PROXY_KEY, SID_KEY,
    TOKEN_KEY,
};
pub use sender::{conclude, send, Exchange};
