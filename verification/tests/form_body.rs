use std::collections::BTreeMap;

use serde::ser::{Serialize, SerializeStruct, Serializer};
use twilio_sms_send::{join_fields, MessageRequest, SendError};

fn message(to: &str, from: &str, body: &str) -> MessageRequest {
    MessageRequest::new(to.to_string(), from.to_string(), body.to_string())
}

fn decoded(text: &str) -> BTreeMap<String, String> {
    serde_qs::from_str(text).expect("the body decodes")
}

fn round_trips(to: &str, from: &str, body: &str) {
    let text = message(to, from, body).form_body().expect("the message is written");
    let fields = decoded(&text);
    assert_eq!(fields.len(), 3);
    assert_eq!(fields["To"], to);
    assert_eq!(fields["From"], from);
    assert_eq!(fields["Body"], body);
}

/// The message as a struct with three named fields, written field by field.
struct Fields<'a> {
    to: &'a str,
    from: &'a str,
    body: &'a str,
}

impl Serialize for Fields<'_> {
    fn serialize<S: Serializer>(&self, serializer: S) -> Result<S::Ok, S::Error> {
        let mut fields = serializer.serialize_struct("MessageRequest", 3)?;
        fields.serialize_field("To", self.to)?;
        fields.serialize_field("From", self.from)?;
        fields.serialize_field("Body", self.body)?;
        fields.end()
    }
}

#[test]
fn new_keeps_the_three_texts() {
    let msg = message("+15551234567", "+15557654321", "hello");
    assert_eq!(msg.to, "+15551234567");
    assert_eq!(msg.from, "+15557654321");
    assert_eq!(msg.body, "hello");
}

#[test]
fn join_fields_puts_an_ampersand_between() {
    assert_eq!(join_fields("To=a", "From=b", "Body=c"), "To=a&From=b&Body=c");
}

#[test]
fn join_fields_keeps_empty_fields() {
    assert_eq!(join_fields("", "", ""), "&&");
    assert_eq!(join_fields("x", "", "z"), "x&&z");
}

#[test]
fn form_body_of_plain_message() {
    let text = message("+15551234567", "+15557654321", "hello").form_body();
    assert_eq!(
        text,
        Ok("To=%2B15551234567&From=%2B15557654321&Body=hello".to_string())
    );
}

#[test]
fn form_body_keys_come_in_order_to_from_body() {
    let text = message("a", "b", "c").form_body().unwrap();
    assert_eq!(text, "To=a&From=b&Body=c");
}

#[test]
fn form_body_encodes_what_would_break_the_framing() {
    let text = message("a&b", "c=d", "e f%+").form_body().unwrap();
    assert_eq!(text, "To=a%26b&From=c%3Dd&Body=e+f%25%2B");
    assert_ne!(text, "To=a&b&From=c=d&Body=e f%+");
}

#[test]
fn form_body_encodes_text_outside_ascii() {
    let text = message("é", "b", "c").form_body().unwrap();
    assert_eq!(text, "To=%C3%A9&From=b&Body=c");
}

#[test]
fn form_body_of_empty_texts() {
    assert_eq!(message("", "", "").form_body(), Ok("To=&From=&Body=".to_string()));
}

#[test]
fn form_body_equals_the_struct_written_whole() {
    let cases = [
        ("+15551234567", "+15557654321", "hello"),
        ("a&b", "c=d", "e f%+"),
        ("", "", ""),
        ("é ü", "[x]", "line\nbreak \"quoted\" <tag> #"),
    ];
    for (to, from, body) in cases {
        let whole = serde_qs::to_string(&Fields { to, from, body }).unwrap();
        assert_eq!(message(to, from, body).form_body(), Ok(whole));
    }
}

#[test]
fn form_body_round_trips_plain_message() {
    round_trips("+15551234567", "+15557654321", "hello");
}

#[test]
fn form_body_round_trips_reserved_characters() {
    round_trips("a&b=c", "d+e f", "100% [sure] #1 <ok> \"yes\"");
    round_trips("To=x&From=y", "&&", "==");
}

#[test]
fn form_body_round_trips_text_outside_ascii() {
    round_trips("é ü ß", "日本語", "emoji 🎉 and\nnewline\ttab");
}

#[test]
fn form_body_round_trips_empty_texts() {
    round_trips("", "", "");
}

#[test]
fn form_body_never_reports_another_error() {
    for body in ["", "x", "a b", "\u{0}", "%zz"] {
        match message("t", "f", body).form_body() {
            Ok(_) => {}
            Err(e) => assert_eq!(e, SendError::Serialize),
        }
    }
}
