//! The wire envelope and its JSON text form.

use vstd::prelude::*;

verus! {

/// What `serde_json::to_string` yields for a string value: the JSON string
/// literal of its characters, quoted and escaped.
pub uninterp spec fn json_string_of(s: Seq<char>) -> Seq<char>;

/// Relies on `serde_json::to_string` applied to a `str`: it serialises the
/// characters as one JSON string literal. Serialising a `str` into memory
/// cannot fail, so the result is always `Some`.
#[verifier::external_body]
fn json_string(s: &str) -> (r: Option<String>)
    ensures
        r is Some,
        r matches Some(v) ==> v@ == json_string_of(s@),
{
    serde_json::to_string(s).ok()
}

/// The routed unit of data, as it travels between clients.
pub struct ClientMessage {
    pub message_type: String,
    pub receiver: String,
    pub sender: String,
    pub message: String,
}

/// A payload pushed to one session, written out verbatim as a text frame.
pub struct Message(pub String);

/// The JSON object text of an envelope, given the already quoted values of
/// its four fields, in declaration order and without whitespace.
pub open spec fn object_text(
    message_type: Seq<char>,
    receiver: Seq<char>,
    sender: Seq<char>,
    message: Seq<char>,
) -> Seq<char> {
    "{\"message_type\":"@ + message_type + ",\"receiver\":"@ + receiver + ",\"sender\":"@ + sender
        + ",\"message\":"@ + message + "}"@
}

/// The JSON text of an envelope with these field values.
pub open spec fn envelope_text(
    message_type: Seq<char>,
    receiver: Seq<char>,
    sender: Seq<char>,
    message: Seq<char>,
) -> Seq<char> {
    object_text(
        json_string_of(message_type),
        json_string_of(receiver),
        json_string_of(sender),
        json_string_of(message),
    )
}

impl ClientMessage {
    pub open spec fn text(&self) -> Seq<char> {
        envelope_text(self.message_type@, self.receiver@, self.sender@, self.message@)
    }

    /// The JSON text of this envelope.
    pub fn to_json(&self) -> (r: String)
        ensures
            r@ == self.text(),
    {
        let t = json_string(self.message_type.as_str()).unwrap();
        let rc = json_string(self.receiver.as_str()).unwrap();
        let s = json_string(self.sender.as_str()).unwrap();
        let m = json_string(self.message.as_str()).unwrap();
        frame_object(&t, &rc, &s, &m)
    }
}

/// Frames the quoted field values of an envelope as one JSON object.
pub fn frame_object(message_type: &String, receiver: &String, sender: &String, message: &String) -> (r:
    String)
    ensures
        r@ == object_text(message_type@, receiver@, sender@, message@),
{
    let mut out = "{\"message_type\":".to_owned();
    out.append(message_type.as_str());
    out.append(",\"receiver\":");
    out.append(receiver.as_str());
    out.append(",\"sender\":");
    out.append(sender.as_str());
    out.append(",\"message\":");
    out.append(message.as_str());
    out.append("}");
    out
}

} // verus!
