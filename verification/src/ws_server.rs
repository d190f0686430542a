//! The channel to the presentation client: text frames in, text frames out.

use vstd::prelude::*;
use crate::msg::Message;

verus! {

/// The JSON value that the text of a frame stands for, where it is JSON.
pub uninterp spec fn parsed(frame: Seq<char>) -> Option<serde_json::Value>;

/// The JSON text of a message, where it has one.
pub uninterp spec fn serialized(data: serde_json::Value) -> Option<Seq<char>>;

/// Parses a frame with `serde_json::from_str`: the value that the text
/// stands for, or nothing for a text that is not JSON.
#[verifier::external_body]
fn parse(frame: &str) -> (r: Option<Message>)
    ensures
        r == parsed(frame@),
{
    serde_json::from_str(frame).ok()
}

/// Writes a message with `serde_json::to_string`: its JSON text, or nothing
/// where the message cannot be written.
#[verifier::external_body]
fn write(data: &Message) -> (r: Option<String>)
    ensures
        r is Some <==> serialized(*data) is Some,
        r matches Some(s) ==> serialized(*data) == Some(s@),
{
    serde_json::to_string(data).ok()
}

/// The connection to the presentation client, as far as it decides.
pub struct WSServer {}

impl WSServer {
    /// Takes a text frame from the client: the message to hand to the
    /// session, or nothing for a frame that is not JSON, which is dropped.
    pub fn receive(frame: &str) -> (r: Option<Message>)
        ensures
            r == parsed(frame@),
    {
        parse(frame)
    }

    /// The text to send to every connected client for a message, or
    /// nothing where the message cannot be written, which is then not sent.
    pub fn send(data: &Message) -> (r: Option<String>)
        ensures
            r is Some <==> serialized(*data) is Some,
            r matches Some(s) ==> serialized(*data) == Some(s@),
    {
        write(data)
    }
}

} // verus!
