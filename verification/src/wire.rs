//! The wire form of a message: a JSON object with the three fields `user`,
//! `message` and `timestamp`.

use crate::error::RelayError;
use crate::message::{ChatMessage, MessageView};
use vstd::prelude::*;
use vstd::string::StringExecFns;

verus! {

/// `serde_json::Error`, carried through as an opaque value.
#[verifier::external_type_specification]
#[verifier::external_body]
pub struct ExJsonError(serde_json::Error);

/// The JSON string literal, quotes and escapes included, that
/// `serde_json::to_string` writes for a text.
pub uninterp spec fn json_string(text: Seq<char>) -> Seq<char>;

/// The character of one decimal digit.
pub open spec fn digit(d: nat) -> char
    recommends
        d < 10,
{
    seq!['0', '1', '2', '3', '4', '5', '6', '7', '8', '9'][d as int]
}

/// A number in decimal, without sign or leading zeros.
pub open spec fn decimal(n: nat) -> Seq<char>
    decreases n,
{
    if n < 10 {
        seq![digit(n)]
    } else {
        decimal(n / 10).push(digit(n % 10))
    }
}

/// The object that carries three already encoded field values.
pub open spec fn framed(user: Seq<char>, message: Seq<char>, timestamp: Seq<char>) -> Seq<char> {
    "{\"user\":"@ + user + ",\"message\":"@ + message + ",\"timestamp\":"@ + timestamp + "}"@
}

/// The wire form of a message.
pub open spec fn wire(msg: MessageView) -> Seq<char> {
    framed(json_string(msg.user), json_string(msg.message), decimal(msg.timestamp as nat))
}

/// `serde_json::to_string` on a `str`. It writes into a byte vector, and its
/// only errors are those of the writer or of a failing `Serialize` impl, so on
/// a text it succeeds; the result is the JSON string literal of the text.
#[verifier::external_body]
fn json_quote(text: &str) -> (out: Result<String, serde_json::Error>)
    ensures
        out is Ok,
        out matches Ok(s) ==> s@ == json_string(text@),
{
    serde_json::to_string(text)
}

/// `serde_json::to_string` on a `u64`. It writes into a byte vector, and its
/// only errors are those of the writer or of a failing `Serialize` impl, so on
/// a number it succeeds; the result is the number in decimal.
#[verifier::external_body]
fn json_number(n: u64) -> (out: Result<String, serde_json::Error>)
    ensures
        out is Ok,
        out matches Ok(s) ==> s@ == decimal(n as nat),
{
    serde_json::to_string(&n)
}

/// Puts three encoded field values into the object that goes over the wire.
pub fn frame(user: &str, message: &str, timestamp: &str) -> (out: String)
    ensures
        out@ == framed(user@, message@, timestamp@),
{
    let mut out = "{\"user\":".to_owned();
    out.append(user);
    out.append(",\"message\":");
    out.append(message);
    out.append(",\"timestamp\":");
    out.append(timestamp);
    out.append("}");
    out
}

/// The wire form of `msg`. Every message has one: the result is always `Ok`.
/// An error of the encoder of the field values, which does not occur on texts
/// and numbers, would come out as `RelayError::Encoding`.
pub fn encode(msg: &ChatMessage) -> (out: Result<String, RelayError>)
    ensures
        out matches Ok(s) && s@ == wire(msg@),
{
    let user = match json_quote(msg.user()) {
        Ok(s) => s,
        Err(_) => { return Err(RelayError::Encoding); },
    };
    let message = match json_quote(msg.message()) {
        Ok(s) => s,
        Err(_) => { return Err(RelayError::Encoding); },
    };
    let timestamp = match json_number(msg.timestamp()) {
        Ok(s) => s,
        Err(_) => { return Err(RelayError::Encoding); },
    };
    Ok(frame(user.as_str(), message.as_str(), timestamp.as_str()))
}

} // verus!
