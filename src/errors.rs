//! The failures that a call to the service can end in.
use vstd::prelude::*;

verus! {

/// What a value of the response should have been.
#[derive(Debug, Clone, Copy, PartialEq, Eq, Structural)]
pub enum Expected {
    /// The member is missing.
    Present,
    /// A JSON string.
    Text,
    /// A JSON object.
    Object,
    /// A JSON boolean.
    Boolean,
    /// A decimal numeral, within the range of its type.
    Numeral,
    /// A JSON integer, within the range of its type.
    Integer,
    /// `0` or `1`.
    ZeroOrOne,
    /// The literal `true`.
    True,
    /// The literal `false`.
    False,
    /// `"0"`, `"1"` or `"2"`.
    ZeroOneOrTwo,
    /// A media type such as `text/html`.
    MediaType,
    /// A date written `YYYY-MM-DD HH:MM:SS`.
    Date,
    /// A JSON array or object.
    ListOrMap,
    /// A success flag or an added item.
    ActionResult,
}

/// A response body that does not have the shape the service documents.
#[derive(Debug, Clone, PartialEq, Eq)]
pub enum DecodeError {
    /// The body is not JSON; the parser's message.
    Syntax(String),
    /// The whole value has the wrong shape.
    Shape(Expected),
    /// A member of an object has the wrong shape, or is missing.
    Field(String, Expected),
}

/// How a call to the service failed.
#[derive(Debug)]
pub enum PocketError {
    /// The HTTP exchange itself failed; the transport's message.
    Http(String),
    /// The body could not be decoded.
    Json(DecodeError),
    /// The service reported an error code and message in its headers.
    Proto(u16, String),
    /// The anti-forgery state returned by the service differs from the one sent.
    StateMismatch,
}

} // verus!
