//! Reading the service's answer: an error reported in its headers, or a JSON body.
use crate::errors::{DecodeError, PocketError};
use crate::fields::FromJson;
use crate::json::{error_message, json_text, parse_value};
use crate::text::{bounded_numeral, parse_bounded};
use vstd::prelude::*;

verus! {

/// The header that carries the service's error code.
pub const HEADER_XERROR_CODE: &'static str = "X-Error-Code";

/// The header that carries the service's error message.
pub const HEADER_XERROR: &'static str = "X-Error";

/// The header that names the content type the client accepts.
pub const HEADER_XACCEPT: &'static str = "X-Accept";

/// The message of an error reported without one.
pub const UNKNOWN_PROTOCOL_ERROR: &'static str = "unknown protocol error";

/// Turns an answer into a typed value: an error code in the headers is a
/// protocol error, with the header's message or a default one; otherwise the
/// body is parsed as JSON and decoded.
pub fn read_response<T: FromJson>(
    error_code: Option<&str>,
    error_message_header: Option<&str>,
    body: &str,
) -> (r: Result<T, PocketError>)
    requires
        error_code matches Some(c) ==> bounded_numeral(c@, u16::MAX as int) is Some,
    ensures
        match error_code {
            Some(c) => r matches Err(PocketError::Proto(n, m)) && bounded_numeral(
                c@,
                u16::MAX as int,
            ) == Some(n as int) && m@ == match error_message_header {
                Some(x) => x@,
                None => UNKNOWN_PROTOCOL_ERROR@,
            },
            None => match json_text(body@) {
                Some(j) => (r is Ok <==> T::decodable(j)) && (r matches Ok(x) ==> T::decodes_to(
                    j,
                    x,
                )) && (r is Err ==> r matches Err(PocketError::Json(_))),
                None => r matches Err(PocketError::Json(DecodeError::Syntax(_))),
            },
        },
{
    match error_code {
        Some(c) => {
            let n = match parse_bounded(c, 65535) {
                Some(n) => n as u16,
                None => 0,
            };
            let m = match error_message_header {
                Some(x) => String::from_str(x),
                None => String::from_str(UNKNOWN_PROTOCOL_ERROR),
            };
            Err(PocketError::Proto(n, m))
        },
        None => match parse_value(body) {
            Ok(v) => match T::from_json(&v) {
                Ok(x) => Ok(x),
                Err(e) => Err(PocketError::Json(e)),
            },
            Err(e) => Err(PocketError::Json(DecodeError::Syntax(error_message(&e)))),
        },
    }
}

} // verus!
