//! Classification of HTTP exchanges.
//!
//! The HTTP transport posts one JSON-RPC document per request. Any
//! non-2xx status is a transport failure carrying the status and the
//! raw body as diagnostic text; a 2xx body that is not JSON is a
//! failure carrying the raw body.

use vstd::prelude::*;

use crate::decimal::spec_u64_digits;
use crate::decimal::u64_to_string;
use crate::json::JsonValue;

verus! {

/// An HTTP status that counts as success.
pub open spec fn spec_http_success(status: u16) -> bool {
    200 <= status < 300
}

/// The diagnostic text for a failed HTTP exchange.
pub open spec fn spec_http_error_message(status: u16, body: Seq<char>) -> Seq<char> {
    "HTTP "@ + spec_u64_digits(status as int) + ": "@ + body
}

/// Renders the diagnostic text for a failed HTTP exchange.
pub fn http_error_message(status: u16, body: &str) -> (r: String)
    ensures
        r@ == spec_http_error_message(status, body@),
{
    let mut out: String = "HTTP ".to_owned();
    let digits = u64_to_string(status as u64);
    out.append(digits.as_str());
    out.append(": ");
    out.append(body);
    out
}

/// Decides what one HTTP exchange yielded: the parsed response document
/// on a 2xx status with a JSON body, else the failure text. `parsed`
/// is the body's JSON reading, when it has one.
pub fn decode_http_response(status: u16, parsed: Option<JsonValue>, body: String) -> (r: Result<
    JsonValue,
    String,
>)
    ensures
        !spec_http_success(status) ==> (r matches Err(m) && m@ == spec_http_error_message(
            status,
            body@,
        )),
        spec_http_success(status) ==> (match parsed {
            Some(doc) => r matches Ok(d) && d == doc,
            None => r matches Err(m) && m == body,
        }),
{
    if status < 200 || status >= 300 {
        Err(http_error_message(status, body.as_str()))
    } else {
        match parsed {
            Some(doc) => Ok(doc),
            None => Err(body),
        }
    }
}

} // verus!
