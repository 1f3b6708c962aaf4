//! Response handling shared by both executors: which statuses succeed, the
//! body a success is decoded from, and the error a failure maps to.

use std::time::Duration;

use vstd::prelude::*;

use crate::error::{api_view, json_map_key_seq, json_map_keys, opt_view, ApiError, ApiErrorDetails, Error};

verus! {

/// Whether a status is a success (`200..300`).
pub open spec fn success_status(status: u16) -> bool {
    200 <= status < 300
}

/// Whether a status is a success (`200..300`).
pub fn is_success(status: u16) -> (r: bool)
    ensures
        r == success_status(status),
{
    200 <= status && status < 300
}

/// The bytes a success body is decoded from: an empty body reads as `null`
/// (so that `()` and `Option` outputs decode), any other body as itself.
pub fn success_body(bytes: &[u8]) -> (r: &[u8])
    ensures
        r@ == if bytes@.len() == 0 {
            vstd::utf8::encode_utf8("null"@)
        } else {
            bytes@
        },
{
    if bytes.len() == 0 {
        "null".as_bytes()
    } else {
        bytes
    }
}

/// The safe subset of the Blooio `Error` schema, as decoded from an error
/// body.
pub struct ApiErrorBody {
    pub error: Option<String>,
    pub message: Option<String>,
    pub status: Option<u16>,
    pub code: Option<String>,
    /// Every other field of the body.
    pub details: serde_json::Map<String, serde_json::Value>,
}

/// Map a non-2xx response to [`Error::Api`]: with the schema's fields when
/// the body decoded as the Blooio `Error` schema, without them otherwise.
/// The server's `Retry-After` hint is attached either way.
pub fn map_error(status: u16, body: Option<ApiErrorBody>, retry_after: Option<Duration>) -> (r:
    Error)
    ensures
        r is Api,
        api_view(r) matches Some(a) && a.status == status && a.retry_after == retry_after && match
            body {
            Some(b) => a.schema_body && a.code == opt_view(b.code) && a.error == opt_view(b.error)
                && a.server_message == opt_view(b.message) && a.detail_keys == json_map_keys(
                b.details,
            ) && a.detail_key_order == json_map_key_seq(b.details) && a.detail_object == b.details,
            None => !a.schema_body && a.code is None && a.error is None && a.server_message is None
                && a.detail_keys.is_empty() && a.detail_key_order.len() == 0 && json_map_keys(
                a.detail_object,
            ).is_empty(),
        },
{
    match body {
        Some(b) => Error::Api(
            ApiError::from_schema(
                status,
                b.code,
                b.error,
                b.message,
                ApiErrorDetails::new(b.details),
                retry_after,
            ),
        ),
        None => Error::Api(ApiError::from_non_schema(status, retry_after)),
    }
}

/// Every `2xx` status, and no other, is a success: its body is decoded as
/// the output, while any other status maps to an API error.
pub proof fn law_success_statuses(status: u16)
    ensures
        success_status(status) <==> 200 <= status <= 299,
        status == 200 ==> success_status(status),
        status == 201 ==> success_status(status),
        status == 204 ==> success_status(status),
        status < 200 ==> !success_status(status),
        status >= 300 ==> !success_status(status),
{
}

} // verus!
