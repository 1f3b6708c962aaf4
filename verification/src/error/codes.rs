//! Machine-readable Blooio API error codes documented by the v2 API.

use vstd::prelude::*;
use crate::text::str_eq;

verus! {

/// Sending would exceed the organization's new-contact outbound cap.
pub const OUTBOUND_LIMIT_REACHED: &'static str = "outbound_limit_reached";
/// Sending would exceed the shared plan's daily new-conversation cap.
pub const NEW_CONVERSATION_LIMIT_REACHED: &'static str = "new_conversation_limit_reached";
/// An inbound-only allocation has no prior inbound conversation.
pub const INBOUND_ONLY_NO_PRIOR_INBOUND: &'static str = "inbound_only_no_prior_inbound";
/// The reply target is invalid.
pub const REPLY_TARGET_INVALID: &'static str = "reply_target_invalid";
/// The reply target belongs to a different chat.
pub const REPLY_TARGET_CHAT_MISMATCH: &'static str = "reply_target_chat_mismatch";
/// The reply target belongs to a different device.
pub const REPLY_TARGET_DEVICE_MISMATCH: &'static str = "reply_target_device_mismatch";
/// The reply target has expired.
pub const REPLY_TARGET_EXPIRED: &'static str = "reply_target_expired";
/// The reply target is unsupported.
pub const REPLY_TARGET_NOT_SUPPORTED: &'static str = "reply_target_not_supported";
/// The reply target could not be found.
pub const REPLY_TARGET_NOT_FOUND: &'static str = "reply_target_not_found";

/// The documented quota/cap codes.
pub open spec fn quota_code(code: Seq<char>) -> bool {
    code == OUTBOUND_LIMIT_REACHED@ || code == NEW_CONVERSATION_LIMIT_REACHED@
}

/// The documented threaded-reply target codes.
pub open spec fn reply_target_code(code: Seq<char>) -> bool {
    ||| code == REPLY_TARGET_INVALID@
    ||| code == REPLY_TARGET_CHAT_MISMATCH@
    ||| code == REPLY_TARGET_DEVICE_MISMATCH@
    ||| code == REPLY_TARGET_EXPIRED@
    ||| code == REPLY_TARGET_NOT_SUPPORTED@
    ||| code == REPLY_TARGET_NOT_FOUND@
}

/// The documented inbound-only prior-inbound code.
pub open spec fn inbound_only_code(code: Seq<char>) -> bool {
    code == INBOUND_ONLY_NO_PRIOR_INBOUND@
}

/// Whether `code` is a documented quota/cap error code.
pub fn is_quota_error(code: &str) -> (r: bool)
    ensures
        r == quota_code(code@),
{
    str_eq(code, OUTBOUND_LIMIT_REACHED) || str_eq(code, NEW_CONVERSATION_LIMIT_REACHED)
}

/// Whether `code` is a documented threaded-reply target error code.
pub fn is_reply_target_error(code: &str) -> (r: bool)
    ensures
        r == reply_target_code(code@),
{
    str_eq(code, REPLY_TARGET_INVALID) || str_eq(code, REPLY_TARGET_CHAT_MISMATCH) || str_eq(
        code,
        REPLY_TARGET_DEVICE_MISMATCH,
    ) || str_eq(code, REPLY_TARGET_EXPIRED) || str_eq(code, REPLY_TARGET_NOT_SUPPORTED) || str_eq(
        code,
        REPLY_TARGET_NOT_FOUND,
    )
}

/// Whether `code` is the documented inbound-only prior-inbound error code.
pub fn is_inbound_only_error(code: &str) -> (r: bool)
    ensures
        r == inbound_only_code(code@),
{
    str_eq(code, INBOUND_ONLY_NO_PRIOR_INBOUND)
}

} // verus!
