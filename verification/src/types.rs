//! Shared models of the API's schemas.
//!
//! Fields are `Option` wherever the API may omit them. Server-owned nested
//! objects are kept as JSON values so that fields the SDK does not know are
//! preserved rather than dropped. String status, direction, reaction,
//! webhook-type and protocol fields carry Blooio's raw values.

use vstd::prelude::*;

use crate::json::{json_object, json_string_bytes, opt_member, opt_string, JsonObject};
use crate::secret::Secret;

verus! {

/// A JSON number, kept exactly as the server sent it.
#[verifier::external_type_specification]
#[verifier::external_body]
pub struct ExJsonNumber(serde_json::Number);

/// Free-form JSON value used for server-owned nested objects whose schema
/// may change independently of the SDK.
pub type Json = serde_json::Value;

/// The views of a list of strings.
pub open spec fn strings_view(v: Seq<String>) -> Seq<Seq<char>> {
    v.map_values(|s: String| s@)
}

/// A collection that converts into the list of strings that batch requests
/// carry: owned vectors, string arrays and slices of strings.
pub trait IntoStringList {
    /// The strings, in order.
    spec fn string_list(&self) -> Seq<Seq<char>>;

    /// Convert this collection into owned strings.
    fn into_string_vec(self) -> (r: Vec<String>)
        ensures
            strings_view(r@) == self.string_list(),
    ;
}

impl IntoStringList for Vec<String> {
    open spec fn string_list(&self) -> Seq<Seq<char>> {
        strings_view(self@)
    }

    fn into_string_vec(self) -> Vec<String> {
        self
    }
}

/// Owned copies of a slice of strings.
fn copy_strings(v: &[String]) -> (r: Vec<String>)
    ensures
        strings_view(r@) == strings_view(v@),
{
    let mut out: Vec<String> = Vec::new();
    let mut i: usize = 0;
    while i < v.len()
        invariant
            0 <= i <= v@.len(),
            strings_view(out@) == strings_view(v@.take(i as int)),
        decreases v.len() - i,
    {
        let s = v[i].clone();
        let ghost before = out@;
        out.push(s);
        assert(strings_view(out@) =~= strings_view(before).push(s@));
        assert(strings_view(v@.take(i + 1)) =~= strings_view(v@.take(i as int)).push(v@[i as int]@));
        i += 1;
    }
    assert(v@.take(v@.len() as int) =~= v@);
    out
}

/// Owned copies of a slice of string slices.
fn copy_strs(v: &[&str]) -> (r: Vec<String>)
    ensures
        strings_view(r@) == v@.map_values(|s: &str| s@),
{
    let mut out: Vec<String> = Vec::new();
    let mut i: usize = 0;
    while i < v.len()
        invariant
            0 <= i <= v@.len(),
            strings_view(out@) == v@.take(i as int).map_values(|s: &str| s@),
        decreases v.len() - i,
    {
        let s = v[i].to_owned();
        let ghost before = out@;
        out.push(s);
        assert(strings_view(out@) =~= strings_view(before).push(s@));
        assert(v@.take(i + 1).map_values(|s: &str| s@) =~= v@.take(i as int).map_values(
            |s: &str| s@,
        ).push(v@[i as int]@));
        i += 1;
    }
    assert(v@.take(v@.len() as int) =~= v@);
    out
}

impl<'a> IntoStringList for &'a Vec<String> {
    open spec fn string_list(&self) -> Seq<Seq<char>> {
        strings_view((**self)@)
    }

    fn into_string_vec(self) -> Vec<String> {
        copy_strings(self.as_slice())
    }
}

impl<'a> IntoStringList for &'a [String] {
    open spec fn string_list(&self) -> Seq<Seq<char>> {
        strings_view((**self)@)
    }

    fn into_string_vec(self) -> Vec<String> {
        copy_strings(self)
    }
}

impl<'a, 'b> IntoStringList for &'a [&'b str] {
    open spec fn string_list(&self) -> Seq<Seq<char>> {
        (**self)@.map_values(|s: &str| s@)
    }

    fn into_string_vec(self) -> Vec<String> {
        copy_strs(self)
    }
}

impl<'b, const N: usize> IntoStringList for [&'b str; N] {
    open spec fn string_list(&self) -> Seq<Seq<char>> {
        self@.map_values(|s: &str| s@)
    }

    fn into_string_vec(self) -> Vec<String> {
        copy_strs(&self)
    }
}

impl<'a, 'b, const N: usize> IntoStringList for &'a [&'b str; N] {
    open spec fn string_list(&self) -> Seq<Seq<char>> {
        (**self)@.map_values(|s: &str| s@)
    }

    fn into_string_vec(self) -> Vec<String> {
        copy_strs(self)
    }
}

/// Override for a rich link preview on URL messages.
#[derive(Debug, Clone)]
pub struct LinkPreview {
    pub image_url: Option<String>,
    pub title: Option<String>,
}

impl Default for LinkPreview {
    fn default() -> (r: Self)
        ensures
            r.image_url is None,
            r.title is None,
    {
        LinkPreview { image_url: None, title: None }
    }
}

/// The JSON form of a link preview: its set fields.
pub open spec fn link_preview_json(p: LinkPreview) -> Seq<u8> {
    json_object(opt_member("image_url"@, opt_string(p.image_url)) + opt_member("title"@, opt_string(p.title)))
}

/// The JSON form of an optional link preview.
pub open spec fn opt_link_preview_json(p: Option<LinkPreview>) -> Option<Seq<u8>> {
    match p {
        Some(v) => Some(link_preview_json(v)),
        None => None,
    }
}

impl LinkPreview {
    /// The JSON encoding: only the fields that are set.
    pub fn to_json(&self) -> (r: Vec<u8>)
        ensures
            r@ == link_preview_json(*self),
    {
        let mut obj = JsonObject::new();
        obj.opt_str("image_url", &self.image_url);
        obj.opt_str("title", &self.title);
        assert(obj@ =~= opt_member("image_url"@, opt_string(self.image_url)) + opt_member("title"@, opt_string(self.title)));
        obj.finish()
    }
}

/// The JSON encoding of an optional link preview.
pub fn opt_link_preview_bytes(p: &Option<LinkPreview>) -> (r: Option<Vec<u8>>)
    ensures
        crate::operation::opt_bytes(r) == opt_link_preview_json(*p),
{
    match p {
        Some(v) => Some(v.to_json()),
        None => None,
    }
}

/// Result of a phone-number lookup.
#[derive(Debug, Clone)]
pub struct PhoneNumberLookupResult {
    pub input: Option<String>,
    pub valid: Option<bool>,
    pub possible: Option<bool>,
    pub e164: Option<String>,
    pub national: Option<String>,
    pub international: Option<String>,
    pub country_calling_code: Option<String>,
    pub country: Option<String>,
    pub national_number: Option<String>,
    /// The `type` field.
    pub kind: Option<String>,
    pub location: Option<Json>,
    pub area_code: Option<String>,
    pub exchange: Option<String>,
    pub area_code_region: Option<String>,
}

/// A contact's shared location (Find My-style).
#[derive(Debug, Clone)]
pub struct ContactLocation {
    pub handle: Option<String>,
    pub coordinates: Option<Vec<serde_json::Number>>,
    pub status: Option<String>,
    pub last_updated: Option<i64>,
}

/// Generic deletion result.
#[derive(Debug, Clone, Copy)]
pub struct DeleteResponse {
    pub success: Option<bool>,
    pub deleted_at: Option<i64>,
}

/// Response of `GET /me`.
#[derive(Clone)]
pub struct MeResponse {
    pub auth_type: Option<String>,
    pub valid: Option<bool>,
    pub user_id: Option<String>,
    pub api_key: Option<Secret<String>>,
    pub organization_id: Option<String>,
    pub organization: Option<Json>,
    pub metadata: Option<Json>,
    pub integration_details: Option<Json>,
    pub devices: Option<Vec<Json>>,
    pub usage: Option<Json>,
}

/// A contact.
#[derive(Debug, Clone)]
pub struct Contact {
    pub id: Option<String>,
    pub contact_id: Option<String>,
    pub identifier: Option<String>,
    pub name: Option<String>,
    /// The `type` field.
    pub kind: Option<String>,
    pub created_at: Option<i64>,
    pub last_message_time: Option<i64>,
    pub tags: Option<Vec<String>>,
}

/// A group chat.
#[derive(Debug, Clone)]
pub struct Group {
    pub group_id: Option<String>,
    pub name: Option<String>,
    pub chat_guid: Option<String>,
    pub icon_url: Option<String>,
    pub member_count: Option<i64>,
    pub message_count: Option<i64>,
    pub last_message_text: Option<String>,
    pub last_message_time: Option<i64>,
    pub last_message_direction: Option<String>,
    pub created_at: Option<i64>,
}

/// A member of a group.
#[derive(Debug, Clone)]
pub struct GroupMember {
    pub id: Option<String>,
    pub contact_id: Option<String>,
    pub identifier: Option<String>,
    pub name: Option<String>,
    pub added_at: Option<i64>,
}

/// Result of setting or removing a group icon.
#[derive(Debug, Clone)]
pub struct GroupIconResponse {
    pub success: Option<bool>,
    pub group_id: Option<String>,
    pub chat_guid: Option<String>,
    pub icon_url: Option<String>,
    pub device_sync: Option<Json>,
    pub message: Option<String>,
}

/// State of a chat's background.
#[derive(Debug, Clone)]
pub struct ChatBackgroundResponse {
    pub chat_id: Option<String>,
    pub has_background: Option<bool>,
    pub background_id: Option<String>,
    pub background_version: Option<i64>,
    pub changed: Option<bool>,
}

/// Per-device sync outcome.
#[derive(Debug, Clone)]
pub struct DeviceSyncResult {
    pub chat_guid: Option<String>,
    pub action: Option<String>,
    pub synced: Option<bool>,
    pub error: Option<String>,
}

/// A registered webhook.
#[derive(Debug, Clone)]
pub struct Webhook {
    pub webhook_id: Option<String>,
    pub webhook_url: Option<String>,
    pub webhook_type: Option<String>,
    pub scope: Option<String>,
    pub api_key_name: Option<String>,
    pub integration_name: Option<String>,
    pub created_at: Option<i64>,
    pub deprecated_at: Option<i64>,
    pub valid_until: Option<i64>,
    pub last_triggered: Option<i64>,
    pub failure_count: Option<i64>,
    pub is_active: Option<bool>,
}

/// The JSON payload Blooio posts to a webhook URL.
#[derive(Debug, Clone)]
pub struct WebhookEventPayload {
    pub event: Option<String>,
    pub message_id: Option<String>,
    pub external_id: Option<String>,
    pub status: Option<String>,
    pub protocol: Option<String>,
    pub timestamp: Option<i64>,
    pub internal_id: Option<String>,
    pub text: Option<String>,
    pub attachments: Option<Vec<Json>>,
    pub is_group: Option<bool>,
    pub group_id: Option<String>,
    pub group_name: Option<String>,
    pub participants: Option<Vec<Json>>,
    pub sender: Option<String>,
    pub sent_at: Option<i64>,
    pub delivered_at: Option<i64>,
    pub read_at: Option<i64>,
    pub error_code: Option<String>,
    pub error_message: Option<String>,
}

/// A single webhook delivery log entry.
#[derive(Debug, Clone)]
pub struct WebhookLog {
    pub event_id: Option<String>,
    pub scope: Option<String>,
    pub attempted_time: Option<i64>,
    pub response_received_at: Option<i64>,
    pub webhook_url: Option<String>,
    pub event_body: Option<WebhookEventPayload>,
    pub response_status: Option<i64>,
    pub response_json: Option<Json>,
    pub metadata: Option<Json>,
}

/// Summary of the most recent message in a chat.
#[derive(Debug, Clone)]
pub struct LastMessage {
    pub message_id: Option<String>,
    pub text: Option<String>,
    pub direction: Option<String>,
    pub time_sent: Option<i64>,
}

/// A chat. The list and detail endpoints return the same shape; detail
/// responses also fill `first_message_time`.
#[derive(Debug, Clone)]
pub struct Chat {
    pub id: Option<String>,
    /// The `type` field.
    pub kind: Option<String>,
    pub is_group: Option<bool>,
    pub group_id: Option<String>,
    pub group_name: Option<String>,
    pub member_count: Option<i64>,
    pub contact: Option<Json>,
    pub message_count: Option<i64>,
    pub inbound_count: Option<i64>,
    pub outbound_count: Option<i64>,
    pub first_message_time: Option<i64>,
    pub last_message_time: Option<i64>,
    pub last_inbound_time: Option<i64>,
    pub last_outbound_time: Option<i64>,
    pub last_message: Option<LastMessage>,
}

/// A reaction on a message.
#[derive(Debug, Clone)]
pub struct Reaction {
    pub reaction: Option<String>,
    pub is_added: Option<bool>,
    pub time_sent: Option<i64>,
    pub sender: Option<String>,
}

/// A message (list view).
#[derive(Debug, Clone)]
pub struct Message {
    pub message_id: Option<String>,
    pub direction: Option<String>,
    pub external_id: Option<String>,
    pub internal_id: Option<String>,
    pub text: Option<String>,
    pub attachments: Option<Vec<Json>>,
    pub sender: Option<String>,
    pub reactions: Option<Vec<Reaction>>,
    pub time_sent: Option<i64>,
    pub time_delivered: Option<i64>,
    pub status: Option<String>,
    pub protocol: Option<String>,
    pub error: Option<String>,
}

/// A message (detail view).
#[derive(Debug, Clone)]
pub struct MessageDetail {
    pub message_id: Option<String>,
    pub chat_id: Option<String>,
    pub direction: Option<String>,
    pub internal_id: Option<String>,
    pub contact: Option<Json>,
    pub sender: Option<String>,
    pub text: Option<String>,
    pub attachments: Option<Vec<Json>>,
    pub reactions: Option<Vec<Reaction>>,
    pub time_sent: Option<i64>,
    pub time_delivered: Option<i64>,
    pub status: Option<String>,
    pub protocol: Option<String>,
    pub error: Option<String>,
}

/// Delivery status of a message.
#[derive(Debug, Clone)]
pub struct MessageStatus {
    pub message_id: Option<String>,
    pub chat_id: Option<String>,
    pub direction: Option<String>,
    pub status: Option<String>,
    pub protocol: Option<String>,
    pub time_sent: Option<i64>,
    pub time_delivered: Option<i64>,
    pub error: Option<String>,
}

/// Result of starting or stopping a typing indicator.
#[derive(Debug, Clone)]
pub struct TypingResponse {
    pub chat_id: Option<String>,
    pub typing: Option<bool>,
    pub started_at: Option<i64>,
    pub stopped_at: Option<i64>,
    pub warning: Option<String>,
}

/// Result of marking a chat read.
#[derive(Debug, Clone)]
pub struct ReadResponse {
    pub chat_id: Option<String>,
    pub status: Option<String>,
    pub marked_at: Option<i64>,
}

/// Result of adding a reaction.
#[derive(Debug, Clone)]
pub struct ReactionResponse {
    pub success: Option<bool>,
    pub message_id: Option<String>,
    pub reaction: Option<String>,
    pub action: Option<String>,
}

/// Response of `POST /chats/{chatId}/messages`.
#[derive(Debug, Clone)]
pub struct SendMessageResponse {
    pub message_id: Option<String>,
    pub message_ids: Option<Vec<String>>,
    pub count: Option<i64>,
    pub status: Option<String>,
    pub group_id: Option<String>,
    pub group_created: Option<bool>,
    pub participants: Option<Vec<String>>,
    pub parent_unresolved: Option<bool>,
}


/// The message ids of a send: the batch list when present, else the single
/// id, else none.
pub open spec fn sent_ids(r: SendMessageResponse) -> Seq<Seq<char>> {
    match r.message_ids {
        Some(ids) => strings_view(ids@),
        None => match r.message_id {
            Some(id) => seq![id@],
            None => Seq::empty(),
        },
    }
}

impl SendMessageResponse {
    /// All message ids from this response, whether single or batch.
    pub fn ids(&self) -> (r: Vec<&str>)
        ensures
            r@.map_values(|s: &str| s@) == sent_ids(*self),
    {
        let mut out: Vec<&str> = Vec::new();
        match &self.message_ids {
            Some(ids) => {
                let mut i: usize = 0;
                while i < ids.len()
                    invariant
                        0 <= i <= ids@.len(),
                        out@.map_values(|s: &str| s@) == strings_view(ids@.take(i as int)),
                    decreases ids.len() - i,
                {
                    let ghost before = out@;
                    out.push(ids[i].as_str());
                    assert(out@.map_values(|s: &str| s@) =~= before.map_values(|s: &str| s@).push(ids@[i as int]@));
                    assert(strings_view(ids@.take(i + 1)) =~= strings_view(ids@.take(i as int)).push(ids@[i as int]@));
                    i += 1;
                }
                assert(ids@.take(ids@.len() as int) =~= ids@);
            },
            None => match &self.message_id {
                Some(id) => {
                    out.push(id.as_str());
                    assert(out@.map_values(|s: &str| s@) =~= seq![id@]);
                },
                None => {
                    assert(out@.map_values(|s: &str| s@) =~= Seq::<Seq<char>>::empty());
                },
            },
        }
        out
    }
}

} // verus!
