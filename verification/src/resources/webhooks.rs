//! Webhooks: list, create, get, update, delete, secret rotation, logs, and replay.

use vstd::prelude::*;

#[allow(unused_imports)]
use crate::encode::encoded_char;
#[allow(unused_imports)]
use crate::error::Result;
#[allow(unused_imports)]
use crate::json::{
    json_array, json_object, json_string, json_string_array, json_string_bytes, opt_bool,
    opt_int, opt_member, opt_string, opt_string_array, opt_string_array_bytes, string_array,
    JsonArray, JsonObject,
};
#[allow(unused_imports)]
use crate::operation::{
    encode_path_segment, no_headers, opt_bytes, opt_pair, opt_str_pair, pairs_view, path_segment,
    push_opt, push_opt_str, Method, Operation,
};
#[allow(unused_imports)]
use crate::pagination::{Listing, Page, Pagination};
#[allow(unused_imports)]
use crate::request::{new_uuid_v4, uuid_v4_text, IDEMPOTENCY_KEY_HEADER};
#[allow(unused_imports)]
use crate::text::{concat2, concat3, concat4, concat5, dec, dec_int, StringArg};
#[allow(unused_imports)]
use crate::types::{PhoneNumberLookupResult, ContactLocation, DeleteResponse, MeResponse, Contact, Group, GroupMember, GroupIconResponse, ChatBackgroundResponse, DeviceSyncResult, Webhook, WebhookEventPayload, WebhookLog, LastMessage, Chat, Reaction, Message, MessageDetail, MessageStatus, TypingResponse, ReadResponse, ReactionResponse, SendMessageResponse, Json, LinkPreview, strings_view, link_preview_json, opt_link_preview_json, opt_link_preview_bytes};

verus! {

/// Response of `GET /webhooks`.
#[derive(Debug, Clone)]
pub struct ListWebhooksResponse {
    pub webhooks: Vec<Webhook>,
}

/// Response of `POST /webhooks` (200 and 201 share one shape).
#[derive(Debug, Clone)]
pub struct CreateWebhookResponse {
    pub webhook_id: Option<String>,
    pub webhook_url: Option<String>,
    pub webhook_type: Option<String>,
    pub scope: Option<String>,
    pub message: Option<String>,
    pub created_at: Option<i64>,
    pub signing_secret: Option<String>,
}

/// Response of `DELETE /webhooks/{webhookId}`.
#[derive(Debug, Clone)]
pub struct DeleteWebhookResponse {
    pub success: Option<bool>,
    pub message: Option<String>,
}

/// Response of `POST /webhooks/{webhookId}/secret/rotate`.
#[derive(Debug, Clone)]
pub struct RotateSecretResponse {
    pub webhook_id: Option<String>,
    pub signing_secret: Option<String>,
    pub rotated_at: Option<i64>,
    pub rotated_by: Option<String>,
    pub rotation_count: Option<i64>,
}

/// Pagination metadata inside `ListWebhookLogsResponse`.
#[derive(Debug, Clone, Copy)]
pub struct WebhookLogPagination {
    pub total: Option<i64>,
    pub limit: Option<i64>,
    pub offset: Option<i64>,
    pub returned: Option<i64>,
    pub has_more: Option<bool>,
}

/// Response of `GET /webhooks/{webhookId}/logs`.
#[derive(Debug, Clone)]
pub struct ListWebhookLogsResponse {
    pub logs: Vec<WebhookLog>,
    pub pagination: Option<WebhookLogPagination>,
}

impl Listing for ListWebhookLogsResponse {
    type Item = WebhookLog;

    open spec fn listed(&self) -> Seq<WebhookLog> {
        self.logs@
    }

    open spec fn listed_pagination(&self) -> Option<Pagination> {
        match self.pagination {
            Some(p) => Some(
                Pagination {
                    limit: p.limit,
                    offset: p.offset,
                    total: p.total,
                    returned: p.returned,
                    has_more: p.has_more,
                },
            ),
            None => None,
        }
    }

    fn into_page(self) -> Page<WebhookLog> {
        let pagination = match self.pagination {
            Some(p) => Some(
                Pagination {
                    limit: p.limit,
                    offset: p.offset,
                    total: p.total,
                    returned: p.returned,
                    has_more: p.has_more,
                },
            ),
            None => None,
        };
        Page { items: self.logs, pagination }
    }
}

/// Response of `POST /webhooks/{webhookId}/logs/{eventId}/replay`.
#[derive(Debug, Clone)]
pub struct ReplayResponse {
    pub success: Option<bool>,
    pub replay_event_id: Option<String>,
    pub original_event_id: Option<String>,
    pub webhook_id: Option<String>,
    pub webhook_url: Option<String>,
    pub response_status: Option<i64>,
    pub duration_ms: Option<i64>,
    pub response_data: Option<Json>,
}

/// `GET /webhooks`
#[derive(Debug, Clone, Copy, Default)]
pub struct ListWebhooks;

impl Operation for ListWebhooks {
    type Output = ListWebhooksResponse;

    const METHOD: Method = Method::Get;

    const RETRY_SAFE: bool = false;

    open spec fn spec_method() -> Method {
        Method::Get
    }

    open spec fn spec_retry_safe() -> bool {
        false
    }

    fn method() -> Method {
        Self::METHOD
    }

    fn retry_safe() -> bool {
        Self::RETRY_SAFE
    }

    open spec fn spec_path(&self) -> Seq<char> {
        "/webhooks"@
    }

    open spec fn spec_query(&self) -> Seq<(Seq<char>, Seq<char>)> {
        Seq::empty()
    }

    open spec fn headers_ok(&self, h: Seq<(Seq<char>, Seq<char>)>) -> bool {
        no_headers(h)
    }

    open spec fn spec_body(&self) -> Option<Seq<u8>> {
        None
    }

    fn path(&self) -> String {
        "/webhooks".to_owned()
    }

    fn query(&self) -> Vec<(&'static str, String)> {
        let q: Vec<(&'static str, String)> = Vec::new();
        assert(pairs_view(q@) =~= Seq::empty());
        q
    }

    fn headers(&self) -> Vec<(&'static str, String)> {
        let h: Vec<(&'static str, String)> = Vec::new();
        assert(pairs_view(h@) =~= Seq::empty());
        h
    }

    fn body(&self) -> Result<Option<Vec<u8>>> {
        Ok(None)
    }
}

/// `POST /webhooks`
#[derive(Debug, Clone)]
pub struct CreateWebhook {
    pub webhook_url: String,
    pub webhook_type: Option<String>,
    pub valid_until: Option<i64>,
}

impl Operation for CreateWebhook {
    type Output = CreateWebhookResponse;

    const METHOD: Method = Method::Post;

    const RETRY_SAFE: bool = false;

    open spec fn spec_method() -> Method {
        Method::Post
    }

    open spec fn spec_retry_safe() -> bool {
        false
    }

    fn method() -> Method {
        Self::METHOD
    }

    fn retry_safe() -> bool {
        Self::RETRY_SAFE
    }

    open spec fn spec_path(&self) -> Seq<char> {
        "/webhooks"@
    }

    open spec fn spec_query(&self) -> Seq<(Seq<char>, Seq<char>)> {
        Seq::empty()
    }

    open spec fn headers_ok(&self, h: Seq<(Seq<char>, Seq<char>)>) -> bool {
        no_headers(h)
    }

    open spec fn spec_body(&self) -> Option<Seq<u8>> {
        Some(json_object(seq![("webhook_url"@, json_string(self.webhook_url@))] + opt_member("webhook_type"@, opt_string(self.webhook_type)) + opt_member("valid_until"@, opt_int(self.valid_until))))
    }

    fn path(&self) -> String {
        "/webhooks".to_owned()
    }

    fn query(&self) -> Vec<(&'static str, String)> {
        let q: Vec<(&'static str, String)> = Vec::new();
        assert(pairs_view(q@) =~= Seq::empty());
        q
    }

    fn headers(&self) -> Vec<(&'static str, String)> {
        let h: Vec<(&'static str, String)> = Vec::new();
        assert(pairs_view(h@) =~= Seq::empty());
        h
    }

    fn body(&self) -> Result<Option<Vec<u8>>> {
        let mut obj = JsonObject::new();
        let e = json_string_bytes(self.webhook_url.as_str());
        obj.field("webhook_url", e.as_slice());
        obj.opt_str("webhook_type", &self.webhook_type);
        obj.opt_int("valid_until", self.valid_until);
        assert(obj@ =~= seq![("webhook_url"@, json_string(self.webhook_url@))] + opt_member("webhook_type"@, opt_string(self.webhook_type)) + opt_member("valid_until"@, opt_int(self.valid_until)));
        Ok(Some(obj.finish()))
    }
}

/// `GET /webhooks/{webhookId}`
#[derive(Debug, Clone)]
pub struct GetWebhook {
    pub webhook_id: String,
}

impl Operation for GetWebhook {
    type Output = Webhook;

    const METHOD: Method = Method::Get;

    const RETRY_SAFE: bool = false;

    open spec fn spec_method() -> Method {
        Method::Get
    }

    open spec fn spec_retry_safe() -> bool {
        false
    }

    fn method() -> Method {
        Self::METHOD
    }

    fn retry_safe() -> bool {
        Self::RETRY_SAFE
    }

    open spec fn spec_path(&self) -> Seq<char> {
        "/webhooks/"@ + path_segment(self.webhook_id@)
    }

    open spec fn spec_query(&self) -> Seq<(Seq<char>, Seq<char>)> {
        Seq::empty()
    }

    open spec fn headers_ok(&self, h: Seq<(Seq<char>, Seq<char>)>) -> bool {
        no_headers(h)
    }

    open spec fn spec_body(&self) -> Option<Seq<u8>> {
        None
    }

    fn path(&self) -> String {
        let seg_webhook_id = encode_path_segment(self.webhook_id.as_str());
        concat2("/webhooks/", seg_webhook_id.as_str())
    }

    fn query(&self) -> Vec<(&'static str, String)> {
        let q: Vec<(&'static str, String)> = Vec::new();
        assert(pairs_view(q@) =~= Seq::empty());
        q
    }

    fn headers(&self) -> Vec<(&'static str, String)> {
        let h: Vec<(&'static str, String)> = Vec::new();
        assert(pairs_view(h@) =~= Seq::empty());
        h
    }

    fn body(&self) -> Result<Option<Vec<u8>>> {
        Ok(None)
    }
}

/// `PATCH /webhooks/{webhookId}`
#[derive(Debug, Clone)]
pub struct UpdateWebhook {
    pub webhook_id: String,
    pub webhook_type: Option<String>,
    pub valid_until: Option<i64>,
    pub deprecate: Option<bool>,
}

impl Operation for UpdateWebhook {
    type Output = Webhook;

    const METHOD: Method = Method::Patch;

    const RETRY_SAFE: bool = false;

    open spec fn spec_method() -> Method {
        Method::Patch
    }

    open spec fn spec_retry_safe() -> bool {
        false
    }

    fn method() -> Method {
        Self::METHOD
    }

    fn retry_safe() -> bool {
        Self::RETRY_SAFE
    }

    open spec fn spec_path(&self) -> Seq<char> {
        "/webhooks/"@ + path_segment(self.webhook_id@)
    }

    open spec fn spec_query(&self) -> Seq<(Seq<char>, Seq<char>)> {
        Seq::empty()
    }

    open spec fn headers_ok(&self, h: Seq<(Seq<char>, Seq<char>)>) -> bool {
        no_headers(h)
    }

    open spec fn spec_body(&self) -> Option<Seq<u8>> {
        Some(json_object(opt_member("webhook_type"@, opt_string(self.webhook_type)) + opt_member("valid_until"@, opt_int(self.valid_until)) + opt_member("deprecate"@, opt_bool(self.deprecate))))
    }

    fn path(&self) -> String {
        let seg_webhook_id = encode_path_segment(self.webhook_id.as_str());
        concat2("/webhooks/", seg_webhook_id.as_str())
    }

    fn query(&self) -> Vec<(&'static str, String)> {
        let q: Vec<(&'static str, String)> = Vec::new();
        assert(pairs_view(q@) =~= Seq::empty());
        q
    }

    fn headers(&self) -> Vec<(&'static str, String)> {
        let h: Vec<(&'static str, String)> = Vec::new();
        assert(pairs_view(h@) =~= Seq::empty());
        h
    }

    fn body(&self) -> Result<Option<Vec<u8>>> {
        let mut obj = JsonObject::new();
        obj.opt_str("webhook_type", &self.webhook_type);
        obj.opt_int("valid_until", self.valid_until);
        obj.opt_bool("deprecate", self.deprecate);
        assert(obj@ =~= opt_member("webhook_type"@, opt_string(self.webhook_type)) + opt_member("valid_until"@, opt_int(self.valid_until)) + opt_member("deprecate"@, opt_bool(self.deprecate)));
        Ok(Some(obj.finish()))
    }
}

/// `DELETE /webhooks/{webhookId}`
#[derive(Debug, Clone)]
pub struct DeleteWebhook {
    pub webhook_id: String,
}

impl Operation for DeleteWebhook {
    type Output = DeleteWebhookResponse;

    const METHOD: Method = Method::Delete;

    const RETRY_SAFE: bool = false;

    open spec fn spec_method() -> Method {
        Method::Delete
    }

    open spec fn spec_retry_safe() -> bool {
        false
    }

    fn method() -> Method {
        Self::METHOD
    }

    fn retry_safe() -> bool {
        Self::RETRY_SAFE
    }

    open spec fn spec_path(&self) -> Seq<char> {
        "/webhooks/"@ + path_segment(self.webhook_id@)
    }

    open spec fn spec_query(&self) -> Seq<(Seq<char>, Seq<char>)> {
        Seq::empty()
    }

    open spec fn headers_ok(&self, h: Seq<(Seq<char>, Seq<char>)>) -> bool {
        no_headers(h)
    }

    open spec fn spec_body(&self) -> Option<Seq<u8>> {
        None
    }

    fn path(&self) -> String {
        let seg_webhook_id = encode_path_segment(self.webhook_id.as_str());
        concat2("/webhooks/", seg_webhook_id.as_str())
    }

    fn query(&self) -> Vec<(&'static str, String)> {
        let q: Vec<(&'static str, String)> = Vec::new();
        assert(pairs_view(q@) =~= Seq::empty());
        q
    }

    fn headers(&self) -> Vec<(&'static str, String)> {
        let h: Vec<(&'static str, String)> = Vec::new();
        assert(pairs_view(h@) =~= Seq::empty());
        h
    }

    fn body(&self) -> Result<Option<Vec<u8>>> {
        Ok(None)
    }
}

/// `POST /webhooks/{webhookId}/secret/rotate`
#[derive(Debug, Clone)]
pub struct RotateWebhookSecret {
    pub webhook_id: String,
}

impl Operation for RotateWebhookSecret {
    type Output = RotateSecretResponse;

    const METHOD: Method = Method::Post;

    const RETRY_SAFE: bool = false;

    open spec fn spec_method() -> Method {
        Method::Post
    }

    open spec fn spec_retry_safe() -> bool {
        false
    }

    fn method() -> Method {
        Self::METHOD
    }

    fn retry_safe() -> bool {
        Self::RETRY_SAFE
    }

    open spec fn spec_path(&self) -> Seq<char> {
        "/webhooks/"@ + path_segment(self.webhook_id@) + "/secret/rotate"@
    }

    open spec fn spec_query(&self) -> Seq<(Seq<char>, Seq<char>)> {
        Seq::empty()
    }

    open spec fn headers_ok(&self, h: Seq<(Seq<char>, Seq<char>)>) -> bool {
        no_headers(h)
    }

    open spec fn spec_body(&self) -> Option<Seq<u8>> {
        None
    }

    fn path(&self) -> String {
        let seg_webhook_id = encode_path_segment(self.webhook_id.as_str());
        concat3("/webhooks/", seg_webhook_id.as_str(), "/secret/rotate")
    }

    fn query(&self) -> Vec<(&'static str, String)> {
        let q: Vec<(&'static str, String)> = Vec::new();
        assert(pairs_view(q@) =~= Seq::empty());
        q
    }

    fn headers(&self) -> Vec<(&'static str, String)> {
        let h: Vec<(&'static str, String)> = Vec::new();
        assert(pairs_view(h@) =~= Seq::empty());
        h
    }

    fn body(&self) -> Result<Option<Vec<u8>>> {
        Ok(None)
    }
}

/// `GET /webhooks/{webhookId}/logs`
#[derive(Debug, Clone)]
pub struct ListWebhookLogs {
    pub webhook_id: String,
    pub limit: Option<u32>,
    pub offset: Option<u32>,
    pub sort: Option<String>,
    pub status: Option<i64>,
    pub min_status: Option<i64>,
    pub max_status: Option<i64>,
}

impl Operation for ListWebhookLogs {
    type Output = ListWebhookLogsResponse;

    const METHOD: Method = Method::Get;

    const RETRY_SAFE: bool = false;

    open spec fn spec_method() -> Method {
        Method::Get
    }

    open spec fn spec_retry_safe() -> bool {
        false
    }

    fn method() -> Method {
        Self::METHOD
    }

    fn retry_safe() -> bool {
        Self::RETRY_SAFE
    }

    open spec fn spec_path(&self) -> Seq<char> {
        "/webhooks/"@ + path_segment(self.webhook_id@) + "/logs"@
    }

    open spec fn spec_query(&self) -> Seq<(Seq<char>, Seq<char>)> {
        opt_pair("limit"@, self.limit) + opt_pair("offset"@, self.offset) + opt_str_pair("sort"@, self.sort) + opt_pair("status"@, self.status) + opt_pair("min_status"@, self.min_status) + opt_pair("max_status"@, self.max_status)
    }

    open spec fn headers_ok(&self, h: Seq<(Seq<char>, Seq<char>)>) -> bool {
        no_headers(h)
    }

    open spec fn spec_body(&self) -> Option<Seq<u8>> {
        None
    }

    fn path(&self) -> String {
        let seg_webhook_id = encode_path_segment(self.webhook_id.as_str());
        concat3("/webhooks/", seg_webhook_id.as_str(), "/logs")
    }

    fn query(&self) -> Vec<(&'static str, String)> {
        let mut q: Vec<(&'static str, String)> = Vec::new();
        assert(pairs_view(q@) =~= Seq::empty());
        push_opt(&mut q, "limit", self.limit);
        push_opt(&mut q, "offset", self.offset);
        push_opt_str(&mut q, "sort", &self.sort);
        push_opt(&mut q, "status", self.status);
        push_opt(&mut q, "min_status", self.min_status);
        push_opt(&mut q, "max_status", self.max_status);
        assert(pairs_view(q@) =~= self.spec_query());
        q
    }

    fn headers(&self) -> Vec<(&'static str, String)> {
        let h: Vec<(&'static str, String)> = Vec::new();
        assert(pairs_view(h@) =~= Seq::empty());
        h
    }

    fn body(&self) -> Result<Option<Vec<u8>>> {
        Ok(None)
    }
}

/// `POST /webhooks/{webhookId}/logs/{eventId}/replay`
#[derive(Debug, Clone)]
pub struct ReplayWebhookEvent {
    pub webhook_id: String,
    pub event_id: String,
}

impl Operation for ReplayWebhookEvent {
    type Output = ReplayResponse;

    const METHOD: Method = Method::Post;

    const RETRY_SAFE: bool = false;

    open spec fn spec_method() -> Method {
        Method::Post
    }

    open spec fn spec_retry_safe() -> bool {
        false
    }

    fn method() -> Method {
        Self::METHOD
    }

    fn retry_safe() -> bool {
        Self::RETRY_SAFE
    }

    open spec fn spec_path(&self) -> Seq<char> {
        "/webhooks/"@ + path_segment(self.webhook_id@) + "/logs/"@ + path_segment(self.event_id@) + "/replay"@
    }

    open spec fn spec_query(&self) -> Seq<(Seq<char>, Seq<char>)> {
        Seq::empty()
    }

    open spec fn headers_ok(&self, h: Seq<(Seq<char>, Seq<char>)>) -> bool {
        no_headers(h)
    }

    open spec fn spec_body(&self) -> Option<Seq<u8>> {
        None
    }

    fn path(&self) -> String {
        let seg_webhook_id = encode_path_segment(self.webhook_id.as_str());
        let seg_event_id = encode_path_segment(self.event_id.as_str());
        concat5("/webhooks/", seg_webhook_id.as_str(), "/logs/", seg_event_id.as_str(), "/replay")
    }

    fn query(&self) -> Vec<(&'static str, String)> {
        let q: Vec<(&'static str, String)> = Vec::new();
        assert(pairs_view(q@) =~= Seq::empty());
        q
    }

    fn headers(&self) -> Vec<(&'static str, String)> {
        let h: Vec<(&'static str, String)> = Vec::new();
        assert(pairs_view(h@) =~= Seq::empty());
        h
    }

    fn body(&self) -> Result<Option<Vec<u8>>> {
        Ok(None)
    }
}


impl UpdateWebhook {
    /// An update of webhook `webhook_id` that changes nothing yet.
    pub fn new<S: StringArg>(webhook_id: S) -> (r: Self)
        ensures
            r.webhook_id@ == webhook_id.arg_view(),
            r.webhook_type is None && r.valid_until is None && r.deprecate is None,
    {
        UpdateWebhook {
            webhook_id: webhook_id.into_string(),
            webhook_type: None,
            valid_until: None,
            deprecate: None,
        }
    }

    /// Set the webhook type.
    pub fn webhook_type<S: StringArg>(self, v: S) -> (r: Self)
        ensures
            r.webhook_type matches Some(x) && x@ == v.arg_view(),
            r == (UpdateWebhook { webhook_type: r.webhook_type, ..self }),
    {
        UpdateWebhook { webhook_type: Some(v.into_string()), ..self }
    }

    /// Set the expiry timestamp.
    pub fn valid_until(self, v: i64) -> (r: Self)
        ensures
            r == (UpdateWebhook { valid_until: Some(v), ..self }),
    {
        UpdateWebhook { valid_until: Some(v), ..self }
    }

    /// Mark the webhook as deprecated.
    pub fn deprecate(self, v: bool) -> (r: Self)
        ensures
            r == (UpdateWebhook { deprecate: Some(v), ..self }),
    {
        UpdateWebhook { deprecate: Some(v), ..self }
    }
}

/// Handle for the webhooks resource group.
pub struct Webhooks<'c, C> {
    client: &'c C,
}

impl<'c, C> Webhooks<'c, C> {
    /// The handle over `client`.
    pub fn new(client: &'c C) -> (r: Self)
        ensures
            r.spec_client() == client,
    {
        Webhooks { client }
    }

    /// The client the handle sends through.
    pub closed spec fn spec_client(&self) -> &'c C {
        self.client
    }

    /// The client the handle sends through.
    pub fn client(&self) -> (r: &'c C)
        ensures
            r == self.spec_client(),
    {
        self.client
    }

    /// List all webhooks.
    pub fn list(&self) -> (r: ListWebhooks)
        ensures
            r == ListWebhooks,
    {
        ListWebhooks
    }

    /// Create a webhook.
    pub fn create<S: StringArg>(
        &self,
        webhook_url: S,
        webhook_type: Option<String>,
        valid_until: Option<i64>,
    ) -> (r: CreateWebhook)
        ensures
            r.webhook_url@ == webhook_url.arg_view(),
            r.webhook_type == webhook_type,
            r.valid_until == valid_until,
    {
        CreateWebhook { webhook_url: webhook_url.into_string(), webhook_type, valid_until }
    }

    /// Get a webhook by id.
    pub fn get<S: StringArg>(&self, webhook_id: S) -> (r: GetWebhook)
        ensures
            r.webhook_id@ == webhook_id.arg_view(),
    {
        GetWebhook { webhook_id: webhook_id.into_string() }
    }

    /// Update a webhook.
    pub fn update(&self, op: UpdateWebhook) -> (r: UpdateWebhook)
        ensures
            r == op,
    {
        op
    }

    /// Delete a webhook.
    pub fn delete<S: StringArg>(&self, webhook_id: S) -> (r: DeleteWebhook)
        ensures
            r.webhook_id@ == webhook_id.arg_view(),
    {
        DeleteWebhook { webhook_id: webhook_id.into_string() }
    }

    /// Rotate the signing secret of a webhook.
    pub fn rotate_secret<S: StringArg>(&self, webhook_id: S) -> (r: RotateWebhookSecret)
        ensures
            r.webhook_id@ == webhook_id.arg_view(),
    {
        RotateWebhookSecret { webhook_id: webhook_id.into_string() }
    }

    /// The logs sub-resource of a webhook.
    pub fn logs<S: StringArg>(&self, webhook_id: S) -> (r: WebhookLogs<'c, C>)
        ensures
            r.spec_client() == self.spec_client(),
            r.spec_webhook_id() == webhook_id.arg_view(),
    {
        WebhookLogs::new(self.client, webhook_id)
    }
}

/// Handle for the delivery logs of one webhook.
pub struct WebhookLogs<'c, C> {
    client: &'c C,
    webhook_id: String,
}

impl<'c, C> WebhookLogs<'c, C> {
    /// The handle for `webhook_id` over `client`.
    pub fn new<S: StringArg>(client: &'c C, webhook_id: S) -> (r: Self)
        ensures
            r.spec_client() == client,
            r.spec_webhook_id() == webhook_id.arg_view(),
    {
        WebhookLogs { client, webhook_id: webhook_id.into_string() }
    }

    /// The webhook the handle is scoped to.
    pub closed spec fn spec_webhook_id(&self) -> Seq<char> {
        self.webhook_id@
    }

    /// The webhook the handle is scoped to.
    pub fn webhook_id(&self) -> (r: &str)
        ensures
            r@ == self.spec_webhook_id(),
    {
        self.webhook_id.as_str()
    }

    /// The client the handle sends through.
    pub closed spec fn spec_client(&self) -> &'c C {
        self.client
    }

    /// The client the handle sends through.
    pub fn client(&self) -> (r: &'c C)
        ensures
            r == self.spec_client(),
    {
        self.client
    }

    /// List the logs of this webhook (first page, no filters).
    pub fn list(&self) -> (r: ListWebhookLogs)
        ensures
            r.webhook_id@ == self.spec_webhook_id(),
            r.limit is None && r.offset is None && r.sort is None && r.status is None
                && r.min_status is None && r.max_status is None,
    {
        ListWebhookLogs {
            webhook_id: self.webhook_id.clone(),
            limit: None,
            offset: None,
            sort: None,
            status: None,
            min_status: None,
            max_status: None,
        }
    }

    /// List logs with explicit filters and pagination.
    pub fn list_with(&self, op: ListWebhookLogs) -> (r: ListWebhookLogs)
        ensures
            r == op,
    {
        op
    }

    /// One page of the walk over all logs of this webhook.
    pub fn list_page(&self, offset: u32, limit: u32) -> (r: ListWebhookLogs)
        ensures
            r.webhook_id@ == self.spec_webhook_id(),
            r.offset == Some(offset) && r.limit == Some(limit),
            r.sort is None && r.status is None && r.min_status is None && r.max_status is None,
    {
        ListWebhookLogs {
            webhook_id: self.webhook_id.clone(),
            offset: Some(offset),
            limit: Some(limit),
            sort: None,
            status: None,
            min_status: None,
            max_status: None,
        }
    }

    /// Replay a single webhook event by id.
    pub fn replay<S: StringArg>(&self, event_id: S) -> (r: ReplayWebhookEvent)
        ensures
            r.webhook_id@ == self.spec_webhook_id(),
            r.event_id@ == event_id.arg_view(),
    {
        ReplayWebhookEvent { webhook_id: self.webhook_id.clone(), event_id: event_id.into_string() }
    }
}

/// A webhook log list request carries every value it is given: each of
/// `limit`, `offset`, `sort`, `status`, `min_status`, `max_status` that is
/// set appears in the query under its own name with its text, so a later
/// page's `offset` always reaches the server.
pub proof fn law_list_webhook_logs_query(op: ListWebhookLogs)
    ensures
        op.limit is Some ==> op.spec_query().contains(("limit"@, dec(op.limit->0 as nat))),
        op.offset is Some ==> op.spec_query().contains(("offset"@, dec(op.offset->0 as nat))),
        op.sort is Some ==> op.spec_query().contains(("sort"@, op.sort->0@)),
        op.status is Some ==> op.spec_query().contains(("status"@, dec_int(op.status->0 as int))),
        op.min_status is Some ==> op.spec_query().contains(("min_status"@, dec_int(op.min_status->0 as int))),
        op.max_status is Some ==> op.spec_query().contains(("max_status"@, dec_int(op.max_status->0 as int))),
{
    if op.limit is Some {
        assert(op.spec_query()[(0) as int] == ("limit"@, dec(op.limit->0 as nat)));
    }
    if op.offset is Some {
        assert(op.spec_query()[(opt_pair("limit"@, op.limit).len()) as int] == ("offset"@, dec(op.offset->0 as nat)));
    }
    if op.sort is Some {
        assert(op.spec_query()[(opt_pair("limit"@, op.limit).len() + opt_pair("offset"@, op.offset).len()) as int] == ("sort"@, op.sort->0@));
    }
    if op.status is Some {
        assert(op.spec_query()[(opt_pair("limit"@, op.limit).len() + opt_pair("offset"@, op.offset).len() + opt_str_pair("sort"@, op.sort).len()) as int] == ("status"@, dec_int(op.status->0 as int)));
    }
    if op.min_status is Some {
        assert(op.spec_query()[(opt_pair("limit"@, op.limit).len() + opt_pair("offset"@, op.offset).len() + opt_str_pair("sort"@, op.sort).len() + opt_pair("status"@, op.status).len()) as int] == ("min_status"@, dec_int(op.min_status->0 as int)));
    }
    if op.max_status is Some {
        assert(op.spec_query()[(opt_pair("limit"@, op.limit).len() + opt_pair("offset"@, op.offset).len() + opt_str_pair("sort"@, op.sort).len() + opt_pair("status"@, op.status).len() + opt_pair("min_status"@, op.min_status).len()) as int] == ("max_status"@, dec_int(op.max_status->0 as int)));
    }
}

} // verus!
