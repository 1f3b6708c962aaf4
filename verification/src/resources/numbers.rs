//! Numbers: the phone numbers attached to the account, and call forwarding.

use vstd::prelude::*;

#[allow(unused_imports)]
use crate::encode::encoded_char;
#[allow(unused_imports)]
use crate::error::Result;
#[allow(unused_imports)]
use crate::json::{
    json_array, json_object, json_string, json_string_array, json_string_bytes, opt_bool,
    opt_int, opt_member, opt_string, opt_string_array, opt_string_array_bytes, string_array,
    JsonArray, JsonObject,
};
#[allow(unused_imports)]
use crate::operation::{
    encode_path_segment, no_headers, opt_bytes, opt_pair, opt_str_pair, pairs_view, path_segment,
    push_opt, push_opt_str, Method, Operation,
};
#[allow(unused_imports)]
use crate::pagination::{Listing, Page, Pagination};
#[allow(unused_imports)]
use crate::request::{new_uuid_v4, uuid_v4_text, IDEMPOTENCY_KEY_HEADER};
#[allow(unused_imports)]
use crate::text::{concat2, concat3, concat4, concat5, StringArg};
#[allow(unused_imports)]
use crate::types::{PhoneNumberLookupResult, ContactLocation, DeleteResponse, MeResponse, Contact, Group, GroupMember, GroupIconResponse, ChatBackgroundResponse, DeviceSyncResult, Webhook, WebhookEventPayload, WebhookLog, LastMessage, Chat, Reaction, Message, MessageDetail, MessageStatus, TypingResponse, ReadResponse, ReactionResponse, SendMessageResponse, Json, LinkPreview, strings_view, link_preview_json, opt_link_preview_json, opt_link_preview_bytes};

verus! {

/// A single phone number entry.
#[derive(Debug, Clone)]
pub struct NumberInfo {
    pub phone_number: Option<String>,
    pub is_active: Option<bool>,
    pub last_active: Option<String>,
    pub plan_kind: Option<String>,
}

/// Response of `GET /me/numbers`.
#[derive(Debug, Clone)]
pub struct ListNumbersResponse {
    pub numbers: Vec<NumberInfo>,
}

/// Response of `POST /me/numbers/{number}/call-forwarding`.
#[derive(Debug, Clone)]
pub struct RequestCallForwardingResponse {
    pub success: Option<bool>,
    pub ticket_id: Option<String>,
    pub status: Option<String>,
    pub number: Option<String>,
    pub forward_to: Option<String>,
}

/// `GET /me/numbers`
#[derive(Debug, Clone, Copy, Default)]
pub struct ListNumbers;

impl Operation for ListNumbers {
    type Output = ListNumbersResponse;

    const METHOD: Method = Method::Get;

    const RETRY_SAFE: bool = false;

    open spec fn spec_method() -> Method {
        Method::Get
    }

    open spec fn spec_retry_safe() -> bool {
        false
    }

    fn method() -> Method {
        Self::METHOD
    }

    fn retry_safe() -> bool {
        Self::RETRY_SAFE
    }

    open spec fn spec_path(&self) -> Seq<char> {
        "/me/numbers"@
    }

    open spec fn spec_query(&self) -> Seq<(Seq<char>, Seq<char>)> {
        Seq::empty()
    }

    open spec fn headers_ok(&self, h: Seq<(Seq<char>, Seq<char>)>) -> bool {
        no_headers(h)
    }

    open spec fn spec_body(&self) -> Option<Seq<u8>> {
        None
    }

    fn path(&self) -> String {
        "/me/numbers".to_owned()
    }

    fn query(&self) -> Vec<(&'static str, String)> {
        let q: Vec<(&'static str, String)> = Vec::new();
        assert(pairs_view(q@) =~= Seq::empty());
        q
    }

    fn headers(&self) -> Vec<(&'static str, String)> {
        let h: Vec<(&'static str, String)> = Vec::new();
        assert(pairs_view(h@) =~= Seq::empty());
        h
    }

    fn body(&self) -> Result<Option<Vec<u8>>> {
        Ok(None)
    }
}

/// `POST /me/numbers/{number}/call-forwarding`
#[derive(Debug, Clone)]
pub struct RequestCallForwarding {
    pub number: String,
    pub forward_to: String,
}

impl Operation for RequestCallForwarding {
    type Output = RequestCallForwardingResponse;

    const METHOD: Method = Method::Post;

    const RETRY_SAFE: bool = false;

    open spec fn spec_method() -> Method {
        Method::Post
    }

    open spec fn spec_retry_safe() -> bool {
        false
    }

    fn method() -> Method {
        Self::METHOD
    }

    fn retry_safe() -> bool {
        Self::RETRY_SAFE
    }

    open spec fn spec_path(&self) -> Seq<char> {
        "/me/numbers/"@ + path_segment(self.number@) + "/call-forwarding"@
    }

    open spec fn spec_query(&self) -> Seq<(Seq<char>, Seq<char>)> {
        Seq::empty()
    }

    open spec fn headers_ok(&self, h: Seq<(Seq<char>, Seq<char>)>) -> bool {
        no_headers(h)
    }

    open spec fn spec_body(&self) -> Option<Seq<u8>> {
        Some(json_object(seq![("forward_to"@, json_string(self.forward_to@))]))
    }

    fn path(&self) -> String {
        let seg = encode_path_segment(self.number.as_str());
        concat3("/me/numbers/", seg.as_str(), "/call-forwarding")
    }

    fn query(&self) -> Vec<(&'static str, String)> {
        let q: Vec<(&'static str, String)> = Vec::new();
        assert(pairs_view(q@) =~= Seq::empty());
        q
    }

    fn headers(&self) -> Vec<(&'static str, String)> {
        let h: Vec<(&'static str, String)> = Vec::new();
        assert(pairs_view(h@) =~= Seq::empty());
        h
    }

    fn body(&self) -> Result<Option<Vec<u8>>> {
        let mut obj = JsonObject::new();
        let e = json_string_bytes(self.forward_to.as_str());
        obj.field("forward_to", e.as_slice());
        assert(obj@ =~= seq![("forward_to"@, json_string(self.forward_to@))]);
        Ok(Some(obj.finish()))
    }
}


impl RequestCallForwarding {
    /// A request to forward the calls of `number` to `forward_to`.
    pub fn new<N: StringArg, F: StringArg>(number: N, forward_to: F) -> (r: Self)
        ensures
            r.number@ == number.arg_view(),
            r.forward_to@ == forward_to.arg_view(),
    {
        RequestCallForwarding { number: number.into_string(), forward_to: forward_to.into_string() }
    }
}

/// Handle for the numbers resource group.
pub struct Numbers<'c, C> {
    client: &'c C,
}

impl<'c, C> Numbers<'c, C> {
    /// The handle over `client`.
    pub fn new(client: &'c C) -> (r: Self)
        ensures
            r.spec_client() == client,
    {
        Numbers { client }
    }

    /// The client the handle sends through.
    pub closed spec fn spec_client(&self) -> &'c C {
        self.client
    }

    /// The client the handle sends through.
    pub fn client(&self) -> (r: &'c C)
        ensures
            r == self.spec_client(),
    {
        self.client
    }

    /// List all phone numbers on the account.
    pub fn list(&self) -> (r: ListNumbers)
        ensures
            r == ListNumbers,
    {
        ListNumbers
    }

    /// Request that calls to `number` be forwarded to `forward_to`.
    pub fn request_call_forwarding<N: StringArg, F: StringArg>(&self, number: N, forward_to: F) -> (r:
        RequestCallForwarding)
        ensures
            r.number@ == number.arg_view(),
            r.forward_to@ == forward_to.arg_view(),
    {
        RequestCallForwarding::new(number, forward_to)
    }

    /// Send a fully-built call-forwarding request.
    pub fn request_call_forwarding_with(&self, op: RequestCallForwarding) -> (r: RequestCallForwarding)
        ensures
            r == op,
    {
        op
    }
}

} // verus!
