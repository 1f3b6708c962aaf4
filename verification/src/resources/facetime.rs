//! `FaceTime`: start `FaceTime` calls.

use vstd::prelude::*;

#[allow(unused_imports)]
use crate::encode::encoded_char;
#[allow(unused_imports)]
use crate::error::Result;
#[allow(unused_imports)]
use crate::json::{
    json_array, json_object, json_string, json_string_array, json_string_bytes, opt_bool,
    opt_int, opt_member, opt_string, opt_string_array, opt_string_array_bytes, string_array,
    JsonArray, JsonObject,
};
#[allow(unused_imports)]
use crate::operation::{
    encode_path_segment, no_headers, opt_bytes, opt_pair, opt_str_pair, pairs_view, path_segment,
    push_opt, push_opt_str, Method, Operation,
};
#[allow(unused_imports)]
use crate::pagination::{Listing, Page, Pagination};
#[allow(unused_imports)]
use crate::request::{new_uuid_v4, uuid_v4_text, IDEMPOTENCY_KEY_HEADER};
#[allow(unused_imports)]
use crate::text::{concat2, concat3, concat4, concat5, StringArg};
#[allow(unused_imports)]
use crate::types::{PhoneNumberLookupResult, ContactLocation, DeleteResponse, MeResponse, Contact, Group, GroupMember, GroupIconResponse, ChatBackgroundResponse, DeviceSyncResult, Webhook, WebhookEventPayload, WebhookLog, LastMessage, Chat, Reaction, Message, MessageDetail, MessageStatus, TypingResponse, ReadResponse, ReactionResponse, SendMessageResponse, Json, LinkPreview, strings_view, link_preview_json, opt_link_preview_json, opt_link_preview_bytes};

verus! {

/// Response of `POST /facetime/calls`.
#[derive(Debug, Clone)]
pub struct FaceTimeCallResponse {
    pub success: Option<bool>,
    pub link: Option<String>,
    pub handle: Option<String>,
}

/// `POST /facetime/calls`
#[derive(Debug, Clone)]
pub struct CallFaceTime {
    pub handle: String,
}

impl Operation for CallFaceTime {
    type Output = FaceTimeCallResponse;

    const METHOD: Method = Method::Post;

    const RETRY_SAFE: bool = false;

    open spec fn spec_method() -> Method {
        Method::Post
    }

    open spec fn spec_retry_safe() -> bool {
        false
    }

    fn method() -> Method {
        Self::METHOD
    }

    fn retry_safe() -> bool {
        Self::RETRY_SAFE
    }

    open spec fn spec_path(&self) -> Seq<char> {
        "/facetime/calls"@
    }

    open spec fn spec_query(&self) -> Seq<(Seq<char>, Seq<char>)> {
        Seq::empty()
    }

    open spec fn headers_ok(&self, h: Seq<(Seq<char>, Seq<char>)>) -> bool {
        no_headers(h)
    }

    open spec fn spec_body(&self) -> Option<Seq<u8>> {
        Some(json_object(seq![("handle"@, json_string(self.handle@))]))
    }

    fn path(&self) -> String {
        "/facetime/calls".to_owned()
    }

    fn query(&self) -> Vec<(&'static str, String)> {
        let q: Vec<(&'static str, String)> = Vec::new();
        assert(pairs_view(q@) =~= Seq::empty());
        q
    }

    fn headers(&self) -> Vec<(&'static str, String)> {
        let h: Vec<(&'static str, String)> = Vec::new();
        assert(pairs_view(h@) =~= Seq::empty());
        h
    }

    fn body(&self) -> Result<Option<Vec<u8>>> {
        let mut obj = JsonObject::new();
        let e = json_string_bytes(self.handle.as_str());
        obj.field("handle", e.as_slice());
        assert(obj@ =~= seq![("handle"@, json_string(self.handle@))]);
        Ok(Some(obj.finish()))
    }
}

/// Handle for the `FaceTime` resource group.
pub struct FaceTime<'c, C> {
    client: &'c C,
}

impl<'c, C> FaceTime<'c, C> {
    /// The handle over `client`.
    pub fn new(client: &'c C) -> (r: Self)
        ensures
            r.spec_client() == client,
    {
        FaceTime { client }
    }

    /// The client the handle sends through.
    pub closed spec fn spec_client(&self) -> &'c C {
        self.client
    }

    /// The client the handle sends through.
    pub fn client(&self) -> (r: &'c C)
        ensures
            r == self.spec_client(),
    {
        self.client
    }

    /// Start a `FaceTime` call to a handle.
    pub fn call<S: StringArg>(&self, handle: S) -> (r: CallFaceTime)
        ensures
            r.handle@ == handle.arg_view(),
    {
        CallFaceTime { handle: handle.into_string() }
    }
}

} // verus!
