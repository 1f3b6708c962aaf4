//! Phone numbers: look up one or several phone numbers.

use vstd::prelude::*;

#[allow(unused_imports)]
use crate::encode::encoded_char;
#[allow(unused_imports)]
use crate::error::Result;
#[allow(unused_imports)]
use crate::json::{
    json_array, json_object, json_string, json_string_array, json_string_bytes, opt_bool,
    opt_int, opt_member, opt_string, opt_string_array, opt_string_array_bytes, string_array,
    JsonArray, JsonObject,
};
#[allow(unused_imports)]
use crate::operation::{
    encode_path_segment, no_headers, opt_bytes, opt_pair, opt_str_pair, pairs_view, path_segment,
    push_opt, push_opt_str, Method, Operation,
};
#[allow(unused_imports)]
use crate::pagination::{Listing, Page, Pagination};
#[allow(unused_imports)]
use crate::request::{new_uuid_v4, uuid_v4_text, IDEMPOTENCY_KEY_HEADER};
#[allow(unused_imports)]
use crate::text::{concat2, concat3, concat4, concat5, StringArg};
#[allow(unused_imports)]
use crate::types::{PhoneNumberLookupResult, ContactLocation, DeleteResponse, MeResponse, Contact, Group, GroupMember, GroupIconResponse, ChatBackgroundResponse, DeviceSyncResult, Webhook, WebhookEventPayload, WebhookLog, LastMessage, Chat, Reaction, Message, MessageDetail, MessageStatus, TypingResponse, ReadResponse, ReactionResponse, SendMessageResponse, Json, LinkPreview, strings_view, link_preview_json, opt_link_preview_json, opt_link_preview_bytes};
#[allow(unused_imports)]
use crate::types::IntoStringList;

verus! {

/// Response of `POST /phone-numbers/batch`.
#[derive(Debug, Clone)]
pub struct BatchLookupResponse {
    pub results: Vec<PhoneNumberLookupResult>,
}

/// `GET /phone-numbers/lookup`
#[derive(Debug, Clone)]
pub struct LookupPhoneNumber {
    pub number: String,
}

impl Operation for LookupPhoneNumber {
    type Output = PhoneNumberLookupResult;

    const METHOD: Method = Method::Get;

    const RETRY_SAFE: bool = false;

    open spec fn spec_method() -> Method {
        Method::Get
    }

    open spec fn spec_retry_safe() -> bool {
        false
    }

    fn method() -> Method {
        Self::METHOD
    }

    fn retry_safe() -> bool {
        Self::RETRY_SAFE
    }

    open spec fn spec_path(&self) -> Seq<char> {
        "/phone-numbers/lookup"@
    }

    open spec fn spec_query(&self) -> Seq<(Seq<char>, Seq<char>)> {
        seq![("number"@, self.number@)]
    }

    open spec fn headers_ok(&self, h: Seq<(Seq<char>, Seq<char>)>) -> bool {
        no_headers(h)
    }

    open spec fn spec_body(&self) -> Option<Seq<u8>> {
        None
    }

    fn path(&self) -> String {
        "/phone-numbers/lookup".to_owned()
    }

    fn query(&self) -> Vec<(&'static str, String)> {
        let mut q: Vec<(&'static str, String)> = Vec::new();
        assert(pairs_view(q@) =~= Seq::empty());
        q.push(("number", self.number.clone()));
        assert(pairs_view(q@) =~= self.spec_query());
        q
    }

    fn headers(&self) -> Vec<(&'static str, String)> {
        let h: Vec<(&'static str, String)> = Vec::new();
        assert(pairs_view(h@) =~= Seq::empty());
        h
    }

    fn body(&self) -> Result<Option<Vec<u8>>> {
        Ok(None)
    }
}

/// `POST /phone-numbers/lookup`
#[derive(Debug, Clone)]
pub struct LookupPhoneNumberPost {
    pub number: String,
}

impl Operation for LookupPhoneNumberPost {
    type Output = PhoneNumberLookupResult;

    const METHOD: Method = Method::Post;

    const RETRY_SAFE: bool = false;

    open spec fn spec_method() -> Method {
        Method::Post
    }

    open spec fn spec_retry_safe() -> bool {
        false
    }

    fn method() -> Method {
        Self::METHOD
    }

    fn retry_safe() -> bool {
        Self::RETRY_SAFE
    }

    open spec fn spec_path(&self) -> Seq<char> {
        "/phone-numbers/lookup"@
    }

    open spec fn spec_query(&self) -> Seq<(Seq<char>, Seq<char>)> {
        Seq::empty()
    }

    open spec fn headers_ok(&self, h: Seq<(Seq<char>, Seq<char>)>) -> bool {
        no_headers(h)
    }

    open spec fn spec_body(&self) -> Option<Seq<u8>> {
        Some(json_object(seq![("number"@, json_string(self.number@))]))
    }

    fn path(&self) -> String {
        "/phone-numbers/lookup".to_owned()
    }

    fn query(&self) -> Vec<(&'static str, String)> {
        let q: Vec<(&'static str, String)> = Vec::new();
        assert(pairs_view(q@) =~= Seq::empty());
        q
    }

    fn headers(&self) -> Vec<(&'static str, String)> {
        let h: Vec<(&'static str, String)> = Vec::new();
        assert(pairs_view(h@) =~= Seq::empty());
        h
    }

    fn body(&self) -> Result<Option<Vec<u8>>> {
        let mut obj = JsonObject::new();
        let e = json_string_bytes(self.number.as_str());
        obj.field("number", e.as_slice());
        assert(obj@ =~= seq![("number"@, json_string(self.number@))]);
        Ok(Some(obj.finish()))
    }
}

/// `POST /phone-numbers/batch`
#[derive(Debug, Clone)]
pub struct BatchLookupPhoneNumbers {
    pub numbers: Vec<String>,
}

impl Operation for BatchLookupPhoneNumbers {
    type Output = BatchLookupResponse;

    const METHOD: Method = Method::Post;

    const RETRY_SAFE: bool = false;

    open spec fn spec_method() -> Method {
        Method::Post
    }

    open spec fn spec_retry_safe() -> bool {
        false
    }

    fn method() -> Method {
        Self::METHOD
    }

    fn retry_safe() -> bool {
        Self::RETRY_SAFE
    }

    open spec fn spec_path(&self) -> Seq<char> {
        "/phone-numbers/batch"@
    }

    open spec fn spec_query(&self) -> Seq<(Seq<char>, Seq<char>)> {
        Seq::empty()
    }

    open spec fn headers_ok(&self, h: Seq<(Seq<char>, Seq<char>)>) -> bool {
        no_headers(h)
    }

    open spec fn spec_body(&self) -> Option<Seq<u8>> {
        Some(json_object(seq![("numbers"@, string_array(self.numbers@))]))
    }

    fn path(&self) -> String {
        "/phone-numbers/batch".to_owned()
    }

    fn query(&self) -> Vec<(&'static str, String)> {
        let q: Vec<(&'static str, String)> = Vec::new();
        assert(pairs_view(q@) =~= Seq::empty());
        q
    }

    fn headers(&self) -> Vec<(&'static str, String)> {
        let h: Vec<(&'static str, String)> = Vec::new();
        assert(pairs_view(h@) =~= Seq::empty());
        h
    }

    fn body(&self) -> Result<Option<Vec<u8>>> {
        let mut obj = JsonObject::new();
        let e = json_string_array(&self.numbers);
        obj.field("numbers", e.as_slice());
        assert(obj@ =~= seq![("numbers"@, string_array(self.numbers@))]);
        Ok(Some(obj.finish()))
    }
}


impl BatchLookupPhoneNumbers {
    /// A batch lookup of the given numbers.
    pub fn new<L: IntoStringList>(numbers: L) -> (r: Self)
        ensures
            strings_view(r.numbers@) == numbers.string_list(),
    {
        BatchLookupPhoneNumbers { numbers: numbers.into_string_vec() }
    }
}

/// Handle for the phone-numbers resource group.
pub struct PhoneNumbers<'c, C> {
    client: &'c C,
}

impl<'c, C> PhoneNumbers<'c, C> {
    /// The handle over `client`.
    pub fn new(client: &'c C) -> (r: Self)
        ensures
            r.spec_client() == client,
    {
        PhoneNumbers { client }
    }

    /// The client the handle sends through.
    pub closed spec fn spec_client(&self) -> &'c C {
        self.client
    }

    /// The client the handle sends through.
    pub fn client(&self) -> (r: &'c C)
        ensures
            r == self.spec_client(),
    {
        self.client
    }

    /// Look up a phone number through the query string.
    pub fn lookup<S: StringArg>(&self, number: S) -> (r: LookupPhoneNumber)
        ensures
            r.number@ == number.arg_view(),
    {
        LookupPhoneNumber { number: number.into_string() }
    }

    /// Look up a phone number through the body.
    pub fn lookup_post<S: StringArg>(&self, number: S) -> (r: LookupPhoneNumberPost)
        ensures
            r.number@ == number.arg_view(),
    {
        LookupPhoneNumberPost { number: number.into_string() }
    }

    /// Look up several phone numbers at once.
    pub fn batch<L: IntoStringList>(&self, numbers: L) -> (r: BatchLookupPhoneNumbers)
        ensures
            strings_view(r.numbers@) == numbers.string_list(),
    {
        BatchLookupPhoneNumbers::new(numbers)
    }
}

} // verus!
