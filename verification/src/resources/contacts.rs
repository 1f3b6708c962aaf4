//! Contacts: list, create, get, update, delete, capabilities, and tags.

use vstd::prelude::*;

#[allow(unused_imports)]
use crate::encode::encoded_char;
#[allow(unused_imports)]
use crate::error::Result;
#[allow(unused_imports)]
use crate::json::{
    json_array, json_object, json_string, json_string_array, json_string_bytes, opt_bool,
    opt_int, opt_member, opt_string, opt_string_array, opt_string_array_bytes, string_array,
    JsonArray, JsonObject,
};
#[allow(unused_imports)]
use crate::operation::{
    encode_path_segment, no_headers, opt_bytes, opt_pair, opt_str_pair, pairs_view, path_segment,
    push_opt, push_opt_str, Method, Operation,
};
#[allow(unused_imports)]
use crate::pagination::{Listing, Page, Pagination};
#[allow(unused_imports)]
use crate::request::{new_uuid_v4, uuid_v4_text, IDEMPOTENCY_KEY_HEADER};
#[allow(unused_imports)]
use crate::text::{concat2, concat3, concat4, concat5, dec, StringArg};
#[allow(unused_imports)]
use crate::types::{PhoneNumberLookupResult, ContactLocation, DeleteResponse, MeResponse, Contact, Group, GroupMember, GroupIconResponse, ChatBackgroundResponse, DeviceSyncResult, Webhook, WebhookEventPayload, WebhookLog, LastMessage, Chat, Reaction, Message, MessageDetail, MessageStatus, TypingResponse, ReadResponse, ReactionResponse, SendMessageResponse, Json, LinkPreview, strings_view, link_preview_json, opt_link_preview_json, opt_link_preview_bytes};

verus! {

/// Response of `GET /contacts`.
#[derive(Debug, Clone)]
pub struct ListContactsResponse {
    pub contacts: Vec<Contact>,
    pub pagination: Option<Pagination>,
}

impl Listing for ListContactsResponse {
    type Item = Contact;

    open spec fn listed(&self) -> Seq<Contact> {
        self.contacts@
    }

    open spec fn listed_pagination(&self) -> Option<Pagination> {
        self.pagination
    }

    fn into_page(self) -> Page<Contact> {
        let pagination = self.pagination;
        Page { items: self.contacts, pagination }
    }
}

/// Capabilities of a contact (iMessage/SMS/FaceTime reachability).
#[derive(Debug, Clone)]
pub struct ContactCapabilities {
    pub contact: Option<String>,
    /// The `type` field.
    pub kind: Option<String>,
    pub capabilities: Option<Capabilities>,
    pub last_checked: Option<i64>,
}

/// The per-protocol capability flags.
#[derive(Debug, Clone, Copy)]
pub struct Capabilities {
    pub imessage: Option<bool>,
    pub sms: Option<bool>,
    pub facetime: Option<bool>,
}

/// A single contact tag with its creation time.
#[derive(Debug, Clone)]
pub struct ContactTag {
    pub tag: Option<String>,
    pub created_at: Option<i64>,
}

/// Response of `GET /contacts/{contactId}/tags`.
#[derive(Debug, Clone)]
pub struct ContactTagsResponse {
    pub tags: Vec<ContactTag>,
}

/// Response of `POST /contacts/{contactId}/tags`.
#[derive(Debug, Clone)]
pub struct AddTagsResponse {
    pub success: Option<bool>,
    pub tags_added: Option<Vec<String>>,
}

/// `GET /contacts`
#[derive(Debug, Clone)]
pub struct ListContacts {
    pub limit: Option<u32>,
    pub offset: Option<u32>,
    pub q: Option<String>,
    pub sort: Option<String>,
}

impl Operation for ListContacts {
    type Output = ListContactsResponse;

    const METHOD: Method = Method::Get;

    const RETRY_SAFE: bool = false;

    open spec fn spec_method() -> Method {
        Method::Get
    }

    open spec fn spec_retry_safe() -> bool {
        false
    }

    fn method() -> Method {
        Self::METHOD
    }

    fn retry_safe() -> bool {
        Self::RETRY_SAFE
    }

    open spec fn spec_path(&self) -> Seq<char> {
        "/contacts"@
    }

    open spec fn spec_query(&self) -> Seq<(Seq<char>, Seq<char>)> {
        opt_pair("limit"@, self.limit) + opt_pair("offset"@, self.offset) + opt_str_pair("q"@, self.q) + opt_str_pair("sort"@, self.sort)
    }

    open spec fn headers_ok(&self, h: Seq<(Seq<char>, Seq<char>)>) -> bool {
        no_headers(h)
    }

    open spec fn spec_body(&self) -> Option<Seq<u8>> {
        None
    }

    fn path(&self) -> String {
        "/contacts".to_owned()
    }

    fn query(&self) -> Vec<(&'static str, String)> {
        let mut q: Vec<(&'static str, String)> = Vec::new();
        assert(pairs_view(q@) =~= Seq::empty());
        push_opt(&mut q, "limit", self.limit);
        push_opt(&mut q, "offset", self.offset);
        push_opt_str(&mut q, "q", &self.q);
        push_opt_str(&mut q, "sort", &self.sort);
        assert(pairs_view(q@) =~= self.spec_query());
        q
    }

    fn headers(&self) -> Vec<(&'static str, String)> {
        let h: Vec<(&'static str, String)> = Vec::new();
        assert(pairs_view(h@) =~= Seq::empty());
        h
    }

    fn body(&self) -> Result<Option<Vec<u8>>> {
        Ok(None)
    }
}

impl Default for ListContacts {
    fn default() -> (r: Self)
        ensures
            r.limit is None,
            r.offset is None,
            r.q is None,
            r.sort is None,
    {
        ListContacts { limit: None, offset: None, q: None, sort: None }
    }
}

impl ListContacts {
    /// The request for one page of a full walk: `limit` items from `offset`,
    /// without filters.
    pub fn page(offset: u32, limit: u32) -> (r: Self)
        ensures
            r.offset == Some(offset),
            r.limit == Some(limit),
            r.q is None,
            r.sort is None,
    {
        ListContacts { limit: Some(limit), offset: Some(offset), q: None, sort: None }
    }
}

/// `POST /contacts`
#[derive(Debug, Clone)]
pub struct CreateContact {
    pub identifier: String,
    pub name: Option<String>,
}

impl Operation for CreateContact {
    type Output = Contact;

    const METHOD: Method = Method::Post;

    const RETRY_SAFE: bool = false;

    open spec fn spec_method() -> Method {
        Method::Post
    }

    open spec fn spec_retry_safe() -> bool {
        false
    }

    fn method() -> Method {
        Self::METHOD
    }

    fn retry_safe() -> bool {
        Self::RETRY_SAFE
    }

    open spec fn spec_path(&self) -> Seq<char> {
        "/contacts"@
    }

    open spec fn spec_query(&self) -> Seq<(Seq<char>, Seq<char>)> {
        Seq::empty()
    }

    open spec fn headers_ok(&self, h: Seq<(Seq<char>, Seq<char>)>) -> bool {
        no_headers(h)
    }

    open spec fn spec_body(&self) -> Option<Seq<u8>> {
        Some(json_object(seq![("identifier"@, json_string(self.identifier@))] + opt_member("name"@, opt_string(self.name))))
    }

    fn path(&self) -> String {
        "/contacts".to_owned()
    }

    fn query(&self) -> Vec<(&'static str, String)> {
        let q: Vec<(&'static str, String)> = Vec::new();
        assert(pairs_view(q@) =~= Seq::empty());
        q
    }

    fn headers(&self) -> Vec<(&'static str, String)> {
        let h: Vec<(&'static str, String)> = Vec::new();
        assert(pairs_view(h@) =~= Seq::empty());
        h
    }

    fn body(&self) -> Result<Option<Vec<u8>>> {
        let mut obj = JsonObject::new();
        let e = json_string_bytes(self.identifier.as_str());
        obj.field("identifier", e.as_slice());
        obj.opt_str("name", &self.name);
        assert(obj@ =~= seq![("identifier"@, json_string(self.identifier@))] + opt_member("name"@, opt_string(self.name)));
        Ok(Some(obj.finish()))
    }
}

/// `GET /contacts/{contactId}`
#[derive(Debug, Clone)]
pub struct GetContact {
    pub contact_id: String,
}

impl Operation for GetContact {
    type Output = Contact;

    const METHOD: Method = Method::Get;

    const RETRY_SAFE: bool = false;

    open spec fn spec_method() -> Method {
        Method::Get
    }

    open spec fn spec_retry_safe() -> bool {
        false
    }

    fn method() -> Method {
        Self::METHOD
    }

    fn retry_safe() -> bool {
        Self::RETRY_SAFE
    }

    open spec fn spec_path(&self) -> Seq<char> {
        "/contacts/"@ + path_segment(self.contact_id@)
    }

    open spec fn spec_query(&self) -> Seq<(Seq<char>, Seq<char>)> {
        Seq::empty()
    }

    open spec fn headers_ok(&self, h: Seq<(Seq<char>, Seq<char>)>) -> bool {
        no_headers(h)
    }

    open spec fn spec_body(&self) -> Option<Seq<u8>> {
        None
    }

    fn path(&self) -> String {
        let seg_contact_id = encode_path_segment(self.contact_id.as_str());
        concat2("/contacts/", seg_contact_id.as_str())
    }

    fn query(&self) -> Vec<(&'static str, String)> {
        let q: Vec<(&'static str, String)> = Vec::new();
        assert(pairs_view(q@) =~= Seq::empty());
        q
    }

    fn headers(&self) -> Vec<(&'static str, String)> {
        let h: Vec<(&'static str, String)> = Vec::new();
        assert(pairs_view(h@) =~= Seq::empty());
        h
    }

    fn body(&self) -> Result<Option<Vec<u8>>> {
        Ok(None)
    }
}

/// `PATCH /contacts/{contactId}`
#[derive(Debug, Clone)]
pub struct UpdateContact {
    pub contact_id: String,
    pub name: Option<String>,
}

impl Operation for UpdateContact {
    type Output = Contact;

    const METHOD: Method = Method::Patch;

    const RETRY_SAFE: bool = false;

    open spec fn spec_method() -> Method {
        Method::Patch
    }

    open spec fn spec_retry_safe() -> bool {
        false
    }

    fn method() -> Method {
        Self::METHOD
    }

    fn retry_safe() -> bool {
        Self::RETRY_SAFE
    }

    open spec fn spec_path(&self) -> Seq<char> {
        "/contacts/"@ + path_segment(self.contact_id@)
    }

    open spec fn spec_query(&self) -> Seq<(Seq<char>, Seq<char>)> {
        Seq::empty()
    }

    open spec fn headers_ok(&self, h: Seq<(Seq<char>, Seq<char>)>) -> bool {
        no_headers(h)
    }

    open spec fn spec_body(&self) -> Option<Seq<u8>> {
        Some(json_object(opt_member("name"@, opt_string(self.name))))
    }

    fn path(&self) -> String {
        let seg_contact_id = encode_path_segment(self.contact_id.as_str());
        concat2("/contacts/", seg_contact_id.as_str())
    }

    fn query(&self) -> Vec<(&'static str, String)> {
        let q: Vec<(&'static str, String)> = Vec::new();
        assert(pairs_view(q@) =~= Seq::empty());
        q
    }

    fn headers(&self) -> Vec<(&'static str, String)> {
        let h: Vec<(&'static str, String)> = Vec::new();
        assert(pairs_view(h@) =~= Seq::empty());
        h
    }

    fn body(&self) -> Result<Option<Vec<u8>>> {
        let mut obj = JsonObject::new();
        obj.opt_str("name", &self.name);
        assert(obj@ =~= opt_member("name"@, opt_string(self.name)));
        Ok(Some(obj.finish()))
    }
}

/// `DELETE /contacts/{contactId}`
#[derive(Debug, Clone)]
pub struct DeleteContact {
    pub contact_id: String,
}

impl Operation for DeleteContact {
    type Output = DeleteResponse;

    const METHOD: Method = Method::Delete;

    const RETRY_SAFE: bool = false;

    open spec fn spec_method() -> Method {
        Method::Delete
    }

    open spec fn spec_retry_safe() -> bool {
        false
    }

    fn method() -> Method {
        Self::METHOD
    }

    fn retry_safe() -> bool {
        Self::RETRY_SAFE
    }

    open spec fn spec_path(&self) -> Seq<char> {
        "/contacts/"@ + path_segment(self.contact_id@)
    }

    open spec fn spec_query(&self) -> Seq<(Seq<char>, Seq<char>)> {
        Seq::empty()
    }

    open spec fn headers_ok(&self, h: Seq<(Seq<char>, Seq<char>)>) -> bool {
        no_headers(h)
    }

    open spec fn spec_body(&self) -> Option<Seq<u8>> {
        None
    }

    fn path(&self) -> String {
        let seg_contact_id = encode_path_segment(self.contact_id.as_str());
        concat2("/contacts/", seg_contact_id.as_str())
    }

    fn query(&self) -> Vec<(&'static str, String)> {
        let q: Vec<(&'static str, String)> = Vec::new();
        assert(pairs_view(q@) =~= Seq::empty());
        q
    }

    fn headers(&self) -> Vec<(&'static str, String)> {
        let h: Vec<(&'static str, String)> = Vec::new();
        assert(pairs_view(h@) =~= Seq::empty());
        h
    }

    fn body(&self) -> Result<Option<Vec<u8>>> {
        Ok(None)
    }
}

/// `GET /contacts/{contactId}/capabilities`
#[derive(Debug, Clone)]
pub struct GetContactCapabilities {
    pub contact_id: String,
}

impl Operation for GetContactCapabilities {
    type Output = ContactCapabilities;

    const METHOD: Method = Method::Get;

    const RETRY_SAFE: bool = false;

    open spec fn spec_method() -> Method {
        Method::Get
    }

    open spec fn spec_retry_safe() -> bool {
        false
    }

    fn method() -> Method {
        Self::METHOD
    }

    fn retry_safe() -> bool {
        Self::RETRY_SAFE
    }

    open spec fn spec_path(&self) -> Seq<char> {
        "/contacts/"@ + path_segment(self.contact_id@) + "/capabilities"@
    }

    open spec fn spec_query(&self) -> Seq<(Seq<char>, Seq<char>)> {
        Seq::empty()
    }

    open spec fn headers_ok(&self, h: Seq<(Seq<char>, Seq<char>)>) -> bool {
        no_headers(h)
    }

    open spec fn spec_body(&self) -> Option<Seq<u8>> {
        None
    }

    fn path(&self) -> String {
        let seg_contact_id = encode_path_segment(self.contact_id.as_str());
        concat3("/contacts/", seg_contact_id.as_str(), "/capabilities")
    }

    fn query(&self) -> Vec<(&'static str, String)> {
        let q: Vec<(&'static str, String)> = Vec::new();
        assert(pairs_view(q@) =~= Seq::empty());
        q
    }

    fn headers(&self) -> Vec<(&'static str, String)> {
        let h: Vec<(&'static str, String)> = Vec::new();
        assert(pairs_view(h@) =~= Seq::empty());
        h
    }

    fn body(&self) -> Result<Option<Vec<u8>>> {
        Ok(None)
    }
}

/// `GET /contacts/{contactId}/tags`
#[derive(Debug, Clone)]
pub struct ListContactTags {
    pub contact_id: String,
}

impl Operation for ListContactTags {
    type Output = ContactTagsResponse;

    const METHOD: Method = Method::Get;

    const RETRY_SAFE: bool = false;

    open spec fn spec_method() -> Method {
        Method::Get
    }

    open spec fn spec_retry_safe() -> bool {
        false
    }

    fn method() -> Method {
        Self::METHOD
    }

    fn retry_safe() -> bool {
        Self::RETRY_SAFE
    }

    open spec fn spec_path(&self) -> Seq<char> {
        "/contacts/"@ + path_segment(self.contact_id@) + "/tags"@
    }

    open spec fn spec_query(&self) -> Seq<(Seq<char>, Seq<char>)> {
        Seq::empty()
    }

    open spec fn headers_ok(&self, h: Seq<(Seq<char>, Seq<char>)>) -> bool {
        no_headers(h)
    }

    open spec fn spec_body(&self) -> Option<Seq<u8>> {
        None
    }

    fn path(&self) -> String {
        let seg_contact_id = encode_path_segment(self.contact_id.as_str());
        concat3("/contacts/", seg_contact_id.as_str(), "/tags")
    }

    fn query(&self) -> Vec<(&'static str, String)> {
        let q: Vec<(&'static str, String)> = Vec::new();
        assert(pairs_view(q@) =~= Seq::empty());
        q
    }

    fn headers(&self) -> Vec<(&'static str, String)> {
        let h: Vec<(&'static str, String)> = Vec::new();
        assert(pairs_view(h@) =~= Seq::empty());
        h
    }

    fn body(&self) -> Result<Option<Vec<u8>>> {
        Ok(None)
    }
}

/// `POST /contacts/{contactId}/tags`
#[derive(Debug, Clone)]
pub struct AddContactTags {
    pub contact_id: String,
    pub tags: Vec<String>,
}

impl Operation for AddContactTags {
    type Output = AddTagsResponse;

    const METHOD: Method = Method::Post;

    const RETRY_SAFE: bool = false;

    open spec fn spec_method() -> Method {
        Method::Post
    }

    open spec fn spec_retry_safe() -> bool {
        false
    }

    fn method() -> Method {
        Self::METHOD
    }

    fn retry_safe() -> bool {
        Self::RETRY_SAFE
    }

    open spec fn spec_path(&self) -> Seq<char> {
        "/contacts/"@ + path_segment(self.contact_id@) + "/tags"@
    }

    open spec fn spec_query(&self) -> Seq<(Seq<char>, Seq<char>)> {
        Seq::empty()
    }

    open spec fn headers_ok(&self, h: Seq<(Seq<char>, Seq<char>)>) -> bool {
        no_headers(h)
    }

    open spec fn spec_body(&self) -> Option<Seq<u8>> {
        Some(json_object(seq![("tags"@, string_array(self.tags@))]))
    }

    fn path(&self) -> String {
        let seg_contact_id = encode_path_segment(self.contact_id.as_str());
        concat3("/contacts/", seg_contact_id.as_str(), "/tags")
    }

    fn query(&self) -> Vec<(&'static str, String)> {
        let q: Vec<(&'static str, String)> = Vec::new();
        assert(pairs_view(q@) =~= Seq::empty());
        q
    }

    fn headers(&self) -> Vec<(&'static str, String)> {
        let h: Vec<(&'static str, String)> = Vec::new();
        assert(pairs_view(h@) =~= Seq::empty());
        h
    }

    fn body(&self) -> Result<Option<Vec<u8>>> {
        let mut obj = JsonObject::new();
        let e = json_string_array(&self.tags);
        obj.field("tags", e.as_slice());
        assert(obj@ =~= seq![("tags"@, string_array(self.tags@))]);
        Ok(Some(obj.finish()))
    }
}

/// `DELETE /contacts/{contactId}/tags/{tag}`
#[derive(Debug, Clone)]
pub struct RemoveContactTag {
    pub contact_id: String,
    pub tag: String,
}

impl Operation for RemoveContactTag {
    type Output = DeleteResponse;

    const METHOD: Method = Method::Delete;

    const RETRY_SAFE: bool = false;

    open spec fn spec_method() -> Method {
        Method::Delete
    }

    open spec fn spec_retry_safe() -> bool {
        false
    }

    fn method() -> Method {
        Self::METHOD
    }

    fn retry_safe() -> bool {
        Self::RETRY_SAFE
    }

    open spec fn spec_path(&self) -> Seq<char> {
        "/contacts/"@ + path_segment(self.contact_id@) + "/tags/"@ + path_segment(self.tag@)
    }

    open spec fn spec_query(&self) -> Seq<(Seq<char>, Seq<char>)> {
        Seq::empty()
    }

    open spec fn headers_ok(&self, h: Seq<(Seq<char>, Seq<char>)>) -> bool {
        no_headers(h)
    }

    open spec fn spec_body(&self) -> Option<Seq<u8>> {
        None
    }

    fn path(&self) -> String {
        let seg_contact_id = encode_path_segment(self.contact_id.as_str());
        let seg_tag = encode_path_segment(self.tag.as_str());
        concat4("/contacts/", seg_contact_id.as_str(), "/tags/", seg_tag.as_str())
    }

    fn query(&self) -> Vec<(&'static str, String)> {
        let q: Vec<(&'static str, String)> = Vec::new();
        assert(pairs_view(q@) =~= Seq::empty());
        q
    }

    fn headers(&self) -> Vec<(&'static str, String)> {
        let h: Vec<(&'static str, String)> = Vec::new();
        assert(pairs_view(h@) =~= Seq::empty());
        h
    }

    fn body(&self) -> Result<Option<Vec<u8>>> {
        Ok(None)
    }
}

/// Handle for the contacts resource group.
pub struct Contacts<'c, C> {
    client: &'c C,
}

impl<'c, C> Contacts<'c, C> {
    /// The handle over `client`.
    pub fn new(client: &'c C) -> (r: Self)
        ensures
            r.spec_client() == client,
    {
        Contacts { client }
    }

    /// The client the handle sends through.
    pub closed spec fn spec_client(&self) -> &'c C {
        self.client
    }

    /// The client the handle sends through.
    pub fn client(&self) -> (r: &'c C)
        ensures
            r == self.spec_client(),
    {
        self.client
    }

    /// List contacts (first page, no filters).
    pub fn list(&self) -> (r: ListContacts)
        ensures
            r.limit is None && r.offset is None && r.q is None && r.sort is None,
    {
        ListContacts::default()
    }

    /// List contacts with explicit filters and pagination.
    pub fn list_with(&self, query: ListContacts) -> (r: ListContacts)
        ensures
            r == query,
    {
        query
    }

    /// One page of the walk over all contacts.
    pub fn list_page(&self, offset: u32, limit: u32) -> (r: ListContacts)
        ensures
            r.offset == Some(offset) && r.limit == Some(limit) && r.q is None && r.sort is None,
    {
        ListContacts::page(offset, limit)
    }

    /// Create a contact.
    pub fn create<S: StringArg>(&self, identifier: S, name: Option<String>) -> (r: CreateContact)
        ensures
            r.identifier@ == identifier.arg_view(),
            r.name == name,
    {
        CreateContact { identifier: identifier.into_string(), name }
    }

    /// Get a contact by id.
    pub fn get<S: StringArg>(&self, contact_id: S) -> (r: GetContact)
        ensures
            r.contact_id@ == contact_id.arg_view(),
    {
        GetContact { contact_id: contact_id.into_string() }
    }

    /// Update a contact's name.
    pub fn update<S: StringArg>(&self, contact_id: S, name: Option<String>) -> (r: UpdateContact)
        ensures
            r.contact_id@ == contact_id.arg_view(),
            r.name == name,
    {
        UpdateContact { contact_id: contact_id.into_string(), name }
    }

    /// Delete a contact.
    pub fn delete<S: StringArg>(&self, contact_id: S) -> (r: DeleteContact)
        ensures
            r.contact_id@ == contact_id.arg_view(),
    {
        DeleteContact { contact_id: contact_id.into_string() }
    }

    /// Get a contact's reachability capabilities.
    pub fn capabilities<S: StringArg>(&self, contact_id: S) -> (r: GetContactCapabilities)
        ensures
            r.contact_id@ == contact_id.arg_view(),
    {
        GetContactCapabilities { contact_id: contact_id.into_string() }
    }

    /// List a contact's tags.
    pub fn tags<S: StringArg>(&self, contact_id: S) -> (r: ListContactTags)
        ensures
            r.contact_id@ == contact_id.arg_view(),
    {
        ListContactTags { contact_id: contact_id.into_string() }
    }

    /// Add tags to a contact.
    pub fn add_tags<S: StringArg>(&self, contact_id: S, tags: Vec<String>) -> (r: AddContactTags)
        ensures
            r.contact_id@ == contact_id.arg_view(),
            r.tags == tags,
    {
        AddContactTags { contact_id: contact_id.into_string(), tags }
    }

    /// Remove a single tag from a contact.
    pub fn remove_tag<S: StringArg, T: StringArg>(&self, contact_id: S, tag: T) -> (r: RemoveContactTag)
        ensures
            r.contact_id@ == contact_id.arg_view(),
            r.tag@ == tag.arg_view(),
    {
        RemoveContactTag { contact_id: contact_id.into_string(), tag: tag.into_string() }
    }
}

/// A contacts list request carries every value it is given: each of `limit`, `offset`, `q`, `sort`
/// that is set appears in the query under its own name with its text, so a
/// later page's `offset` always reaches the server.
pub proof fn law_list_contacts_query(op: ListContacts)
    ensures
        op.limit is Some ==> op.spec_query().contains(("limit"@, dec(op.limit->0 as nat))),
        op.offset is Some ==> op.spec_query().contains(("offset"@, dec(op.offset->0 as nat))),
        op.q is Some ==> op.spec_query().contains(("q"@, op.q->0@)),
        op.sort is Some ==> op.spec_query().contains(("sort"@, op.sort->0@)),
{
    if op.limit is Some {
        assert(op.spec_query()[(0) as int] == ("limit"@, dec(op.limit->0 as nat)));
    }
    if op.offset is Some {
        assert(op.spec_query()[(opt_pair("limit"@, op.limit).len()) as int] == ("offset"@, dec(op.offset->0 as nat)));
    }
    if op.q is Some {
        assert(op.spec_query()[(opt_pair("limit"@, op.limit).len() + opt_pair("offset"@, op.offset).len()) as int] == ("q"@, op.q->0@));
    }
    if op.sort is Some {
        assert(op.spec_query()[(opt_pair("limit"@, op.limit).len() + opt_pair("offset"@, op.offset).len() + opt_str_pair("q"@, op.q).len()) as int] == ("sort"@, op.sort->0@));
    }
}

} // verus!
