//! Groups: list, create, get, update, delete, icon, and members.

use vstd::prelude::*;

#[allow(unused_imports)]
use crate::encode::encoded_char;
#[allow(unused_imports)]
use crate::error::Result;
#[allow(unused_imports)]
use crate::json::{
    json_array, json_object, json_string, json_string_array, json_string_bytes, opt_bool,
    opt_int, opt_member, opt_string, opt_string_array, opt_string_array_bytes, string_array,
    JsonArray, JsonObject,
};
#[allow(unused_imports)]
use crate::operation::{
    encode_path_segment, no_headers, opt_bytes, opt_pair, opt_str_pair, pairs_view, path_segment,
    push_opt, push_opt_str, Method, Operation,
};
#[allow(unused_imports)]
use crate::pagination::{Listing, Page, Pagination};
#[allow(unused_imports)]
use crate::request::{new_uuid_v4, uuid_v4_text, IDEMPOTENCY_KEY_HEADER};
#[allow(unused_imports)]
use crate::text::{concat2, concat3, concat4, concat5, dec, StringArg};
#[allow(unused_imports)]
use crate::types::{PhoneNumberLookupResult, ContactLocation, DeleteResponse, MeResponse, Contact, Group, GroupMember, GroupIconResponse, ChatBackgroundResponse, DeviceSyncResult, Webhook, WebhookEventPayload, WebhookLog, LastMessage, Chat, Reaction, Message, MessageDetail, MessageStatus, TypingResponse, ReadResponse, ReactionResponse, SendMessageResponse, Json, LinkPreview, strings_view, link_preview_json, opt_link_preview_json, opt_link_preview_bytes};

verus! {

/// Response of `GET /groups`.
#[derive(Debug, Clone)]
pub struct ListGroupsResponse {
    pub groups: Vec<Group>,
    pub pagination: Option<Pagination>,
}

impl Listing for ListGroupsResponse {
    type Item = Group;

    open spec fn listed(&self) -> Seq<Group> {
        self.groups@
    }

    open spec fn listed_pagination(&self) -> Option<Pagination> {
        self.pagination
    }

    fn into_page(self) -> Page<Group> {
        let pagination = self.pagination;
        Page { items: self.groups, pagination }
    }
}

/// Response of `GET /groups/{groupId}/members`.
#[derive(Debug, Clone)]
pub struct ListGroupMembersResponse {
    pub group_id: Option<String>,
    pub group_name: Option<String>,
    pub icon_url: Option<String>,
    pub members: Vec<GroupMember>,
    pub pagination: Option<Pagination>,
}

impl Listing for ListGroupMembersResponse {
    type Item = GroupMember;

    open spec fn listed(&self) -> Seq<GroupMember> {
        self.members@
    }

    open spec fn listed_pagination(&self) -> Option<Pagination> {
        self.pagination
    }

    fn into_page(self) -> Page<GroupMember> {
        let pagination = self.pagination;
        Page { items: self.members, pagination }
    }
}

/// Response of `POST /groups/{groupId}/members`.
#[derive(Debug, Clone)]
pub struct AddGroupMemberResponse {
    pub message: Option<String>,
    pub member: Option<GroupMember>,
    pub contact_created: Option<bool>,
}

/// Response of `DELETE /groups/{groupId}/members/{contactId}`.
#[derive(Debug, Clone, Copy)]
pub struct RemoveGroupMemberResponse {
    pub success: Option<bool>,
    pub removed_at: Option<i64>,
}

/// `GET /groups`
#[derive(Debug, Clone)]
pub struct ListGroups {
    pub limit: Option<u32>,
    pub offset: Option<u32>,
    pub q: Option<String>,
    pub sort: Option<String>,
}

impl Operation for ListGroups {
    type Output = ListGroupsResponse;

    const METHOD: Method = Method::Get;

    const RETRY_SAFE: bool = false;

    open spec fn spec_method() -> Method {
        Method::Get
    }

    open spec fn spec_retry_safe() -> bool {
        false
    }

    fn method() -> Method {
        Self::METHOD
    }

    fn retry_safe() -> bool {
        Self::RETRY_SAFE
    }

    open spec fn spec_path(&self) -> Seq<char> {
        "/groups"@
    }

    open spec fn spec_query(&self) -> Seq<(Seq<char>, Seq<char>)> {
        opt_pair("limit"@, self.limit) + opt_pair("offset"@, self.offset) + opt_str_pair("q"@, self.q) + opt_str_pair("sort"@, self.sort)
    }

    open spec fn headers_ok(&self, h: Seq<(Seq<char>, Seq<char>)>) -> bool {
        no_headers(h)
    }

    open spec fn spec_body(&self) -> Option<Seq<u8>> {
        None
    }

    fn path(&self) -> String {
        "/groups".to_owned()
    }

    fn query(&self) -> Vec<(&'static str, String)> {
        let mut q: Vec<(&'static str, String)> = Vec::new();
        assert(pairs_view(q@) =~= Seq::empty());
        push_opt(&mut q, "limit", self.limit);
        push_opt(&mut q, "offset", self.offset);
        push_opt_str(&mut q, "q", &self.q);
        push_opt_str(&mut q, "sort", &self.sort);
        assert(pairs_view(q@) =~= self.spec_query());
        q
    }

    fn headers(&self) -> Vec<(&'static str, String)> {
        let h: Vec<(&'static str, String)> = Vec::new();
        assert(pairs_view(h@) =~= Seq::empty());
        h
    }

    fn body(&self) -> Result<Option<Vec<u8>>> {
        Ok(None)
    }
}

impl Default for ListGroups {
    fn default() -> (r: Self)
        ensures
            r.limit is None,
            r.offset is None,
            r.q is None,
            r.sort is None,
    {
        ListGroups { limit: None, offset: None, q: None, sort: None }
    }
}

impl ListGroups {
    /// The request for one page of a full walk: `limit` items from `offset`,
    /// without filters.
    pub fn page(offset: u32, limit: u32) -> (r: Self)
        ensures
            r.offset == Some(offset),
            r.limit == Some(limit),
            r.q is None,
            r.sort is None,
    {
        ListGroups { limit: Some(limit), offset: Some(offset), q: None, sort: None }
    }
}

/// `POST /groups`
#[derive(Debug, Clone)]
pub struct CreateGroup {
    pub name: String,
    pub chat_guid: Option<String>,
    pub members: Option<Vec<String>>,
}

impl Operation for CreateGroup {
    type Output = Json;

    const METHOD: Method = Method::Post;

    const RETRY_SAFE: bool = false;

    open spec fn spec_method() -> Method {
        Method::Post
    }

    open spec fn spec_retry_safe() -> bool {
        false
    }

    fn method() -> Method {
        Self::METHOD
    }

    fn retry_safe() -> bool {
        Self::RETRY_SAFE
    }

    open spec fn spec_path(&self) -> Seq<char> {
        "/groups"@
    }

    open spec fn spec_query(&self) -> Seq<(Seq<char>, Seq<char>)> {
        Seq::empty()
    }

    open spec fn headers_ok(&self, h: Seq<(Seq<char>, Seq<char>)>) -> bool {
        no_headers(h)
    }

    open spec fn spec_body(&self) -> Option<Seq<u8>> {
        Some(json_object(seq![("name"@, json_string(self.name@))] + opt_member("chat_guid"@, opt_string(self.chat_guid)) + opt_member("members"@, opt_string_array(self.members))))
    }

    fn path(&self) -> String {
        "/groups".to_owned()
    }

    fn query(&self) -> Vec<(&'static str, String)> {
        let q: Vec<(&'static str, String)> = Vec::new();
        assert(pairs_view(q@) =~= Seq::empty());
        q
    }

    fn headers(&self) -> Vec<(&'static str, String)> {
        let h: Vec<(&'static str, String)> = Vec::new();
        assert(pairs_view(h@) =~= Seq::empty());
        h
    }

    fn body(&self) -> Result<Option<Vec<u8>>> {
        let mut obj = JsonObject::new();
        let e = json_string_bytes(self.name.as_str());
        obj.field("name", e.as_slice());
        obj.opt_str("chat_guid", &self.chat_guid);
        let e = opt_string_array_bytes(&self.members);
        obj.opt_raw("members", &e);
        assert(obj@ =~= seq![("name"@, json_string(self.name@))] + opt_member("chat_guid"@, opt_string(self.chat_guid)) + opt_member("members"@, opt_string_array(self.members)));
        Ok(Some(obj.finish()))
    }
}

/// `GET /groups/{groupId}`
#[derive(Debug, Clone)]
pub struct GetGroup {
    pub group_id: String,
}

impl Operation for GetGroup {
    type Output = Group;

    const METHOD: Method = Method::Get;

    const RETRY_SAFE: bool = false;

    open spec fn spec_method() -> Method {
        Method::Get
    }

    open spec fn spec_retry_safe() -> bool {
        false
    }

    fn method() -> Method {
        Self::METHOD
    }

    fn retry_safe() -> bool {
        Self::RETRY_SAFE
    }

    open spec fn spec_path(&self) -> Seq<char> {
        "/groups/"@ + path_segment(self.group_id@)
    }

    open spec fn spec_query(&self) -> Seq<(Seq<char>, Seq<char>)> {
        Seq::empty()
    }

    open spec fn headers_ok(&self, h: Seq<(Seq<char>, Seq<char>)>) -> bool {
        no_headers(h)
    }

    open spec fn spec_body(&self) -> Option<Seq<u8>> {
        None
    }

    fn path(&self) -> String {
        let seg_group_id = encode_path_segment(self.group_id.as_str());
        concat2("/groups/", seg_group_id.as_str())
    }

    fn query(&self) -> Vec<(&'static str, String)> {
        let q: Vec<(&'static str, String)> = Vec::new();
        assert(pairs_view(q@) =~= Seq::empty());
        q
    }

    fn headers(&self) -> Vec<(&'static str, String)> {
        let h: Vec<(&'static str, String)> = Vec::new();
        assert(pairs_view(h@) =~= Seq::empty());
        h
    }

    fn body(&self) -> Result<Option<Vec<u8>>> {
        Ok(None)
    }
}

/// `PATCH /groups/{groupId}`
#[derive(Debug, Clone)]
pub struct UpdateGroup {
    pub group_id: String,
    pub name: Option<String>,
}

impl Operation for UpdateGroup {
    type Output = Json;

    const METHOD: Method = Method::Patch;

    const RETRY_SAFE: bool = false;

    open spec fn spec_method() -> Method {
        Method::Patch
    }

    open spec fn spec_retry_safe() -> bool {
        false
    }

    fn method() -> Method {
        Self::METHOD
    }

    fn retry_safe() -> bool {
        Self::RETRY_SAFE
    }

    open spec fn spec_path(&self) -> Seq<char> {
        "/groups/"@ + path_segment(self.group_id@)
    }

    open spec fn spec_query(&self) -> Seq<(Seq<char>, Seq<char>)> {
        Seq::empty()
    }

    open spec fn headers_ok(&self, h: Seq<(Seq<char>, Seq<char>)>) -> bool {
        no_headers(h)
    }

    open spec fn spec_body(&self) -> Option<Seq<u8>> {
        Some(json_object(opt_member("name"@, opt_string(self.name))))
    }

    fn path(&self) -> String {
        let seg_group_id = encode_path_segment(self.group_id.as_str());
        concat2("/groups/", seg_group_id.as_str())
    }

    fn query(&self) -> Vec<(&'static str, String)> {
        let q: Vec<(&'static str, String)> = Vec::new();
        assert(pairs_view(q@) =~= Seq::empty());
        q
    }

    fn headers(&self) -> Vec<(&'static str, String)> {
        let h: Vec<(&'static str, String)> = Vec::new();
        assert(pairs_view(h@) =~= Seq::empty());
        h
    }

    fn body(&self) -> Result<Option<Vec<u8>>> {
        let mut obj = JsonObject::new();
        obj.opt_str("name", &self.name);
        assert(obj@ =~= opt_member("name"@, opt_string(self.name)));
        Ok(Some(obj.finish()))
    }
}

/// `DELETE /groups/{groupId}`
#[derive(Debug, Clone)]
pub struct DeleteGroup {
    pub group_id: String,
}

impl Operation for DeleteGroup {
    type Output = DeleteResponse;

    const METHOD: Method = Method::Delete;

    const RETRY_SAFE: bool = false;

    open spec fn spec_method() -> Method {
        Method::Delete
    }

    open spec fn spec_retry_safe() -> bool {
        false
    }

    fn method() -> Method {
        Self::METHOD
    }

    fn retry_safe() -> bool {
        Self::RETRY_SAFE
    }

    open spec fn spec_path(&self) -> Seq<char> {
        "/groups/"@ + path_segment(self.group_id@)
    }

    open spec fn spec_query(&self) -> Seq<(Seq<char>, Seq<char>)> {
        Seq::empty()
    }

    open spec fn headers_ok(&self, h: Seq<(Seq<char>, Seq<char>)>) -> bool {
        no_headers(h)
    }

    open spec fn spec_body(&self) -> Option<Seq<u8>> {
        None
    }

    fn path(&self) -> String {
        let seg_group_id = encode_path_segment(self.group_id.as_str());
        concat2("/groups/", seg_group_id.as_str())
    }

    fn query(&self) -> Vec<(&'static str, String)> {
        let q: Vec<(&'static str, String)> = Vec::new();
        assert(pairs_view(q@) =~= Seq::empty());
        q
    }

    fn headers(&self) -> Vec<(&'static str, String)> {
        let h: Vec<(&'static str, String)> = Vec::new();
        assert(pairs_view(h@) =~= Seq::empty());
        h
    }

    fn body(&self) -> Result<Option<Vec<u8>>> {
        Ok(None)
    }
}

/// `POST /groups/{groupId}/icon`
#[derive(Debug, Clone)]
pub struct SetGroupIcon {
    pub group_id: String,
    pub icon: String,
}

impl Operation for SetGroupIcon {
    type Output = GroupIconResponse;

    const METHOD: Method = Method::Post;

    const RETRY_SAFE: bool = false;

    open spec fn spec_method() -> Method {
        Method::Post
    }

    open spec fn spec_retry_safe() -> bool {
        false
    }

    fn method() -> Method {
        Self::METHOD
    }

    fn retry_safe() -> bool {
        Self::RETRY_SAFE
    }

    open spec fn spec_path(&self) -> Seq<char> {
        "/groups/"@ + path_segment(self.group_id@) + "/icon"@
    }

    open spec fn spec_query(&self) -> Seq<(Seq<char>, Seq<char>)> {
        Seq::empty()
    }

    open spec fn headers_ok(&self, h: Seq<(Seq<char>, Seq<char>)>) -> bool {
        no_headers(h)
    }

    open spec fn spec_body(&self) -> Option<Seq<u8>> {
        Some(json_object(seq![("icon"@, json_string(self.icon@))]))
    }

    fn path(&self) -> String {
        let seg_group_id = encode_path_segment(self.group_id.as_str());
        concat3("/groups/", seg_group_id.as_str(), "/icon")
    }

    fn query(&self) -> Vec<(&'static str, String)> {
        let q: Vec<(&'static str, String)> = Vec::new();
        assert(pairs_view(q@) =~= Seq::empty());
        q
    }

    fn headers(&self) -> Vec<(&'static str, String)> {
        let h: Vec<(&'static str, String)> = Vec::new();
        assert(pairs_view(h@) =~= Seq::empty());
        h
    }

    fn body(&self) -> Result<Option<Vec<u8>>> {
        let mut obj = JsonObject::new();
        let e = json_string_bytes(self.icon.as_str());
        obj.field("icon", e.as_slice());
        assert(obj@ =~= seq![("icon"@, json_string(self.icon@))]);
        Ok(Some(obj.finish()))
    }
}

/// `DELETE /groups/{groupId}/icon`
#[derive(Debug, Clone)]
pub struct RemoveGroupIcon {
    pub group_id: String,
}

impl Operation for RemoveGroupIcon {
    type Output = GroupIconResponse;

    const METHOD: Method = Method::Delete;

    const RETRY_SAFE: bool = false;

    open spec fn spec_method() -> Method {
        Method::Delete
    }

    open spec fn spec_retry_safe() -> bool {
        false
    }

    fn method() -> Method {
        Self::METHOD
    }

    fn retry_safe() -> bool {
        Self::RETRY_SAFE
    }

    open spec fn spec_path(&self) -> Seq<char> {
        "/groups/"@ + path_segment(self.group_id@) + "/icon"@
    }

    open spec fn spec_query(&self) -> Seq<(Seq<char>, Seq<char>)> {
        Seq::empty()
    }

    open spec fn headers_ok(&self, h: Seq<(Seq<char>, Seq<char>)>) -> bool {
        no_headers(h)
    }

    open spec fn spec_body(&self) -> Option<Seq<u8>> {
        None
    }

    fn path(&self) -> String {
        let seg_group_id = encode_path_segment(self.group_id.as_str());
        concat3("/groups/", seg_group_id.as_str(), "/icon")
    }

    fn query(&self) -> Vec<(&'static str, String)> {
        let q: Vec<(&'static str, String)> = Vec::new();
        assert(pairs_view(q@) =~= Seq::empty());
        q
    }

    fn headers(&self) -> Vec<(&'static str, String)> {
        let h: Vec<(&'static str, String)> = Vec::new();
        assert(pairs_view(h@) =~= Seq::empty());
        h
    }

    fn body(&self) -> Result<Option<Vec<u8>>> {
        Ok(None)
    }
}

/// `GET /groups/{groupId}/members`
#[derive(Debug, Clone)]
pub struct ListGroupMembers {
    pub group_id: String,
    pub limit: Option<u32>,
    pub offset: Option<u32>,
}

impl Operation for ListGroupMembers {
    type Output = ListGroupMembersResponse;

    const METHOD: Method = Method::Get;

    const RETRY_SAFE: bool = false;

    open spec fn spec_method() -> Method {
        Method::Get
    }

    open spec fn spec_retry_safe() -> bool {
        false
    }

    fn method() -> Method {
        Self::METHOD
    }

    fn retry_safe() -> bool {
        Self::RETRY_SAFE
    }

    open spec fn spec_path(&self) -> Seq<char> {
        "/groups/"@ + path_segment(self.group_id@) + "/members"@
    }

    open spec fn spec_query(&self) -> Seq<(Seq<char>, Seq<char>)> {
        opt_pair("limit"@, self.limit) + opt_pair("offset"@, self.offset)
    }

    open spec fn headers_ok(&self, h: Seq<(Seq<char>, Seq<char>)>) -> bool {
        no_headers(h)
    }

    open spec fn spec_body(&self) -> Option<Seq<u8>> {
        None
    }

    fn path(&self) -> String {
        let seg_group_id = encode_path_segment(self.group_id.as_str());
        concat3("/groups/", seg_group_id.as_str(), "/members")
    }

    fn query(&self) -> Vec<(&'static str, String)> {
        let mut q: Vec<(&'static str, String)> = Vec::new();
        assert(pairs_view(q@) =~= Seq::empty());
        push_opt(&mut q, "limit", self.limit);
        push_opt(&mut q, "offset", self.offset);
        assert(pairs_view(q@) =~= self.spec_query());
        q
    }

    fn headers(&self) -> Vec<(&'static str, String)> {
        let h: Vec<(&'static str, String)> = Vec::new();
        assert(pairs_view(h@) =~= Seq::empty());
        h
    }

    fn body(&self) -> Result<Option<Vec<u8>>> {
        Ok(None)
    }
}

/// `POST /groups/{groupId}/members`
#[derive(Debug, Clone)]
pub struct AddGroupMember {
    pub group_id: String,
    pub contact_id: String,
}

impl Operation for AddGroupMember {
    type Output = AddGroupMemberResponse;

    const METHOD: Method = Method::Post;

    const RETRY_SAFE: bool = false;

    open spec fn spec_method() -> Method {
        Method::Post
    }

    open spec fn spec_retry_safe() -> bool {
        false
    }

    fn method() -> Method {
        Self::METHOD
    }

    fn retry_safe() -> bool {
        Self::RETRY_SAFE
    }

    open spec fn spec_path(&self) -> Seq<char> {
        "/groups/"@ + path_segment(self.group_id@) + "/members"@
    }

    open spec fn spec_query(&self) -> Seq<(Seq<char>, Seq<char>)> {
        Seq::empty()
    }

    open spec fn headers_ok(&self, h: Seq<(Seq<char>, Seq<char>)>) -> bool {
        no_headers(h)
    }

    open spec fn spec_body(&self) -> Option<Seq<u8>> {
        Some(json_object(seq![("contact_id"@, json_string(self.contact_id@))]))
    }

    fn path(&self) -> String {
        let seg_group_id = encode_path_segment(self.group_id.as_str());
        concat3("/groups/", seg_group_id.as_str(), "/members")
    }

    fn query(&self) -> Vec<(&'static str, String)> {
        let q: Vec<(&'static str, String)> = Vec::new();
        assert(pairs_view(q@) =~= Seq::empty());
        q
    }

    fn headers(&self) -> Vec<(&'static str, String)> {
        let h: Vec<(&'static str, String)> = Vec::new();
        assert(pairs_view(h@) =~= Seq::empty());
        h
    }

    fn body(&self) -> Result<Option<Vec<u8>>> {
        let mut obj = JsonObject::new();
        let e = json_string_bytes(self.contact_id.as_str());
        obj.field("contact_id", e.as_slice());
        assert(obj@ =~= seq![("contact_id"@, json_string(self.contact_id@))]);
        Ok(Some(obj.finish()))
    }
}

/// `DELETE /groups/{groupId}/members/{contactId}`
#[derive(Debug, Clone)]
pub struct RemoveGroupMember {
    pub group_id: String,
    pub contact_id: String,
}

impl Operation for RemoveGroupMember {
    type Output = RemoveGroupMemberResponse;

    const METHOD: Method = Method::Delete;

    const RETRY_SAFE: bool = false;

    open spec fn spec_method() -> Method {
        Method::Delete
    }

    open spec fn spec_retry_safe() -> bool {
        false
    }

    fn method() -> Method {
        Self::METHOD
    }

    fn retry_safe() -> bool {
        Self::RETRY_SAFE
    }

    open spec fn spec_path(&self) -> Seq<char> {
        "/groups/"@ + path_segment(self.group_id@) + "/members/"@ + path_segment(self.contact_id@)
    }

    open spec fn spec_query(&self) -> Seq<(Seq<char>, Seq<char>)> {
        Seq::empty()
    }

    open spec fn headers_ok(&self, h: Seq<(Seq<char>, Seq<char>)>) -> bool {
        no_headers(h)
    }

    open spec fn spec_body(&self) -> Option<Seq<u8>> {
        None
    }

    fn path(&self) -> String {
        let seg_group_id = encode_path_segment(self.group_id.as_str());
        let seg_contact_id = encode_path_segment(self.contact_id.as_str());
        concat4("/groups/", seg_group_id.as_str(), "/members/", seg_contact_id.as_str())
    }

    fn query(&self) -> Vec<(&'static str, String)> {
        let q: Vec<(&'static str, String)> = Vec::new();
        assert(pairs_view(q@) =~= Seq::empty());
        q
    }

    fn headers(&self) -> Vec<(&'static str, String)> {
        let h: Vec<(&'static str, String)> = Vec::new();
        assert(pairs_view(h@) =~= Seq::empty());
        h
    }

    fn body(&self) -> Result<Option<Vec<u8>>> {
        Ok(None)
    }
}


impl CreateGroup {
    /// A new group with only the required `name`.
    pub fn new<S: StringArg>(name: S) -> (r: Self)
        ensures
            r.name@ == name.arg_view(),
            r.chat_guid is None && r.members is None,
    {
        CreateGroup { name: name.into_string(), chat_guid: None, members: None }
    }

    /// Set the originating chat GUID.
    pub fn chat_guid<S: StringArg>(self, v: S) -> (r: Self)
        ensures
            r.chat_guid matches Some(x) && x@ == v.arg_view(),
            r == (CreateGroup { chat_guid: r.chat_guid, ..self }),
    {
        CreateGroup { chat_guid: Some(v.into_string()), ..self }
    }

    /// Set the initial member list.
    pub fn members(self, v: Vec<String>) -> (r: Self)
        ensures
            r == (CreateGroup { members: Some(v), ..self }),
    {
        CreateGroup { members: Some(v), ..self }
    }
}

/// Handle for the groups resource group.
pub struct Groups<'c, C> {
    client: &'c C,
}

impl<'c, C> Groups<'c, C> {
    /// The handle over `client`.
    pub fn new(client: &'c C) -> (r: Self)
        ensures
            r.spec_client() == client,
    {
        Groups { client }
    }

    /// The client the handle sends through.
    pub closed spec fn spec_client(&self) -> &'c C {
        self.client
    }

    /// The client the handle sends through.
    pub fn client(&self) -> (r: &'c C)
        ensures
            r == self.spec_client(),
    {
        self.client
    }

    /// List groups (first page, no filters).
    pub fn list(&self) -> (r: ListGroups)
        ensures
            r.limit is None && r.offset is None && r.q is None && r.sort is None,
    {
        ListGroups::default()
    }

    /// List groups with explicit filters and pagination.
    pub fn list_with(&self, query: ListGroups) -> (r: ListGroups)
        ensures
            r == query,
    {
        query
    }

    /// One page of the walk over all groups.
    pub fn list_page(&self, offset: u32, limit: u32) -> (r: ListGroups)
        ensures
            r.offset == Some(offset) && r.limit == Some(limit) && r.q is None && r.sort is None,
    {
        ListGroups::page(offset, limit)
    }

    /// Create a group (build the request with [`CreateGroup::new`]).
    pub fn create(&self, op: CreateGroup) -> (r: CreateGroup)
        ensures
            r == op,
    {
        op
    }

    /// Get a group by id.
    pub fn get<S: StringArg>(&self, group_id: S) -> (r: GetGroup)
        ensures
            r.group_id@ == group_id.arg_view(),
    {
        GetGroup { group_id: group_id.into_string() }
    }

    /// Update a group's name.
    pub fn update<S: StringArg>(&self, group_id: S, name: Option<String>) -> (r: UpdateGroup)
        ensures
            r.group_id@ == group_id.arg_view(),
            r.name == name,
    {
        UpdateGroup { group_id: group_id.into_string(), name }
    }

    /// Delete a group.
    pub fn delete<S: StringArg>(&self, group_id: S) -> (r: DeleteGroup)
        ensures
            r.group_id@ == group_id.arg_view(),
    {
        DeleteGroup { group_id: group_id.into_string() }
    }

    /// Set the group icon.
    pub fn set_icon<S: StringArg, I: StringArg>(&self, group_id: S, icon: I) -> (r: SetGroupIcon)
        ensures
            r.group_id@ == group_id.arg_view(),
            r.icon@ == icon.arg_view(),
    {
        SetGroupIcon { group_id: group_id.into_string(), icon: icon.into_string() }
    }

    /// Remove the group icon.
    pub fn remove_icon<S: StringArg>(&self, group_id: S) -> (r: RemoveGroupIcon)
        ensures
            r.group_id@ == group_id.arg_view(),
    {
        RemoveGroupIcon { group_id: group_id.into_string() }
    }

    /// The members sub-resource of a group.
    pub fn members<S: StringArg>(&self, group_id: S) -> (r: GroupMembers<'c, C>)
        ensures
            r.spec_client() == self.spec_client(),
            r.spec_group_id() == group_id.arg_view(),
    {
        GroupMembers::new(self.client, group_id)
    }
}

/// Handle for the members of one group.
pub struct GroupMembers<'c, C> {
    client: &'c C,
    group_id: String,
}

impl<'c, C> GroupMembers<'c, C> {
    /// The handle for `group_id` over `client`.
    pub fn new<S: StringArg>(client: &'c C, group_id: S) -> (r: Self)
        ensures
            r.spec_client() == client,
            r.spec_group_id() == group_id.arg_view(),
    {
        GroupMembers { client, group_id: group_id.into_string() }
    }

    /// The group the handle is scoped to.
    pub closed spec fn spec_group_id(&self) -> Seq<char> {
        self.group_id@
    }

    /// The group the handle is scoped to.
    pub fn group_id(&self) -> (r: &str)
        ensures
            r@ == self.spec_group_id(),
    {
        self.group_id.as_str()
    }

    /// The client the handle sends through.
    pub closed spec fn spec_client(&self) -> &'c C {
        self.client
    }

    /// The client the handle sends through.
    pub fn client(&self) -> (r: &'c C)
        ensures
            r == self.spec_client(),
    {
        self.client
    }

    /// List the members of this group (first page).
    pub fn list(&self) -> (r: ListGroupMembers)
        ensures
            r.group_id@ == self.spec_group_id(),
            r.limit is None && r.offset is None,
    {
        ListGroupMembers { group_id: self.group_id.clone(), limit: None, offset: None }
    }

    /// One page of the walk over all members of this group.
    pub fn list_page(&self, offset: u32, limit: u32) -> (r: ListGroupMembers)
        ensures
            r.group_id@ == self.spec_group_id(),
            r.offset == Some(offset) && r.limit == Some(limit),
    {
        ListGroupMembers { group_id: self.group_id.clone(), offset: Some(offset), limit: Some(limit) }
    }

    /// Add a member to this group.
    pub fn add<S: StringArg>(&self, contact_id: S) -> (r: AddGroupMember)
        ensures
            r.group_id@ == self.spec_group_id(),
            r.contact_id@ == contact_id.arg_view(),
    {
        AddGroupMember { group_id: self.group_id.clone(), contact_id: contact_id.into_string() }
    }

    /// Remove a member from this group.
    pub fn remove<S: StringArg>(&self, contact_id: S) -> (r: RemoveGroupMember)
        ensures
            r.group_id@ == self.spec_group_id(),
            r.contact_id@ == contact_id.arg_view(),
    {
        RemoveGroupMember { group_id: self.group_id.clone(), contact_id: contact_id.into_string() }
    }
}

/// A groups list request carries every value it is given: each of `limit`, `offset`, `q`, `sort`
/// that is set appears in the query under its own name with its text, so a
/// later page's `offset` always reaches the server.
pub proof fn law_list_groups_query(op: ListGroups)
    ensures
        op.limit is Some ==> op.spec_query().contains(("limit"@, dec(op.limit->0 as nat))),
        op.offset is Some ==> op.spec_query().contains(("offset"@, dec(op.offset->0 as nat))),
        op.q is Some ==> op.spec_query().contains(("q"@, op.q->0@)),
        op.sort is Some ==> op.spec_query().contains(("sort"@, op.sort->0@)),
{
    if op.limit is Some {
        assert(op.spec_query()[(0) as int] == ("limit"@, dec(op.limit->0 as nat)));
    }
    if op.offset is Some {
        assert(op.spec_query()[(opt_pair("limit"@, op.limit).len()) as int] == ("offset"@, dec(op.offset->0 as nat)));
    }
    if op.q is Some {
        assert(op.spec_query()[(opt_pair("limit"@, op.limit).len() + opt_pair("offset"@, op.offset).len()) as int] == ("q"@, op.q->0@));
    }
    if op.sort is Some {
        assert(op.spec_query()[(opt_pair("limit"@, op.limit).len() + opt_pair("offset"@, op.offset).len() + opt_str_pair("q"@, op.q).len()) as int] == ("sort"@, op.sort->0@));
    }
}

/// A group members list request carries every value it is given: each of `limit`, `offset`
/// that is set appears in the query under its own name with its text, so a
/// later page's `offset` always reaches the server.
pub proof fn law_list_group_members_query(op: ListGroupMembers)
    ensures
        op.limit is Some ==> op.spec_query().contains(("limit"@, dec(op.limit->0 as nat))),
        op.offset is Some ==> op.spec_query().contains(("offset"@, dec(op.offset->0 as nat))),
{
    if op.limit is Some {
        assert(op.spec_query()[(0) as int] == ("limit"@, dec(op.limit->0 as nat)));
    }
    if op.offset is Some {
        assert(op.spec_query()[(opt_pair("limit"@, op.limit).len()) as int] == ("offset"@, dec(op.offset->0 as nat)));
    }
}

} // verus!
