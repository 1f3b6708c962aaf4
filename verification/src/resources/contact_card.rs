//! Contact card: get and update the user's contact card for a phone number.

use vstd::prelude::*;

#[allow(unused_imports)]
use crate::encode::encoded_char;
#[allow(unused_imports)]
use crate::error::Result;
#[allow(unused_imports)]
use crate::json::{
    json_array, json_object, json_string, json_string_array, json_string_bytes, opt_bool,
    opt_int, opt_member, opt_string, opt_string_array, opt_string_array_bytes, string_array,
    JsonArray, JsonObject,
};
#[allow(unused_imports)]
use crate::operation::{
    encode_path_segment, no_headers, opt_bytes, opt_pair, opt_str_pair, pairs_view, path_segment,
    push_opt, push_opt_str, Method, Operation,
};
#[allow(unused_imports)]
use crate::pagination::{Listing, Page, Pagination};
#[allow(unused_imports)]
use crate::request::{new_uuid_v4, uuid_v4_text, IDEMPOTENCY_KEY_HEADER};
#[allow(unused_imports)]
use crate::text::{concat2, concat3, concat4, concat5, StringArg};
#[allow(unused_imports)]
use crate::types::{PhoneNumberLookupResult, ContactLocation, DeleteResponse, MeResponse, Contact, Group, GroupMember, GroupIconResponse, ChatBackgroundResponse, DeviceSyncResult, Webhook, WebhookEventPayload, WebhookLog, LastMessage, Chat, Reaction, Message, MessageDetail, MessageStatus, TypingResponse, ReadResponse, ReactionResponse, SendMessageResponse, Json, LinkPreview, strings_view, link_preview_json, opt_link_preview_json, opt_link_preview_bytes};

verus! {

/// Sharing settings for a contact card.
#[derive(Debug, Clone, Copy)]
pub struct ContactCardSharing {
    pub enabled: Option<bool>,
    pub audience: Option<i64>,
    pub name_format: Option<i64>,
}

impl Default for ContactCardSharing {
    fn default() -> (r: Self)
        ensures
            r.enabled is None,
            r.audience is None,
            r.name_format is None,
    {
        ContactCardSharing { enabled: None, audience: None, name_format: None }
    }
}

/// The members of the sharing settings' JSON object: the set fields.
pub open spec fn sharing_members(s: ContactCardSharing) -> Seq<(Seq<char>, Seq<u8>)> {
    opt_member("enabled"@, opt_bool(s.enabled)) + opt_member("audience"@, opt_int(s.audience))
        + opt_member("name_format"@, opt_int(s.name_format))
}

/// The JSON form of optional sharing settings.
pub open spec fn opt_sharing_json(s: Option<ContactCardSharing>) -> Option<Seq<u8>> {
    match s {
        Some(v) => Some(json_object(sharing_members(v))),
        None => None,
    }
}

/// The JSON encoding of optional sharing settings.
pub fn opt_sharing_bytes(s: &Option<ContactCardSharing>) -> (r: Option<Vec<u8>>)
    ensures
        opt_bytes(r) == opt_sharing_json(*s),
{
    match s {
        Some(v) => {
            let mut obj = JsonObject::new();
            obj.opt_bool("enabled", v.enabled);
            obj.opt_int("audience", v.audience);
            obj.opt_int("name_format", v.name_format);
            assert(obj@ =~= sharing_members(*v));
            Some(obj.finish())
        },
        None => None,
    }
}

/// Response of `GET /me/numbers/{number}/contact-card`.
#[derive(Debug, Clone)]
pub struct MyContactCard {
    pub phone_number: Option<String>,
    pub first_name: Option<String>,
    pub last_name: Option<String>,
    pub name: Option<String>,
    pub avatar: Option<String>,
    pub has_wallpaper: Option<bool>,
    pub sharing: Option<ContactCardSharing>,
}

/// Response of `PUT /me/numbers/{number}/contact-card`.
#[derive(Debug, Clone)]
pub struct UpdateContactCardResponse {
    pub success: Option<bool>,
    pub phone_number: Option<String>,
    pub first_name: Option<String>,
    pub last_name: Option<String>,
}

/// `GET /me/numbers/{number}/contact-card`
#[derive(Debug, Clone)]
pub struct GetMyContactCard {
    pub number: String,
}

impl Operation for GetMyContactCard {
    type Output = MyContactCard;

    const METHOD: Method = Method::Get;

    const RETRY_SAFE: bool = false;

    open spec fn spec_method() -> Method {
        Method::Get
    }

    open spec fn spec_retry_safe() -> bool {
        false
    }

    fn method() -> Method {
        Self::METHOD
    }

    fn retry_safe() -> bool {
        Self::RETRY_SAFE
    }

    open spec fn spec_path(&self) -> Seq<char> {
        "/me/numbers/"@ + path_segment(self.number@) + "/contact-card"@
    }

    open spec fn spec_query(&self) -> Seq<(Seq<char>, Seq<char>)> {
        Seq::empty()
    }

    open spec fn headers_ok(&self, h: Seq<(Seq<char>, Seq<char>)>) -> bool {
        no_headers(h)
    }

    open spec fn spec_body(&self) -> Option<Seq<u8>> {
        None
    }

    fn path(&self) -> String {
        let seg_number = encode_path_segment(self.number.as_str());
        concat3("/me/numbers/", seg_number.as_str(), "/contact-card")
    }

    fn query(&self) -> Vec<(&'static str, String)> {
        let q: Vec<(&'static str, String)> = Vec::new();
        assert(pairs_view(q@) =~= Seq::empty());
        q
    }

    fn headers(&self) -> Vec<(&'static str, String)> {
        let h: Vec<(&'static str, String)> = Vec::new();
        assert(pairs_view(h@) =~= Seq::empty());
        h
    }

    fn body(&self) -> Result<Option<Vec<u8>>> {
        Ok(None)
    }
}

/// `PUT /me/numbers/{number}/contact-card`
#[derive(Debug, Clone)]
pub struct UpdateMyContactCard {
    pub number: String,
    pub first_name: Option<String>,
    pub last_name: Option<String>,
    pub avatar: Option<String>,
    pub sharing: Option<ContactCardSharing>,
}

impl Operation for UpdateMyContactCard {
    type Output = UpdateContactCardResponse;

    const METHOD: Method = Method::Put;

    const RETRY_SAFE: bool = false;

    open spec fn spec_method() -> Method {
        Method::Put
    }

    open spec fn spec_retry_safe() -> bool {
        false
    }

    fn method() -> Method {
        Self::METHOD
    }

    fn retry_safe() -> bool {
        Self::RETRY_SAFE
    }

    open spec fn spec_path(&self) -> Seq<char> {
        "/me/numbers/"@ + path_segment(self.number@) + "/contact-card"@
    }

    open spec fn spec_query(&self) -> Seq<(Seq<char>, Seq<char>)> {
        Seq::empty()
    }

    open spec fn headers_ok(&self, h: Seq<(Seq<char>, Seq<char>)>) -> bool {
        no_headers(h)
    }

    open spec fn spec_body(&self) -> Option<Seq<u8>> {
        Some(json_object(opt_member("first_name"@, opt_string(self.first_name)) + opt_member("last_name"@, opt_string(self.last_name)) + opt_member("avatar"@, opt_string(self.avatar)) + opt_member("sharing"@, opt_sharing_json(self.sharing))))
    }

    fn path(&self) -> String {
        let seg_number = encode_path_segment(self.number.as_str());
        concat3("/me/numbers/", seg_number.as_str(), "/contact-card")
    }

    fn query(&self) -> Vec<(&'static str, String)> {
        let q: Vec<(&'static str, String)> = Vec::new();
        assert(pairs_view(q@) =~= Seq::empty());
        q
    }

    fn headers(&self) -> Vec<(&'static str, String)> {
        let h: Vec<(&'static str, String)> = Vec::new();
        assert(pairs_view(h@) =~= Seq::empty());
        h
    }

    fn body(&self) -> Result<Option<Vec<u8>>> {
        let mut obj = JsonObject::new();
        obj.opt_str("first_name", &self.first_name);
        obj.opt_str("last_name", &self.last_name);
        obj.opt_str("avatar", &self.avatar);
        let e = opt_sharing_bytes(&self.sharing);
        obj.opt_raw("sharing", &e);
        assert(obj@ =~= opt_member("first_name"@, opt_string(self.first_name)) + opt_member("last_name"@, opt_string(self.last_name)) + opt_member("avatar"@, opt_string(self.avatar)) + opt_member("sharing"@, opt_sharing_json(self.sharing)));
        Ok(Some(obj.finish()))
    }
}


impl UpdateMyContactCard {
    /// An update for the card of `number` that changes nothing yet.
    pub fn new<S: StringArg>(number: S) -> (r: Self)
        ensures
            r.number@ == number.arg_view(),
            r.first_name is None && r.last_name is None && r.avatar is None && r.sharing is None,
    {
        UpdateMyContactCard {
            number: number.into_string(),
            first_name: None,
            last_name: None,
            avatar: None,
            sharing: None,
        }
    }

    /// Set the first name.
    pub fn first_name<S: StringArg>(self, v: S) -> (r: Self)
        ensures
            r.first_name matches Some(x) && x@ == v.arg_view(),
            r == (UpdateMyContactCard { first_name: r.first_name, ..self }),
    {
        UpdateMyContactCard { first_name: Some(v.into_string()), ..self }
    }

    /// Set the last name.
    pub fn last_name<S: StringArg>(self, v: S) -> (r: Self)
        ensures
            r.last_name matches Some(x) && x@ == v.arg_view(),
            r == (UpdateMyContactCard { last_name: r.last_name, ..self }),
    {
        UpdateMyContactCard { last_name: Some(v.into_string()), ..self }
    }

    /// Set the avatar URL or data.
    pub fn avatar<S: StringArg>(self, v: S) -> (r: Self)
        ensures
            r.avatar matches Some(x) && x@ == v.arg_view(),
            r == (UpdateMyContactCard { avatar: r.avatar, ..self }),
    {
        UpdateMyContactCard { avatar: Some(v.into_string()), ..self }
    }

    /// Set the sharing settings.
    pub fn sharing(self, v: ContactCardSharing) -> (r: Self)
        ensures
            r == (UpdateMyContactCard { sharing: Some(v), ..self }),
    {
        UpdateMyContactCard { sharing: Some(v), ..self }
    }
}

/// Handle for the contact-card resource group.
pub struct ContactCard<'c, C> {
    client: &'c C,
}

impl<'c, C> ContactCard<'c, C> {
    /// The handle over `client`.
    pub fn new(client: &'c C) -> (r: Self)
        ensures
            r.spec_client() == client,
    {
        ContactCard { client }
    }

    /// The client the handle sends through.
    pub closed spec fn spec_client(&self) -> &'c C {
        self.client
    }

    /// The client the handle sends through.
    pub fn client(&self) -> (r: &'c C)
        ensures
            r == self.spec_client(),
    {
        self.client
    }

    /// Get the contact card for a phone number.
    pub fn get<S: StringArg>(&self, number: S) -> (r: GetMyContactCard)
        ensures
            r.number@ == number.arg_view(),
    {
        GetMyContactCard { number: number.into_string() }
    }

    /// Update the contact card for a phone number.
    pub fn update(&self, op: UpdateMyContactCard) -> (r: UpdateMyContactCard)
        ensures
            r == op,
    {
        op
    }
}

} // verus!
