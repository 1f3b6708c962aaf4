//! Chats and everything scoped to a chat: messages (among them the
//! `sendMessage` endpoint), reactions, typing indicators, read receipts,
//! polls, the chat background, and contact-card sharing.

use vstd::prelude::*;

#[allow(unused_imports)]
use crate::encode::encoded_char;
#[allow(unused_imports)]
use crate::error::Result;
#[allow(unused_imports)]
use crate::json::{
    json_array, json_object, json_string, json_string_array, json_string_bytes, opt_bool,
    opt_int, opt_member, opt_string, opt_string_array, opt_string_array_bytes, string_array,
    JsonArray, JsonObject,
};
#[allow(unused_imports)]
use crate::operation::{
    encode_path_segment, no_headers, opt_bytes, opt_pair, opt_str_pair, pairs_view, path_segment,
    push_opt, push_opt_str, Method, Operation,
};
#[allow(unused_imports)]
use crate::pagination::{Listing, Page, Pagination};
#[allow(unused_imports)]
use crate::request::{new_uuid_v4, uuid_v4_text, IDEMPOTENCY_KEY_HEADER};
#[allow(unused_imports)]
use crate::text::{concat2, concat3, concat4, concat5, dec, dec_int, StringArg};
#[allow(unused_imports)]
use crate::types::{PhoneNumberLookupResult, ContactLocation, DeleteResponse, MeResponse, Contact, Group, GroupMember, GroupIconResponse, ChatBackgroundResponse, DeviceSyncResult, Webhook, WebhookEventPayload, WebhookLog, LastMessage, Chat, Reaction, Message, MessageDetail, MessageStatus, TypingResponse, ReadResponse, ReactionResponse, SendMessageResponse, Json, LinkPreview, strings_view, link_preview_json, opt_link_preview_json, opt_link_preview_bytes};

verus! {

/// Message text: a single string, or a list where each element becomes its
/// own message.
#[derive(Debug, Clone)]
pub enum Text {
    /// A single message.
    One(String),
    /// One message per element.
    Many(Vec<String>),
}

/// The plain content of a [`Text`].
pub enum TextView {
    One(Seq<char>),
    Many(Seq<Seq<char>>),
}

/// The plain content of a text.
pub open spec fn text_view(t: Text) -> TextView {
    match t {
        Text::One(s) => TextView::One(s@),
        Text::Many(v) => TextView::Many(strings_view(v@)),
    }
}

/// The JSON form of a text: a string, or an array of strings.
pub open spec fn text_json(t: Text) -> Seq<u8> {
    match t {
        Text::One(s) => json_string(s@),
        Text::Many(v) => string_array(v@),
    }
}

/// The JSON form of an optional text.
pub open spec fn opt_text_json(t: Option<Text>) -> Option<Seq<u8>> {
    match t {
        Some(x) => Some(text_json(x)),
        None => None,
    }
}

impl Text {
    /// The JSON encoding: a string for one message, an array for several.
    pub fn to_json(&self) -> (r: Vec<u8>)
        ensures
            r@ == text_json(*self),
    {
        match self {
            Text::One(s) => json_string_bytes(s.as_str()),
            Text::Many(v) => json_string_array(v),
        }
    }
}

/// The JSON encoding of an optional text.
pub fn opt_text_bytes(t: &Option<Text>) -> (r: Option<Vec<u8>>)
    ensures
        opt_bytes(r) == opt_text_json(*t),
{
    match t {
        Some(x) => Some(x.to_json()),
        None => None,
    }
}

/// A value that a builder accepts where message text is expected
/// (`Into<Text>`): a string slice or string for one message, a list of
/// strings for several.
pub trait TextArg {
    /// The text this value stands for.
    spec fn arg_text(&self) -> TextView;

    /// The owned text.
    fn into_text(self) -> (r: Text)
        ensures
            text_view(r) == self.arg_text(),
    ;
}

impl<'a> TextArg for &'a str {
    open spec fn arg_text(&self) -> TextView {
        TextView::One((*self)@)
    }

    fn into_text(self) -> Text {
        Text::One(self.to_owned())
    }
}

impl TextArg for String {
    open spec fn arg_text(&self) -> TextView {
        TextView::One(self@)
    }

    fn into_text(self) -> Text {
        Text::One(self)
    }
}

impl TextArg for Vec<String> {
    open spec fn arg_text(&self) -> TextView {
        TextView::Many(strings_view(self@))
    }

    fn into_text(self) -> Text {
        Text::Many(self)
    }
}

impl TextArg for Text {
    open spec fn arg_text(&self) -> TextView {
        text_view(*self)
    }

    fn into_text(self) -> Text {
        self
    }
}

/// An attachment: a bare URL, or a URL with an optional file name.
#[derive(Debug, Clone)]
pub enum Attachment {
    /// A plain attachment URL.
    Url(String),
    /// A URL with an explicit file name.
    Named { url: String, name: Option<String> },
}

/// The JSON form of an attachment: the URL as a string, or an object with
/// `url` and, when set, `name`.
pub open spec fn attachment_json(a: Attachment) -> Seq<u8> {
    match a {
        Attachment::Url(u) => json_string(u@),
        Attachment::Named { url, name } => json_object(
            seq![("url"@, json_string(url@))] + opt_member("name"@, opt_string(name)),
        ),
    }
}

/// The JSON form of a list of attachments.
pub open spec fn attachments_json(v: Seq<Attachment>) -> Seq<u8> {
    json_array(v.map_values(|a: Attachment| attachment_json(a)))
}

/// The JSON form of an optional list of attachments.
pub open spec fn opt_attachments_json(v: Option<Vec<Attachment>>) -> Option<Seq<u8>> {
    match v {
        Some(x) => Some(attachments_json(x@)),
        None => None,
    }
}

impl Attachment {
    /// An attachment from a bare URL.
    pub fn from_url<S: StringArg>(url: S) -> (r: Self)
        ensures
            r matches Attachment::Url(u) && u@ == url.arg_view(),
    {
        Attachment::Url(url.into_string())
    }

    /// The JSON encoding.
    pub fn to_json(&self) -> (r: Vec<u8>)
        ensures
            r@ == attachment_json(*self),
    {
        match self {
            Attachment::Url(u) => json_string_bytes(u.as_str()),
            Attachment::Named { url, name } => {
                let mut obj = JsonObject::new();
                let e = json_string_bytes(url.as_str());
                obj.field("url", e.as_slice());
                obj.opt_str("name", name);
                assert(obj@ =~= seq![("url"@, json_string(url@))] + opt_member(
                    "name"@,
                    opt_string(*name),
                ));
                obj.finish()
            },
        }
    }
}

/// The JSON encoding of an optional list of attachments.
pub fn opt_attachments_bytes(v: &Option<Vec<Attachment>>) -> (r: Option<Vec<u8>>)
    ensures
        opt_bytes(r) == opt_attachments_json(*v),
{
    match v {
        Some(xs) => {
            let mut a = JsonArray::new();
            let mut i: usize = 0;
            while i < xs.len()
                invariant
                    a.wf(),
                    0 <= i <= xs@.len(),
                    a@ == xs@.take(i as int).map_values(|x: Attachment| attachment_json(x)),
                decreases xs.len() - i,
            {
                let e = xs[i].to_json();
                a.push(e.as_slice());
                assert(xs@.take(i + 1).map_values(|x: Attachment| attachment_json(x)) =~= xs@.take(
                    i as int,
                ).map_values(|x: Attachment| attachment_json(x)).push(attachment_json(xs@[i as int])));
                i += 1;
            }
            assert(xs@.take(xs@.len() as int) =~= xs@);
            Some(a.finish())
        },
        None => None,
    }
}

/// One ordered part of a multipart or URL-balloon-batch message.
#[derive(Debug, Clone)]
pub struct MessagePart {
    pub text: Option<String>,
    pub mention: Option<String>,
    pub url: Option<String>,
    pub name: Option<String>,
    pub link_preview: Option<LinkPreview>,
}

impl Default for MessagePart {
    fn default() -> (r: Self)
        ensures
            r.text is None,
            r.mention is None,
            r.url is None,
            r.name is None,
            r.link_preview is None,
    {
        MessagePart { text: None, mention: None, url: None, name: None, link_preview: None }
    }
}

/// The members of a message part's JSON object: its set fields.
pub open spec fn part_members(p: MessagePart) -> Seq<(Seq<char>, Seq<u8>)> {
    opt_member("text"@, opt_string(p.text)) + opt_member("mention"@, opt_string(p.mention))
        + opt_member("url"@, opt_string(p.url)) + opt_member("name"@, opt_string(p.name))
        + opt_member("link_preview"@, opt_link_preview_json(p.link_preview))
}

/// The JSON form of a message part.
pub open spec fn part_json(p: MessagePart) -> Seq<u8> {
    json_object(part_members(p))
}

/// The JSON form of an optional list of message parts.
pub open spec fn opt_parts_json(v: Option<Vec<MessagePart>>) -> Option<Seq<u8>> {
    match v {
        Some(x) => Some(json_array(x@.map_values(|p: MessagePart| part_json(p)))),
        None => None,
    }
}

impl MessagePart {
    /// The JSON encoding: only the fields that are set.
    pub fn to_json(&self) -> (r: Vec<u8>)
        ensures
            r@ == part_json(*self),
    {
        let mut obj = JsonObject::new();
        obj.opt_str("text", &self.text);
        obj.opt_str("mention", &self.mention);
        obj.opt_str("url", &self.url);
        obj.opt_str("name", &self.name);
        let lp = opt_link_preview_bytes(&self.link_preview);
        obj.opt_raw("link_preview", &lp);
        assert(obj@ =~= part_members(*self));
        obj.finish()
    }
}

/// The JSON encoding of an optional list of message parts.
pub fn opt_parts_bytes(v: &Option<Vec<MessagePart>>) -> (r: Option<Vec<u8>>)
    ensures
        opt_bytes(r) == opt_parts_json(*v),
{
    match v {
        Some(xs) => {
            let mut a = JsonArray::new();
            let mut i: usize = 0;
            while i < xs.len()
                invariant
                    a.wf(),
                    0 <= i <= xs@.len(),
                    a@ == xs@.take(i as int).map_values(|x: MessagePart| part_json(x)),
                decreases xs.len() - i,
            {
                let e = xs[i].to_json();
                a.push(e.as_slice());
                assert(xs@.take(i + 1).map_values(|x: MessagePart| part_json(x)) =~= xs@.take(
                    i as int,
                ).map_values(|x: MessagePart| part_json(x)).push(part_json(xs@[i as int])));
                i += 1;
            }
            assert(xs@.take(xs@.len() as int) =~= xs@);
            Some(a.finish())
        },
        None => None,
    }
}
/// Response of `GET /chats`.
#[derive(Debug, Clone)]
pub struct ListChatsResponse {
    pub chats: Vec<Chat>,
    pub pagination: Option<Pagination>,
}

impl Listing for ListChatsResponse {
    type Item = Chat;

    open spec fn listed(&self) -> Seq<Chat> {
        self.chats@
    }

    open spec fn listed_pagination(&self) -> Option<Pagination> {
        self.pagination
    }

    fn into_page(self) -> Page<Chat> {
        let pagination = self.pagination;
        Page { items: self.chats, pagination }
    }
}

/// Response of `GET /chats/{chatId}/messages`.
#[derive(Debug, Clone)]
pub struct ListChatMessagesResponse {
    pub chat_id: Option<String>,
    pub messages: Vec<Message>,
    pub pagination: Option<Pagination>,
}

impl Listing for ListChatMessagesResponse {
    type Item = Message;

    open spec fn listed(&self) -> Seq<Message> {
        self.messages@
    }

    open spec fn listed_pagination(&self) -> Option<Pagination> {
        self.pagination
    }

    fn into_page(self) -> Page<Message> {
        let pagination = self.pagination;
        Page { items: self.messages, pagination }
    }
}

/// Response of `POST /chats/{chatId}/polls`.
#[derive(Debug, Clone)]
pub struct SendPollResponse {
    pub poll_id: Option<String>,
    pub chat_id: Option<String>,
    pub poll: Option<Json>,
    pub sent_at: Option<serde_json::Number>,
}

/// A single poll option with its tally.
#[derive(Debug, Clone)]
pub struct PollOptionResult {
    pub text: Option<String>,
    pub votes: Option<i64>,
}

/// Response of `GET /chats/{chatId}/polls/{pollId}`.
#[derive(Debug, Clone)]
pub struct PollResults {
    pub poll_id: Option<String>,
    pub chat_id: Option<String>,
    pub title: Option<String>,
    pub options: Option<Vec<PollOptionResult>>,
    pub total_votes: Option<i64>,
}

/// Response of `POST /chats/{chatId}/contact-card`.
#[derive(Debug, Clone)]
pub struct ShareContactCardResponse {
    pub success: Option<bool>,
    pub chat_id: Option<String>,
    pub message: Option<String>,
}

/// `GET /chats`
#[derive(Debug, Clone)]
pub struct ListChats {
    pub limit: Option<u32>,
    pub offset: Option<u32>,
    pub q: Option<String>,
    pub sort: Option<String>,
}

impl Operation for ListChats {
    type Output = ListChatsResponse;

    const METHOD: Method = Method::Get;

    const RETRY_SAFE: bool = false;

    open spec fn spec_method() -> Method {
        Method::Get
    }

    open spec fn spec_retry_safe() -> bool {
        false
    }

    fn method() -> Method {
        Self::METHOD
    }

    fn retry_safe() -> bool {
        Self::RETRY_SAFE
    }

    open spec fn spec_path(&self) -> Seq<char> {
        "/chats"@
    }

    open spec fn spec_query(&self) -> Seq<(Seq<char>, Seq<char>)> {
        opt_pair("limit"@, self.limit) + opt_pair("offset"@, self.offset) + opt_str_pair("q"@, self.q) + opt_str_pair("sort"@, self.sort)
    }

    open spec fn headers_ok(&self, h: Seq<(Seq<char>, Seq<char>)>) -> bool {
        no_headers(h)
    }

    open spec fn spec_body(&self) -> Option<Seq<u8>> {
        None
    }

    fn path(&self) -> String {
        "/chats".to_owned()
    }

    fn query(&self) -> Vec<(&'static str, String)> {
        let mut q: Vec<(&'static str, String)> = Vec::new();
        assert(pairs_view(q@) =~= Seq::empty());
        push_opt(&mut q, "limit", self.limit);
        push_opt(&mut q, "offset", self.offset);
        push_opt_str(&mut q, "q", &self.q);
        push_opt_str(&mut q, "sort", &self.sort);
        assert(pairs_view(q@) =~= self.spec_query());
        q
    }

    fn headers(&self) -> Vec<(&'static str, String)> {
        let h: Vec<(&'static str, String)> = Vec::new();
        assert(pairs_view(h@) =~= Seq::empty());
        h
    }

    fn body(&self) -> Result<Option<Vec<u8>>> {
        Ok(None)
    }
}

impl Default for ListChats {
    fn default() -> (r: Self)
        ensures
            r.limit is None,
            r.offset is None,
            r.q is None,
            r.sort is None,
    {
        ListChats { limit: None, offset: None, q: None, sort: None }
    }
}

impl ListChats {
    /// The request for one page of a full walk: `limit` items from `offset`,
    /// without filters.
    pub fn page(offset: u32, limit: u32) -> (r: Self)
        ensures
            r.offset == Some(offset),
            r.limit == Some(limit),
            r.q is None,
            r.sort is None,
    {
        ListChats { limit: Some(limit), offset: Some(offset), q: None, sort: None }
    }
}

/// `GET /chats/{chatId}`
#[derive(Debug, Clone)]
pub struct GetChat {
    pub chat_id: String,
}

impl Operation for GetChat {
    type Output = Chat;

    const METHOD: Method = Method::Get;

    const RETRY_SAFE: bool = false;

    open spec fn spec_method() -> Method {
        Method::Get
    }

    open spec fn spec_retry_safe() -> bool {
        false
    }

    fn method() -> Method {
        Self::METHOD
    }

    fn retry_safe() -> bool {
        Self::RETRY_SAFE
    }

    open spec fn spec_path(&self) -> Seq<char> {
        "/chats/"@ + path_segment(self.chat_id@)
    }

    open spec fn spec_query(&self) -> Seq<(Seq<char>, Seq<char>)> {
        Seq::empty()
    }

    open spec fn headers_ok(&self, h: Seq<(Seq<char>, Seq<char>)>) -> bool {
        no_headers(h)
    }

    open spec fn spec_body(&self) -> Option<Seq<u8>> {
        None
    }

    fn path(&self) -> String {
        let seg_chat_id = encode_path_segment(self.chat_id.as_str());
        concat2("/chats/", seg_chat_id.as_str())
    }

    fn query(&self) -> Vec<(&'static str, String)> {
        let q: Vec<(&'static str, String)> = Vec::new();
        assert(pairs_view(q@) =~= Seq::empty());
        q
    }

    fn headers(&self) -> Vec<(&'static str, String)> {
        let h: Vec<(&'static str, String)> = Vec::new();
        assert(pairs_view(h@) =~= Seq::empty());
        h
    }

    fn body(&self) -> Result<Option<Vec<u8>>> {
        Ok(None)
    }
}

/// `GET /chats/{chatId}/messages`
#[derive(Debug, Clone)]
pub struct ListChatMessages {
    pub chat_id: String,
    pub limit: Option<u32>,
    pub offset: Option<u32>,
    pub sort: Option<String>,
    pub direction: Option<String>,
    pub since: Option<i64>,
    pub until: Option<i64>,
}

impl Operation for ListChatMessages {
    type Output = ListChatMessagesResponse;

    const METHOD: Method = Method::Get;

    const RETRY_SAFE: bool = false;

    open spec fn spec_method() -> Method {
        Method::Get
    }

    open spec fn spec_retry_safe() -> bool {
        false
    }

    fn method() -> Method {
        Self::METHOD
    }

    fn retry_safe() -> bool {
        Self::RETRY_SAFE
    }

    open spec fn spec_path(&self) -> Seq<char> {
        "/chats/"@ + path_segment(self.chat_id@) + "/messages"@
    }

    open spec fn spec_query(&self) -> Seq<(Seq<char>, Seq<char>)> {
        opt_pair("limit"@, self.limit) + opt_pair("offset"@, self.offset) + opt_str_pair("sort"@, self.sort) + opt_str_pair("direction"@, self.direction) + opt_pair("since"@, self.since) + opt_pair("until"@, self.until)
    }

    open spec fn headers_ok(&self, h: Seq<(Seq<char>, Seq<char>)>) -> bool {
        no_headers(h)
    }

    open spec fn spec_body(&self) -> Option<Seq<u8>> {
        None
    }

    fn path(&self) -> String {
        let seg_chat_id = encode_path_segment(self.chat_id.as_str());
        concat3("/chats/", seg_chat_id.as_str(), "/messages")
    }

    fn query(&self) -> Vec<(&'static str, String)> {
        let mut q: Vec<(&'static str, String)> = Vec::new();
        assert(pairs_view(q@) =~= Seq::empty());
        push_opt(&mut q, "limit", self.limit);
        push_opt(&mut q, "offset", self.offset);
        push_opt_str(&mut q, "sort", &self.sort);
        push_opt_str(&mut q, "direction", &self.direction);
        push_opt(&mut q, "since", self.since);
        push_opt(&mut q, "until", self.until);
        assert(pairs_view(q@) =~= self.spec_query());
        q
    }

    fn headers(&self) -> Vec<(&'static str, String)> {
        let h: Vec<(&'static str, String)> = Vec::new();
        assert(pairs_view(h@) =~= Seq::empty());
        h
    }

    fn body(&self) -> Result<Option<Vec<u8>>> {
        Ok(None)
    }
}

/// `POST /chats/{chatId}/messages`: send a message.
///
/// Build with [`SendMessage::new`] and the chained setters. Without an
/// explicit `Idempotency-Key`, a fresh version 4 UUID is sent, so that
/// accidental duplicate sends are de-duplicated by the server.
#[derive(Debug, Clone)]
pub struct SendMessage {
    pub chat_id: String,
    pub idempotency_key: Option<String>,
    pub text: Option<Text>,
    pub attachments: Option<Vec<Attachment>>,
    pub use_typing_indicator: Option<bool>,
    pub from_number: Option<String>,
    pub share_contact: Option<bool>,
    pub parts: Option<Vec<MessagePart>>,
    pub link_preview: Option<LinkPreview>,
    pub effect: Option<String>,
}

impl Operation for SendMessage {
    type Output = SendMessageResponse;

    const METHOD: Method = Method::Post;

    const RETRY_SAFE: bool = false;

    open spec fn spec_method() -> Method {
        Method::Post
    }

    open spec fn spec_retry_safe() -> bool {
        false
    }

    fn method() -> Method {
        Self::METHOD
    }

    fn retry_safe() -> bool {
        Self::RETRY_SAFE
    }

    open spec fn spec_path(&self) -> Seq<char> {
        "/chats/"@ + path_segment(self.chat_id@) + "/messages"@
    }

    open spec fn spec_query(&self) -> Seq<(Seq<char>, Seq<char>)> {
        Seq::empty()
    }

    open spec fn headers_ok(&self, h: Seq<(Seq<char>, Seq<char>)>) -> bool {
        h.len() == 1 && h[0].0 == IDEMPOTENCY_KEY_HEADER@ && match self.idempotency_key {
            Some(k) => h[0].1 == k@,
            None => uuid_v4_text(h[0].1),
        }
    }

    open spec fn spec_body(&self) -> Option<Seq<u8>> {
        Some(json_object(opt_member("text"@, opt_text_json(self.text)) + opt_member("attachments"@, opt_attachments_json(self.attachments)) + opt_member("use_typing_indicator"@, opt_bool(self.use_typing_indicator)) + opt_member("from_number"@, opt_string(self.from_number)) + opt_member("share_contact"@, opt_bool(self.share_contact)) + opt_member("parts"@, opt_parts_json(self.parts)) + opt_member("link_preview"@, opt_link_preview_json(self.link_preview)) + opt_member("effect"@, opt_string(self.effect))))
    }

    fn path(&self) -> String {
        let seg_chat_id = encode_path_segment(self.chat_id.as_str());
        concat3("/chats/", seg_chat_id.as_str(), "/messages")
    }

    fn query(&self) -> Vec<(&'static str, String)> {
        let q: Vec<(&'static str, String)> = Vec::new();
        assert(pairs_view(q@) =~= Seq::empty());
        q
    }

    fn headers(&self) -> Vec<(&'static str, String)> {
        let key = match &self.idempotency_key {
            Some(k) => k.clone(),
            None => new_uuid_v4(),
        };
        let mut h: Vec<(&'static str, String)> = Vec::new();
        h.push((IDEMPOTENCY_KEY_HEADER, key));
        h
    }

    fn body(&self) -> Result<Option<Vec<u8>>> {
        let mut obj = JsonObject::new();
        let e = opt_text_bytes(&self.text);
        obj.opt_raw("text", &e);
        let e = opt_attachments_bytes(&self.attachments);
        obj.opt_raw("attachments", &e);
        obj.opt_bool("use_typing_indicator", self.use_typing_indicator);
        obj.opt_str("from_number", &self.from_number);
        obj.opt_bool("share_contact", self.share_contact);
        let e = opt_parts_bytes(&self.parts);
        obj.opt_raw("parts", &e);
        let e = opt_link_preview_bytes(&self.link_preview);
        obj.opt_raw("link_preview", &e);
        obj.opt_str("effect", &self.effect);
        assert(obj@ =~= opt_member("text"@, opt_text_json(self.text)) + opt_member("attachments"@, opt_attachments_json(self.attachments)) + opt_member("use_typing_indicator"@, opt_bool(self.use_typing_indicator)) + opt_member("from_number"@, opt_string(self.from_number)) + opt_member("share_contact"@, opt_bool(self.share_contact)) + opt_member("parts"@, opt_parts_json(self.parts)) + opt_member("link_preview"@, opt_link_preview_json(self.link_preview)) + opt_member("effect"@, opt_string(self.effect)));
        Ok(Some(obj.finish()))
    }
}

/// `GET /chats/{chatId}/messages/{messageId}`
#[derive(Debug, Clone)]
pub struct GetMessage {
    pub chat_id: String,
    pub message_id: String,
}

impl Operation for GetMessage {
    type Output = MessageDetail;

    const METHOD: Method = Method::Get;

    const RETRY_SAFE: bool = false;

    open spec fn spec_method() -> Method {
        Method::Get
    }

    open spec fn spec_retry_safe() -> bool {
        false
    }

    fn method() -> Method {
        Self::METHOD
    }

    fn retry_safe() -> bool {
        Self::RETRY_SAFE
    }

    open spec fn spec_path(&self) -> Seq<char> {
        "/chats/"@ + path_segment(self.chat_id@) + "/messages/"@ + path_segment(self.message_id@)
    }

    open spec fn spec_query(&self) -> Seq<(Seq<char>, Seq<char>)> {
        Seq::empty()
    }

    open spec fn headers_ok(&self, h: Seq<(Seq<char>, Seq<char>)>) -> bool {
        no_headers(h)
    }

    open spec fn spec_body(&self) -> Option<Seq<u8>> {
        None
    }

    fn path(&self) -> String {
        let seg_chat_id = encode_path_segment(self.chat_id.as_str());
        let seg_message_id = encode_path_segment(self.message_id.as_str());
        concat4("/chats/", seg_chat_id.as_str(), "/messages/", seg_message_id.as_str())
    }

    fn query(&self) -> Vec<(&'static str, String)> {
        let q: Vec<(&'static str, String)> = Vec::new();
        assert(pairs_view(q@) =~= Seq::empty());
        q
    }

    fn headers(&self) -> Vec<(&'static str, String)> {
        let h: Vec<(&'static str, String)> = Vec::new();
        assert(pairs_view(h@) =~= Seq::empty());
        h
    }

    fn body(&self) -> Result<Option<Vec<u8>>> {
        Ok(None)
    }
}

/// `GET /chats/{chatId}/messages/{messageId}/status`
#[derive(Debug, Clone)]
pub struct GetMessageStatus {
    pub chat_id: String,
    pub message_id: String,
}

impl Operation for GetMessageStatus {
    type Output = MessageStatus;

    const METHOD: Method = Method::Get;

    const RETRY_SAFE: bool = false;

    open spec fn spec_method() -> Method {
        Method::Get
    }

    open spec fn spec_retry_safe() -> bool {
        false
    }

    fn method() -> Method {
        Self::METHOD
    }

    fn retry_safe() -> bool {
        Self::RETRY_SAFE
    }

    open spec fn spec_path(&self) -> Seq<char> {
        "/chats/"@ + path_segment(self.chat_id@) + "/messages/"@ + path_segment(self.message_id@) + "/status"@
    }

    open spec fn spec_query(&self) -> Seq<(Seq<char>, Seq<char>)> {
        Seq::empty()
    }

    open spec fn headers_ok(&self, h: Seq<(Seq<char>, Seq<char>)>) -> bool {
        no_headers(h)
    }

    open spec fn spec_body(&self) -> Option<Seq<u8>> {
        None
    }

    fn path(&self) -> String {
        let seg_chat_id = encode_path_segment(self.chat_id.as_str());
        let seg_message_id = encode_path_segment(self.message_id.as_str());
        concat5("/chats/", seg_chat_id.as_str(), "/messages/", seg_message_id.as_str(), "/status")
    }

    fn query(&self) -> Vec<(&'static str, String)> {
        let q: Vec<(&'static str, String)> = Vec::new();
        assert(pairs_view(q@) =~= Seq::empty());
        q
    }

    fn headers(&self) -> Vec<(&'static str, String)> {
        let h: Vec<(&'static str, String)> = Vec::new();
        assert(pairs_view(h@) =~= Seq::empty());
        h
    }

    fn body(&self) -> Result<Option<Vec<u8>>> {
        Ok(None)
    }
}

/// `POST /chats/{chatId}/messages/{messageId}/reactions`
#[derive(Debug, Clone)]
pub struct AddReaction {
    pub chat_id: String,
    pub message_id: String,
    pub reaction: String,
    pub direction: Option<String>,
}

impl Operation for AddReaction {
    type Output = ReactionResponse;

    const METHOD: Method = Method::Post;

    const RETRY_SAFE: bool = false;

    open spec fn spec_method() -> Method {
        Method::Post
    }

    open spec fn spec_retry_safe() -> bool {
        false
    }

    fn method() -> Method {
        Self::METHOD
    }

    fn retry_safe() -> bool {
        Self::RETRY_SAFE
    }

    open spec fn spec_path(&self) -> Seq<char> {
        "/chats/"@ + path_segment(self.chat_id@) + "/messages/"@ + path_segment(self.message_id@) + "/reactions"@
    }

    open spec fn spec_query(&self) -> Seq<(Seq<char>, Seq<char>)> {
        Seq::empty()
    }

    open spec fn headers_ok(&self, h: Seq<(Seq<char>, Seq<char>)>) -> bool {
        no_headers(h)
    }

    open spec fn spec_body(&self) -> Option<Seq<u8>> {
        Some(json_object(seq![("reaction"@, json_string(self.reaction@))] + opt_member("direction"@, opt_string(self.direction))))
    }

    fn path(&self) -> String {
        let seg_chat_id = encode_path_segment(self.chat_id.as_str());
        let seg_message_id = encode_path_segment(self.message_id.as_str());
        concat5("/chats/", seg_chat_id.as_str(), "/messages/", seg_message_id.as_str(), "/reactions")
    }

    fn query(&self) -> Vec<(&'static str, String)> {
        let q: Vec<(&'static str, String)> = Vec::new();
        assert(pairs_view(q@) =~= Seq::empty());
        q
    }

    fn headers(&self) -> Vec<(&'static str, String)> {
        let h: Vec<(&'static str, String)> = Vec::new();
        assert(pairs_view(h@) =~= Seq::empty());
        h
    }

    fn body(&self) -> Result<Option<Vec<u8>>> {
        let mut obj = JsonObject::new();
        let e = json_string_bytes(self.reaction.as_str());
        obj.field("reaction", e.as_slice());
        obj.opt_str("direction", &self.direction);
        assert(obj@ =~= seq![("reaction"@, json_string(self.reaction@))] + opt_member("direction"@, opt_string(self.direction)));
        Ok(Some(obj.finish()))
    }
}

/// `POST /chats/{chatId}/polls`
#[derive(Debug, Clone)]
pub struct SendPoll {
    pub chat_id: String,
    pub title: Option<String>,
    pub options: Vec<String>,
}

impl Operation for SendPoll {
    type Output = SendPollResponse;

    const METHOD: Method = Method::Post;

    const RETRY_SAFE: bool = false;

    open spec fn spec_method() -> Method {
        Method::Post
    }

    open spec fn spec_retry_safe() -> bool {
        false
    }

    fn method() -> Method {
        Self::METHOD
    }

    fn retry_safe() -> bool {
        Self::RETRY_SAFE
    }

    open spec fn spec_path(&self) -> Seq<char> {
        "/chats/"@ + path_segment(self.chat_id@) + "/polls"@
    }

    open spec fn spec_query(&self) -> Seq<(Seq<char>, Seq<char>)> {
        Seq::empty()
    }

    open spec fn headers_ok(&self, h: Seq<(Seq<char>, Seq<char>)>) -> bool {
        no_headers(h)
    }

    open spec fn spec_body(&self) -> Option<Seq<u8>> {
        Some(json_object(opt_member("title"@, opt_string(self.title)) + seq![("options"@, string_array(self.options@))]))
    }

    fn path(&self) -> String {
        let seg_chat_id = encode_path_segment(self.chat_id.as_str());
        concat3("/chats/", seg_chat_id.as_str(), "/polls")
    }

    fn query(&self) -> Vec<(&'static str, String)> {
        let q: Vec<(&'static str, String)> = Vec::new();
        assert(pairs_view(q@) =~= Seq::empty());
        q
    }

    fn headers(&self) -> Vec<(&'static str, String)> {
        let h: Vec<(&'static str, String)> = Vec::new();
        assert(pairs_view(h@) =~= Seq::empty());
        h
    }

    fn body(&self) -> Result<Option<Vec<u8>>> {
        let mut obj = JsonObject::new();
        obj.opt_str("title", &self.title);
        let e = json_string_array(&self.options);
        obj.field("options", e.as_slice());
        assert(obj@ =~= opt_member("title"@, opt_string(self.title)) + seq![("options"@, string_array(self.options@))]);
        Ok(Some(obj.finish()))
    }
}

/// `GET /chats/{chatId}/polls/{pollId}`
#[derive(Debug, Clone)]
pub struct GetPollResults {
    pub chat_id: String,
    pub poll_id: String,
}

impl Operation for GetPollResults {
    type Output = PollResults;

    const METHOD: Method = Method::Get;

    const RETRY_SAFE: bool = false;

    open spec fn spec_method() -> Method {
        Method::Get
    }

    open spec fn spec_retry_safe() -> bool {
        false
    }

    fn method() -> Method {
        Self::METHOD
    }

    fn retry_safe() -> bool {
        Self::RETRY_SAFE
    }

    open spec fn spec_path(&self) -> Seq<char> {
        "/chats/"@ + path_segment(self.chat_id@) + "/polls/"@ + path_segment(self.poll_id@)
    }

    open spec fn spec_query(&self) -> Seq<(Seq<char>, Seq<char>)> {
        Seq::empty()
    }

    open spec fn headers_ok(&self, h: Seq<(Seq<char>, Seq<char>)>) -> bool {
        no_headers(h)
    }

    open spec fn spec_body(&self) -> Option<Seq<u8>> {
        None
    }

    fn path(&self) -> String {
        let seg_chat_id = encode_path_segment(self.chat_id.as_str());
        let seg_poll_id = encode_path_segment(self.poll_id.as_str());
        concat4("/chats/", seg_chat_id.as_str(), "/polls/", seg_poll_id.as_str())
    }

    fn query(&self) -> Vec<(&'static str, String)> {
        let q: Vec<(&'static str, String)> = Vec::new();
        assert(pairs_view(q@) =~= Seq::empty());
        q
    }

    fn headers(&self) -> Vec<(&'static str, String)> {
        let h: Vec<(&'static str, String)> = Vec::new();
        assert(pairs_view(h@) =~= Seq::empty());
        h
    }

    fn body(&self) -> Result<Option<Vec<u8>>> {
        Ok(None)
    }
}

/// `POST /chats/{chatId}/typing`
#[derive(Debug, Clone)]
pub struct StartTyping {
    pub chat_id: String,
}

impl Operation for StartTyping {
    type Output = TypingResponse;

    const METHOD: Method = Method::Post;

    const RETRY_SAFE: bool = false;

    open spec fn spec_method() -> Method {
        Method::Post
    }

    open spec fn spec_retry_safe() -> bool {
        false
    }

    fn method() -> Method {
        Self::METHOD
    }

    fn retry_safe() -> bool {
        Self::RETRY_SAFE
    }

    open spec fn spec_path(&self) -> Seq<char> {
        "/chats/"@ + path_segment(self.chat_id@) + "/typing"@
    }

    open spec fn spec_query(&self) -> Seq<(Seq<char>, Seq<char>)> {
        Seq::empty()
    }

    open spec fn headers_ok(&self, h: Seq<(Seq<char>, Seq<char>)>) -> bool {
        no_headers(h)
    }

    open spec fn spec_body(&self) -> Option<Seq<u8>> {
        None
    }

    fn path(&self) -> String {
        let seg_chat_id = encode_path_segment(self.chat_id.as_str());
        concat3("/chats/", seg_chat_id.as_str(), "/typing")
    }

    fn query(&self) -> Vec<(&'static str, String)> {
        let q: Vec<(&'static str, String)> = Vec::new();
        assert(pairs_view(q@) =~= Seq::empty());
        q
    }

    fn headers(&self) -> Vec<(&'static str, String)> {
        let h: Vec<(&'static str, String)> = Vec::new();
        assert(pairs_view(h@) =~= Seq::empty());
        h
    }

    fn body(&self) -> Result<Option<Vec<u8>>> {
        Ok(None)
    }
}

/// `DELETE /chats/{chatId}/typing`
#[derive(Debug, Clone)]
pub struct StopTyping {
    pub chat_id: String,
}

impl Operation for StopTyping {
    type Output = TypingResponse;

    const METHOD: Method = Method::Delete;

    const RETRY_SAFE: bool = false;

    open spec fn spec_method() -> Method {
        Method::Delete
    }

    open spec fn spec_retry_safe() -> bool {
        false
    }

    fn method() -> Method {
        Self::METHOD
    }

    fn retry_safe() -> bool {
        Self::RETRY_SAFE
    }

    open spec fn spec_path(&self) -> Seq<char> {
        "/chats/"@ + path_segment(self.chat_id@) + "/typing"@
    }

    open spec fn spec_query(&self) -> Seq<(Seq<char>, Seq<char>)> {
        Seq::empty()
    }

    open spec fn headers_ok(&self, h: Seq<(Seq<char>, Seq<char>)>) -> bool {
        no_headers(h)
    }

    open spec fn spec_body(&self) -> Option<Seq<u8>> {
        None
    }

    fn path(&self) -> String {
        let seg_chat_id = encode_path_segment(self.chat_id.as_str());
        concat3("/chats/", seg_chat_id.as_str(), "/typing")
    }

    fn query(&self) -> Vec<(&'static str, String)> {
        let q: Vec<(&'static str, String)> = Vec::new();
        assert(pairs_view(q@) =~= Seq::empty());
        q
    }

    fn headers(&self) -> Vec<(&'static str, String)> {
        let h: Vec<(&'static str, String)> = Vec::new();
        assert(pairs_view(h@) =~= Seq::empty());
        h
    }

    fn body(&self) -> Result<Option<Vec<u8>>> {
        Ok(None)
    }
}

/// `POST /chats/{chatId}/read`
#[derive(Debug, Clone)]
pub struct MarkChatRead {
    pub chat_id: String,
}

impl Operation for MarkChatRead {
    type Output = ReadResponse;

    const METHOD: Method = Method::Post;

    const RETRY_SAFE: bool = false;

    open spec fn spec_method() -> Method {
        Method::Post
    }

    open spec fn spec_retry_safe() -> bool {
        false
    }

    fn method() -> Method {
        Self::METHOD
    }

    fn retry_safe() -> bool {
        Self::RETRY_SAFE
    }

    open spec fn spec_path(&self) -> Seq<char> {
        "/chats/"@ + path_segment(self.chat_id@) + "/read"@
    }

    open spec fn spec_query(&self) -> Seq<(Seq<char>, Seq<char>)> {
        Seq::empty()
    }

    open spec fn headers_ok(&self, h: Seq<(Seq<char>, Seq<char>)>) -> bool {
        no_headers(h)
    }

    open spec fn spec_body(&self) -> Option<Seq<u8>> {
        None
    }

    fn path(&self) -> String {
        let seg_chat_id = encode_path_segment(self.chat_id.as_str());
        concat3("/chats/", seg_chat_id.as_str(), "/read")
    }

    fn query(&self) -> Vec<(&'static str, String)> {
        let q: Vec<(&'static str, String)> = Vec::new();
        assert(pairs_view(q@) =~= Seq::empty());
        q
    }

    fn headers(&self) -> Vec<(&'static str, String)> {
        let h: Vec<(&'static str, String)> = Vec::new();
        assert(pairs_view(h@) =~= Seq::empty());
        h
    }

    fn body(&self) -> Result<Option<Vec<u8>>> {
        Ok(None)
    }
}

/// `POST /chats/{chatId}/contact-card`
#[derive(Debug, Clone)]
pub struct ShareContactCard {
    pub chat_id: String,
}

impl Operation for ShareContactCard {
    type Output = ShareContactCardResponse;

    const METHOD: Method = Method::Post;

    const RETRY_SAFE: bool = false;

    open spec fn spec_method() -> Method {
        Method::Post
    }

    open spec fn spec_retry_safe() -> bool {
        false
    }

    fn method() -> Method {
        Self::METHOD
    }

    fn retry_safe() -> bool {
        Self::RETRY_SAFE
    }

    open spec fn spec_path(&self) -> Seq<char> {
        "/chats/"@ + path_segment(self.chat_id@) + "/contact-card"@
    }

    open spec fn spec_query(&self) -> Seq<(Seq<char>, Seq<char>)> {
        Seq::empty()
    }

    open spec fn headers_ok(&self, h: Seq<(Seq<char>, Seq<char>)>) -> bool {
        no_headers(h)
    }

    open spec fn spec_body(&self) -> Option<Seq<u8>> {
        None
    }

    fn path(&self) -> String {
        let seg_chat_id = encode_path_segment(self.chat_id.as_str());
        concat3("/chats/", seg_chat_id.as_str(), "/contact-card")
    }

    fn query(&self) -> Vec<(&'static str, String)> {
        let q: Vec<(&'static str, String)> = Vec::new();
        assert(pairs_view(q@) =~= Seq::empty());
        q
    }

    fn headers(&self) -> Vec<(&'static str, String)> {
        let h: Vec<(&'static str, String)> = Vec::new();
        assert(pairs_view(h@) =~= Seq::empty());
        h
    }

    fn body(&self) -> Result<Option<Vec<u8>>> {
        Ok(None)
    }
}

/// `GET /chats/{chatId}/background`
#[derive(Debug, Clone)]
pub struct GetChatBackground {
    pub chat_id: String,
}

impl Operation for GetChatBackground {
    type Output = ChatBackgroundResponse;

    const METHOD: Method = Method::Get;

    const RETRY_SAFE: bool = false;

    open spec fn spec_method() -> Method {
        Method::Get
    }

    open spec fn spec_retry_safe() -> bool {
        false
    }

    fn method() -> Method {
        Self::METHOD
    }

    fn retry_safe() -> bool {
        Self::RETRY_SAFE
    }

    open spec fn spec_path(&self) -> Seq<char> {
        "/chats/"@ + path_segment(self.chat_id@) + "/background"@
    }

    open spec fn spec_query(&self) -> Seq<(Seq<char>, Seq<char>)> {
        Seq::empty()
    }

    open spec fn headers_ok(&self, h: Seq<(Seq<char>, Seq<char>)>) -> bool {
        no_headers(h)
    }

    open spec fn spec_body(&self) -> Option<Seq<u8>> {
        None
    }

    fn path(&self) -> String {
        let seg_chat_id = encode_path_segment(self.chat_id.as_str());
        concat3("/chats/", seg_chat_id.as_str(), "/background")
    }

    fn query(&self) -> Vec<(&'static str, String)> {
        let q: Vec<(&'static str, String)> = Vec::new();
        assert(pairs_view(q@) =~= Seq::empty());
        q
    }

    fn headers(&self) -> Vec<(&'static str, String)> {
        let h: Vec<(&'static str, String)> = Vec::new();
        assert(pairs_view(h@) =~= Seq::empty());
        h
    }

    fn body(&self) -> Result<Option<Vec<u8>>> {
        Ok(None)
    }
}

/// `PUT /chats/{chatId}/background`
#[derive(Debug, Clone)]
pub struct SetChatBackground {
    pub chat_id: String,
    pub background: String,
}

impl Operation for SetChatBackground {
    type Output = ChatBackgroundResponse;

    const METHOD: Method = Method::Put;

    const RETRY_SAFE: bool = false;

    open spec fn spec_method() -> Method {
        Method::Put
    }

    open spec fn spec_retry_safe() -> bool {
        false
    }

    fn method() -> Method {
        Self::METHOD
    }

    fn retry_safe() -> bool {
        Self::RETRY_SAFE
    }

    open spec fn spec_path(&self) -> Seq<char> {
        "/chats/"@ + path_segment(self.chat_id@) + "/background"@
    }

    open spec fn spec_query(&self) -> Seq<(Seq<char>, Seq<char>)> {
        Seq::empty()
    }

    open spec fn headers_ok(&self, h: Seq<(Seq<char>, Seq<char>)>) -> bool {
        no_headers(h)
    }

    open spec fn spec_body(&self) -> Option<Seq<u8>> {
        Some(json_object(seq![("background"@, json_string(self.background@))]))
    }

    fn path(&self) -> String {
        let seg_chat_id = encode_path_segment(self.chat_id.as_str());
        concat3("/chats/", seg_chat_id.as_str(), "/background")
    }

    fn query(&self) -> Vec<(&'static str, String)> {
        let q: Vec<(&'static str, String)> = Vec::new();
        assert(pairs_view(q@) =~= Seq::empty());
        q
    }

    fn headers(&self) -> Vec<(&'static str, String)> {
        let h: Vec<(&'static str, String)> = Vec::new();
        assert(pairs_view(h@) =~= Seq::empty());
        h
    }

    fn body(&self) -> Result<Option<Vec<u8>>> {
        let mut obj = JsonObject::new();
        let e = json_string_bytes(self.background.as_str());
        obj.field("background", e.as_slice());
        assert(obj@ =~= seq![("background"@, json_string(self.background@))]);
        Ok(Some(obj.finish()))
    }
}

/// `DELETE /chats/{chatId}/background`
#[derive(Debug, Clone)]
pub struct RemoveChatBackground {
    pub chat_id: String,
}

impl Operation for RemoveChatBackground {
    type Output = ChatBackgroundResponse;

    const METHOD: Method = Method::Delete;

    const RETRY_SAFE: bool = false;

    open spec fn spec_method() -> Method {
        Method::Delete
    }

    open spec fn spec_retry_safe() -> bool {
        false
    }

    fn method() -> Method {
        Self::METHOD
    }

    fn retry_safe() -> bool {
        Self::RETRY_SAFE
    }

    open spec fn spec_path(&self) -> Seq<char> {
        "/chats/"@ + path_segment(self.chat_id@) + "/background"@
    }

    open spec fn spec_query(&self) -> Seq<(Seq<char>, Seq<char>)> {
        Seq::empty()
    }

    open spec fn headers_ok(&self, h: Seq<(Seq<char>, Seq<char>)>) -> bool {
        no_headers(h)
    }

    open spec fn spec_body(&self) -> Option<Seq<u8>> {
        None
    }

    fn path(&self) -> String {
        let seg_chat_id = encode_path_segment(self.chat_id.as_str());
        concat3("/chats/", seg_chat_id.as_str(), "/background")
    }

    fn query(&self) -> Vec<(&'static str, String)> {
        let q: Vec<(&'static str, String)> = Vec::new();
        assert(pairs_view(q@) =~= Seq::empty());
        q
    }

    fn headers(&self) -> Vec<(&'static str, String)> {
        let h: Vec<(&'static str, String)> = Vec::new();
        assert(pairs_view(h@) =~= Seq::empty());
        h
    }

    fn body(&self) -> Result<Option<Vec<u8>>> {
        Ok(None)
    }
}


impl ListChatMessages {
    /// A list-messages request for the given chat, without filters.
    pub fn new<S: StringArg>(chat_id: S) -> (r: Self)
        ensures
            r.chat_id@ == chat_id.arg_view(),
            r.limit is None,
            r.offset is None,
            r.sort is None,
            r.direction is None,
            r.since is None,
            r.until is None,
    {
        ListChatMessages {
            chat_id: chat_id.into_string(),
            limit: None,
            offset: None,
            sort: None,
            direction: None,
            since: None,
            until: None,
        }
    }
}

impl SendMessage {
    /// Start building a message for `chat_id`.
    pub fn new<S: StringArg>(chat_id: S) -> (r: Self)
        ensures
            r.chat_id@ == chat_id.arg_view(),
            r.idempotency_key is None,
            r.text is None,
            r.attachments is None,
            r.use_typing_indicator is None,
            r.from_number is None,
            r.share_contact is None,
            r.parts is None,
            r.link_preview is None,
            r.effect is None,
    {
        SendMessage {
            chat_id: chat_id.into_string(),
            idempotency_key: None,
            text: None,
            attachments: None,
            use_typing_indicator: None,
            from_number: None,
            share_contact: None,
            parts: None,
            link_preview: None,
            effect: None,
        }
    }

    /// Set the message text (one string, or one message per element).
    pub fn text<T: TextArg>(self, text: T) -> (r: Self)
        ensures
            r.text matches Some(t) && text_view(t) == text.arg_text(),
            r == (SendMessage { text: r.text, ..self }),
    {
        SendMessage { text: Some(text.into_text()), ..self }
    }

    /// Set the attachments.
    pub fn attachments(self, attachments: Vec<Attachment>) -> (r: Self)
        ensures
            r == (SendMessage { attachments: Some(attachments), ..self }),
    {
        SendMessage { attachments: Some(attachments), ..self }
    }

    /// Set the ordered message parts.
    pub fn parts(self, parts: Vec<MessagePart>) -> (r: Self)
        ensures
            r == (SendMessage { parts: Some(parts), ..self }),
    {
        SendMessage { parts: Some(parts), ..self }
    }

    /// Send with an iMessage effect (such as `"confetti"`).
    pub fn effect<S: StringArg>(self, effect: S) -> (r: Self)
        ensures
            r.effect matches Some(e) && e@ == effect.arg_view(),
            r == (SendMessage { effect: r.effect, ..self }),
    {
        SendMessage { effect: Some(effect.into_string()), ..self }
    }

    /// Choose the originating phone number.
    pub fn from_number<S: StringArg>(self, number: S) -> (r: Self)
        ensures
            r.from_number matches Some(n) && n@ == number.arg_view(),
            r == (SendMessage { from_number: r.from_number, ..self }),
    {
        SendMessage { from_number: Some(number.into_string()), ..self }
    }

    /// Override the rich link preview.
    pub fn link_preview(self, preview: LinkPreview) -> (r: Self)
        ensures
            r == (SendMessage { link_preview: Some(preview), ..self }),
    {
        SendMessage { link_preview: Some(preview), ..self }
    }

    /// Show a typing indicator before sending.
    pub fn use_typing_indicator(self, yes: bool) -> (r: Self)
        ensures
            r == (SendMessage { use_typing_indicator: Some(yes), ..self }),
    {
        SendMessage { use_typing_indicator: Some(yes), ..self }
    }

    /// Piggyback the contact card onto the message.
    pub fn share_contact(self, yes: bool) -> (r: Self)
        ensures
            r == (SendMessage { share_contact: Some(yes), ..self }),
    {
        SendMessage { share_contact: Some(yes), ..self }
    }

    /// Supply an explicit idempotency key (otherwise one is generated).
    pub fn idempotency_key<S: StringArg>(self, key: S) -> (r: Self)
        ensures
            r.idempotency_key matches Some(k) && k@ == key.arg_view(),
            r == (SendMessage { idempotency_key: r.idempotency_key, ..self }),
    {
        SendMessage { idempotency_key: Some(key.into_string()), ..self }
    }
}

/// Handle for the top-level `chats` collection (listing).
pub struct Chats<'c, C> {
    client: &'c C,
}

impl<'c, C> Chats<'c, C> {
    /// The handle over `client`.
    pub fn new(client: &'c C) -> (r: Self)
        ensures
            r.spec_client() == client,
    {
        Chats { client }
    }

    /// The client the handle sends through.
    pub closed spec fn spec_client(&self) -> &'c C {
        self.client
    }

    /// The client the handle sends through.
    pub fn client(&self) -> (r: &'c C)
        ensures
            r == self.spec_client(),
    {
        self.client
    }

    /// List chats (first page, no filters).
    pub fn list(&self) -> (r: ListChats)
        ensures
            r.limit is None && r.offset is None && r.q is None && r.sort is None,
    {
        ListChats::default()
    }

    /// List chats with explicit filters.
    pub fn list_with(&self, query: ListChats) -> (r: ListChats)
        ensures
            r == query,
    {
        query
    }

    /// One page of the walk over all chats.
    pub fn list_page(&self, offset: u32, limit: u32) -> (r: ListChats)
        ensures
            r.offset == Some(offset) && r.limit == Some(limit) && r.q is None && r.sort is None,
    {
        ListChats::page(offset, limit)
    }
}

/// Handle scoped to a single chat.
pub struct Chat_<'c, C> {
    client: &'c C,
    chat_id: String,
}

impl<'c, C> Chat_<'c, C> {
    /// The handle for chat `chat_id` over `client`.
    pub fn new<S: StringArg>(client: &'c C, chat_id: S) -> (r: Self)
        ensures
            r.spec_client() == client,
            r.spec_chat_id() == chat_id.arg_view(),
    {
        Chat_ { client, chat_id: chat_id.into_string() }
    }

    /// The client the handle sends through.
    pub closed spec fn spec_client(&self) -> &'c C {
        self.client
    }

    /// The chat the handle is scoped to.
    pub closed spec fn spec_chat_id(&self) -> Seq<char> {
        self.chat_id@
    }

    /// The client the handle sends through.
    pub fn client(&self) -> (r: &'c C)
        ensures
            r == self.spec_client(),
    {
        self.client
    }

    /// The chat the handle is scoped to.
    pub fn chat_id(&self) -> (r: &str)
        ensures
            r@ == self.spec_chat_id(),
    {
        self.chat_id.as_str()
    }

    /// Fetch this chat's detail.
    pub fn get(&self) -> (r: GetChat)
        ensures
            r.chat_id@ == self.spec_chat_id(),
    {
        GetChat { chat_id: self.chat_id.clone() }
    }

    /// List this chat's messages (first page, no filters).
    pub fn list_messages(&self) -> (r: ListChatMessages)
        ensures
            r.chat_id@ == self.spec_chat_id(),
            r.limit is None && r.offset is None && r.sort is None && r.direction is None
                && r.since is None && r.until is None,
    {
        ListChatMessages::new(self.chat_id.clone())
    }

    /// List messages with explicit filters.
    pub fn list_messages_with(&self, query: ListChatMessages) -> (r: ListChatMessages)
        ensures
            r == query,
    {
        query
    }

    /// One page of the walk over all of this chat's messages.
    pub fn list_messages_page(&self, offset: u32, limit: u32) -> (r: ListChatMessages)
        ensures
            r.chat_id@ == self.spec_chat_id(),
            r.offset == Some(offset) && r.limit == Some(limit),
            r.sort is None && r.direction is None && r.since is None && r.until is None,
    {
        ListChatMessages {
            offset: Some(offset),
            limit: Some(limit),
            ..ListChatMessages::new(self.chat_id.clone())
        }
    }

    /// A [`SendMessage`] builder seeded with this chat's id.
    pub fn message(&self) -> (r: SendMessage)
        ensures
            r.chat_id@ == self.spec_chat_id(),
            r.idempotency_key is None && r.text is None && r.attachments is None
                && r.use_typing_indicator is None && r.from_number is None && r.share_contact is None
                && r.parts is None && r.link_preview is None && r.effect is None,
    {
        SendMessage::new(self.chat_id.clone())
    }

    /// Send a fully-built message.
    pub fn send(&self, message: SendMessage) -> (r: SendMessage)
        ensures
            r == message,
    {
        message
    }

    /// Send plain text: a message to this chat with only its text set.
    pub fn send_text<T: TextArg>(&self, text: T) -> (r: SendMessage)
        ensures
            r.chat_id@ == self.spec_chat_id(),
            r.text matches Some(t) && text_view(t) == text.arg_text(),
            r.idempotency_key is None && r.attachments is None && r.use_typing_indicator is None
                && r.from_number is None && r.share_contact is None && r.parts is None
                && r.link_preview is None && r.effect is None,
    {
        self.message().text(text)
    }

    /// Fetch a single message.
    pub fn get_message<S: StringArg>(&self, message_id: S) -> (r: GetMessage)
        ensures
            r.chat_id@ == self.spec_chat_id(),
            r.message_id@ == message_id.arg_view(),
    {
        GetMessage { chat_id: self.chat_id.clone(), message_id: message_id.into_string() }
    }

    /// Fetch a message's delivery status.
    pub fn message_status<S: StringArg>(&self, message_id: S) -> (r: GetMessageStatus)
        ensures
            r.chat_id@ == self.spec_chat_id(),
            r.message_id@ == message_id.arg_view(),
    {
        GetMessageStatus { chat_id: self.chat_id.clone(), message_id: message_id.into_string() }
    }

    /// React to a message.
    pub fn add_reaction<M: StringArg, R: StringArg>(
        &self,
        message_id: M,
        reaction: R,
        direction: Option<String>,
    ) -> (r: AddReaction)
        ensures
            r.chat_id@ == self.spec_chat_id(),
            r.message_id@ == message_id.arg_view(),
            r.reaction@ == reaction.arg_view(),
            r.direction == direction,
    {
        AddReaction {
            chat_id: self.chat_id.clone(),
            message_id: message_id.into_string(),
            reaction: reaction.into_string(),
            direction,
        }
    }

    /// Send a poll.
    pub fn send_poll(&self, title: Option<String>, options: Vec<String>) -> (r: SendPoll)
        ensures
            r.chat_id@ == self.spec_chat_id(),
            r.title == title,
            r.options == options,
    {
        SendPoll { chat_id: self.chat_id.clone(), title, options }
    }

    /// Fetch poll results.
    pub fn poll_results<S: StringArg>(&self, poll_id: S) -> (r: GetPollResults)
        ensures
            r.chat_id@ == self.spec_chat_id(),
            r.poll_id@ == poll_id.arg_view(),
    {
        GetPollResults { chat_id: self.chat_id.clone(), poll_id: poll_id.into_string() }
    }

    /// Start the typing indicator.
    pub fn start_typing(&self) -> (r: StartTyping)
        ensures
            r.chat_id@ == self.spec_chat_id(),
    {
        StartTyping { chat_id: self.chat_id.clone() }
    }

    /// Stop the typing indicator.
    pub fn stop_typing(&self) -> (r: StopTyping)
        ensures
            r.chat_id@ == self.spec_chat_id(),
    {
        StopTyping { chat_id: self.chat_id.clone() }
    }

    /// Mark this chat as read.
    pub fn mark_read(&self) -> (r: MarkChatRead)
        ensures
            r.chat_id@ == self.spec_chat_id(),
    {
        MarkChatRead { chat_id: self.chat_id.clone() }
    }

    /// Share the contact card into this chat.
    pub fn share_contact_card(&self) -> (r: ShareContactCard)
        ensures
            r.chat_id@ == self.spec_chat_id(),
    {
        ShareContactCard { chat_id: self.chat_id.clone() }
    }

    /// Get the chat background state.
    pub fn background(&self) -> (r: GetChatBackground)
        ensures
            r.chat_id@ == self.spec_chat_id(),
    {
        GetChatBackground { chat_id: self.chat_id.clone() }
    }

    /// Set the chat background.
    pub fn set_background<S: StringArg>(&self, background: S) -> (r: SetChatBackground)
        ensures
            r.chat_id@ == self.spec_chat_id(),
            r.background@ == background.arg_view(),
    {
        SetChatBackground { chat_id: self.chat_id.clone(), background: background.into_string() }
    }

    /// Remove the chat background.
    pub fn remove_background(&self) -> (r: RemoveChatBackground)
        ensures
            r.chat_id@ == self.spec_chat_id(),
    {
        RemoveChatBackground { chat_id: self.chat_id.clone() }
    }
}

/// A chats list request carries every value it is given: each of `limit`, `offset`, `q`, `sort`
/// that is set appears in the query under its own name with its text, so a
/// later page's `offset` always reaches the server.
pub proof fn law_list_chats_query(op: ListChats)
    ensures
        op.limit is Some ==> op.spec_query().contains(("limit"@, dec(op.limit->0 as nat))),
        op.offset is Some ==> op.spec_query().contains(("offset"@, dec(op.offset->0 as nat))),
        op.q is Some ==> op.spec_query().contains(("q"@, op.q->0@)),
        op.sort is Some ==> op.spec_query().contains(("sort"@, op.sort->0@)),
{
    if op.limit is Some {
        assert(op.spec_query()[(0) as int] == ("limit"@, dec(op.limit->0 as nat)));
    }
    if op.offset is Some {
        assert(op.spec_query()[(opt_pair("limit"@, op.limit).len()) as int] == ("offset"@, dec(op.offset->0 as nat)));
    }
    if op.q is Some {
        assert(op.spec_query()[(opt_pair("limit"@, op.limit).len() + opt_pair("offset"@, op.offset).len()) as int] == ("q"@, op.q->0@));
    }
    if op.sort is Some {
        assert(op.spec_query()[(opt_pair("limit"@, op.limit).len() + opt_pair("offset"@, op.offset).len() + opt_str_pair("q"@, op.q).len()) as int] == ("sort"@, op.sort->0@));
    }
}

/// A chat messages list request carries every value it is given: each of `limit`, `offset`, `sort`, `direction`, `since`, `until`
/// that is set appears in the query under its own name with its text, so a
/// later page's `offset` always reaches the server.
pub proof fn law_list_chat_messages_query(op: ListChatMessages)
    ensures
        op.limit is Some ==> op.spec_query().contains(("limit"@, dec(op.limit->0 as nat))),
        op.offset is Some ==> op.spec_query().contains(("offset"@, dec(op.offset->0 as nat))),
        op.sort is Some ==> op.spec_query().contains(("sort"@, op.sort->0@)),
        op.direction is Some ==> op.spec_query().contains(("direction"@, op.direction->0@)),
        op.since is Some ==> op.spec_query().contains(("since"@, dec_int(op.since->0 as int))),
        op.until is Some ==> op.spec_query().contains(("until"@, dec_int(op.until->0 as int))),
{
    if op.limit is Some {
        assert(op.spec_query()[(0) as int] == ("limit"@, dec(op.limit->0 as nat)));
    }
    if op.offset is Some {
        assert(op.spec_query()[(opt_pair("limit"@, op.limit).len()) as int] == ("offset"@, dec(op.offset->0 as nat)));
    }
    if op.sort is Some {
        assert(op.spec_query()[(opt_pair("limit"@, op.limit).len() + opt_pair("offset"@, op.offset).len()) as int] == ("sort"@, op.sort->0@));
    }
    if op.direction is Some {
        assert(op.spec_query()[(opt_pair("limit"@, op.limit).len() + opt_pair("offset"@, op.offset).len() + opt_str_pair("sort"@, op.sort).len()) as int] == ("direction"@, op.direction->0@));
    }
    if op.since is Some {
        assert(op.spec_query()[(opt_pair("limit"@, op.limit).len() + opt_pair("offset"@, op.offset).len() + opt_str_pair("sort"@, op.sort).len() + opt_str_pair("direction"@, op.direction).len()) as int] == ("since"@, dec_int(op.since->0 as int)));
    }
    if op.until is Some {
        assert(op.spec_query()[(opt_pair("limit"@, op.limit).len() + opt_pair("offset"@, op.offset).len() + opt_str_pair("sort"@, op.sort).len() + opt_str_pair("direction"@, op.direction).len() + opt_pair("since"@, op.since).len()) as int] == ("until"@, dec_int(op.until->0 as int)));
    }
}

} // verus!
