use blooio::operation::{Method, Operation};
use blooio::resources::account::GetMe;
use blooio::resources::chats::{Attachment, MessagePart, SendMessage, Text};
use blooio::resources::facetime::CallFaceTime;
use blooio::resources::groups::{
    AddGroupMember, CreateGroup, DeleteGroup, GetGroup, ListGroupMembers, ListGroups,
    RemoveGroupIcon, RemoveGroupMember, SetGroupIcon, UpdateGroup,
};
use blooio::resources::location::{GetLocationContact, ListLocationContacts, RefreshLocationContacts};
use blooio::resources::numbers::{ListNumbers, RequestCallForwarding};
use blooio::resources::phone_numbers::{BatchLookupPhoneNumbers, LookupPhoneNumber, LookupPhoneNumberPost};
use blooio::types::LinkPreview;
use blooio::resources::contact_card::UpdateMyContactCard;
use blooio::resources::contacts::{CreateContact, RemoveContactTag};

fn body_json<O: Operation>(op: &O) -> serde_json::Value {
    let body = op.body().ok().unwrap().unwrap();
    serde_json::from_slice(&body).unwrap()
}

fn json(text: &str) -> serde_json::Value {
    serde_json::from_str(text).unwrap()
}

#[test]
fn get_me_method_and_path() {
    assert_eq!(GetMe::METHOD, Method::Get);
    assert_eq!(GetMe.path(), "/me");
}

#[test]
fn call_facetime_method_is_post() {
    assert_eq!(CallFaceTime::METHOD, Method::Post);
}

#[test]
fn call_facetime_path() {
    let op = CallFaceTime { handle: "abc123".into() };
    assert_eq!(op.path(), "/facetime/calls");
}

#[test]
fn call_facetime_body_serializes_handle() {
    let op = CallFaceTime { handle: "abc123".into() };
    assert_eq!(body_json(&op), json(r#"{ "handle": "abc123" }"#));
}

#[test]
fn list_groups_method_and_path() {
    assert_eq!(ListGroups::METHOD, Method::Get);
    assert_eq!(ListGroups::default().path(), "/groups");
}

#[test]
fn list_groups_query_empty_when_no_options() {
    assert!(ListGroups::default().query().is_empty());
}

#[test]
fn list_groups_query_with_all_options() {
    let op = ListGroups {
        limit: Some(10),
        offset: Some(20),
        q: Some("test".into()),
        sort: Some("asc".into()),
    };
    let q = op.query();
    assert!(q.contains(&("limit", "10".into())));
    assert!(q.contains(&("offset", "20".into())));
    assert!(q.contains(&("q", "test".into())));
    assert!(q.contains(&("sort", "asc".into())));
    assert_eq!(q.len(), 4);
}

#[test]
fn list_groups_query_omits_unset_optionals() {
    let op = ListGroups { limit: Some(5), offset: None, q: None, sort: None };
    let q = op.query();
    assert_eq!(q.len(), 1);
    assert!(q.contains(&("limit", "5".into())));
}

#[test]
fn create_group_method_and_path() {
    assert_eq!(CreateGroup::METHOD, Method::Post);
    let op = CreateGroup { name: "MyGroup".into(), chat_guid: None, members: None };
    assert_eq!(op.path(), "/groups");
}

#[test]
fn create_group_body_minimal() {
    let op = CreateGroup { name: "MyGroup".into(), chat_guid: None, members: None };
    assert_eq!(body_json(&op), json(r#"{ "name": "MyGroup" }"#));
}

#[test]
fn create_group_body_populated() {
    let op = CreateGroup {
        name: "MyGroup".into(),
        chat_guid: Some("chat-abc".into()),
        members: Some(vec!["m1".into(), "m2".into()]),
    };
    assert_eq!(
        body_json(&op),
        json(r#"{ "name": "MyGroup", "chat_guid": "chat-abc", "members": ["m1", "m2"] }"#)
    );
}

#[test]
fn create_group_builder_matches_literal() {
    let op = CreateGroup::new("MyGroup").chat_guid("chat-abc").members(vec!["m1".into()]);
    assert_eq!(body_json(&op), json(r#"{ "name": "MyGroup", "chat_guid": "chat-abc", "members": ["m1"] }"#));
}

#[test]
fn get_group_method_and_path() {
    assert_eq!(GetGroup::METHOD, Method::Get);
    assert_eq!(GetGroup { group_id: "g1".into() }.path(), "/groups/g1");
}

#[test]
fn update_group_method_and_path() {
    assert_eq!(UpdateGroup::METHOD, Method::Patch);
    assert_eq!(UpdateGroup { group_id: "g1".into(), name: None }.path(), "/groups/g1");
}

#[test]
fn update_group_body_minimal_omits_name() {
    let op = UpdateGroup { group_id: "g1".into(), name: None };
    assert_eq!(body_json(&op), json("{}"));
}

#[test]
fn update_group_body_with_name() {
    let op = UpdateGroup { group_id: "g1".into(), name: Some("Renamed".into()) };
    assert_eq!(body_json(&op), json(r#"{ "name": "Renamed" }"#));
}

#[test]
fn delete_group_method_and_path() {
    assert_eq!(DeleteGroup::METHOD, Method::Delete);
    assert_eq!(DeleteGroup { group_id: "g1".into() }.path(), "/groups/g1");
}

#[test]
fn set_group_icon_method_and_path() {
    assert_eq!(SetGroupIcon::METHOD, Method::Post);
    let op = SetGroupIcon { group_id: "g1".into(), icon: "https://example.com/icon.png".into() };
    assert_eq!(op.path(), "/groups/g1/icon");
}

#[test]
fn set_group_icon_body() {
    let op = SetGroupIcon { group_id: "g1".into(), icon: "https://example.com/icon.png".into() };
    assert_eq!(body_json(&op), json(r#"{ "icon": "https://example.com/icon.png" }"#));
}

#[test]
fn remove_group_icon_method_and_path() {
    assert_eq!(RemoveGroupIcon::METHOD, Method::Delete);
    assert_eq!(RemoveGroupIcon { group_id: "g1".into() }.path(), "/groups/g1/icon");
}

#[test]
fn list_group_members_method_and_path() {
    assert_eq!(ListGroupMembers::METHOD, Method::Get);
    let op = ListGroupMembers { group_id: "g1".into(), limit: None, offset: None };
    assert_eq!(op.path(), "/groups/g1/members");
}

#[test]
fn list_group_members_query_empty_when_no_options() {
    let op = ListGroupMembers { group_id: "g1".into(), limit: None, offset: None };
    assert!(op.query().is_empty());
}

#[test]
fn list_group_members_query_with_options() {
    let op = ListGroupMembers { group_id: "g1".into(), limit: Some(25), offset: Some(50) };
    let q = op.query();
    assert_eq!(q.len(), 2);
    assert!(q.contains(&("limit", "25".into())));
    assert!(q.contains(&("offset", "50".into())));
}

#[test]
fn add_group_member_method_and_path() {
    assert_eq!(AddGroupMember::METHOD, Method::Post);
    let op = AddGroupMember { group_id: "g1".into(), contact_id: "m1".into() };
    assert_eq!(op.path(), "/groups/g1/members");
}

#[test]
fn add_group_member_body() {
    let op = AddGroupMember { group_id: "g1".into(), contact_id: "m1".into() };
    assert_eq!(body_json(&op), json(r#"{ "contact_id": "m1" }"#));
}

#[test]
fn remove_group_member_method_and_path() {
    assert_eq!(RemoveGroupMember::METHOD, Method::Delete);
    let op = RemoveGroupMember { group_id: "g1".into(), contact_id: "m1".into() };
    assert_eq!(op.path(), "/groups/g1/members/m1");
}

#[test]
fn list_location_contacts_method_is_get() {
    assert_eq!(ListLocationContacts::METHOD, Method::Get);
}

#[test]
fn list_location_contacts_path() {
    assert_eq!(ListLocationContacts.path(), "/location/contacts");
}

#[test]
fn list_location_contacts_query_is_empty() {
    assert!(ListLocationContacts.query().is_empty());
}

#[test]
fn list_location_contacts_headers_is_empty() {
    assert!(ListLocationContacts.headers().is_empty());
}

#[test]
fn list_location_contacts_body_is_none() {
    assert!(ListLocationContacts.body().ok().unwrap().is_none());
}

#[test]
fn get_location_contact_method_is_get() {
    assert_eq!(GetLocationContact::METHOD, Method::Get);
}

#[test]
fn get_location_contact_path_interpolates_handle() {
    let op = GetLocationContact { handle: "abc123".into() };
    assert_eq!(op.path(), "/location/contacts/abc123");
}

#[test]
fn get_location_contact_query_is_empty() {
    assert!(GetLocationContact { handle: "abc123".into() }.query().is_empty());
}

#[test]
fn get_location_contact_headers_is_empty() {
    assert!(GetLocationContact { handle: "abc123".into() }.headers().is_empty());
}

#[test]
fn get_location_contact_body_is_none() {
    assert!(GetLocationContact { handle: "abc123".into() }.body().ok().unwrap().is_none());
}

#[test]
fn refresh_location_contacts_method_is_post() {
    assert_eq!(RefreshLocationContacts::METHOD, Method::Post);
}

#[test]
fn refresh_location_contacts_path() {
    assert_eq!(RefreshLocationContacts.path(), "/location/contacts/refresh");
}

#[test]
fn refresh_location_contacts_query_is_empty() {
    assert!(RefreshLocationContacts.query().is_empty());
}

#[test]
fn refresh_location_contacts_headers_is_empty() {
    assert!(RefreshLocationContacts.headers().is_empty());
}

#[test]
fn refresh_location_contacts_body_is_none() {
    assert!(RefreshLocationContacts.body().ok().unwrap().is_none());
}

#[test]
fn list_numbers_method_is_get() {
    assert_eq!(ListNumbers::METHOD, Method::Get);
}

#[test]
fn list_numbers_path() {
    assert_eq!(ListNumbers.path(), "/me/numbers");
}

#[test]
fn request_call_forwarding_method_is_post() {
    assert_eq!(RequestCallForwarding::METHOD, Method::Post);
}

#[test]
fn request_call_forwarding_path_encodes_number() {
    let op = RequestCallForwarding::new("+15551234567", "+15559876543");
    assert_eq!(op.path(), "/me/numbers/%2B15551234567/call-forwarding");
}

#[test]
fn request_call_forwarding_body_uses_forward_to() {
    let op = RequestCallForwarding::new("+15551234567", "+15559876543");
    assert_eq!(body_json(&op), json(r#"{ "forward_to": "+15559876543" }"#));
}

#[test]
fn lookup_method_is_get() {
    assert_eq!(LookupPhoneNumber::METHOD, Method::Get);
}

#[test]
fn lookup_path() {
    let op = LookupPhoneNumber { number: "+15550001111".into() };
    assert_eq!(op.path(), "/phone-numbers/lookup");
}

#[test]
fn lookup_query_contains_number() {
    let op = LookupPhoneNumber { number: "+15550001111".into() };
    let q = op.query();
    assert_eq!(q.len(), 1);
    assert_eq!(q[0], ("number", "+15550001111".to_string()));
}

#[test]
fn lookup_post_method_is_post() {
    assert_eq!(LookupPhoneNumberPost::METHOD, Method::Post);
}

#[test]
fn lookup_post_path() {
    let op = LookupPhoneNumberPost { number: "+15550001111".into() };
    assert_eq!(op.path(), "/phone-numbers/lookup");
}

#[test]
fn lookup_post_body_contains_number() {
    let op = LookupPhoneNumberPost { number: "+15550001111".into() };
    assert_eq!(body_json(&op), json(r#"{ "number": "+15550001111" }"#));
}

#[test]
fn batch_method_is_post() {
    assert_eq!(BatchLookupPhoneNumbers::METHOD, Method::Post);
}

#[test]
fn batch_path() {
    let op = BatchLookupPhoneNumbers { numbers: vec!["+15550001111".into()] };
    assert_eq!(op.path(), "/phone-numbers/batch");
}

#[test]
fn batch_body_single_number() {
    let op = BatchLookupPhoneNumbers::new(["+15550001111"]);
    assert_eq!(body_json(&op), json(r#"{ "numbers": ["+15550001111"] }"#));
}

#[test]
fn batch_body_multiple_numbers() {
    let op = BatchLookupPhoneNumbers::new(["+15550001111", "+15550002222"]);
    assert_eq!(body_json(&op), json(r#"{ "numbers": ["+15550001111", "+15550002222"] }"#));
}

#[test]
fn batch_body_preserves_vec_string_literal_inference() {
    let op = BatchLookupPhoneNumbers::new(vec!["+15550001111".into(), "+15550002222".into()]);
    assert_eq!(body_json(&op), json(r#"{ "numbers": ["+15550001111", "+15550002222"] }"#));
}

#[test]
fn batch_body_empty_list() {
    let op = BatchLookupPhoneNumbers { numbers: vec![] };
    assert_eq!(body_json(&op), json(r#"{ "numbers": [] }"#));
}

#[test]
fn text_serializes_untagged() {
    assert_eq!(Text::One("hi".into()).to_json(), b"\"hi\"".to_vec());
    assert_eq!(Text::Many(vec!["a".into(), "b".into()]).to_json(), b"[\"a\",\"b\"]".to_vec());
}

#[test]
fn auto_idempotency_key_is_generated() {
    let msg = SendMessage::new("chat1").text("hello");
    let headers = msg.headers();
    assert_eq!(headers.len(), 1);
    assert_eq!(headers[0].0, "Idempotency-Key");
    assert_eq!(headers[0].1.len(), 36);
    // A fresh key each time.
    assert_ne!(msg.headers()[0].1, headers[0].1);
}

#[test]
fn explicit_idempotency_key_is_used() {
    let msg = SendMessage::new("chat1").text("hi").idempotency_key("my-key");
    assert_eq!(msg.headers()[0].1, "my-key");
}

#[test]
fn send_body_only_includes_set_fields() {
    let msg = SendMessage::new("chat1").text("hi");
    assert_eq!(body_json(&msg), json(r#"{ "text": "hi" }"#));
}

#[test]
fn send_body_full_field_order_and_escaping() {
    let msg = SendMessage::new("c")
        .text(vec!["a\"b".to_owned(), "line\nbreak".to_owned()])
        .attachments(vec![
            Attachment::from_url("https://x/a.png"),
            Attachment::Named { url: "https://x/b.pdf".into(), name: Some("b.pdf".into()) },
        ])
        .use_typing_indicator(true)
        .from_number("+1555")
        .share_contact(false)
        .parts(vec![MessagePart { text: Some("p".into()), ..Default::default() }])
        .link_preview(LinkPreview { image_url: None, title: Some("T".into()) })
        .effect("slam");
    let body = msg.body().ok().unwrap().unwrap();
    assert_eq!(
        String::from_utf8(body).unwrap(),
        r#"{"text":["a\"b","line\nbreak"],"attachments":["https://x/a.png",{"url":"https://x/b.pdf","name":"b.pdf"}],"use_typing_indicator":true,"from_number":"+1555","share_contact":false,"parts":[{"text":"p"}],"link_preview":{"title":"T"},"effect":"slam"}"#
    );
    assert_eq!(msg.path(), "/chats/c/messages");
}

#[test]
fn identifiers_are_percent_encoded_in_paths() {
    let op = RemoveContactTag { contact_id: "c1".into(), tag: "a/b".into() };
    assert_eq!(op.path(), "/contacts/c1/tags/a%2Fb");
    assert_eq!(RemoveContactTag::method(), Method::Delete);
    let op = GetLocationContact { handle: "a/b".into() };
    assert_eq!(op.path(), "/location/contacts/a%2Fb");
    let op = GetLocationContact { handle: "abc123".into() };
    assert_eq!(op.path(), "/location/contacts/abc123");
    let op = UpdateMyContactCard::new("+15551234567").first_name("Ann");
    assert_eq!(op.path(), "/me/numbers/%2B15551234567/contact-card");
    assert_eq!(body_json(&op), json(r#"{"first_name":"Ann"}"#));
    let op = SendMessage::new("chat 1?x").text("hi");
    assert_eq!(op.path(), "/chats/chat%201%3Fx/messages");
}

#[test]
fn method_accessors_match_the_constants() {
    assert_eq!(GetMe::method(), GetMe::METHOD);
    assert_eq!(CallFaceTime::method(), Method::Post);
    assert_eq!(CreateContact::method(), Method::Post);
    assert!(!CreateContact::retry_safe());
    assert_eq!(SendMessage::method(), Method::Post);
    assert_eq!(SendMessage::retry_safe(), SendMessage::RETRY_SAFE);
}
