use tgbot::types::chat::{ChatMember, RawChatMember, RawChatMemberStatus};
use tgbot::types::User;

fn user(is_bot: bool, last_name: Option<&str>, username: Option<&str>, language_code: Option<&str>) -> User {
    User {
        id: 1,
        is_bot,
        first_name: String::from("firstname"),
        last_name: last_name.map(String::from),
        username: username.map(String::from),
        language_code: language_code.map(String::from),
    }
}

fn raw(status: RawChatMemberStatus, user: User) -> RawChatMember {
    RawChatMember {
        user,
        status,
        until_date: None,
        can_be_edited: None,
        can_change_info: None,
        can_post_messages: None,
        can_edit_messages: None,
        can_delete_messages: None,
        can_invite_users: None,
        can_restrict_members: None,
        can_pin_messages: None,
        can_promote_members: None,
        is_member: None,
        can_send_messages: None,
        can_send_media_messages: None,
        can_send_polls: None,
        can_send_other_messages: None,
        can_add_web_page_previews: None,
    }
}

fn admin_raw() -> RawChatMember {
    let mut raw = raw(
        RawChatMemberStatus::Administrator,
        user(false, Some("lastname"), Some("username"), Some("RU")),
    );
    raw.can_be_edited = Some(true);
    raw.can_change_info = Some(false);
    raw.can_post_messages = Some(true);
    raw.can_edit_messages = Some(false);
    raw.can_delete_messages = Some(true);
    raw.can_invite_users = Some(false);
    raw.can_restrict_members = Some(true);
    raw.can_pin_messages = Some(false);
    raw.can_promote_members = Some(true);
    raw
}

fn restricted_raw() -> RawChatMember {
    let mut raw = raw(RawChatMemberStatus::Restricted, user(true, None, None, None));
    raw.until_date = Some(0);
    raw.can_change_info = Some(true);
    raw.can_invite_users = Some(false);
    raw.can_send_polls = Some(true);
    raw.can_pin_messages = Some(false);
    raw.can_send_messages = Some(true);
    raw.can_send_media_messages = Some(false);
    raw.can_send_other_messages = Some(true);
    raw.can_add_web_page_previews = Some(false);
    raw.is_member = Some(true);
    raw
}

fn check_admin(mut admin: ChatMember) {
    assert!(admin.is_member());
    assert_eq!(admin.user().id, 1);
    if let ChatMember::Administrator(ref mut admin) = admin {
        assert_eq!(admin.user.id, 1);
        assert_eq!(admin.user.is_bot, false);
        assert_eq!(admin.user.first_name, "firstname");
        assert_eq!(admin.user.last_name.take().unwrap(), "lastname");
        assert_eq!(admin.user.username.take().unwrap(), "username");
        assert_eq!(admin.user.language_code.take().unwrap(), "RU");
        assert_eq!(admin.can_be_edited, true);
        assert_eq!(admin.can_change_info, false);
        assert_eq!(admin.can_post_messages, Some(true));
        assert_eq!(admin.can_edit_messages, Some(false));
        assert_eq!(admin.can_delete_messages, true);
        assert_eq!(admin.can_invite_users, false);
        assert_eq!(admin.can_restrict_members, true);
        assert_eq!(admin.can_pin_messages, Some(false));
        assert_eq!(admin.can_promote_members, true);
    } else {
        panic!("Unexpected chat member: {:?}", admin);
    }
}

fn check_creator(creator: ChatMember) {
    assert!(creator.is_member());
    assert_eq!(creator.user().id, 1);
    if let ChatMember::Creator(ref creator) = creator {
        assert_eq!(creator.id, 1);
        assert_eq!(creator.is_bot, false);
        assert_eq!(creator.first_name, String::from("firstname"));
        assert_eq!(creator.last_name, None);
        assert_eq!(creator.username, None);
        assert_eq!(creator.language_code, None);
    } else {
        panic!("Unexpected chat member: {:?}", creator);
    }
}

fn kicked_raw() -> RawChatMember {
    let mut raw = raw(RawChatMemberStatus::Kicked, user(true, Some("lastname"), Some("username"), None));
    raw.until_date = Some(0);
    raw
}

fn check_kicked(mut kicked: ChatMember) {
    assert!(!kicked.is_member());
    assert_eq!(kicked.user().id, 1);
    if let ChatMember::Kicked(ref mut kicked) = kicked {
        assert_eq!(kicked.user.id, 1);
        assert_eq!(kicked.user.is_bot, true);
        assert_eq!(kicked.user.first_name, "firstname");
        assert_eq!(kicked.user.last_name.take().unwrap(), "lastname");
        assert_eq!(kicked.user.username.take().unwrap(), "username");
        assert!(kicked.user.language_code.is_none());
        assert_eq!(kicked.until_date, 0);
    } else {
        panic!("Unexpected chat member: {:?}", kicked);
    }
}

fn check_left(left: ChatMember) {
    assert!(!left.is_member());
    assert_eq!(left.user().id, 1);
    if let ChatMember::Left(ref left) = left {
        assert_eq!(left.id, 1);
        assert_eq!(left.is_bot, true);
        assert_eq!(left.first_name, "firstname");
        assert!(left.last_name.is_none());
        assert!(left.username.is_none());
        assert!(left.language_code.is_none());
    } else {
        panic!("Unexpected chat member: {:?}", left);
    }
}

fn check_plain(plain: ChatMember) {
    assert!(plain.is_member());
    assert_eq!(plain.user().id, 1);
    if let ChatMember::Member(ref plain) = plain {
        assert_eq!(plain.id, 1);
        assert_eq!(plain.is_bot, false);
        assert_eq!(plain.first_name, "firstname");
        assert!(plain.last_name.is_none());
        assert!(plain.username.is_none());
        assert!(plain.language_code.is_none());
    } else {
        panic!("Unexpected chat member: {:?}", plain);
    }
}

fn check_restricted(restricted: ChatMember) {
    assert_eq!(restricted.user().id, 1);
    assert!(restricted.is_member());
    if let ChatMember::Restricted(ref restricted) = restricted {
        assert_eq!(restricted.user.id, 1);
        assert_eq!(restricted.user.is_bot, true);
        assert_eq!(restricted.user.first_name, "firstname");
        assert!(restricted.user.last_name.is_none());
        assert!(restricted.user.username.is_none());
        assert!(restricted.user.language_code.is_none());
        assert_eq!(restricted.until_date, 0);
        assert!(restricted.can_change_info);
        assert!(!restricted.can_invite_users);
        assert!(restricted.can_send_polls);
        assert!(!restricted.can_pin_messages.unwrap());
        assert!(restricted.can_send_messages);
        assert!(!restricted.can_send_media_messages);
        assert!(restricted.can_send_other_messages);
        assert!(!restricted.can_add_web_page_previews);
        assert!(restricted.is_member);
    } else {
        panic!("Unexpected chat member: {:?}", restricted);
    }
}

#[test]
fn deserialize_chat_member_admin() {
    check_admin(ChatMember::from_raw(admin_raw()).unwrap());
}

#[test]
fn deserialize_chat_member_creator() {
    check_creator(ChatMember::from_raw(raw(RawChatMemberStatus::Creator, user(false, None, None, None))).unwrap());
}

#[test]
fn deserialize_chat_member_kicked() {
    check_kicked(ChatMember::from_raw(kicked_raw()).unwrap());
}

#[test]
fn deserialize_chat_member_left() {
    check_left(ChatMember::from_raw(raw(RawChatMemberStatus::Left, user(true, None, None, None))).unwrap());
}

#[test]
fn deserialize_chat_member_plain() {
    check_plain(ChatMember::from_raw(raw(RawChatMemberStatus::Member, user(false, None, None, None))).unwrap());
}

#[test]
fn deserialize_chat_member_restricted() {
    check_restricted(ChatMember::from_raw(restricted_raw()).unwrap());
}

#[test]
fn test_deserialize_chat_member_admin() {
    check_admin(ChatMember::from_raw(admin_raw()).unwrap());
}

#[test]
fn test_deserialize_chat_member_creator() {
    check_creator(ChatMember::from_raw(raw(RawChatMemberStatus::Creator, user(false, None, None, None))).unwrap());
}

#[test]
fn test_deserialize_chat_member_kicked() {
    check_kicked(ChatMember::from_raw(kicked_raw()).unwrap());
}

#[test]
fn test_deserialize_chat_member_left() {
    check_left(ChatMember::from_raw(raw(RawChatMemberStatus::Left, user(true, None, None, None))).unwrap());
}

#[test]
fn test_deserialize_chat_member_plain() {
    check_plain(ChatMember::from_raw(raw(RawChatMemberStatus::Member, user(false, None, None, None))).unwrap());
}

#[test]
fn test_deserialize_chat_member_restricted() {
    check_restricted(ChatMember::from_raw(restricted_raw()).unwrap());
}

#[test]
fn chat_member_missing_field() {
    let err = ChatMember::from_raw(raw(RawChatMemberStatus::Kicked, user(false, None, None, None))).unwrap_err();
    assert_eq!(err.field, "until_date");
    let err = ChatMember::from_raw(raw(RawChatMemberStatus::Administrator, user(false, None, None, None)))
        .unwrap_err();
    assert_eq!(err.field, "can_be_edited");
}
