use tgbot::types::chat::{
    Chat, ChatAction, ChatId, ChatPermissions, ChatPhoto, RawChat, RawChatKind,
};
use tgbot::types::message::{Message, RawMessage};
use tgbot::types::User;

fn raw_chat(id: i64, kind: RawChatKind) -> RawChat {
    RawChat {
        id,
        kind,
        title: None,
        username: None,
        first_name: None,
        last_name: None,
        all_members_are_administrators: None,
        photo: None,
        description: None,
        invite_link: None,
        pinned_message: None,
        sticker_set_name: None,
        can_set_sticker_set: None,
        permissions: None,
        slow_mode_delay: None,
    }
}

fn raw_message(id: i64, date: i64, chat: Chat) -> RawMessage {
    RawMessage {
        message_id: id,
        from: None,
        date,
        chat,
        forward_from: None,
        forward_from_chat: None,
        forward_from_message_id: None,
        forward_signature: None,
        forward_sender_name: None,
        forward_date: None,
        reply_to_message: None,
        edit_date: None,
        media_group_id: None,
        author_signature: None,
        text: None,
        entities: None,
        caption_entities: None,
        audio: None,
        document: None,
        animation: None,
        photo: None,
        sticker: None,
        video: None,
        voice: None,
        video_note: None,
        caption: None,
        contact: None,
        location: None,
        venue: None,
        poll: None,
        new_chat_members: None,
        left_chat_member: None,
        new_chat_title: None,
        new_chat_photo: None,
        delete_chat_photo: None,
        group_chat_created: None,
        supergroup_chat_created: None,
        channel_chat_created: None,
        migrate_to_chat_id: None,
        migrate_from_chat_id: None,
        pinned_message: None,
        invoice: None,
        successful_payment: None,
        connected_website: None,
        reply_markup: None,
    }
}

fn user() -> User {
    User {
        id: 1,
        is_bot: false,
        first_name: String::from("user"),
        last_name: None,
        username: None,
        language_code: None,
    }
}

fn photo() -> ChatPhoto {
    ChatPhoto {
        small_file_id: String::from("smallfileid"),
        small_file_unique_id: String::from("smallfileuniqueid"),
        big_file_id: String::from("bigfileid"),
        big_file_unique_id: String::from("bigfileuniqueid"),
    }
}

fn text_message(chat: RawChat, from: Option<User>) -> Box<Message> {
    let chat = Chat::from_raw(chat).unwrap();
    let mut raw = raw_message(1, 0, chat);
    raw.from = from;
    raw.text = Some(String::from("test"));
    Box::new(Message::from_raw(raw).unwrap())
}

fn permissions() -> ChatPermissions {
    let mut permissions = ChatPermissions::default();
    permissions.can_send_messages = Some(true);
    permissions
}

fn channel_chat() -> RawChat {
    let mut raw = raw_chat(1, RawChatKind::Channel);
    raw.title = Some(String::from("channeltitle"));
    raw.username = Some(String::from("channelusername"));
    raw.photo = Some(photo());
    raw.description = Some(String::from("channeldescription"));
    raw.invite_link = Some(String::from("channelinvitelink"));
    let mut pinned_chat = raw_chat(1, RawChatKind::Channel);
    pinned_chat.title = Some(String::from("channeltitle"));
    raw.pinned_message = Some(text_message(pinned_chat, None));
    raw
}

#[test]
fn deserialize_channel() {
    let chat = Chat::from_raw(channel_chat()).unwrap();
    if let Chat::Channel(chat) = chat {
        assert_eq!(chat.id, 1);
        assert_eq!(chat.title, "channeltitle");
        assert_eq!(chat.username.unwrap(), "channelusername");
        let photo = chat.photo.unwrap();
        assert_eq!(photo.small_file_id, "smallfileid");
        assert_eq!(photo.small_file_unique_id, "smallfileuniqueid");
        assert_eq!(photo.big_file_id, "bigfileid");
        assert_eq!(photo.big_file_unique_id, "bigfileuniqueid");
        assert_eq!(chat.description.unwrap(), "channeldescription");
        assert_eq!(chat.invite_link.unwrap(), "channelinvitelink");
        assert!(chat.pinned_message.is_some());
    } else {
        panic!("Unexpected chat: {:?}", chat);
    }

    let mut raw = raw_chat(1, RawChatKind::Channel);
    raw.title = Some(String::from("channeltitle"));
    let chat = Chat::from_raw(raw).unwrap();
    if let Chat::Channel(chat) = chat {
        assert_eq!(chat.id, 1);
        assert_eq!(chat.title, "channeltitle");
        assert!(chat.username.is_none());
        assert!(chat.photo.is_none());
        assert!(chat.description.is_none());
        assert!(chat.invite_link.is_none());
        assert!(chat.pinned_message.is_none());
    } else {
        panic!("Unexpected chat: {:?}", chat);
    }
}

fn group_chat() -> RawChat {
    let mut raw = raw_chat(1, RawChatKind::Group);
    raw.title = Some(String::from("grouptitle"));
    raw.all_members_are_administrators = Some(true);
    raw.photo = Some(photo());
    raw.invite_link = Some(String::from("groupinvitelink"));
    let mut pinned_chat = raw_chat(1, RawChatKind::Group);
    pinned_chat.title = Some(String::from("grouptitle"));
    pinned_chat.all_members_are_administrators = Some(true);
    raw.pinned_message = Some(text_message(pinned_chat, Some(user())));
    raw.permissions = Some(permissions());
    raw
}

#[test]
fn deserialize_group() {
    let chat = Chat::from_raw(group_chat()).unwrap();
    if let Chat::Group(chat) = chat {
        assert_eq!(chat.id, 1);
        assert_eq!(chat.title, "grouptitle");
        assert!(chat.all_members_are_administrators);
        let photo = chat.photo.unwrap();
        assert_eq!(photo.small_file_id, "smallfileid");
        assert_eq!(photo.small_file_unique_id, "smallfileuniqueid");
        assert_eq!(photo.big_file_id, "bigfileid");
        assert_eq!(photo.big_file_unique_id, "bigfileuniqueid");
        assert_eq!(chat.invite_link.unwrap(), "groupinvitelink");
        let permissions = chat.permissions.unwrap();
        assert!(permissions.can_send_messages.unwrap());
        assert!(chat.pinned_message.is_some());
    } else {
        panic!("Unexpected chat: {:?}", chat);
    }

    let mut raw = raw_chat(1, RawChatKind::Group);
    raw.title = Some(String::from("grouptitle"));
    raw.all_members_are_administrators = Some(false);
    let chat = Chat::from_raw(raw).unwrap();
    if let Chat::Group(chat) = chat {
        assert_eq!(chat.id, 1);
        assert_eq!(chat.title, "grouptitle");
        assert!(!chat.all_members_are_administrators);
        assert!(chat.photo.is_none());
        assert!(chat.invite_link.is_none());
        assert!(chat.pinned_message.is_none());
        assert!(chat.permissions.is_none());
    } else {
        panic!("Unexpected chat: {:?}", chat);
    }
}

fn private_chat() -> RawChat {
    let mut raw = raw_chat(1, RawChatKind::Private);
    raw.username = Some(String::from("testusername"));
    raw.first_name = Some(String::from("testfirstname"));
    raw.last_name = Some(String::from("testlastname"));
    raw.photo = Some(photo());
    raw
}

#[test]
fn deserialize_private() {
    let chat = Chat::from_raw(private_chat()).unwrap();
    if let Chat::Private(chat) = chat {
        assert_eq!(chat.id, 1);
        assert_eq!(chat.username.unwrap(), "testusername");
        assert_eq!(chat.first_name, "testfirstname");
        assert_eq!(chat.last_name.unwrap(), "testlastname");
        let photo = chat.photo.unwrap();
        assert_eq!(photo.small_file_id, "smallfileid");
        assert_eq!(photo.small_file_unique_id, "smallfileuniqueid");
        assert_eq!(photo.big_file_id, "bigfileid");
        assert_eq!(photo.big_file_unique_id, "bigfileuniqueid");
    } else {
        panic!("Unexpected chat: {:?}", chat)
    }

    let mut raw = raw_chat(1, RawChatKind::Private);
    raw.first_name = Some(String::from("testfirstname"));
    let chat = Chat::from_raw(raw).unwrap();
    if let Chat::Private(chat) = chat {
        assert_eq!(chat.id, 1);
        assert!(chat.username.is_none());
        assert_eq!(chat.first_name, "testfirstname");
        assert!(chat.last_name.is_none());
        assert!(chat.photo.is_none());
    } else {
        panic!("Unexpected chat: {:?}", chat)
    }
}

fn supergroup_chat() -> RawChat {
    let mut raw = raw_chat(1, RawChatKind::Supergroup);
    raw.title = Some(String::from("supergrouptitle"));
    raw.username = Some(String::from("supergroupusername"));
    raw.photo = Some(photo());
    raw.description = Some(String::from("supergroupdescription"));
    raw.invite_link = Some(String::from("supergroupinvitelink"));
    raw.sticker_set_name = Some(String::from("supergroupstickersetname"));
    raw.can_set_sticker_set = Some(true);
    raw.slow_mode_delay = Some(10);
    raw.permissions = Some(permissions());
    let mut pinned_chat = raw_chat(1, RawChatKind::Supergroup);
    pinned_chat.title = Some(String::from("supergrouptitle"));
    pinned_chat.username = Some(String::from("supergroupusername"));
    raw.pinned_message = Some(text_message(pinned_chat, Some(user())));
    raw
}

#[test]
fn deserialize_supergroup_full() {
    let chat = Chat::from_raw(supergroup_chat()).unwrap();
    if let Chat::Supergroup(chat) = chat {
        assert_eq!(chat.id, 1);
        assert_eq!(chat.title, "supergrouptitle");
        assert_eq!(chat.username.unwrap(), "supergroupusername");
        let photo = chat.photo.unwrap();
        assert_eq!(photo.small_file_id, "smallfileid");
        assert_eq!(photo.small_file_unique_id, "smallfileuniqueid");
        assert_eq!(photo.big_file_id, "bigfileid");
        assert_eq!(photo.big_file_unique_id, "bigfileuniqueid");
        assert_eq!(chat.description.unwrap(), "supergroupdescription");
        assert_eq!(chat.invite_link.unwrap(), "supergroupinvitelink");
        assert_eq!(chat.sticker_set_name.unwrap(), "supergroupstickersetname");
        assert_eq!(chat.slow_mode_delay.unwrap(), 10);
        assert!(chat.can_set_sticker_set.unwrap());
        assert!(chat.pinned_message.is_some());
        let permissions = chat.permissions.unwrap();
        assert!(permissions.can_send_messages.unwrap());
    } else {
        panic!("Unexpected chat: {:?}", chat)
    }
}

fn supergroup_partial() -> RawChat {
    let mut raw = raw_chat(1, RawChatKind::Supergroup);
    raw.title = Some(String::from("supergrouptitle"));
    raw.username = Some(String::from("supergroupusername"));
    raw
}

#[test]
fn deserialize_supergroup_partial() {
    let chat = Chat::from_raw(supergroup_partial()).unwrap();
    if let Chat::Supergroup(chat) = chat {
        assert_eq!(chat.id, 1);
        assert_eq!(chat.title, "supergrouptitle");
        assert_eq!(chat.username.unwrap(), "supergroupusername");
        assert!(chat.photo.is_none());
        assert!(chat.description.is_none());
        assert!(chat.invite_link.is_none());
        assert!(chat.sticker_set_name.is_none());
        assert!(chat.can_set_sticker_set.is_none());
        assert!(chat.pinned_message.is_none());
        assert!(chat.permissions.is_none());
    } else {
        panic!("Unexpected chat: {:?}", chat)
    }
}

#[test]
fn test_deserialize_channel() {
    let chat = Chat::from_raw(channel_chat()).unwrap();
    if let Chat::Channel(chat) = chat {
        assert_eq!(chat.id, 1);
        assert_eq!(chat.title, String::from("channeltitle"));
        assert_eq!(chat.username, Some(String::from("channelusername")));
        let photo = chat.photo.unwrap();
        assert_eq!(photo.small_file_id, String::from("smallfileid"));
        assert_eq!(photo.big_file_id, String::from("bigfileid"));
        assert_eq!(chat.description, Some(String::from("channeldescription")));
        assert_eq!(chat.invite_link, Some(String::from("channelinvitelink")));
        assert!(chat.pinned_message.is_some());
    } else {
        panic!("Unexpected chat: {:?}", chat);
    }
    let mut raw = raw_chat(1, RawChatKind::Channel);
    raw.title = Some(String::from("channeltitle"));
    let chat = Chat::from_raw(raw).unwrap();
    if let Chat::Channel(chat) = chat {
        assert_eq!(chat.id, 1);
        assert_eq!(chat.title, String::from("channeltitle"));
        assert_eq!(chat.username.is_none(), true);
        assert_eq!(chat.photo.is_none(), true);
        assert_eq!(chat.description.is_none(), true);
        assert_eq!(chat.invite_link.is_none(), true);
        assert_eq!(chat.pinned_message.is_none(), true);
    } else {
        panic!("Unexpected chat: {:?}", chat);
    }
}

#[test]
fn test_deserialize_group() {
    let chat = Chat::from_raw(group_chat()).unwrap();
    if let Chat::Group(chat) = chat {
        assert_eq!(chat.id, 1);
        assert_eq!(chat.title, String::from("grouptitle"));
        assert_eq!(chat.all_members_are_administrators, true);
        let photo = chat.photo.unwrap();
        assert_eq!(photo.small_file_id, String::from("smallfileid"));
        assert_eq!(photo.big_file_id, String::from("bigfileid"));
        assert_eq!(chat.invite_link, Some(String::from("groupinvitelink")));
        assert!(chat.pinned_message.is_some());
    } else {
        panic!("Unexpected chat: {:?}", chat);
    }
    let mut raw = raw_chat(1, RawChatKind::Group);
    raw.title = Some(String::from("grouptitle"));
    raw.all_members_are_administrators = Some(false);
    let chat = Chat::from_raw(raw).unwrap();
    if let Chat::Group(chat) = chat {
        assert_eq!(chat.id, 1);
        assert_eq!(chat.title, String::from("grouptitle"));
        assert_eq!(chat.all_members_are_administrators, false);
        assert_eq!(chat.photo.is_none(), true);
        assert_eq!(chat.invite_link.is_none(), true);
        assert_eq!(chat.pinned_message.is_none(), true);
    } else {
        panic!("Unexpected chat: {:?}", chat);
    }
}

#[test]
fn test_deserialize_private() {
    let chat = Chat::from_raw(private_chat()).unwrap();
    if let Chat::Private(chat) = chat {
        assert_eq!(chat.id, 1);
        assert_eq!(chat.username, Some(String::from("testusername")));
        assert_eq!(chat.first_name, String::from("testfirstname"));
        assert_eq!(chat.last_name, Some(String::from("testlastname")));
        let photo = chat.photo.unwrap();
        assert_eq!(photo.small_file_id, "smallfileid");
        assert_eq!(photo.big_file_id, "bigfileid");
    } else {
        panic!("Unexpected chat: {:?}", chat)
    }
    let mut raw = raw_chat(1, RawChatKind::Private);
    raw.first_name = Some(String::from("testfirstname"));
    let chat = Chat::from_raw(raw).unwrap();
    if let Chat::Private(chat) = chat {
        assert_eq!(chat.id, 1);
        assert_eq!(chat.username.is_none(), true);
        assert_eq!(chat.first_name, String::from("testfirstname"));
        assert_eq!(chat.last_name.is_none(), true);
        assert_eq!(chat.photo.is_none(), true);
    } else {
        panic!("Unexpected chat: {:?}", chat)
    }
}

#[test]
fn test_deserialize_supergroup() {
    let chat = Chat::from_raw(supergroup_chat()).unwrap();
    if let Chat::Supergroup(chat) = chat {
        assert_eq!(chat.id, 1);
        assert_eq!(chat.title, String::from("supergrouptitle"));
        assert_eq!(chat.username, Some(String::from("supergroupusername")));
        let photo = chat.photo.unwrap();
        assert_eq!(photo.small_file_id, "smallfileid");
        assert_eq!(photo.big_file_id, "bigfileid");
        assert_eq!(chat.description, Some(String::from("supergroupdescription")));
        assert_eq!(chat.invite_link, Some(String::from("supergroupinvitelink")));
        assert_eq!(chat.sticker_set_name, Some(String::from("supergroupstickersetname")));
        assert_eq!(chat.can_set_sticker_set, Some(true));
        assert!(chat.pinned_message.is_some());
    } else {
        panic!("Unexpected chat: {:?}", chat)
    }
    let chat = Chat::from_raw(supergroup_partial()).unwrap();
    if let Chat::Supergroup(chat) = chat {
        assert_eq!(chat.id, 1);
        assert_eq!(chat.title, String::from("supergrouptitle"));
        assert_eq!(chat.username, Some(String::from("supergroupusername")));
        assert_eq!(chat.photo.is_none(), true);
        assert_eq!(chat.description.is_none(), true);
        assert_eq!(chat.invite_link.is_none(), true);
        assert_eq!(chat.sticker_set_name.is_none(), true);
        assert_eq!(chat.can_set_sticker_set.is_none(), true);
        assert_eq!(chat.pinned_message.is_none(), true);
    } else {
        panic!("Unexpected chat: {:?}", chat)
    }
}

#[test]
fn chat_missing_fields() {
    let err = Chat::from_raw(raw_chat(1, RawChatKind::Channel)).unwrap_err();
    assert_eq!(err.field, "title");
    assert_eq!(err.to_string(), "missing field `title`");
    let mut raw = raw_chat(1, RawChatKind::Group);
    raw.title = Some(String::from("grouptitle"));
    let err = Chat::from_raw(raw).unwrap_err();
    assert_eq!(err.field, "all_members_are_administrators");
    let err = Chat::from_raw(raw_chat(1, RawChatKind::Private)).unwrap_err();
    assert_eq!(err.field, "first_name");
    let err = Chat::from_raw(raw_chat(1, RawChatKind::Supergroup)).unwrap_err();
    assert_eq!(err.field, "title");
}

#[test]
fn chat_id() {
    let chat_id = ChatId::from(1);
    if let ChatId::Id(chat_id) = chat_id {
        assert_eq!(chat_id, 1);
    } else {
        panic!("Unexpected chat id: {:?}", chat_id);
    }
    assert_eq!(chat_id.to_json(), r#"1"#);
    assert_eq!(chat_id.to_string(), "1");

    let chat_id = ChatId::from("username");
    if let ChatId::Username(ref username) = chat_id {
        assert_eq!(username, "username");
    } else {
        panic!("Unexpected chat id: {:?}", chat_id);
    }
    assert_eq!(chat_id.to_json(), r#""username""#);
    assert_eq!(chat_id.to_string(), "username");

    let chat_id = ChatId::from(String::from("username"));
    if let ChatId::Username(ref username) = chat_id {
        assert_eq!(username, "username");
    } else {
        panic!("Unexpected chat id: {:?}", chat_id);
    }
    assert_eq!(chat_id.to_json(), r#""username""#);
    assert_eq!(chat_id.to_string(), "username");

    assert_eq!(ChatId::from(-100).to_string(), "-100");
}

#[test]
fn chat_action() {
    assert_eq!(ChatAction::FindLocation.to_json(), r#""find_location""#);
    assert_eq!(ChatAction::RecordAudio.to_json(), r#""record_audio""#);
    assert_eq!(ChatAction::RecordVideo.to_json(), r#""record_video""#);
    assert_eq!(ChatAction::RecordVideoNote.to_json(), r#""record_video_note""#);
    assert_eq!(ChatAction::Typing.to_json(), r#""typing""#);
    assert_eq!(ChatAction::UploadAudio.to_json(), r#""upload_audio""#);
    assert_eq!(ChatAction::UploadDocument.to_json(), r#""upload_document""#);
    assert_eq!(ChatAction::UploadPhoto.to_json(), r#""upload_photo""#);
    assert_eq!(ChatAction::UploadVideo.to_json(), r#""upload_video""#);
    assert_eq!(ChatAction::UploadVideoNote.to_json(), r#""upload_video_note""#);
}

#[test]
fn permissions_serialize() {
    let permissions = ChatPermissions::default()
        .with_send_messages(true)
        .with_send_media_messages(false)
        .with_send_polls(true)
        .with_send_other_messages(false)
        .with_add_web_page_previews(true)
        .with_change_info(false)
        .with_invite_users(true)
        .with_pin_messages(false);
    assert_eq!(
        permissions.to_json(),
        r#"{"can_send_messages":true,"can_send_media_messages":false,"can_send_polls":true,"can_send_other_messages":false,"can_add_web_page_previews":true,"can_change_info":false,"can_invite_users":true,"can_pin_messages":false}"#
    );
    assert_eq!(ChatPermissions::default().to_json(), "{}");
    assert_eq!(
        ChatPermissions::allowed().to_json(),
        r#"{"can_send_messages":true,"can_send_media_messages":true,"can_send_polls":true,"can_send_other_messages":true,"can_add_web_page_previews":true,"can_change_info":true,"can_invite_users":true,"can_pin_messages":true}"#
    );
    assert_eq!(
        ChatPermissions::restricted().to_json(),
        r#"{"can_send_messages":false,"can_send_media_messages":false,"can_send_polls":false,"can_send_other_messages":false,"can_add_web_page_previews":false,"can_change_info":false,"can_invite_users":false,"can_pin_messages":false}"#
    );
}
