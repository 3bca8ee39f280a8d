use tgbot::types::chat::{Chat, RawChat, RawChatKind};
use tgbot::types::message::{
    BotCommand, EditMessageResult, ForwardFrom, Message, MessageData, MessageKind, RawMessage, RawMessageEntity,
    RawMessageEntityKind, ParseTextError, Text, TextEntity, TextEntityData, TextLink, TextMention,
};
use tgbot::types::{
    Animation, Audio, Contact, Document, Invoice, Location, PhotoSize, Poll, PollKind, PollOption,
    Sticker, SuccessfulPayment, User, Venue, Video, VideoNote, Voice,
};

fn raw_chat(id: i64, kind: RawChatKind) -> RawChat {
    RawChat {
        id,
        kind,
        title: None,
        username: None,
        first_name: None,
        last_name: None,
        all_members_are_administrators: None,
        photo: None,
        description: None,
        invite_link: None,
        pinned_message: None,
        sticker_set_name: None,
        can_set_sticker_set: None,
        permissions: None,
        slow_mode_delay: None,
    }
}

fn supergroup(id: i64, username: Option<&str>) -> Chat {
    let mut raw = raw_chat(id, RawChatKind::Supergroup);
    raw.title = Some(String::from("supergrouptitle"));
    raw.username = username.map(String::from);
    Chat::from_raw(raw).unwrap()
}

fn user(id: i64, first_name: &str) -> User {
    User {
        id,
        is_bot: false,
        first_name: String::from(first_name),
        last_name: None,
        username: None,
        language_code: None,
    }
}

fn raw_message(id: i64, date: i64, chat: Chat) -> RawMessage {
    RawMessage {
        message_id: id,
        from: None,
        date,
        chat,
        forward_from: None,
        forward_from_chat: None,
        forward_from_message_id: None,
        forward_signature: None,
        forward_sender_name: None,
        forward_date: None,
        reply_to_message: None,
        edit_date: None,
        media_group_id: None,
        author_signature: None,
        text: None,
        entities: None,
        caption_entities: None,
        audio: None,
        document: None,
        animation: None,
        photo: None,
        sticker: None,
        video: None,
        voice: None,
        video_note: None,
        caption: None,
        contact: None,
        location: None,
        venue: None,
        poll: None,
        new_chat_members: None,
        left_chat_member: None,
        new_chat_title: None,
        new_chat_photo: None,
        delete_chat_photo: None,
        group_chat_created: None,
        supergroup_chat_created: None,
        channel_chat_created: None,
        migrate_to_chat_id: None,
        migrate_from_chat_id: None,
        pinned_message: None,
        invoice: None,
        successful_payment: None,
        connected_website: None,
        reply_markup: None,
    }
}

/// A message in a supergroup from a user, as most tests start from
fn base(id: i64, date: i64) -> RawMessage {
    let mut raw = raw_message(id, date, supergroup(1, None));
    raw.from = Some(user(1, "firstname"));
    raw
}

fn parse(raw: RawMessage) -> Message {
    Message::from_raw(raw).unwrap()
}

fn photo_size(file_id: &str, width: i64, height: i64) -> PhotoSize {
    PhotoSize {
        file_id: String::from(file_id),
        file_unique_id: String::from("unique-id"),
        width,
        height,
        file_size: None,
    }
}

fn audio() -> Audio {
    Audio {
        file_id: String::from("AwADBAADbXXXXXXXXXXXGBdhD2l6_XX"),
        duration: 243,
        performer: None,
        title: None,
        mime_type: None,
        file_size: None,
        thumb: None,
    }
}

fn document() -> Document {
    Document {
        file_id: String::from("SSSxmmmsmsIIsooofiiiiaiiaIII_XLA"),
        file_unique_id: String::from("unique-id"),
        thumb: None,
        file_name: None,
        mime_type: None,
        file_size: None,
    }
}

fn video() -> Video {
    Video {
        file_id: String::from("video-id"),
        file_unique_id: String::from("unique-id"),
        width: 1,
        height: 2,
        duration: 3,
        thumb: None,
        mime_type: None,
        file_size: None,
    }
}

fn voice() -> Voice {
    Voice {
        file_id: String::from("voice-id"),
        file_unique_id: String::from("unique-id"),
        duration: 123,
        mime_type: None,
        file_size: None,
    }
}

fn entity(kind: RawMessageEntityKind, offset: i64, length: i64) -> RawMessageEntity {
    RawMessageEntity {
        kind,
        offset,
        length,
        url: None,
        user: None,
    }
}

#[test]
fn reply_to() {
    let mut reply = base(1, 0);
    reply.text = Some(String::from("test"));
    let mut raw = base(2, 1);
    raw.text = Some(String::from("test"));
    raw.reply_to_message = Some(Box::new(reply));
    let msg = parse(raw);
    if let Some(msg) = msg.reply_to {
        assert_eq!(msg.id, 1);
    } else {
        panic!("Unexpected reply_to data: {:?}", msg.reply_to);
    }
}

#[test]
fn reply_to_with_empty_data() {
    let reply = base(1, 0);
    let mut raw = base(2, 1);
    raw.text = Some(String::from("test"));
    raw.reply_to_message = Some(Box::new(reply));
    let data = parse(raw);
    assert!(data.reply_to.is_some());
    if let MessageData::Empty = data.reply_to.unwrap().data {
    } else {
        panic!("Unexpected reply data");
    }
}

#[test]
fn is_edited() {
    let mut raw = base(2, 1);
    raw.text = Some(String::from("test"));
    raw.edit_date = Some(1);
    let msg = parse(raw);
    assert!(msg.is_edited());

    let mut raw = base(2, 1);
    raw.text = Some(String::from("test"));
    assert!(!parse(raw).is_edited());
}

#[test]
fn get_chat_and_user_data() {
    let mut raw = base(2, 1);
    raw.text = Some(String::from("test"));
    let msg = parse(raw);
    assert_eq!(msg.get_chat_id(), 1);
    assert!(msg.get_chat_username().is_none());
    assert!(msg.get_user().is_some());

    let mut raw = raw_message(2, 1, supergroup(2, Some("supergroupusername")));
    raw.from = Some(user(1, "firstname"));
    raw.text = Some(String::from("test"));
    let msg = parse(raw);
    assert_eq!(msg.get_chat_id(), 2);
    assert_eq!(msg.get_chat_username().unwrap(), "supergroupusername");
    assert!(msg.get_user().is_some());

    let mut chat = raw_chat(3, RawChatKind::Private);
    chat.first_name = Some(String::from("firstname"));
    let mut raw = raw_message(2, 1, Chat::from_raw(chat).unwrap());
    raw.from = Some(user(1, "firstname"));
    raw.text = Some(String::from("test"));
    let msg = parse(raw);
    assert_eq!(msg.get_chat_id(), 3);
    assert!(msg.get_chat_username().is_none());
    assert!(msg.get_user().is_some());

    let mut chat = raw_chat(4, RawChatKind::Private);
    chat.first_name = Some(String::from("firstname"));
    chat.username = Some(String::from("username"));
    let mut raw = raw_message(2, 1, Chat::from_raw(chat).unwrap());
    raw.from = Some(user(1, "firstname"));
    raw.text = Some(String::from("test"));
    let msg = parse(raw);
    assert_eq!(msg.get_chat_id(), 4);
    assert_eq!(msg.get_chat_username().unwrap(), "username");
    assert!(msg.get_user().is_some());

    let mut chat = raw_chat(5, RawChatKind::Group);
    chat.title = Some(String::from("grouptitle"));
    chat.all_members_are_administrators = Some(false);
    let mut raw = raw_message(2, 1, Chat::from_raw(chat).unwrap());
    raw.from = Some(user(1, "firstname"));
    raw.text = Some(String::from("test"));
    let msg = parse(raw);
    assert_eq!(msg.get_chat_id(), 5);
    assert!(msg.get_chat_username().is_none());
    assert!(msg.get_user().is_some());

    let mut chat = raw_chat(6, RawChatKind::Channel);
    chat.title = Some(String::from("channeltitle"));
    chat.username = Some(String::from("channelusername"));
    let mut raw = raw_message(1111, 0, Chat::from_raw(chat).unwrap());
    raw.author_signature = Some(String::from("test"));
    raw.text = Some(String::from("test message from channel"));
    let msg = parse(raw);
    assert_eq!(msg.get_chat_id(), 6);
    assert_eq!(msg.get_chat_username().unwrap(), "channelusername");
    assert!(msg.get_user().is_none());

    let mut chat = raw_chat(7, RawChatKind::Channel);
    chat.title = Some(String::from("channeltitle"));
    let mut raw = raw_message(1111, 0, Chat::from_raw(chat).unwrap());
    raw.author_signature = Some(String::from("test"));
    raw.text = Some(String::from("test message from channel"));
    let msg = parse(raw);
    assert_eq!(msg.get_chat_id(), 7);
    assert!(msg.get_chat_username().is_none());
    assert!(msg.get_user().is_none());
}

#[test]
fn get_text() {
    let mut raw = base(1, 1);
    raw.caption = Some(String::from("test audio caption"));
    raw.audio = Some(audio());
    assert_eq!(parse(raw).get_text().unwrap().data, "test audio caption");

    let mut raw = base(1, 1);
    raw.caption = Some(String::from("test document caption"));
    raw.document = Some(document());
    assert_eq!(parse(raw).get_text().unwrap().data, "test document caption");

    let mut raw = base(1, 1);
    raw.caption = Some(String::from("test photo caption"));
    raw.photo = Some(vec![photo_size("photo-id", 200, 200)]);
    assert_eq!(parse(raw).get_text().unwrap().data, "test photo caption");

    let mut raw = base(1, 1);
    raw.text = Some(String::from("text"));
    assert_eq!(parse(raw).get_text().unwrap().data, "text");

    let mut raw = base(1, 1);
    raw.caption = Some(String::from("test video caption"));
    raw.video = Some(video());
    assert_eq!(parse(raw).get_text().unwrap().data, "test video caption");

    let mut raw = base(1, 1);
    raw.caption = Some(String::from("test voice caption"));
    raw.voice = Some(voice());
    assert_eq!(parse(raw).get_text().unwrap().data, "test voice caption");

    let mut raw = base(1, 1);
    raw.group_chat_created = Some(true);
    assert!(parse(raw).get_text().is_none());
}

#[test]
fn commands() {
    let mut raw = base(1, 0);
    raw.text = Some(String::from("/cmd1 /cmd2"));
    raw.entities = Some(vec![
        entity(RawMessageEntityKind::BotCommand, 0, 5),
        entity(RawMessageEntityKind::BotCommand, 6, 5),
    ]);
    let msg = parse(raw);
    let commands = msg.commands.unwrap();
    assert_eq!(commands.len(), 2);
    let cmd1 = &commands[0];
    assert_eq!(cmd1.command, "/cmd1");
    let cmd2 = &commands[1];
    assert_eq!(cmd2.command, "/cmd2");
}

#[test]
fn commands_with_bot_name() {
    let mut raw = base(1, 0);
    raw.text = Some(String::from("/start@mybot now"));
    raw.entities = Some(vec![entity(RawMessageEntityKind::BotCommand, 0, 12)]);
    let commands = parse(raw).commands.unwrap();
    assert_eq!(commands.len(), 1);
    assert_eq!(commands[0].command, "/start");
    assert_eq!(commands[0].bot_name.as_deref(), Some("mybot"));
    assert_eq!(commands[0].data.data, "/start@mybot");
}

#[test]
fn edit_message_result() {
    let mut raw = base(1, 1);
    raw.text = Some(String::from("text"));
    let data = EditMessageResult::Message(parse(raw));
    if let EditMessageResult::Message(msg) = data {
        assert_eq!(msg.id, 1);
    } else {
        panic!("Unexpected message result: {:?}", data);
    }

    let data = EditMessageResult::Bool(false);
    if let EditMessageResult::Bool(flag) = data {
        assert!(!flag);
    } else {
        panic!("Unexpected message result: {:?}", data);
    }
}

fn entity_data(data: &str, offset: usize, length: usize) -> TextEntityData {
    TextEntityData {
        data: String::from(data),
        offset,
        length,
    }
}

#[test]
fn deserialize_message_entities() {
    let mut raw = base(1, 0);
    raw.text = Some(String::from(
        "bold /botcommand $cashtag code u@h.z #hashtag italic @mention phone pre textlink textmention url underline strikethrough",
    ));
    let mut text_link = entity(RawMessageEntityKind::TextLink, 72, 8);
    text_link.url = Some(String::from("https://example.com"));
    let mut text_mention = entity(RawMessageEntityKind::TextMention, 81, 11);
    text_mention.user = Some(user(1, "test"));
    raw.entities = Some(vec![
        entity(RawMessageEntityKind::Bold, 0, 4),
        entity(RawMessageEntityKind::BotCommand, 5, 11),
        entity(RawMessageEntityKind::Cashtag, 17, 8),
        entity(RawMessageEntityKind::Code, 26, 4),
        entity(RawMessageEntityKind::Email, 31, 5),
        entity(RawMessageEntityKind::Hashtag, 37, 8),
        entity(RawMessageEntityKind::Italic, 46, 6),
        entity(RawMessageEntityKind::Mention, 53, 8),
        entity(RawMessageEntityKind::PhoneNumber, 62, 5),
        entity(RawMessageEntityKind::Pre, 68, 3),
        text_link,
        text_mention,
        entity(RawMessageEntityKind::Url, 93, 3),
        entity(RawMessageEntityKind::Underline, 97, 9),
        entity(RawMessageEntityKind::Strikethrough, 107, 13),
    ]);
    let msg = parse(raw);
    assert_eq!(msg.commands.unwrap().len(), 1);
    if let MessageData::Text(text) = msg.data {
        let entities = text.entities.unwrap();
        assert_eq!(
            vec![
                TextEntity::Bold(entity_data("bold", 0, 4)),
                TextEntity::BotCommand(BotCommand {
                    command: String::from("/botcommand"),
                    bot_name: None,
                    data: entity_data("/botcommand", 5, 11),
                }),
                TextEntity::Cashtag(entity_data("$cashtag", 17, 8)),
                TextEntity::Code(entity_data("code", 26, 4)),
                TextEntity::Email(entity_data("u@h.z", 31, 5)),
                TextEntity::Hashtag(entity_data("#hashtag", 37, 8)),
                TextEntity::Italic(entity_data("italic", 46, 6)),
                TextEntity::Mention(entity_data("@mention", 53, 8)),
                TextEntity::PhoneNumber(entity_data("phone", 62, 5)),
                TextEntity::Pre(entity_data("pre", 68, 3)),
                TextEntity::TextLink(TextLink {
                    data: entity_data("textlink", 72, 8),
                    url: String::from("https://example.com"),
                }),
                TextEntity::TextMention(TextMention {
                    data: entity_data("textmention", 81, 11),
                    user: User {
                        id: 1,
                        is_bot: false,
                        first_name: String::from("test"),
                        last_name: None,
                        username: None,
                        language_code: None,
                    },
                }),
                TextEntity::Url(entity_data("url", 93, 3)),
                TextEntity::Underline(entity_data("underline", 97, 9)),
                TextEntity::Strikethrough(entity_data("strikethrough", 107, 13)),
            ],
            entities
        );
    } else {
        panic!("Unexpected message data: {:?}", msg.data);
    }
}

#[test]
fn deserialize_message_bad_entities() {
    for (entity, error) in vec![
        (
            entity(RawMessageEntityKind::Bold, -1, 1),
            "failed to parse text: offset \"-1\" is out of text bounds",
        ),
        (
            entity(RawMessageEntityKind::Bold, 11, 1),
            "failed to parse text: offset \"11\" is out of text bounds",
        ),
        (
            entity(RawMessageEntityKind::Bold, 0, -1),
            "failed to parse text: length \"-1\" is out of text bounds",
        ),
        (
            entity(RawMessageEntityKind::Bold, 0, 11),
            "failed to parse text: length \"11\" is out of text bounds",
        ),
        (
            entity(RawMessageEntityKind::Bold, 5, -1),
            "failed to parse text: length \"-1\" is out of text bounds",
        ),
        (
            entity(RawMessageEntityKind::TextLink, 0, 2),
            "failed to parse text: URL is required for text_link entity",
        ),
        (
            entity(RawMessageEntityKind::TextMention, 0, 2),
            "failed to parse text: user is required for text_mention entity",
        ),
    ] {
        let mut raw = base(1, 0);
        raw.text = Some(String::from("bad offset"));
        raw.entities = Some(vec![entity]);
        let err = Message::from_raw(raw).unwrap_err();
        assert_eq!(err.to_string(), error.to_string());
    }
}

#[test]
fn utf16_offsets() {
    let mut raw = base(1, 0);
    raw.text = Some(String::from("😀 /go"));
    raw.entities = Some(vec![entity(RawMessageEntityKind::BotCommand, 3, 3)]);
    let msg = parse(raw);
    let commands = msg.commands.unwrap();
    assert_eq!(commands[0].command, "/go");
    assert_eq!(commands[0].data.offset, 3);
}

#[test]
fn missing_sender_and_bad_forward() {
    let mut raw = base(1, 0);
    raw.from = None;
    raw.text = Some(String::from("text"));
    let err = Message::from_raw(raw).unwrap_err();
    assert_eq!(err.to_string(), "\"from\" field is missing");

    let mut raw = base(1, 0);
    raw.forward_from = Some(user(2, "other"));
    raw.text = Some(String::from("text"));
    let err = Message::from_raw(raw).unwrap_err();
    assert_eq!(err.to_string(), "unexpected forward_* fields combination");
}

#[test]
fn entity_splitting_surrogate_pair() {
    let mut raw = base(1, 0);
    raw.text = Some(String::from("😀"));
    raw.entities = Some(vec![entity(RawMessageEntityKind::Bold, 1, 1)]);
    let err = Message::from_raw(raw).unwrap_err();
    assert_eq!(
        err.to_string(),
        "failed to parse text: can not get UTF-16 text data: invalid utf-16: lone surrogate found"
    );
}

#[test]
fn forwarded_messages() {
    let mut raw = base(1, 0);
    raw.forward_date = Some(5);
    raw.forward_from = Some(user(2, "other"));
    raw.text = Some(String::from("text"));
    let forward = parse(raw).forward.unwrap();
    assert_eq!(forward.date, 5);
    assert!(matches!(forward.from, ForwardFrom::User(ref u) if u.id == 2));

    let mut raw = base(1, 0);
    raw.forward_date = Some(6);
    raw.forward_sender_name = Some(String::from("hidden"));
    raw.text = Some(String::from("text"));
    let forward = parse(raw).forward.unwrap();
    assert!(matches!(forward.from, ForwardFrom::HiddenUser(ref name) if name == "hidden"));

    let mut chat = raw_chat(9, RawChatKind::Channel);
    chat.title = Some(String::from("channel"));
    let mut raw = base(1, 0);
    raw.forward_date = Some(7);
    raw.forward_from_chat = Some(Chat::from_raw(chat).unwrap());
    raw.forward_from_message_id = Some(42);
    raw.forward_signature = Some(String::from("sig"));
    raw.text = Some(String::from("text"));
    let forward = parse(raw).forward.unwrap();
    if let ForwardFrom::Channel { chat, message_id, signature } = forward.from {
        assert_eq!(chat.id, 9);
        assert_eq!(message_id, 42);
        assert_eq!(signature.unwrap(), "sig");
    } else {
        panic!("Unexpected forward: {:?}", forward.from);
    }

    let mut raw = base(1, 0);
    raw.text = Some(String::from("text"));
    assert!(parse(raw).forward.is_none());
}

#[test]
fn deserialize_channel_chat() {
    let mut chat = raw_chat(1, RawChatKind::Channel);
    chat.title = Some(String::from("channeltitle"));
    let mut raw = raw_message(1111, 0, Chat::from_raw(chat).unwrap());
    raw.author_signature = Some(String::from("test"));
    raw.text = Some(String::from("test message from channel"));
    let msg = parse(raw);
    if let MessageKind::Channel { chat, author_signature } = msg.kind {
        assert_eq!(chat.id, 1);
        assert_eq!(chat.title, "channeltitle");
        assert_eq!(author_signature.unwrap(), "test");
    } else {
        panic!("Unexpected message kind: {:?}", msg.kind);
    }
    if let MessageData::Text(text) = msg.data {
        assert_eq!(text.data, "test message from channel");
    } else {
        panic!("Unexpected message data: {:?}", msg.data);
    }
}

#[test]
fn deserialize_group_chat() {
    let mut chat = raw_chat(1, RawChatKind::Group);
    chat.title = Some(String::from("grouptitle"));
    chat.all_members_are_administrators = Some(true);
    let mut raw = raw_message(1, 0, Chat::from_raw(chat).unwrap());
    raw.from = Some(user(1, "firstname"));
    raw.text = Some(String::from("test"));
    let msg = parse(raw);
    if let MessageKind::Group { chat, from } = msg.kind {
        assert_eq!(chat.id, 1);
        assert_eq!(chat.title, "grouptitle");
        assert_eq!(from.id, 1);
        assert_eq!(from.first_name, "firstname");
    } else {
        panic!("Unexpected message kind: {:?}", msg.kind);
    }
}

#[test]
fn deserialize_private_chat() {
    let mut chat = raw_chat(1, RawChatKind::Private);
    chat.first_name = Some(String::from("firstname"));
    let mut raw = raw_message(1, 0, Chat::from_raw(chat).unwrap());
    raw.from = Some(user(1, "firstname"));
    raw.text = Some(String::from("test"));
    let msg = parse(raw);
    if let MessageKind::Private { chat, from } = msg.kind {
        assert_eq!(chat.id, 1);
        assert_eq!(chat.first_name, "firstname");
        assert_eq!(from.id, 1);
        assert_eq!(from.first_name, "firstname");
    } else {
        panic!("Unexpected message kind: {:?}", msg.kind);
    }
}

#[test]
fn deserialize_supergroup_chat() {
    let mut raw = base(1, 0);
    raw.text = Some(String::from("test"));
    let msg = parse(raw);
    if let MessageKind::Supergroup { chat, from } = msg.kind {
        assert_eq!(chat.id, 1);
        assert_eq!(chat.title, "supergrouptitle");
        assert_eq!(from.id, 1);
        assert_eq!(from.first_name, "firstname");
    } else {
        panic!("Unexpected message kind: {:?}", msg.kind);
    }
}

#[test]
fn deserialize_animation() {
    let mut raw = base(1, 1);
    raw.animation = Some(Animation {
        file_id: String::from("AwADBAADbXXXXXXXXXXXGBdhD2l6_XX"),
        file_unique_id: String::from("unique-id"),
        width: 200,
        height: 200,
        duration: 243,
        thumb: None,
        file_name: None,
        mime_type: None,
        file_size: None,
    });
    let msg = parse(raw);
    if let MessageData::Animation(data) = msg.data {
        assert_eq!(msg.id, 1);
        assert_eq!(data.file_id, "AwADBAADbXXXXXXXXXXXGBdhD2l6_XX");
    } else {
        panic!("Unexpected message data: {:?}", msg.data);
    }
}

#[test]
fn deserialize_audio() {
    let mut raw = base(1, 1);
    raw.audio = Some(audio());
    let msg = parse(raw);
    if let MessageData::Audio { data, caption } = msg.data {
        assert_eq!(msg.id, 1);
        assert_eq!(data.file_id, "AwADBAADbXXXXXXXXXXXGBdhD2l6_XX");
        assert!(caption.is_none());
    } else {
        panic!("Unexpected message data: {:?}", msg.data);
    }

    let mut raw = base(1, 1);
    raw.caption = Some(String::from("test audio caption"));
    raw.audio = Some(audio());
    let msg = parse(raw);
    if let MessageData::Audio { data, caption } = msg.data {
        assert_eq!(msg.id, 1);
        assert_eq!(data.file_id, "AwADBAADbXXXXXXXXXXXGBdhD2l6_XX");
        assert_eq!(caption.unwrap().data, "test audio caption");
    } else {
        panic!("Unexpected message data: {:?}", msg.data);
    }
}

#[test]
fn deserialize_channel_chat_created() {
    let mut raw = base(1, 1);
    raw.channel_chat_created = Some(true);
    let msg = parse(raw);
    if let MessageData::ChannelChatCreated = msg.data {
        assert_eq!(msg.id, 1);
    } else {
        panic!("Unexpected message data: {:?}", msg.data);
    }
}

#[test]
fn deserialize_connected_website() {
    let mut raw = base(1, 1);
    raw.connected_website = Some(String::from("http://example.com"));
    let msg = parse(raw);
    if let MessageData::ConnectedWebsite(url) = msg.data {
        assert_eq!(url, "http://example.com");
    } else {
        panic!("Unexpected message data: {:?}", msg.data);
    }
}

#[test]
fn deserialize_contact() {
    let mut raw = base(1, 1);
    raw.contact = Some(Contact {
        phone_number: String::from("+79001231212"),
        first_name: String::from("First name"),
        last_name: None,
        user_id: None,
        vcard: None,
    });
    let msg = parse(raw);
    if let MessageData::Contact(data) = msg.data {
        assert_eq!(msg.id, 1);
        assert_eq!(data.phone_number, "+79001231212");
    } else {
        panic!("Unexpected message data: {:?}", msg.data);
    }
}

#[test]
fn deserialize_delete_chat_photo() {
    let mut raw = base(1, 1);
    raw.delete_chat_photo = Some(true);
    let msg = parse(raw);
    if let MessageData::DeleteChatPhoto = msg.data {
        assert_eq!(msg.id, 1);
    } else {
        panic!("Unexpected message data: {:?}", msg.data);
    }
}

#[test]
fn deserialize_document() {
    let mut raw = base(1, 1);
    raw.document = Some(document());
    let msg = parse(raw);
    if let MessageData::Document { data, caption } = msg.data {
        assert_eq!(msg.id, 1);
        assert_eq!(data.file_id, "SSSxmmmsmsIIsooofiiiiaiiaIII_XLA");
        assert!(caption.is_none());
    } else {
        panic!("Unexpected message data: {:?}", msg.data);
    }

    let mut raw = base(1, 1);
    raw.caption = Some(String::from("test document caption"));
    raw.document = Some(document());
    let msg = parse(raw);
    if let MessageData::Document { data, caption } = msg.data {
        assert_eq!(msg.id, 1);
        assert_eq!(data.file_id, "SSSxmmmsmsIIsooofiiiiaiiaIII_XLA");
        assert_eq!(caption.unwrap().data, "test document caption");
    } else {
        panic!("Unexpected message data: {:?}", msg.data);
    }
}

#[test]
fn deserialize_group_chat_created() {
    let mut raw = base(1, 1);
    raw.group_chat_created = Some(true);
    let msg = parse(raw);
    if let MessageData::GroupChatCreated = msg.data {
        assert_eq!(msg.id, 1);
    } else {
        panic!("Unexpected message data: {:?}", msg.data);
    }
}

#[test]
fn data_deserialize_invoice() {
    let mut raw = base(1, 1);
    raw.invoice = Some(Invoice {
        title: String::from("invoice title"),
        description: String::from("invoice description"),
        start_parameter: String::from("invoice start parameter"),
        currency: String::from("RUB"),
        total_amount: 100,
    });
    let msg = parse(raw);
    if let MessageData::Invoice(data) = msg.data {
        assert_eq!(msg.id, 1);
        assert_eq!(data.title, "invoice title");
    } else {
        panic!("Unexpected message data: {:?}", msg.data);
    }
}

#[test]
fn deserialize_left_chat_member() {
    let mut raw = base(1, 1);
    raw.left_chat_member = Some(user(1234, "test"));
    let msg = parse(raw);
    if let MessageData::LeftChatMember(data) = msg.data {
        assert_eq!(data.id, 1234);
    } else {
        panic!("Unexpected message data: {:?}", msg.data);
    }
}

#[test]
fn deserialize_location() {
    let mut raw = base(1, 1);
    raw.location = Some(Location {
        latitude: 2.0f32.to_bits(),
        longitude: 3.0f32.to_bits(),
    });
    let msg = parse(raw);
    if let MessageData::Location(data) = msg.data {
        assert_eq!(msg.id, 1);
        assert_eq!(f32::from_bits(data.latitude), 2.0);
        assert_eq!(f32::from_bits(data.longitude), 3.0);
    } else {
        panic!("Unexpected message data: {:?}", msg.data);
    }
}

#[test]
fn deserialize_migrate_from_chat_id() {
    let mut raw = base(1, 1);
    raw.migrate_from_chat_id = Some(124);
    let msg = parse(raw);
    if let MessageData::MigrateFromChatId(chat_id) = msg.data {
        assert_eq!(chat_id, 124);
    } else {
        panic!("Unexpected message data: {:?}", msg.data);
    }
}

#[test]
fn deserialize_migrate_to_chat_id() {
    let mut raw = base(1, 1);
    raw.migrate_to_chat_id = Some(124);
    let msg = parse(raw);
    if let MessageData::MigrateToChatId(chat_id) = msg.data {
        assert_eq!(chat_id, 124);
    } else {
        panic!("Unexpected message data: {:?}", msg.data);
    }
}

#[test]
fn deserialize_new_chat_members() {
    let mut raw = base(1, 1);
    raw.new_chat_members = Some(vec![user(1234, "test")]);
    let msg = parse(raw);
    if let MessageData::NewChatMembers(users) = msg.data {
        assert_eq!(users.len(), 1);
        assert_eq!(users[0].id, 1234);
    } else {
        panic!("Unexpected message data: {:?}", msg.data);
    }
}

#[test]
fn deserialize_new_chat_photo() {
    let mut raw = base(1, 1);
    raw.new_chat_photo = Some(vec![photo_size("photo file id", 200, 200)]);
    let msg = parse(raw);
    if let MessageData::NewChatPhoto(photos) = msg.data {
        assert_eq!(photos.len(), 1);
        assert_eq!(photos[0].file_id, "photo file id");
    } else {
        panic!("Unexpected message data: {:?}", msg.data);
    }
}

#[test]
fn deserialize_new_chat_title() {
    let mut raw = base(1, 1);
    raw.new_chat_title = Some(String::from("new chat title"));
    let msg = parse(raw);
    if let MessageData::NewChatTitle(title) = msg.data {
        assert_eq!(title, "new chat title");
    } else {
        panic!("Unexpected message data: {:?}", msg.data);
    }
}

#[test]
fn deserialize_pinned_message() {
    let mut pinned = base(1, 1);
    pinned.text = Some(String::from("test"));
    let mut raw = base(1, 1);
    raw.pinned_message = Some(Box::new(pinned));
    let msg = parse(raw);
    if let MessageData::PinnedMessage(pinned_msg) = msg.data {
        assert_eq!(pinned_msg.id, 1);
    } else {
        panic!("Unexpected message data: {:?}", msg.data);
    }
}

#[test]
fn deserialize_photo() {
    let mut raw = base(1, 1);
    raw.photo = Some(vec![photo_size("photo-id", 200, 200)]);
    let msg = parse(raw);
    if let MessageData::Photo { data, caption } = msg.data {
        assert_eq!(msg.id, 1);
        assert_eq!(data.len(), 1);
        let photo = &data[0];
        assert_eq!(photo.file_id, "photo-id");
        assert!(caption.is_none());
    } else {
        panic!("Unexpected message data: {:?}", msg.data);
    }

    let mut raw = base(1, 1);
    raw.caption = Some(String::from("test photo caption"));
    raw.photo = Some(vec![photo_size("photo-id", 200, 200)]);
    let msg = parse(raw);
    if let MessageData::Photo { data, caption } = msg.data {
        assert_eq!(msg.id, 1);
        assert_eq!(data.len(), 1);
        let photo = &data[0];
        assert_eq!(photo.file_id, "photo-id");
        assert_eq!(caption.unwrap().data, "test photo caption");
    } else {
        panic!("Unexpected message data: {:?}", msg.data);
    }
}

#[test]
fn deserialize_poll() {
    let mut raw = base(1, 1);
    raw.poll = Some(Poll {
        id: String::from("poll-id"),
        question: String::from("Rust?"),
        options: vec![
            PollOption {
                text: String::from("Yes"),
                voter_count: 1000,
            },
            PollOption {
                text: String::from("No"),
                voter_count: 0,
            },
        ],
        total_voter_count: 1000,
        is_closed: true,
        is_anonymous: true,
        kind: PollKind::Regular,
        allows_multiple_answers: false,
        correct_option_id: None,
    });
    let msg = parse(raw);
    if let MessageData::Poll(data) = msg.data {
        assert_eq!(msg.id, 1);
        assert_eq!(data.id, "poll-id");
    } else {
        panic!("Unexpected message data: {:?}", msg.data);
    }
}

#[test]
fn deserialize_sticker() {
    let mut raw = base(1, 1);
    raw.sticker = Some(Sticker {
        file_id: String::from("sticker-id"),
        width: 512,
        height: 512,
        thumb: None,
        emoji: None,
        set_name: None,
        mask_position: None,
        file_size: None,
    });
    let msg = parse(raw);
    if let MessageData::Sticker(data) = msg.data {
        assert_eq!(msg.id, 1);
        assert_eq!(data.file_id, "sticker-id");
    } else {
        panic!("Unexpected message data: {:?}", msg.data);
    }
}

#[test]
fn deserialize_successful_payment() {
    let mut raw = base(1, 1);
    raw.successful_payment = Some(SuccessfulPayment {
        currency: String::from("RUB"),
        total_amount: 145,
        invoice_payload: String::from("invoice payload"),
        shipping_option_id: None,
        order_info: None,
        telegram_payment_charge_id: String::from("tg-charge-id"),
        provider_payment_charge_id: String::from("provider-charge-id"),
    });
    let msg = parse(raw);
    if let MessageData::SuccessfulPayment(data) = msg.data {
        assert_eq!(msg.id, 1);
        assert_eq!(data.currency, "RUB");
    } else {
        panic!("Unexpected message data: {:?}", msg.data);
    }
}

#[test]
fn deserialize_supergroup_chat_created() {
    let mut raw = base(1, 1);
    raw.supergroup_chat_created = Some(true);
    let msg = parse(raw);
    if let MessageData::SupergroupChatCreated = msg.data {
        assert_eq!(msg.id, 1);
    } else {
        panic!("Unexpected message data: {:?}", msg.data);
    }
}

#[test]
fn deserialize_text() {
    let mut raw = base(1, 1);
    raw.text = Some(String::from("text"));
    let msg = parse(raw);
    if let MessageData::Text(data) = msg.data {
        assert_eq!(msg.id, 1);
        assert_eq!(data.data, "text");
    } else {
        panic!("Unexpected message data: {:?}", msg.data);
    }
}

#[test]
fn deserialize_venue() {
    let mut raw = base(1, 1);
    raw.venue = Some(Venue {
        location: Location {
            latitude: 1.1f32.to_bits(),
            longitude: 2.0f32.to_bits(),
        },
        title: String::from("venue title"),
        address: String::from("venue address"),
        foursquare_id: None,
        foursquare_type: None,
    });
    let msg = parse(raw);
    if let MessageData::Venue(data) = msg.data {
        assert_eq!(msg.id, 1);
        assert_eq!(data.title, "venue title");
    } else {
        panic!("Unexpected message data: {:?}", msg.data);
    }
}

#[test]
fn deserialize_video() {
    let mut raw = base(1, 1);
    raw.video = Some(video());
    let msg = parse(raw);
    if let MessageData::Video { data, caption } = msg.data {
        assert_eq!(msg.id, 1);
        assert_eq!(data.file_id, "video-id");
        assert!(caption.is_none());
    } else {
        panic!("Unexpected message data: {:?}", msg.data);
    }

    let mut raw = base(1, 1);
    raw.caption = Some(String::from("test video caption"));
    raw.video = Some(video());
    let msg = parse(raw);
    if let MessageData::Video { data, caption } = msg.data {
        assert_eq!(msg.id, 1);
        assert_eq!(data.file_id, "video-id");
        assert_eq!(caption.unwrap().data, "test video caption");
    } else {
        panic!("Unexpected message data: {:?}", msg.data);
    }
}

#[test]
fn deserialize_video_note() {
    let mut raw = base(1, 1);
    raw.video_note = Some(VideoNote {
        file_id: String::from("video-note-id"),
        file_unique_id: String::from("unique-id"),
        length: 124,
        duration: 1234,
        thumb: None,
        file_size: None,
    });
    let msg = parse(raw);
    if let MessageData::VideoNote(data) = msg.data {
        assert_eq!(msg.id, 1);
        assert_eq!(data.file_id, "video-note-id");
    } else {
        panic!("Unexpected message data: {:?}", msg.data);
    }
}

#[test]
fn deserialize_voice() {
    let mut raw = base(1, 1);
    raw.voice = Some(voice());
    let msg = parse(raw);
    if let MessageData::Voice { data, caption } = msg.data {
        assert_eq!(msg.id, 1);
        assert_eq!(data.file_id, "voice-id");
        assert!(caption.is_none());
    } else {
        panic!("Unexpected message data: {:?}", msg.data);
    }

    let mut raw = base(1, 1);
    raw.caption = Some(String::from("test voice caption"));
    raw.voice = Some(voice());
    let msg = parse(raw);
    if let MessageData::Voice { data, caption } = msg.data {
        assert_eq!(msg.id, 1);
        assert_eq!(data.file_id, "voice-id");
        assert_eq!(caption.unwrap().data, "test voice caption");
    } else {
        panic!("Unexpected message data: {:?}", msg.data);
    }
}

#[test]
fn negative_length_is_rejected() {
    let result = Text::parse(
        String::from("bad offset"),
        Some(vec![entity(RawMessageEntityKind::Bold, 5, -1)]),
    );
    assert_eq!(result.unwrap_err(), ParseTextError::BadLength(-1));
    let text = Text::parse(
        String::from("bad offset"),
        Some(vec![entity(RawMessageEntityKind::Bold, 4, 0)]),
    )
    .unwrap();
    assert_eq!(text.entities.unwrap(), vec![TextEntity::Bold(entity_data("", 4, 0))]);
}
