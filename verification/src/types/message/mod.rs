use vstd::prelude::*;
use crate::types::{
    animation::Animation,
    audio::Audio,
    chat::Chat,
    contact::Contact,
    document::Document,
    location::Location,
    payments::{Invoice, SuccessfulPayment},
    photo_size::PhotoSize,
    poll::Poll,
    primitive::Integer,
    reply_markup::InlineKeyboardMarkup,
    stickers::Sticker,
    user::User,
    venue::Venue,
    video::Video,
    video_note::VideoNote,
    voice::Voice,
};

pub mod data;
pub mod forward;
pub mod kind;
pub mod raw;
pub mod text;

pub use self::data::MessageData;
pub use self::forward::{Forward, ForwardFrom};
pub use self::kind::MessageKind;
pub use self::raw::{RawMessageEntity, RawMessageEntityKind};
pub use self::text::{BotCommand, ParseTextError, Text, TextEntity, TextEntityData, TextLink, TextMention};

use self::text::{parse_text_error_message, text_error, text_parsed};
use crate::encoding::push_str;
use crate::types::login_url::opt_view;

verus! {

/// This object represents a message
#[derive(Debug)]
pub struct Message {
    /// Unique message identifier inside this chat
    pub id: Integer,
    /// Date the message was sent in Unix time
    pub date: Integer,
    /// Contains chat-specific data
    pub kind: MessageKind,
    /// Forwarded data
    pub forward: Option<Forward>,
    /// For replies, the original message
    /// Note that the Message object in this field will not contain further
    /// reply_to fields even if it itself is a reply
    pub reply_to: Option<Box<Message>>,
    /// Date the message was last edited in Unix time
    pub edit_date: Option<Integer>,
    /// The unique identifier of a media message group this message belongs to
    pub media_group_id: Option<String>,
    /// Contains message data
    pub data: MessageData,
    /// Contains command data
    pub commands: Option<Vec<BotCommand>>,
    /// Inline keyboard attached to the message
    pub reply_markup: Option<InlineKeyboardMarkup>,
}

/// A message as the Bot API sends it: every optional field side by side
#[derive(Debug)]
pub struct RawMessage {
    /// Unique message identifier inside this chat
    pub message_id: Integer,
    /// Sender, empty for messages sent to channels
    pub from: Option<User>,
    /// Date the message was sent in Unix time
    pub date: Integer,
    /// Conversation the message belongs to
    pub chat: Chat,
    /// For forwarded messages, sender of the original message
    pub forward_from: Option<User>,
    /// For messages forwarded from channels, information about the original channel
    pub forward_from_chat: Option<Chat>,
    /// For messages forwarded from channels, identifier of the original message in the channel
    pub forward_from_message_id: Option<Integer>,
    /// For messages forwarded from channels, signature of the post author if present
    pub forward_signature: Option<String>,
    /// Sender's name for messages forwarded from users who disallow adding a link to their account
    pub forward_sender_name: Option<String>,
    /// For forwarded messages, date the original message was sent in Unix time
    pub forward_date: Option<Integer>,
    /// For replies, the original message
    pub reply_to_message: Option<Box<RawMessage>>,
    /// Date the message was last edited in Unix time
    pub edit_date: Option<Integer>,
    /// The unique identifier of a media message group this message belongs to
    pub media_group_id: Option<String>,
    /// Signature of the post author for messages in channels
    pub author_signature: Option<String>,
    /// For text messages, the actual UTF-8 text of the message
    pub text: Option<String>,
    /// For text messages, special entities like usernames, URLs, bot commands, etc. that appear in the text
    pub entities: Option<Vec<RawMessageEntity>>,
    /// For messages with a caption, special entities like usernames, URLs, bot commands, etc. that appear in the caption
    pub caption_entities: Option<Vec<RawMessageEntity>>,
    /// Message is an audio file
    pub audio: Option<Audio>,
    /// Message is a general file
    pub document: Option<Document>,
    /// Message is an animation
    pub animation: Option<Animation>,
    /// Message is a photo, available sizes of the photo
    pub photo: Option<Vec<PhotoSize>>,
    /// Message is a sticker
    pub sticker: Option<Sticker>,
    /// Message is a video
    pub video: Option<Video>,
    /// Message is a voice message
    pub voice: Option<Voice>,
    /// Message is a video note
    pub video_note: Option<VideoNote>,
    /// Caption for the animation, audio, document, photo, video or voice
    pub caption: Option<String>,
    /// Message is a shared contact
    pub contact: Option<Contact>,
    /// Message is a shared location
    pub location: Option<Location>,
    /// Message is a venue
    pub venue: Option<Venue>,
    /// Message is a native poll
    pub poll: Option<Poll>,
    /// New members that were added to the group or supergroup
    pub new_chat_members: Option<Vec<User>>,
    /// A member was removed from the group
    pub left_chat_member: Option<User>,
    /// A chat title was changed to this value
    pub new_chat_title: Option<String>,
    /// A chat photo was change to this value
    pub new_chat_photo: Option<Vec<PhotoSize>>,
    /// Service message: the chat photo was deleted
    pub delete_chat_photo: Option<bool>,
    /// Service message: the group has been created
    pub group_chat_created: Option<bool>,
    /// Service message: the supergroup has been created
    pub supergroup_chat_created: Option<bool>,
    /// Service message: the channel has been created
    pub channel_chat_created: Option<bool>,
    /// The group has been migrated to a supergroup with the specified identifier
    pub migrate_to_chat_id: Option<Integer>,
    /// The supergroup has been migrated from a group with the specified identifier
    pub migrate_from_chat_id: Option<Integer>,
    /// Specified message was pinned
    pub pinned_message: Option<Box<RawMessage>>,
    /// Message is an invoice for a payment
    pub invoice: Option<Invoice>,
    /// Message is a service message about a successful payment
    pub successful_payment: Option<SuccessfulPayment>,
    /// The domain name of the website on which the user has logged in
    pub connected_website: Option<String>,
    /// Inline keyboard attached to the message
    pub reply_markup: Option<InlineKeyboardMarkup>,
}

/// An error when a message can not be built from the data the Bot API sends
#[derive(Debug)]
pub enum ParseError {
    /// The forward_* fields do not form one of the accepted combinations
    BadForward,
    /// A text or caption does not fit its entities
    BadText(ParseTextError),
    /// A field that the message requires is missing
    MissingField(&'static str),
}

// ---------------------------------------------------------------------------
// What a message is, given the data the Bot API sends
// ---------------------------------------------------------------------------

/// The forward information of a raw message; `None` where its forward_* fields do not form
/// one of the accepted combinations (from a user, from a hidden user, from a channel, or
/// none at all).
pub open spec fn forward_of(raw: RawMessage) -> Option<Option<Forward>> {
    match (
        raw.forward_date,
        raw.forward_from,
        raw.forward_from_chat,
        raw.forward_from_message_id,
        raw.forward_signature,
        raw.forward_sender_name,
    ) {
        (Some(date), Some(user), None, None, None, None) => Some(
            Some(Forward { date, from: ForwardFrom::User(user) }),
        ),
        (Some(date), None, None, None, None, Some(sender_name)) => Some(
            Some(Forward { date, from: ForwardFrom::HiddenUser(sender_name) }),
        ),
        (Some(date), None, Some(Chat::Channel(chat)), Some(message_id), signature, None) => Some(
            Some(Forward { date, from: ForwardFrom::Channel { chat, message_id, signature } }),
        ),
        (None, None, None, None, None, None) => Some(None),
        _ => None,
    }
}

/// The chat-specific data of a raw message; `None` where a sender is required (any chat
/// but a channel) and missing.
pub open spec fn kind_of(raw: RawMessage) -> Option<MessageKind> {
    match raw.chat {
        Chat::Channel(chat) => Some(MessageKind::Channel { chat, author_signature: raw.author_signature }),
        Chat::Group(chat) => match raw.from {
            Some(from) => Some(MessageKind::Group { chat, from }),
            None => None,
        },
        Chat::Private(chat) => match raw.from {
            Some(from) => Some(MessageKind::Private { chat, from }),
            None => None,
        },
        Chat::Supergroup(chat) => match raw.from {
            Some(from) => Some(MessageKind::Supergroup { chat, from }),
            None => None,
        },
    }
}

/// A flag of the Bot API counts only where it is present and true.
pub open spec fn flag(f: Option<bool>) -> bool {
    f == Some(true)
}

/// A raw message holds one of the kinds of data that come before a pinned message and a
/// text in the order they are looked for.
pub open spec fn has_plain_data(raw: RawMessage) -> bool {
    raw.animation is Some || raw.audio is Some || flag(raw.channel_chat_created)
        || raw.connected_website is Some || raw.contact is Some || flag(raw.delete_chat_photo)
        || raw.document is Some || flag(raw.group_chat_created) || raw.invoice is Some
        || raw.left_chat_member is Some || raw.location is Some || raw.migrate_from_chat_id is Some
        || raw.migrate_to_chat_id is Some || raw.new_chat_members is Some || raw.new_chat_photo is Some
        || raw.new_chat_title is Some || raw.photo is Some || raw.poll is Some || raw.sticker is Some
        || raw.successful_payment is Some || flag(raw.supergroup_chat_created) || raw.venue is Some
        || raw.video is Some || raw.video_note is Some || raw.voice is Some
}

/// The first reason, in the order the message is built, why a raw message can not be
/// built: the forward fields, the sender, the caption, the message replied to, then the
/// pinned message or the text, whichever is the data of the message.
pub open spec fn message_error(raw: RawMessage) -> Option<ParseError>
    decreases raw,
{
    if forward_of(raw) is None {
        Some(ParseError::BadForward)
    } else if kind_of(raw) is None {
        Some(ParseError::MissingField("from"))
    } else if raw.caption is Some && text_error(raw.caption.unwrap()@, raw.caption_entities) is Some {
        Some(ParseError::BadText(text_error(raw.caption.unwrap()@, raw.caption_entities).unwrap()))
    } else if raw.reply_to_message is Some && message_error(*raw.reply_to_message.unwrap()) is Some {
        message_error(*raw.reply_to_message.unwrap())
    } else if has_plain_data(raw) {
        None
    } else if raw.pinned_message is Some {
        message_error(*raw.pinned_message.unwrap())
    } else if raw.text is Some && text_error(raw.text.unwrap()@, raw.entities) is Some {
        Some(ParseError::BadText(text_error(raw.text.unwrap()@, raw.entities).unwrap()))
    } else {
        None
    }
}

/// The bot commands among some text entities, in order.
pub open spec fn bot_commands(es: Seq<TextEntity>) -> Seq<BotCommand>
    decreases es.len(),
{
    if es.len() == 0 {
        seq![]
    } else {
        let rest = bot_commands(es.drop_last());
        match es.last() {
            TextEntity::BotCommand(c) => rest.push(c),
            _ => rest,
        }
    }
}

/// The commands of a text: its bot commands, or none where it has none.
pub open spec fn commands_of(t: Text) -> Option<Seq<BotCommand>> {
    match t.entities {
        Some(es) => if bot_commands(es@).len() > 0 {
            Some(bot_commands(es@))
        } else {
            None
        },
        None => None,
    }
}

/// The commands of an optional caption.
pub open spec fn caption_commands(caption: Option<Text>) -> Option<Seq<BotCommand>> {
    match caption {
        Some(t) => commands_of(t),
        None => None,
    }
}

/// The contents of optional commands.
pub open spec fn commands_view(commands: Option<Vec<BotCommand>>) -> Option<Seq<BotCommand>> {
    match commands {
        Some(v) => Some(v@),
        None => None,
    }
}

/// The caption of a message is its raw caption, parsed with the caption entities.
pub open spec fn caption_parsed(raw: RawMessage, caption: Option<Text>) -> bool {
    match raw.caption {
        Some(c) => caption matches Some(t) && text_parsed(c, raw.caption_entities, t),
        None => caption is None,
    }
}

/// The data and commands of a message follow from its raw message: the first kind of data
/// present, in the order the Bot API fields are looked for, with its caption and the
/// caption's commands where the kind has a caption, or the pinned message, or the text and
/// its commands, or no data.
pub open spec fn data_parsed(raw: RawMessage, data: MessageData, commands: Option<Vec<BotCommand>>) -> bool
    decreases raw, 0int,
{
    let cmds = commands_view(commands);
    if raw.animation is Some {
        data == MessageData::Animation(raw.animation.unwrap()) && cmds is None
    } else if raw.audio is Some {
        data matches MessageData::Audio { caption, data: a } && a == raw.audio.unwrap() && caption_parsed(raw, caption)
            && cmds == caption_commands(caption)
    } else if flag(raw.channel_chat_created) {
        data is ChannelChatCreated && cmds is None
    } else if raw.connected_website is Some {
        data == MessageData::ConnectedWebsite(raw.connected_website.unwrap()) && cmds is None
    } else if raw.contact is Some {
        data == MessageData::Contact(raw.contact.unwrap()) && cmds is None
    } else if flag(raw.delete_chat_photo) {
        data is DeleteChatPhoto && cmds is None
    } else if raw.document is Some {
        data matches MessageData::Document { caption, data: d } && d == raw.document.unwrap() && caption_parsed(raw, caption)
            && cmds == caption_commands(caption)
    } else if flag(raw.group_chat_created) {
        data is GroupChatCreated && cmds is None
    } else if raw.invoice is Some {
        data == MessageData::Invoice(raw.invoice.unwrap()) && cmds is None
    } else if raw.left_chat_member is Some {
        data == MessageData::LeftChatMember(raw.left_chat_member.unwrap()) && cmds is None
    } else if raw.location is Some {
        data == MessageData::Location(raw.location.unwrap()) && cmds is None
    } else if raw.migrate_from_chat_id is Some {
        data == MessageData::MigrateFromChatId(raw.migrate_from_chat_id.unwrap()) && cmds is None
    } else if raw.migrate_to_chat_id is Some {
        data == MessageData::MigrateToChatId(raw.migrate_to_chat_id.unwrap()) && cmds is None
    } else if raw.new_chat_members is Some {
        data == MessageData::NewChatMembers(raw.new_chat_members.unwrap()) && cmds is None
    } else if raw.new_chat_photo is Some {
        data == MessageData::NewChatPhoto(raw.new_chat_photo.unwrap()) && cmds is None
    } else if raw.new_chat_title is Some {
        data == MessageData::NewChatTitle(raw.new_chat_title.unwrap()) && cmds is None
    } else if raw.photo is Some {
        data matches MessageData::Photo { caption, data: p } && p == raw.photo.unwrap() && caption_parsed(raw, caption)
            && cmds == caption_commands(caption)
    } else if raw.poll is Some {
        data == MessageData::Poll(raw.poll.unwrap()) && cmds is None
    } else if raw.sticker is Some {
        data == MessageData::Sticker(raw.sticker.unwrap()) && cmds is None
    } else if raw.successful_payment is Some {
        data == MessageData::SuccessfulPayment(raw.successful_payment.unwrap()) && cmds is None
    } else if flag(raw.supergroup_chat_created) {
        data is SupergroupChatCreated && cmds is None
    } else if raw.venue is Some {
        data == MessageData::Venue(raw.venue.unwrap()) && cmds is None
    } else if raw.video is Some {
        data matches MessageData::Video { caption, data: v } && v == raw.video.unwrap() && caption_parsed(raw, caption)
            && cmds == caption_commands(caption)
    } else if raw.video_note is Some {
        data == MessageData::VideoNote(raw.video_note.unwrap()) && cmds is None
    } else if raw.voice is Some {
        data matches MessageData::Voice { caption, data: v } && v == raw.voice.unwrap() && caption_parsed(raw, caption)
            && cmds == caption_commands(caption)
    } else if raw.pinned_message is Some {
        data matches MessageData::PinnedMessage(m) && message_parsed(*raw.pinned_message.unwrap(), *m) && cmds is None
    } else if raw.text is Some {
        data matches MessageData::Text(t) && text_parsed(raw.text.unwrap(), raw.entities, t) && cmds == commands_of(t)
    } else {
        data is Empty && cmds is None
    }
}

/// A message is built from its raw message: it keeps the identifier, dates, media group
/// and reply markup, its forward information and chat-specific data follow from the raw
/// fields, the message replied to is built in turn, and the data and commands follow from
/// the first kind of data present.
pub open spec fn message_parsed(raw: RawMessage, m: Message) -> bool
    decreases raw, 1int,
{
    &&& m.id == raw.message_id
    &&& m.date == raw.date
    &&& m.edit_date == raw.edit_date
    &&& m.media_group_id == raw.media_group_id
    &&& m.reply_markup == raw.reply_markup
    &&& forward_of(raw) == Some(m.forward)
    &&& kind_of(raw) == Some(m.kind)
    &&& match raw.reply_to_message {
        Some(r) => m.reply_to matches Some(rm) && message_parsed(*r, *rm),
        None => m.reply_to is None,
    }
    &&& data_parsed(raw, m.data, m.commands)
}

// ---------------------------------------------------------------------------
// Building a message
// ---------------------------------------------------------------------------

fn copy_bot_command(c: &BotCommand) -> (r: BotCommand)
    ensures
        r == *c,
{
    let bot_name = match &c.bot_name {
        Some(b) => Some(b.clone()),
        None => None,
    };
    BotCommand {
        command: c.command.clone(),
        bot_name,
        data: TextEntityData { offset: c.data.offset, length: c.data.length, data: c.data.data.clone() },
    }
}

/// Returns the bot commands of a text, in order, or `None` where it has none
pub fn get_commands(text: &Text) -> (r: Option<Vec<BotCommand>>)
    ensures
        commands_view(r) == commands_of(*text),
{
    if let Some(entities) = &text.entities {
        let mut commands: Vec<BotCommand> = Vec::new();
        let n = entities.len();
        let mut i: usize = 0;
        while i < n
            invariant
                n == entities.len(),
                0 <= i <= n,
                commands@ == bot_commands(entities@.take(i as int)),
            decreases n - i,
        {
            proof {
                assert(entities@.take(i + 1).drop_last() =~= entities@.take(i as int));
            }
            if let TextEntity::BotCommand(command) = &entities[i] {
                commands.push(copy_bot_command(command));
            }
            i = i + 1;
        }
        proof {
            assert(entities@.take(n as int) =~= entities@);
        }
        if commands.len() > 0 {
            return Some(commands);
        }
    }
    None
}

fn caption_commands_of(caption: &Option<Text>) -> (r: Option<Vec<BotCommand>>)
    ensures
        commands_view(r) == caption_commands(*caption),
{
    match caption {
        Some(text) => get_commands(text),
        None => None,
    }
}

impl Message {
    /// Builds a message from the data the Bot API sends
    pub fn from_raw(raw: RawMessage) -> (r: Result<Message, ParseError>)
        ensures
            match r {
                Ok(m) => message_error(raw) is None && message_parsed(raw, m),
                Err(e) => message_error(raw) == Some(e),
            },
        decreases raw,
    {
        let ghost raw0 = raw;
        let RawMessage {
            message_id,
            from,
            date,
            chat,
            forward_from,
            forward_from_chat,
            forward_from_message_id,
            forward_signature,
            forward_sender_name,
            forward_date,
            reply_to_message,
            edit_date,
            media_group_id,
            author_signature,
            text,
            entities,
            caption_entities,
            audio,
            document,
            animation,
            photo,
            sticker,
            video,
            voice,
            video_note,
            caption,
            contact,
            location,
            venue,
            poll,
            new_chat_members,
            left_chat_member,
            new_chat_title,
            new_chat_photo,
            delete_chat_photo,
            group_chat_created,
            supergroup_chat_created,
            channel_chat_created,
            migrate_to_chat_id,
            migrate_from_chat_id,
            pinned_message,
            invoice,
            successful_payment,
            connected_website,
            reply_markup,
        } = raw;
        let forward = match (
            forward_date,
            forward_from,
            forward_from_chat,
            forward_from_message_id,
            forward_signature,
            forward_sender_name,
        ) {
            (Some(date), Some(user), None, None, None, None) => Some(
                Forward { date, from: ForwardFrom::User(user) },
            ),
            (Some(date), None, None, None, None, Some(sender_name)) => Some(
                Forward { date, from: ForwardFrom::HiddenUser(sender_name) },
            ),
            (Some(date), None, Some(Chat::Channel(chat)), Some(message_id), signature, None) => Some(
                Forward { date, from: ForwardFrom::Channel { chat, message_id, signature } },
            ),
            (None, None, None, None, None, None) => None,
            _ => return Err(ParseError::BadForward),
        };
        let kind = match chat {
            Chat::Channel(chat) => MessageKind::Channel { chat, author_signature },
            Chat::Group(chat) => match from {
                Some(from) => MessageKind::Group { chat, from },
                None => return Err(ParseError::MissingField("from")),
            },
            Chat::Private(chat) => match from {
                Some(from) => MessageKind::Private { chat, from },
                None => return Err(ParseError::MissingField("from")),
            },
            Chat::Supergroup(chat) => match from {
                Some(from) => MessageKind::Supergroup { chat, from },
                None => return Err(ParseError::MissingField("from")),
            },
        };
        let caption = match caption {
            Some(data) => match Text::parse(data, caption_entities) {
                Ok(t) => Some(t),
                Err(e) => return Err(ParseError::BadText(e)),
            },
            None => None,
        };
        let reply_to = match reply_to_message {
            Some(x) => match Message::from_raw(*x) {
                Ok(m) => Some(Box::new(m)),
                Err(e) => return Err(e),
            },
            None => None,
        };
        let (data, commands) = if let Some(v) = animation {
            (MessageData::Animation(v), None)
        } else if let Some(v) = audio {
            let commands = caption_commands_of(&caption);
            (MessageData::Audio { caption, data: v }, commands)
        } else if channel_chat_created == Some(true) {
            (MessageData::ChannelChatCreated, None)
        } else if let Some(v) = connected_website {
            (MessageData::ConnectedWebsite(v), None)
        } else if let Some(v) = contact {
            (MessageData::Contact(v), None)
        } else if delete_chat_photo == Some(true) {
            (MessageData::DeleteChatPhoto, None)
        } else if let Some(v) = document {
            let commands = caption_commands_of(&caption);
            (MessageData::Document { caption, data: v }, commands)
        } else if group_chat_created == Some(true) {
            (MessageData::GroupChatCreated, None)
        } else if let Some(v) = invoice {
            (MessageData::Invoice(v), None)
        } else if let Some(v) = left_chat_member {
            (MessageData::LeftChatMember(v), None)
        } else if let Some(v) = location {
            (MessageData::Location(v), None)
        } else if let Some(v) = migrate_from_chat_id {
            (MessageData::MigrateFromChatId(v), None)
        } else if let Some(v) = migrate_to_chat_id {
            (MessageData::MigrateToChatId(v), None)
        } else if let Some(v) = new_chat_members {
            (MessageData::NewChatMembers(v), None)
        } else if let Some(v) = new_chat_photo {
            (MessageData::NewChatPhoto(v), None)
        } else if let Some(v) = new_chat_title {
            (MessageData::NewChatTitle(v), None)
        } else if let Some(v) = photo {
            let commands = caption_commands_of(&caption);
            (MessageData::Photo { caption, data: v }, commands)
        } else if let Some(v) = poll {
            (MessageData::Poll(v), None)
        } else if let Some(v) = sticker {
            (MessageData::Sticker(v), None)
        } else if let Some(v) = successful_payment {
            (MessageData::SuccessfulPayment(v), None)
        } else if supergroup_chat_created == Some(true) {
            (MessageData::SupergroupChatCreated, None)
        } else if let Some(v) = venue {
            (MessageData::Venue(v), None)
        } else if let Some(v) = video {
            let commands = caption_commands_of(&caption);
            (MessageData::Video { caption, data: v }, commands)
        } else if let Some(v) = video_note {
            (MessageData::VideoNote(v), None)
        } else if let Some(v) = voice {
            let commands = caption_commands_of(&caption);
            (MessageData::Voice { caption, data: v }, commands)
        } else if let Some(p) = pinned_message {
            match Message::from_raw(*p) {
                Ok(m) => (MessageData::PinnedMessage(Box::new(m)), None),
                Err(e) => return Err(e),
            }
        } else if let Some(t) = text {
            match Text::parse(t, entities) {
                Ok(t) => {
                    let commands = get_commands(&t);
                    (MessageData::Text(t), commands)
                },
                Err(e) => return Err(ParseError::BadText(e)),
            }
        } else {
            (MessageData::Empty, None)
        };
        assert(data_parsed(raw0, data, commands));
        Ok(
            Message {
                id: message_id,
                date,
                kind,
                forward,
                reply_to,
                edit_date,
                media_group_id,
                data,
                commands,
                reply_markup,
            },
        )
    }
}


/// The message of a message parsing error.
pub open spec fn parse_error_message(e: ParseError) -> Seq<char> {
    match e {
        ParseError::BadForward => "unexpected forward_* fields combination"@,
        ParseError::BadText(err) => "failed to parse text: "@ + parse_text_error_message(err),
        ParseError::MissingField(field) => "\""@ + field@ + "\" field is missing"@,
    }
}

impl ParseError {
    /// Returns a human-readable description of the error
    pub fn to_string(&self) -> (r: String)
        ensures
            r@ == parse_error_message(*self),
    {
        let mut r = String::new();
        match self {
            ParseError::BadForward => {
                push_str(&mut r, "unexpected forward_* fields combination");
            },
            ParseError::BadText(err) => {
                push_str(&mut r, "failed to parse text: ");
                let m = err.to_string();
                push_str(&mut r, m.as_str());
            },
            ParseError::MissingField(field) => {
                push_str(&mut r, "\"");
                push_str(&mut r, field);
                push_str(&mut r, "\" field is missing");
            },
        }
        assert(r@ =~= parse_error_message(*self));
        r
    }
}

/// The chat identifier of a message.
pub open spec fn message_chat_id(m: Message) -> Integer {
    match m.kind {
        MessageKind::Private { chat, .. } => chat.id,
        MessageKind::Channel { chat, .. } => chat.id,
        MessageKind::Group { chat, .. } => chat.id,
        MessageKind::Supergroup { chat, .. } => chat.id,
    }
}

/// The username of the chat of a message: private chats, channels and supergroups may have
/// one, groups have none.
pub open spec fn message_chat_username(m: Message) -> Option<Seq<char>> {
    match m.kind {
        MessageKind::Private { chat, .. } => opt_view(chat.username),
        MessageKind::Channel { chat, .. } => opt_view(chat.username),
        MessageKind::Supergroup { chat, .. } => opt_view(chat.username),
        MessageKind::Group { .. } => None,
    }
}

/// The author of a message: the sender, except in channels.
pub open spec fn message_user(m: Message) -> Option<User> {
    match m.kind {
        MessageKind::Channel { .. } => None,
        MessageKind::Private { from, .. } => Some(from),
        MessageKind::Group { from, .. } => Some(from),
        MessageKind::Supergroup { from, .. } => Some(from),
    }
}

/// The text of a message: the text of a text message, or the caption of an audio,
/// document, photo, video or voice message where it has one.
pub open spec fn message_text(m: Message) -> Option<Text> {
    match m.data {
        MessageData::Text(text) => Some(text),
        MessageData::Audio { caption: Some(text), .. } => Some(text),
        MessageData::Document { caption: Some(text), .. } => Some(text),
        MessageData::Photo { caption: Some(text), .. } => Some(text),
        MessageData::Video { caption: Some(text), .. } => Some(text),
        MessageData::Voice { caption: Some(text), .. } => Some(text),
        _ => None,
    }
}

/// A text holds a bot command among its entities exactly when the bot commands picked out
/// of those entities hold it.
proof fn lemma_bot_commands_contains(es: Seq<TextEntity>, c: BotCommand)
    ensures
        bot_commands(es).contains(c) <==> es.contains(TextEntity::BotCommand(c)),
    decreases es.len(),
{
    broadcast use vstd::seq_lib::lemma_seq_contains_after_push;

    if es.len() > 0 {
        let init = es.drop_last();
        lemma_bot_commands_contains(init, c);
        assert(es =~= init.push(es.last()));
    }
}

/// The bot command that a text entity is, where it is one.
pub open spec fn entity_command(e: TextEntity) -> Option<BotCommand> {
    match e {
        TextEntity::BotCommand(c) => Some(c),
        _ => None,
    }
}

/// The bot commands picked out of entities are those of the bot command entities, in
/// order, each one for each.
proof fn lemma_bot_commands_filter_map(es: Seq<TextEntity>, f: spec_fn(TextEntity) -> Option<BotCommand>)
    requires
        forall|e: TextEntity| #[trigger] f(e) == entity_command(e),
    ensures
        bot_commands(es) == es.filter_map(f),
    decreases es.len(),
{
    if es.len() > 0 {
        lemma_bot_commands_filter_map(es.drop_last(), f);
        assert(f(es.last()) == entity_command(es.last()));
        if let TextEntity::BotCommand(c) = es.last() {
            assert(bot_commands(es) =~= es.drop_last().filter_map(f) + seq![c]);
        }
    }
}

/// The commands of a message built from what the Bot API sent are the bot commands of its
/// text, or of its caption where its kind has one: it has a command exactly when that text
/// has it among its entities, it has none where there is no such text, and where it has
/// commands they are at least one, and are those of the bot command entities of the text,
/// in order.
pub proof fn lemma_message_commands_come_from_text(raw: RawMessage, m: Message)
    requires
        message_parsed(raw, m),
    ensures
        m.commands matches Some(v) ==> (v@.len() > 0 && (message_text(m) matches Some(t) && (t.entities matches Some(
            es,
        ) && v@ == es@.filter_map(|e: TextEntity| entity_command(e))))),
        message_text(m) is None ==> m.commands is None,
        message_text(m) matches Some(t) ==> forall|c: BotCommand|
            #![trigger m.commands.unwrap()@.contains(c)]
            #![trigger t.entities.unwrap()@.contains(TextEntity::BotCommand(c))]
            (m.commands is Some && m.commands.unwrap()@.contains(c)) <==> (t.entities is Some
                && t.entities.unwrap()@.contains(TextEntity::BotCommand(c))),
{
    assert(data_parsed(raw, m.data, m.commands));
    if let Some(t) = message_text(m) {
        assert(commands_view(m.commands) == commands_of(t));
        if let Some(es) = t.entities {
            assert forall|c: BotCommand|
                #![trigger m.commands.unwrap()@.contains(c)]
                #![trigger t.entities.unwrap()@.contains(TextEntity::BotCommand(c))]
                (m.commands is Some && m.commands.unwrap()@.contains(c)) <==> (t.entities is Some
                    && t.entities.unwrap()@.contains(TextEntity::BotCommand(c))) by {
                lemma_bot_commands_contains(es@, c);
            }
            lemma_bot_commands_filter_map(es@, |e: TextEntity| entity_command(e));
        }
    }
}

impl Message {
    /// Returns true if message has edited and false otherwise
    pub fn is_edited(&self) -> (r: bool)
        ensures
            r == self.edit_date is Some,
    {
        self.edit_date.is_some()
    }

    /// Returns ID of the chat
    pub fn get_chat_id(&self) -> (r: Integer)
        ensures
            r == message_chat_id(*self),
    {
        match &self.kind {
            MessageKind::Private { chat, .. } => chat.id,
            MessageKind::Channel { chat, .. } => chat.id,
            MessageKind::Group { chat, .. } => chat.id,
            MessageKind::Supergroup { chat, .. } => chat.id,
        }
    }

    /// Returns username of the chat
    pub fn get_chat_username(&self) -> (r: Option<&str>)
        ensures
            match r {
                Some(s) => message_chat_username(*self) == Some(s@),
                None => message_chat_username(*self) is None,
            },
    {
        let username = match &self.kind {
            MessageKind::Private { chat, .. } => &chat.username,
            MessageKind::Channel { chat, .. } => &chat.username,
            MessageKind::Supergroup { chat, .. } => &chat.username,
            MessageKind::Group { .. } => return None,
        };
        match username {
            Some(username) => Some(username.as_str()),
            None => None,
        }
    }

    /// Returns author of the message
    pub fn get_user(&self) -> (r: Option<&User>)
        ensures
            match r {
                Some(u) => message_user(*self) == Some(*u),
                None => message_user(*self) is None,
            },
    {
        match &self.kind {
            MessageKind::Channel { .. } => None,
            MessageKind::Private { from, .. } => Some(from),
            MessageKind::Group { from, .. } => Some(from),
            MessageKind::Supergroup { from, .. } => Some(from),
        }
    }

    /// Returns text of the message (includes caption)
    pub fn get_text(&self) -> (r: Option<&Text>)
        ensures
            match r {
                Some(t) => message_text(*self) == Some(*t),
                None => message_text(*self) is None,
            },
    {
        match &self.data {
            MessageData::Text(text) => Some(text),
            MessageData::Audio { caption: Some(text), .. } => Some(text),
            MessageData::Document { caption: Some(text), .. } => Some(text),
            MessageData::Photo { caption: Some(text), .. } => Some(text),
            MessageData::Video { caption: Some(text), .. } => Some(text),
            MessageData::Voice { caption: Some(text), .. } => Some(text),
            _ => None,
        }
    }
}

/// Result of editMessage* requests
#[derive(Debug)]
pub enum EditMessageResult {
    /// Returned if edited message is sent by the bot
    Message(Message),
    /// Returned if edited message is NOT sent by the bot
    Bool(bool),
}

} // verus!
