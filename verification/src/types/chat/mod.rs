use vstd::prelude::*;
use crate::encoding::{decimal, decimal_string};
use crate::types::{message::Message, primitive::Integer, raw_error::MissingField};

pub mod member;
pub mod permissions;
pub mod photo;

pub use self::member::{
    ChatMember, ChatMemberAdministrator, ChatMemberKicked, ChatMemberRestricted, RawChatMember,
    RawChatMemberStatus,
};
pub use self::permissions::ChatPermissions;
pub use self::photo::ChatPhoto;

verus! {

/// Chat
#[derive(Debug)]
pub enum Chat {
    /// Channel
    Channel(ChannelChat),
    /// Group
    Group(GroupChat),
    /// Private chat
    Private(PrivateChat),
    /// Supergroup
    Supergroup(SupergroupChat),
}

/// Channel chat
#[derive(Debug)]
pub struct ChannelChat {
    /// Unique identifier for this chat
    pub id: Integer,
    /// Title
    pub title: String,
    /// Username of a channel
    pub username: Option<String>,
    /// Chat photo
    ///
    /// Returned only in getChat
    pub photo: Option<ChatPhoto>,
    /// Description of a channel
    ///
    /// Returned only in getChat
    pub description: Option<String>,
    /// Invite link
    ///
    /// Returned only in getChat
    pub invite_link: Option<String>,
    /// Pinned message
    ///
    /// Returned only in getChat
    pub pinned_message: Option<Box<Message>>,
}

/// Group chat
#[derive(Debug)]
pub struct GroupChat {
    /// Unique identifier for this chat
    pub id: Integer,
    /// Title
    pub title: String,
    /// True if a group has ‘All Members Are Admins’ enabled
    ///
    /// The field is still returned in the object for backward compatibility,
    /// but new bots should use the permissions field instead
    pub all_members_are_administrators: bool,
    /// Chat photo
    ///
    /// Returned only in getChat
    pub photo: Option<ChatPhoto>,
    /// Invite link
    ///
    /// Returned only in getChat
    pub invite_link: Option<String>,
    /// Pinned message
    /// Returned only in getChat
    pub pinned_message: Option<Box<Message>>,
    /// Default chat member permissions, for groups and supergroups
    ///
    /// Returned only in getChat
    pub permissions: Option<ChatPermissions>,
}

/// Private chat
#[derive(Clone, Debug)]
pub struct PrivateChat {
    /// Unique identifier for this chat
    pub id: Integer,
    /// First name of the other party
    pub first_name: String,
    /// Last name of the other party
    pub last_name: Option<String>,
    /// Username of a chat
    pub username: Option<String>,
    /// Chat photo
    ///
    /// Returned only in getChat
    pub photo: Option<ChatPhoto>,
}

/// Supergroup chat
#[derive(Debug)]
pub struct SupergroupChat {
    /// Unique identifier for this chat
    pub id: Integer,
    /// Title
    pub title: String,
    /// Username of a supergroup
    pub username: Option<String>,
    /// Photo of a supergroup
    ///
    /// Returned only in getChat
    pub photo: Option<ChatPhoto>,
    /// Description of a supergroup
    ///
    /// Returned only in getChat
    pub description: Option<String>,
    /// Invite link
    ///
    /// Returned only in getChat
    pub invite_link: Option<String>,
    /// Pinned message
    ///
    /// Returned only in getChat
    pub pinned_message: Option<Box<Message>>,
    /// For supergroups, name of group sticker set
    ///
    /// Returned only in getChat
    pub sticker_set_name: Option<String>,
    /// True, if the bot can change the group sticker set
    ///
    /// Returned only in getChat
    pub can_set_sticker_set: Option<bool>,
    /// Default chat member permissions, for groups and supergroups
    ///
    /// Returned only in getChat
    pub permissions: Option<ChatPermissions>,
    /// The minimum allowed delay between consecutive messages sent by each unpriviledged user
    ///
    /// Returned only in getChat
    pub slow_mode_delay: Option<Integer>,
}

/// Type of a chat as the Bot API names it
#[derive(Clone, Copy, Debug, PartialEq, Eq, Structural)]
pub enum RawChatKind {
    /// “channel”
    Channel,
    /// “group”
    Group,
    /// “private”
    Private,
    /// “supergroup”
    Supergroup,
}

/// A chat as the Bot API sends it: a type and the fields of every type
#[derive(Debug)]
pub struct RawChat {
    /// Unique identifier for this chat
    pub id: Integer,
    /// Type of chat
    pub kind: RawChatKind,
    /// Title, for supergroups, channels and group chats
    pub title: Option<String>,
    /// Username, for private chats, supergroups and channels if available
    pub username: Option<String>,
    /// First name of the other party in a private chat
    pub first_name: Option<String>,
    /// Last name of the other party in a private chat
    pub last_name: Option<String>,
    /// True if a group has ‘All Members Are Admins’ enabled
    pub all_members_are_administrators: Option<bool>,
    /// Chat photo
    pub photo: Option<ChatPhoto>,
    /// Description, for supergroups and channel chats
    pub description: Option<String>,
    /// Chat invite link, for supergroups and channel chats
    pub invite_link: Option<String>,
    /// Pinned message, for supergroups and channel chats
    pub pinned_message: Option<Box<Message>>,
    /// For supergroups, name of group sticker set
    pub sticker_set_name: Option<String>,
    /// True, if the bot can change the group sticker set
    pub can_set_sticker_set: Option<bool>,
    /// Default chat member permissions, for groups and supergroups
    pub permissions: Option<ChatPermissions>,
    /// The minimum allowed delay between consecutive messages sent by each unpriviledged user
    pub slow_mode_delay: Option<Integer>,
}

/// The first field that the chat's type requires and the raw chat lacks.
pub open spec fn chat_missing_field(raw: RawChat) -> Option<Seq<char>> {
    match raw.kind {
        RawChatKind::Channel | RawChatKind::Supergroup => if raw.title is None {
            Some("title"@)
        } else {
            None
        },
        RawChatKind::Group => if raw.title is None {
            Some("title"@)
        } else if raw.all_members_are_administrators is None {
            Some("all_members_are_administrators"@)
        } else {
            None
        },
        RawChatKind::Private => if raw.first_name is None {
            Some("first_name"@)
        } else {
            None
        },
    }
}

/// The chat that a raw chat holding every field its type requires stands for.
pub open spec fn chat_of(raw: RawChat) -> Chat {
    match raw.kind {
        RawChatKind::Channel => Chat::Channel(
            ChannelChat {
                id: raw.id,
                username: raw.username,
                title: raw.title.unwrap(),
                description: raw.description,
                photo: raw.photo,
                pinned_message: raw.pinned_message,
                invite_link: raw.invite_link,
            },
        ),
        RawChatKind::Group => Chat::Group(
            GroupChat {
                id: raw.id,
                title: raw.title.unwrap(),
                all_members_are_administrators: raw.all_members_are_administrators.unwrap(),
                photo: raw.photo,
                pinned_message: raw.pinned_message,
                invite_link: raw.invite_link,
                permissions: raw.permissions,
            },
        ),
        RawChatKind::Private => Chat::Private(
            PrivateChat {
                id: raw.id,
                username: raw.username,
                first_name: raw.first_name.unwrap(),
                last_name: raw.last_name,
                photo: raw.photo,
            },
        ),
        RawChatKind::Supergroup => Chat::Supergroup(
            SupergroupChat {
                id: raw.id,
                title: raw.title.unwrap(),
                username: raw.username,
                description: raw.description,
                photo: raw.photo,
                pinned_message: raw.pinned_message,
                invite_link: raw.invite_link,
                sticker_set_name: raw.sticker_set_name,
                can_set_sticker_set: raw.can_set_sticker_set,
                permissions: raw.permissions,
                slow_mode_delay: raw.slow_mode_delay,
            },
        ),
    }
}

impl Chat {
    /// Builds a chat from the data the Bot API sends,
    /// which must hold the fields that the chat's type requires
    pub fn from_raw(raw: RawChat) -> (r: Result<Chat, MissingField>)
        ensures
            match r {
                Ok(c) => chat_missing_field(raw) is None && c == chat_of(raw),
                Err(e) => chat_missing_field(raw) == Some(e.field@),
            },
    {
        match raw.kind {
            RawChatKind::Channel => {
                let title = match raw.title {
                    Some(v) => v,
                    None => return Err(MissingField { field: "title" }),
                };
                Ok(
                    Chat::Channel(
                        ChannelChat {
                            id: raw.id,
                            username: raw.username,
                            title,
                            description: raw.description,
                            photo: raw.photo,
                            pinned_message: raw.pinned_message,
                            invite_link: raw.invite_link,
                        },
                    ),
                )
            },
            RawChatKind::Group => {
                let title = match raw.title {
                    Some(v) => v,
                    None => return Err(MissingField { field: "title" }),
                };
                let all_members_are_administrators = match raw.all_members_are_administrators {
                    Some(v) => v,
                    None => return Err(MissingField { field: "all_members_are_administrators" }),
                };
                Ok(
                    Chat::Group(
                        GroupChat {
                            id: raw.id,
                            title,
                            all_members_are_administrators,
                            photo: raw.photo,
                            pinned_message: raw.pinned_message,
                            invite_link: raw.invite_link,
                            permissions: raw.permissions,
                        },
                    ),
                )
            },
            RawChatKind::Private => {
                let first_name = match raw.first_name {
                    Some(v) => v,
                    None => return Err(MissingField { field: "first_name" }),
                };
                Ok(
                    Chat::Private(
                        PrivateChat {
                            id: raw.id,
                            username: raw.username,
                            first_name,
                            last_name: raw.last_name,
                            photo: raw.photo,
                        },
                    ),
                )
            },
            RawChatKind::Supergroup => {
                let title = match raw.title {
                    Some(v) => v,
                    None => return Err(MissingField { field: "title" }),
                };
                Ok(
                    Chat::Supergroup(
                        SupergroupChat {
                            id: raw.id,
                            title,
                            username: raw.username,
                            description: raw.description,
                            photo: raw.photo,
                            pinned_message: raw.pinned_message,
                            invite_link: raw.invite_link,
                            sticker_set_name: raw.sticker_set_name,
                            can_set_sticker_set: raw.can_set_sticker_set,
                            permissions: raw.permissions,
                            slow_mode_delay: raw.slow_mode_delay,
                        },
                    ),
                )
            },
        }
    }
}

/// Chat ID or username
#[derive(Clone, Debug)]
pub enum ChatId {
    /// @username of a chat
    Username(String),
    /// ID of a chat
    Id(Integer),
}

/// The text form of a chat ID: the username, or the ID in decimal.
pub open spec fn chat_id_text(id: ChatId) -> Seq<char> {
    match id {
        ChatId::Username(username) => username@,
        ChatId::Id(chat_id) => decimal(chat_id as int),
    }
}

impl ChatId {
    /// Returns the username, or the ID in decimal
    pub fn to_string(&self) -> (r: String)
        ensures
            r@ == chat_id_text(*self),
    {
        match self {
            ChatId::Username(username) => username.clone(),
            ChatId::Id(chat_id) => decimal_string(*chat_id),
        }
    }
}

impl From<&str> for ChatId {
    fn from(username: &str) -> (r: ChatId)
        ensures
            r matches ChatId::Username(s) && s@ == username@,
    {
        ChatId::Username(username.to_owned())
    }
}

impl vstd::std_specs::convert::FromSpecImpl<&str> for ChatId {
    open spec fn obeys_from_spec() -> bool {
        false
    }

    open spec fn from_spec(username: &str) -> ChatId {
        choose|r: ChatId| r is Username && (#[trigger] r->Username_0)@ == username@
    }
}

impl From<String> for ChatId {
    fn from(username: String) -> ChatId {
        ChatId::Username(username)
    }
}

impl vstd::std_specs::convert::FromSpecImpl<String> for ChatId {
    open spec fn obeys_from_spec() -> bool {
        true
    }

    open spec fn from_spec(username: String) -> ChatId {
        ChatId::Username(username)
    }
}

impl From<Integer> for ChatId {
    fn from(id: Integer) -> ChatId {
        ChatId::Id(id)
    }
}

impl vstd::std_specs::convert::FromSpecImpl<Integer> for ChatId {
    open spec fn obeys_from_spec() -> bool {
        true
    }

    open spec fn from_spec(id: Integer) -> ChatId {
        ChatId::Id(id)
    }
}

/// Type of action to tell the user that some is happening on the bot's side
#[derive(Clone, Copy, Debug, PartialEq, Eq, Structural)]
pub enum ChatAction {
    /// For location data
    FindLocation,
    /// For audio files
    RecordAudio,
    /// For videos
    RecordVideo,
    /// For video notes
    RecordVideoNote,
    /// For text messages
    Typing,
    /// For audio files
    UploadAudio,
    /// For general files
    UploadDocument,
    /// For photos
    UploadPhoto,
    /// For videos
    UploadVideo,
    /// For video notes
    UploadVideoNote,
}

/// The name of a chat action as the Bot API spells it.
pub open spec fn chat_action_name(action: ChatAction) -> Seq<char> {
    match action {
        ChatAction::FindLocation => "find_location"@,
        ChatAction::RecordAudio => "record_audio"@,
        ChatAction::RecordVideo => "record_video"@,
        ChatAction::RecordVideoNote => "record_video_note"@,
        ChatAction::Typing => "typing"@,
        ChatAction::UploadAudio => "upload_audio"@,
        ChatAction::UploadDocument => "upload_document"@,
        ChatAction::UploadPhoto => "upload_photo"@,
        ChatAction::UploadVideo => "upload_video"@,
        ChatAction::UploadVideoNote => "upload_video_note"@,
    }
}

impl ChatAction {
    /// The name of the action as the Bot API spells it
    pub fn name(&self) -> (r: &'static str)
        ensures
            r@ == chat_action_name(*self),
    {
        match self {
            ChatAction::FindLocation => "find_location",
            ChatAction::RecordAudio => "record_audio",
            ChatAction::RecordVideo => "record_video",
            ChatAction::RecordVideoNote => "record_video_note",
            ChatAction::Typing => "typing",
            ChatAction::UploadAudio => "upload_audio",
            ChatAction::UploadDocument => "upload_document",
            ChatAction::UploadPhoto => "upload_photo",
            ChatAction::UploadVideo => "upload_video",
            ChatAction::UploadVideoNote => "upload_video_note",
        }
    }
}

/// A chat ID as JSON: the ID as a number, or the username as a string.
pub open spec fn chat_id_json(id: ChatId) -> Seq<char> {
    match id {
        ChatId::Username(username) => crate::json::json_string(username@),
        ChatId::Id(chat_id) => crate::json::json_int(chat_id as int),
    }
}

impl ChatId {
    /// The chat ID as JSON
    pub fn to_json(&self) -> (r: String)
        ensures
            r@ == chat_id_json(*self),
    {
        match self {
            ChatId::Username(username) => crate::json::json_string_of(username.as_str()),
            ChatId::Id(chat_id) => decimal_string(*chat_id),
        }
    }
}

impl ChatAction {
    /// The action as JSON: its name as a string
    pub fn to_json(&self) -> (r: String)
        ensures
            r@ == crate::json::json_string(chat_action_name(*self)),
    {
        crate::json::json_string_of(self.name())
    }
}

} // verus!
