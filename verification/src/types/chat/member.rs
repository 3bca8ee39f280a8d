use vstd::prelude::*;
use crate::types::{primitive::Integer, raw_error::MissingField, user::User};

verus! {

/// Information about one member of a chat
#[derive(Clone, Debug)]
pub enum ChatMember {
    /// Chat admin
    Administrator(ChatMemberAdministrator),
    /// Chat creator
    Creator(User),
    /// Kicked user
    Kicked(ChatMemberKicked),
    /// Left user
    Left(User),
    /// Chat member
    Member(User),
    /// Restricted user
    Restricted(ChatMemberRestricted),
}

/// The user that a chat member is.
pub open spec fn member_user(m: ChatMember) -> User {
    match m {
        ChatMember::Administrator(admin) => admin.user,
        ChatMember::Creator(user) => user,
        ChatMember::Kicked(kicked) => kicked.user,
        ChatMember::Left(user) => user,
        ChatMember::Member(user) => user,
        ChatMember::Restricted(restricted) => restricted.user,
    }
}

/// Whether a chat member is a member of the chat: administrators, the creator and plain
/// members are; kicked and left users are not; a restricted user is as the API says.
pub open spec fn is_chat_member(m: ChatMember) -> bool {
    match m {
        ChatMember::Administrator(_) | ChatMember::Creator(_) | ChatMember::Member(_) => true,
        ChatMember::Kicked(_) | ChatMember::Left(_) => false,
        ChatMember::Restricted(restricted) => restricted.is_member,
    }
}

/// A chat member built from what the Bot API sent is the user the API named, and is a
/// member of the chat as its status says: administrators, the creator and plain members
/// are, kicked and left users are not, and a restricted user is exactly when the API's
/// `is_member` flag is set.
pub proof fn lemma_member_status_decides(raw: RawChatMember)
    requires
        chat_member_missing_field(raw) is None,
    ensures
        member_user(chat_member_of(raw)) == raw.user,
        is_chat_member(chat_member_of(raw)) == match raw.status {
            RawChatMemberStatus::Restricted => raw.is_member == Some(true),
            RawChatMemberStatus::Kicked | RawChatMemberStatus::Left => false,
            RawChatMemberStatus::Administrator | RawChatMemberStatus::Creator
            | RawChatMemberStatus::Member => true,
        },
{
}

impl ChatMember {
    /// Returns a user object
    pub fn user(&self) -> (r: &User)
        ensures
            *r == member_user(*self),
    {
        match self {
            ChatMember::Administrator(admin) => &admin.user,
            ChatMember::Creator(user) => user,
            ChatMember::Kicked(kicked) => &kicked.user,
            ChatMember::Left(user) => user,
            ChatMember::Member(user) => user,
            ChatMember::Restricted(restricted) => &restricted.user,
        }
    }

    /// Whether a user is a member of the chat
    pub fn is_member(&self) -> (r: bool)
        ensures
            r == is_chat_member(*self),
    {
        match self {
            ChatMember::Administrator(_) | ChatMember::Creator(_) | ChatMember::Member(_) => true,
            ChatMember::Kicked(_) | ChatMember::Left(_) => false,
            ChatMember::Restricted(restricted) => restricted.is_member,
        }
    }

    /// Builds a chat member from the data the Bot API sends,
    /// which must hold the fields that the member's status requires
    pub fn from_raw(raw: RawChatMember) -> (r: Result<ChatMember, MissingField>)
        ensures
            match r {
                Ok(m) => chat_member_missing_field(raw) is None && m == chat_member_of(raw),
                Err(e) => chat_member_missing_field(raw) == Some(e.field@),
            },
    {
        match raw.status {
            RawChatMemberStatus::Administrator => {
                let can_be_edited = match raw.can_be_edited {
                    Some(v) => v,
                    None => return Err(MissingField { field: "can_be_edited" }),
                };
                let can_change_info = match raw.can_change_info {
                    Some(v) => v,
                    None => return Err(MissingField { field: "can_change_info" }),
                };
                let can_delete_messages = match raw.can_delete_messages {
                    Some(v) => v,
                    None => return Err(MissingField { field: "can_delete_messages" }),
                };
                let can_invite_users = match raw.can_invite_users {
                    Some(v) => v,
                    None => return Err(MissingField { field: "can_invite_users" }),
                };
                let can_restrict_members = match raw.can_restrict_members {
                    Some(v) => v,
                    None => return Err(MissingField { field: "can_restrict_members" }),
                };
                let can_promote_members = match raw.can_promote_members {
                    Some(v) => v,
                    None => return Err(MissingField { field: "can_promote_members" }),
                };
                Ok(
                    ChatMember::Administrator(
                        ChatMemberAdministrator {
                            user: raw.user,
                            can_be_edited,
                            can_change_info,
                            can_post_messages: raw.can_post_messages,
                            can_edit_messages: raw.can_edit_messages,
                            can_delete_messages,
                            can_invite_users,
                            can_restrict_members,
                            can_pin_messages: raw.can_pin_messages,
                            can_promote_members,
                        },
                    ),
                )
            },
            RawChatMemberStatus::Creator => Ok(ChatMember::Creator(raw.user)),
            RawChatMemberStatus::Kicked => {
                let until_date = match raw.until_date {
                    Some(v) => v,
                    None => return Err(MissingField { field: "until_date" }),
                };
                Ok(ChatMember::Kicked(ChatMemberKicked { user: raw.user, until_date }))
            },
            RawChatMemberStatus::Left => Ok(ChatMember::Left(raw.user)),
            RawChatMemberStatus::Member => Ok(ChatMember::Member(raw.user)),
            RawChatMemberStatus::Restricted => {
                let until_date = match raw.until_date {
                    Some(v) => v,
                    None => return Err(MissingField { field: "until_date" }),
                };
                let can_change_info = match raw.can_change_info {
                    Some(v) => v,
                    None => return Err(MissingField { field: "can_change_info" }),
                };
                let can_invite_users = match raw.can_invite_users {
                    Some(v) => v,
                    None => return Err(MissingField { field: "can_invite_users" }),
                };
                let can_send_messages = match raw.can_send_messages {
                    Some(v) => v,
                    None => return Err(MissingField { field: "can_send_messages" }),
                };
                let can_send_polls = match raw.can_send_polls {
                    Some(v) => v,
                    None => return Err(MissingField { field: "can_send_polls" }),
                };
                let can_send_media_messages = match raw.can_send_media_messages {
                    Some(v) => v,
                    None => return Err(MissingField { field: "can_send_media_messages" }),
                };
                let can_send_other_messages = match raw.can_send_other_messages {
                    Some(v) => v,
                    None => return Err(MissingField { field: "can_send_other_messages" }),
                };
                let can_add_web_page_previews = match raw.can_add_web_page_previews {
                    Some(v) => v,
                    None => return Err(MissingField { field: "can_add_web_page_previews" }),
                };
                let is_member = match raw.is_member {
                    Some(v) => v,
                    None => return Err(MissingField { field: "is_member" }),
                };
                Ok(
                    ChatMember::Restricted(
                        ChatMemberRestricted {
                            user: raw.user,
                            until_date,
                            can_change_info,
                            can_invite_users,
                            can_pin_messages: raw.can_pin_messages,
                            can_send_messages,
                            can_send_polls,
                            can_send_media_messages,
                            can_send_other_messages,
                            can_add_web_page_previews,
                            is_member,
                        },
                    ),
                )
            },
        }
    }
}

/// Chat admin
#[derive(Clone, Debug)]
pub struct ChatMemberAdministrator {
    /// Information about the user
    pub user: User,
    /// True, if the bot is allowed
    /// to edit administrator privileges of that user
    pub can_be_edited: bool,
    /// True, if the administrator can change
    /// the chat title, photo and other settings
    pub can_change_info: bool,
    /// True, if the administrator can post
    /// in the channel, channels only
    pub can_post_messages: Option<bool>,
    /// True, if the administrator can edit messages
    /// of other users and can pin messages, channels only
    pub can_edit_messages: Option<bool>,
    /// True, if the administrator can delete messages of other users
    pub can_delete_messages: bool,
    /// True, if the administrator can invite new users to the chat
    pub can_invite_users: bool,
    /// True, if the administrator can restrict, ban or unban chat members
    pub can_restrict_members: bool,
    /// True, if the administrator can pin messages, groups and supergroups only
    pub can_pin_messages: Option<bool>,
    /// True, if the administrator can
    /// add new administrators with a subset
    /// of his own privileges or
    /// demote administrators that he has promoted,
    /// directly or indirectly
    /// (promoted by administrators that were appointed by the user)
    pub can_promote_members: bool,
}

/// Kicked user
#[derive(Clone, Debug)]
pub struct ChatMemberKicked {
    /// Information about the user
    pub user: User,
    /// Date when restrictions will be lifted for this user, unix time
    pub until_date: Integer,
}

/// Restricted user
#[derive(Clone, Debug)]
pub struct ChatMemberRestricted {
    /// Information about the user
    pub user: User,
    /// Date when restrictions will be lifted for this user, unix time
    pub until_date: Integer,
    /// True, if the user allowed to change
    /// the chat title, photo and other settings
    pub can_change_info: bool,
    /// True, if the user allowed to invite new users to the chat
    pub can_invite_users: bool,
    /// True, if the user allowed to pin messages, groups and supergroups only
    pub can_pin_messages: Option<bool>,
    /// True, if the user can send
    /// text messages, contacts, locations and venues
    pub can_send_messages: bool,
    /// True, if the user is allowed to send polls
    pub can_send_polls: bool,
    /// True, if the user can send
    /// audios, documents, photos, videos,
    /// video notes and voice notes, implies can_send_messages
    pub can_send_media_messages: bool,
    /// True, if the user can send
    /// animations, games, stickers
    /// and use inline bots, implies can_send_media_messages
    pub can_send_other_messages: bool,
    /// True, if user may add web page previews
    /// to his messages, implies can_send_media_messages
    pub can_add_web_page_previews: bool,
    /// True, if the user is a member
    /// of the chat at the moment of the request
    pub is_member: bool,
}

/// Status of a chat member as the Bot API names it
#[derive(Clone, Copy, Debug, PartialEq, Eq, Structural)]
pub enum RawChatMemberStatus {
    /// “administrator”
    Administrator,
    /// “creator”
    Creator,
    /// “kicked”
    Kicked,
    /// “left”
    Left,
    /// “member”
    Member,
    /// “restricted”
    Restricted,
}

/// A chat member as the Bot API sends it: a status and the fields of every status
#[derive(Clone, Debug)]
pub struct RawChatMember {
    /// Information about the user
    pub user: User,
    /// The member's status in the chat
    pub status: RawChatMemberStatus,
    /// Restricted and kicked only. Date when restrictions will be lifted for this user, unix time
    pub until_date: Option<Integer>,
    /// Administrators only. True, if the bot is allowed to edit administrator privileges of that user
    pub can_be_edited: Option<bool>,
    /// Administrators and restricted only. True, if the user can change the chat title, photo and other settings
    pub can_change_info: Option<bool>,
    /// Administrators only. True, if the administrator can post in the channel
    pub can_post_messages: Option<bool>,
    /// Administrators only. True, if the administrator can edit messages of other users
    pub can_edit_messages: Option<bool>,
    /// Administrators only. True, if the administrator can delete messages of other users
    pub can_delete_messages: Option<bool>,
    /// Administrators and restricted only. True, if the user can invite new users to the chat
    pub can_invite_users: Option<bool>,
    /// Administrators only. True, if the administrator can restrict, ban or unban chat members
    pub can_restrict_members: Option<bool>,
    /// Administrators and restricted only. True, if the user can pin messages
    pub can_pin_messages: Option<bool>,
    /// Administrators only. True, if the administrator can add new administrators
    pub can_promote_members: Option<bool>,
    /// Restricted only. True, if the user is a member of the chat at the moment of the request
    pub is_member: Option<bool>,
    /// Restricted only. True, if the user can send text messages, contacts, locations and venues
    pub can_send_messages: Option<bool>,
    /// Restricted only. True, if the user can send audios, documents, photos, videos, video notes and voice notes
    pub can_send_media_messages: Option<bool>,
    /// Restricted only. True, if the user is allowed to send polls
    pub can_send_polls: Option<bool>,
    /// Restricted only. True, if the user can send animations, games, stickers and use inline bots
    pub can_send_other_messages: Option<bool>,
    /// Restricted only. True, if user may add web page previews to his messages
    pub can_add_web_page_previews: Option<bool>,
}

/// The first field, in the order the member's status lists them, that the status
/// requires and the raw member lacks.
pub open spec fn chat_member_missing_field(raw: RawChatMember) -> Option<Seq<char>> {
    match raw.status {
        RawChatMemberStatus::Administrator => {
            if raw.can_be_edited is None {
                Some("can_be_edited"@)
            } else if raw.can_change_info is None {
                Some("can_change_info"@)
            } else if raw.can_delete_messages is None {
                Some("can_delete_messages"@)
            } else if raw.can_invite_users is None {
                Some("can_invite_users"@)
            } else if raw.can_restrict_members is None {
                Some("can_restrict_members"@)
            } else if raw.can_promote_members is None {
                Some("can_promote_members"@)
            } else {
                None
            }
        },
        RawChatMemberStatus::Kicked => {
            if raw.until_date is None {
                Some("until_date"@)
            } else {
                None
            }
        },
        RawChatMemberStatus::Restricted => {
            if raw.until_date is None {
                Some("until_date"@)
            } else if raw.can_change_info is None {
                Some("can_change_info"@)
            } else if raw.can_invite_users is None {
                Some("can_invite_users"@)
            } else if raw.can_send_messages is None {
                Some("can_send_messages"@)
            } else if raw.can_send_polls is None {
                Some("can_send_polls"@)
            } else if raw.can_send_media_messages is None {
                Some("can_send_media_messages"@)
            } else if raw.can_send_other_messages is None {
                Some("can_send_other_messages"@)
            } else if raw.can_add_web_page_previews is None {
                Some("can_add_web_page_previews"@)
            } else if raw.is_member is None {
                Some("is_member"@)
            } else {
                None
            }
        },
        _ => None,
    }
}

/// The chat member that a raw member holding every field its status requires stands for.
pub open spec fn chat_member_of(raw: RawChatMember) -> ChatMember {
    match raw.status {
        RawChatMemberStatus::Administrator => ChatMember::Administrator(
            ChatMemberAdministrator {
                user: raw.user,
                can_be_edited: raw.can_be_edited.unwrap(),
                can_change_info: raw.can_change_info.unwrap(),
                can_post_messages: raw.can_post_messages,
                can_edit_messages: raw.can_edit_messages,
                can_delete_messages: raw.can_delete_messages.unwrap(),
                can_invite_users: raw.can_invite_users.unwrap(),
                can_restrict_members: raw.can_restrict_members.unwrap(),
                can_pin_messages: raw.can_pin_messages,
                can_promote_members: raw.can_promote_members.unwrap(),
            },
        ),
        RawChatMemberStatus::Creator => ChatMember::Creator(raw.user),
        RawChatMemberStatus::Kicked => ChatMember::Kicked(
            ChatMemberKicked { user: raw.user, until_date: raw.until_date.unwrap() },
        ),
        RawChatMemberStatus::Left => ChatMember::Left(raw.user),
        RawChatMemberStatus::Member => ChatMember::Member(raw.user),
        RawChatMemberStatus::Restricted => ChatMember::Restricted(
            ChatMemberRestricted {
                user: raw.user,
                until_date: raw.until_date.unwrap(),
                can_change_info: raw.can_change_info.unwrap(),
                can_invite_users: raw.can_invite_users.unwrap(),
                can_pin_messages: raw.can_pin_messages,
                can_send_messages: raw.can_send_messages.unwrap(),
                can_send_polls: raw.can_send_polls.unwrap(),
                can_send_media_messages: raw.can_send_media_messages.unwrap(),
                can_send_other_messages: raw.can_send_other_messages.unwrap(),
                can_add_web_page_previews: raw.can_add_web_page_previews.unwrap(),
                is_member: raw.is_member.unwrap(),
            },
        ),
    }
}

} // verus!
