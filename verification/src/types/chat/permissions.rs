use vstd::prelude::*;
use crate::json::{json_opt_member, opt_json_bool, JsonWriter};

verus! {

/// Describes actions that a non-administrator user is allowed to take in a chat
#[derive(Clone, Debug, PartialEq, Eq, Structural)]
pub struct ChatPermissions {
    /// True, if the user is allowed to send text messages, contacts, locations and venues
    pub can_send_messages: Option<bool>,
    /// True, if the user is allowed to send audios, documents,
    /// photos, videos, video notes and voice notes, implies can_send_messages
    pub can_send_media_messages: Option<bool>,
    /// True, if the user is allowed to send polls, implies can_send_messages
    pub can_send_polls: Option<bool>,
    /// True, if the user is allowed to send animations, games, stickers
    /// and use inline bots, implies can_send_media_messages
    pub can_send_other_messages: Option<bool>,
    /// True, if the user is allowed to add web page previews to their messages,
    /// implies can_send_media_messages
    pub can_add_web_page_previews: Option<bool>,
    /// True, if the user is allowed to change the chat title, photo and other settings
    ///
    /// Ignored in public supergroups
    pub can_change_info: Option<bool>,
    /// True, if the user is allowed to invite new users to the chat
    pub can_invite_users: Option<bool>,
    /// True, if the user is allowed to pin messages
    ///
    /// Ignored in public supergroups
    pub can_pin_messages: Option<bool>,
}

/// Permissions with every field set to the same value.
pub open spec fn uniform_permissions(flag: Option<bool>) -> ChatPermissions {
    ChatPermissions {
        can_send_messages: flag,
        can_send_media_messages: flag,
        can_send_polls: flag,
        can_send_other_messages: flag,
        can_add_web_page_previews: flag,
        can_change_info: flag,
        can_invite_users: flag,
        can_pin_messages: flag,
    }
}

impl Default for ChatPermissions {
    /// No permission set
    fn default() -> (r: Self)
        ensures
            r == uniform_permissions(None),
    {
        ChatPermissions {
            can_send_messages: None,
            can_send_media_messages: None,
            can_send_polls: None,
            can_send_other_messages: None,
            can_add_web_page_previews: None,
            can_change_info: None,
            can_invite_users: None,
            can_pin_messages: None,
        }
    }
}

impl ChatPermissions {
    /// Restrict everything
    pub fn restricted() -> (r: Self)
        ensures
            r == uniform_permissions(Some(false)),
    {
        Self {
            can_send_messages: Some(false),
            can_send_media_messages: Some(false),
            can_send_polls: Some(false),
            can_send_other_messages: Some(false),
            can_add_web_page_previews: Some(false),
            can_change_info: Some(false),
            can_invite_users: Some(false),
            can_pin_messages: Some(false),
        }
    }

    /// Allow everything
    pub fn allowed() -> (r: Self)
        ensures
            r == uniform_permissions(Some(true)),
    {
        Self {
            can_send_messages: Some(true),
            can_send_media_messages: Some(true),
            can_send_polls: Some(true),
            can_send_other_messages: Some(true),
            can_add_web_page_previews: Some(true),
            can_change_info: Some(true),
            can_invite_users: Some(true),
            can_pin_messages: Some(true),
        }
    }

    /// Permission to send text messages, contacts, locations and venues
    pub fn with_send_messages(self, flag: bool) -> (r: Self)
        ensures
            r == (ChatPermissions { can_send_messages: Some(flag), ..self }),
    {
        Self { can_send_messages: Some(flag), ..self }
    }

    /// Permission to send audios, documents, photos, videos, video notes and voice notes
    pub fn with_send_media_messages(self, flag: bool) -> (r: Self)
        ensures
            r == (ChatPermissions { can_send_media_messages: Some(flag), ..self }),
    {
        Self { can_send_media_messages: Some(flag), ..self }
    }

    /// Permission to send polls
    pub fn with_send_polls(self, flag: bool) -> (r: Self)
        ensures
            r == (ChatPermissions { can_send_polls: Some(flag), ..self }),
    {
        Self { can_send_polls: Some(flag), ..self }
    }

    /// Permission to send animations, games, stickers and use inline bots
    pub fn with_send_other_messages(self, flag: bool) -> (r: Self)
        ensures
            r == (ChatPermissions { can_send_other_messages: Some(flag), ..self }),
    {
        Self { can_send_other_messages: Some(flag), ..self }
    }

    /// Permission add web page previews to messages
    pub fn with_add_web_page_previews(self, flag: bool) -> (r: Self)
        ensures
            r == (ChatPermissions { can_add_web_page_previews: Some(flag), ..self }),
    {
        Self { can_add_web_page_previews: Some(flag), ..self }
    }

    /// Permission to change the chat title, photo and other settings
    pub fn with_change_info(self, flag: bool) -> (r: Self)
        ensures
            r == (ChatPermissions { can_change_info: Some(flag), ..self }),
    {
        Self { can_change_info: Some(flag), ..self }
    }

    /// Permission to invite new users to the chat
    pub fn with_invite_users(self, flag: bool) -> (r: Self)
        ensures
            r == (ChatPermissions { can_invite_users: Some(flag), ..self }),
    {
        Self { can_invite_users: Some(flag), ..self }
    }

    /// Permission to pin messages
    pub fn with_pin_messages(self, flag: bool) -> (r: Self)
        ensures
            r == (ChatPermissions { can_pin_messages: Some(flag), ..self }),
    {
        Self { can_pin_messages: Some(flag), ..self }
    }
}

/// The members of permissions as a JSON object: each permission that is set.
pub open spec fn permissions_members(p: ChatPermissions) -> Seq<Seq<char>> {
    json_opt_member("can_send_messages"@, opt_json_bool(p.can_send_messages)) + json_opt_member(
        "can_send_media_messages"@,
        opt_json_bool(p.can_send_media_messages),
    ) + json_opt_member("can_send_polls"@, opt_json_bool(p.can_send_polls)) + json_opt_member(
        "can_send_other_messages"@,
        opt_json_bool(p.can_send_other_messages),
    ) + json_opt_member("can_add_web_page_previews"@, opt_json_bool(p.can_add_web_page_previews))
        + json_opt_member("can_change_info"@, opt_json_bool(p.can_change_info)) + json_opt_member(
        "can_invite_users"@,
        opt_json_bool(p.can_invite_users),
    ) + json_opt_member("can_pin_messages"@, opt_json_bool(p.can_pin_messages))
}

impl ChatPermissions {
    /// The permissions as a JSON object
    pub fn to_json(&self) -> (r: String)
        ensures
            r@ == crate::json::json_object(permissions_members(*self)),
    {
        let mut w = JsonWriter::object();
        w.opt_bool("can_send_messages", self.can_send_messages);
        w.opt_bool("can_send_media_messages", self.can_send_media_messages);
        w.opt_bool("can_send_polls", self.can_send_polls);
        w.opt_bool("can_send_other_messages", self.can_send_other_messages);
        w.opt_bool("can_add_web_page_previews", self.can_add_web_page_previews);
        w.opt_bool("can_change_info", self.can_change_info);
        w.opt_bool("can_invite_users", self.can_invite_users);
        w.opt_bool("can_pin_messages", self.can_pin_messages);
        assert(w.parts() =~= permissions_members(*self));
        w.finish()
    }
}

} // verus!
