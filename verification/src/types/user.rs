use vstd::prelude::*;
use crate::encoding::{decimal, push_char, push_decimal, push_str};
use crate::types::{
    photo_size::PhotoSize,
    primitive::{escape_char, escaped, lemma_escaped_concat, parse_mode_name, Integer, ParseMode},
};

verus! {

/// A Bot info returned in getMe
#[derive(Clone, Debug, PartialEq, PartialOrd)]
pub struct Me {
    /// Unique identifier of this bot
    pub id: Integer,
    /// Bot's username
    pub username: String,
    /// Bot's first name
    pub first_name: String,
    /// Bot's last name
    pub last_name: Option<String>,
    /// True, if the bot can be invited to groups
    pub can_join_groups: bool,
    /// True, if privacy mode is disabled for the bot
    pub can_read_all_group_messages: bool,
    /// True, if the bot supports inline queries
    pub supports_inline_queries: bool,
}

/// Telegram user or bot
#[derive(Clone, Debug, PartialEq, PartialOrd)]
pub struct User {
    /// Unique identifier for this user or bot
    pub id: Integer,
    /// True, if this user is a bot
    pub is_bot: bool,
    /// User‘s or bot’s first name
    pub first_name: String,
    /// User‘s or bot’s last name
    pub last_name: Option<String>,
    /// User‘s or bot’s username
    pub username: Option<String>,
    /// IETF language tag of the user's language
    pub language_code: Option<String>,
}

/// Full name of a user: the first name, then a space and the last name if there is one.
pub open spec fn full_name(user: User) -> Seq<char> {
    match user.last_name {
        Some(last) => user.first_name@ + seq![' '] + last@,
        None => user.first_name@,
    }
}

/// The `tg://user?id=<id>` link of a user.
pub open spec fn user_link(user: User) -> Seq<char> {
    "tg://user?id="@ + decimal(user.id as int)
}

/// The mention of a user under a parse mode, where the mode supports mentions.
pub open spec fn user_mention(user: User, mode: ParseMode) -> Option<Seq<char>> {
    let name = escaped(mode, full_name(user));
    let link = user_link(user);
    match mode {
        ParseMode::Markdown => None,
        ParseMode::MarkdownV2 => Some("["@ + name + "]("@ + link + ")"@),
        ParseMode::Html => Some("<a href=\""@ + link + "\">"@ + name + "</a>"@),
    }
}

/// The mention of a user, under a parse mode that supports mentions, links to the user
/// and shows the user's whole name escaped for that mode: the first name, then a space and
/// the last name where the user has one. Legacy Markdown has no mention.
pub proof fn lemma_mention_shows_full_name(user: User, mode: ParseMode)
    ensures
        ({
            let shown = match user.last_name {
                Some(last) => escaped(mode, user.first_name@) + seq![' '] + escaped(mode, last@),
                None => escaped(mode, user.first_name@),
            };
            match mode {
                ParseMode::Html => user_mention(user, mode) == Some(
                    "<a href=\""@ + user_link(user) + "\">"@ + shown + "</a>"@,
                ),
                ParseMode::MarkdownV2 => user_mention(user, mode) == Some(
                    "["@ + shown + "]("@ + user_link(user) + ")"@,
                ),
                ParseMode::Markdown => user_mention(user, mode) is None,
            }
        }),
{
    if let Some(last) = user.last_name {
        let first = user.first_name@;
        lemma_escaped_concat(mode, first + seq![' '], last@);
        lemma_escaped_concat(mode, first, seq![' ']);
        let space = seq![' '];
        assert(space.drop_last() =~= Seq::<char>::empty());
        assert(space.last() == ' ');
        assert(escaped(mode, space.drop_last()) =~= Seq::<char>::empty());
        assert(escape_char(mode, ' ') =~= space);
        assert(escaped(mode, space) =~= space);
    }
}

impl User {
    /// Returns full name of the user (first name + last name)
    pub fn get_full_name(&self) -> (r: String)
        ensures
            r@ == full_name(*self),
    {
        let mut full_name = self.first_name.clone();
        if let Some(last_name) = &self.last_name {
            push_char(&mut full_name, ' ');
            push_str(&mut full_name, last_name.as_str());
        }
        full_name
    }

    /// Returns a link to the user (tg://user?id=xxx)
    ///
    /// These links will work only if they are used inside an inline link.
    /// For example, they will not work, when used in an inline keyboard button or in a message text.
    pub fn get_link(&self) -> (r: String)
        ensures
            r@ == user_link(*self),
    {
        let mut r = String::new();
        push_str(&mut r, "tg://user?id=");
        push_decimal(&mut r, self.id);
        proof {
            assert(Seq::<char>::empty() + "tg://user?id="@ =~= "tg://user?id="@);
        }
        r
    }

    /// Returns a mention for the user
    ///
    /// These mentions are only guaranteed to work if the user has contacted the bot in the past,
    /// has sent a callback query to the bot via inline button or is a member
    /// in the group where he was mentioned.
    pub fn get_mention(&self, parse_mode: ParseMode) -> (r: Result<String, MentionError>)
        ensures
            match r {
                Ok(s) => user_mention(*self, parse_mode) == Some(s@),
                Err(e) => user_mention(*self, parse_mode) is None
                    && e == MentionError::UnsupportedParseMode(parse_mode),
            },
    {
        let name = self.get_full_name();
        let full_name = parse_mode.escape(name.as_str());
        let user_link = self.get_link();
        match parse_mode {
            ParseMode::Markdown => Err(MentionError::UnsupportedParseMode(parse_mode)),
            ParseMode::MarkdownV2 => {
                let mut r = String::new();
                push_str(&mut r, "[");
                push_str(&mut r, full_name.as_str());
                push_str(&mut r, "](");
                push_str(&mut r, user_link.as_str());
                push_str(&mut r, ")");
                proof {
                    assert(r@ =~= "["@ + full_name@ + "]("@ + user_link@ + ")"@);
                }
                Ok(r)
            },
            ParseMode::Html => {
                let mut r = String::new();
                push_str(&mut r, "<a href=\"");
                push_str(&mut r, user_link.as_str());
                push_str(&mut r, "\">");
                push_str(&mut r, full_name.as_str());
                push_str(&mut r, "</a>");
                proof {
                    assert(r@ =~= "<a href=\""@ + user_link@ + "\">"@ + full_name@ + "</a>"@);
                }
                Ok(r)
            },
        }
    }
}

/// An error occurred when getting user mention
#[derive(Debug, PartialEq, Eq, Structural)]
pub enum MentionError {
    /// Parse mode is not supported
    UnsupportedParseMode(ParseMode),
}

/// The message of a mention error.
pub open spec fn mention_error_message(e: MentionError) -> Seq<char> {
    match e {
        MentionError::UnsupportedParseMode(mode) => "can not mention with "@ + parse_mode_name(mode)
            + " parse mode"@,
    }
}

impl MentionError {
    /// Returns a human-readable description of the error
    pub fn to_string(&self) -> (r: String)
        ensures
            r@ == mention_error_message(*self),
    {
        match self {
            MentionError::UnsupportedParseMode(mode) => {
                let mut r = String::new();
                push_str(&mut r, "can not mention with ");
                let name = mode.to_string();
                push_str(&mut r, name.as_str());
                push_str(&mut r, " parse mode");
                proof {
                    assert(r@ =~= "can not mention with "@ + parse_mode_name(*mode)
                        + " parse mode"@);
                }
                r
            },
        }
    }
}

/// User's profile pictures
#[derive(Clone, Debug)]
pub struct UserProfilePhotos {
    /// Total number of profile pictures the target user has
    pub total_count: Integer,
    /// Requested profile pictures (in up to 4 sizes each)
    pub photos: Vec<Vec<PhotoSize>>,
}

/// User ID
#[derive(Clone, Debug)]
pub enum UserId {
    /// @username of a user
    Username(String),
    /// ID of a user
    Id(Integer),
}

impl From<&str> for UserId {
    fn from(username: &str) -> (r: UserId)
        ensures
            r matches UserId::Username(s) && s@ == username@,
    {
        UserId::Username(username.to_owned())
    }
}

impl vstd::std_specs::convert::FromSpecImpl<&str> for UserId {
    open spec fn obeys_from_spec() -> bool {
        false
    }

    open spec fn from_spec(username: &str) -> UserId {
        choose|r: UserId| r is Username && (#[trigger] r->Username_0)@ == username@
    }
}

impl From<String> for UserId {
    fn from(username: String) -> UserId {
        UserId::Username(username)
    }
}

impl vstd::std_specs::convert::FromSpecImpl<String> for UserId {
    open spec fn obeys_from_spec() -> bool {
        true
    }

    open spec fn from_spec(username: String) -> UserId {
        UserId::Username(username)
    }
}

impl From<Integer> for UserId {
    fn from(id: Integer) -> UserId {
        UserId::Id(id)
    }
}

impl vstd::std_specs::convert::FromSpecImpl<Integer> for UserId {
    open spec fn obeys_from_spec() -> bool {
        true
    }

    open spec fn from_spec(id: Integer) -> UserId {
        UserId::Id(id)
    }
}

} // verus!
