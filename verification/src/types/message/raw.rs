use vstd::prelude::*;
use crate::types::{primitive::Integer, user::User};

verus! {

/// A text entity as the Bot API sends it, before its offsets are checked against the text
#[derive(Clone, Debug)]
pub struct RawMessageEntity {
    /// Type of the entity
    pub kind: RawMessageEntityKind,
    /// Offset in UTF-16 code units to the start of the entity
    pub offset: Integer,
    /// Length of the entity in UTF-16 code units
    pub length: Integer,
    /// For “text_link” only, url that will be opened after user taps on the text
    pub url: Option<String>,
    /// For “text_mention” only, the mentioned user
    pub user: Option<User>,
}

/// Type of a text entity as the Bot API names it
#[derive(Clone, Copy, Debug, PartialEq, Eq, Structural)]
pub enum RawMessageEntityKind {
    /// “bold”
    Bold,
    /// “bot_command”
    BotCommand,
    /// “cashtag”
    Cashtag,
    /// “code”
    Code,
    /// “email”
    Email,
    /// “hashtag”
    Hashtag,
    /// “italic”
    Italic,
    /// “mention”
    Mention,
    /// “phone_number”
    PhoneNumber,
    /// “pre”
    Pre,
    /// “strikethrough”
    Strikethrough,
    /// “text_link”
    TextLink,
    /// “text_mention”
    TextMention,
    /// “underline”
    Underline,
    /// “url”
    Url,
}

} // verus!
