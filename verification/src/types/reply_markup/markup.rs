use vstd::prelude::*;
use crate::types::reply_markup::{
    force_reply::ForceReply,
    inline_keyboard::{inline_rows_view, InlineKeyboardButton, InlineKeyboardMarkup},
    force_reply::force_reply_json,
    inline_keyboard::inline_keyboard_json,
    reply_keyboard::{
        keyboard_remove_json, reply_keyboard_json, reply_rows_view, KeyboardButton, ReplyKeyboardMarkup,
        ReplyKeyboardRemove,
    },
};

verus! {

/// Reply markup
#[derive(Clone, Debug)]
pub enum ReplyMarkup {
    /// Force reply
    ForceReply(ForceReply),
    /// Inline keyboard
    InlineKeyboardMarkup(InlineKeyboardMarkup),
    /// A custom keyboard with reply options
    ReplyKeyboardMarkup(ReplyKeyboardMarkup),
    /// Remove keyboard
    ReplyKeyboardRemove(ReplyKeyboardRemove),
}

impl From<ForceReply> for ReplyMarkup {
    fn from(markup: ForceReply) -> ReplyMarkup {
        ReplyMarkup::ForceReply(markup)
    }
}

impl vstd::std_specs::convert::FromSpecImpl<ForceReply> for ReplyMarkup {
    open spec fn obeys_from_spec() -> bool {
        true
    }

    open spec fn from_spec(markup: ForceReply) -> ReplyMarkup {
        ReplyMarkup::ForceReply(markup)
    }
}

impl From<InlineKeyboardMarkup> for ReplyMarkup {
    fn from(markup: InlineKeyboardMarkup) -> ReplyMarkup {
        ReplyMarkup::InlineKeyboardMarkup(markup)
    }
}

impl vstd::std_specs::convert::FromSpecImpl<InlineKeyboardMarkup> for ReplyMarkup {
    open spec fn obeys_from_spec() -> bool {
        true
    }

    open spec fn from_spec(markup: InlineKeyboardMarkup) -> ReplyMarkup {
        ReplyMarkup::InlineKeyboardMarkup(markup)
    }
}

impl From<ReplyKeyboardMarkup> for ReplyMarkup {
    fn from(markup: ReplyKeyboardMarkup) -> ReplyMarkup {
        ReplyMarkup::ReplyKeyboardMarkup(markup)
    }
}

impl vstd::std_specs::convert::FromSpecImpl<ReplyKeyboardMarkup> for ReplyMarkup {
    open spec fn obeys_from_spec() -> bool {
        true
    }

    open spec fn from_spec(markup: ReplyKeyboardMarkup) -> ReplyMarkup {
        ReplyMarkup::ReplyKeyboardMarkup(markup)
    }
}

impl From<ReplyKeyboardRemove> for ReplyMarkup {
    fn from(markup: ReplyKeyboardRemove) -> ReplyMarkup {
        ReplyMarkup::ReplyKeyboardRemove(markup)
    }
}

impl vstd::std_specs::convert::FromSpecImpl<ReplyKeyboardRemove> for ReplyMarkup {
    open spec fn obeys_from_spec() -> bool {
        true
    }

    open spec fn from_spec(markup: ReplyKeyboardRemove) -> ReplyMarkup {
        ReplyMarkup::ReplyKeyboardRemove(markup)
    }
}

impl From<Vec<Vec<InlineKeyboardButton>>> for ReplyMarkup {
    fn from(markup: Vec<Vec<InlineKeyboardButton>>) -> (r: ReplyMarkup)
        ensures
            r matches ReplyMarkup::InlineKeyboardMarkup(m) && m@ == inline_rows_view(markup@),
    {
        ReplyMarkup::InlineKeyboardMarkup(InlineKeyboardMarkup::from(markup))
    }
}

impl vstd::std_specs::convert::FromSpecImpl<Vec<Vec<InlineKeyboardButton>>> for ReplyMarkup {
    open spec fn obeys_from_spec() -> bool {
        false
    }

    open spec fn from_spec(markup: Vec<Vec<InlineKeyboardButton>>) -> ReplyMarkup {
        choose|r: ReplyMarkup| r is InlineKeyboardMarkup && (#[trigger] r->InlineKeyboardMarkup_0)@ == inline_rows_view(markup@)
    }
}

impl From<Vec<Vec<KeyboardButton>>> for ReplyMarkup {
    fn from(markup: Vec<Vec<KeyboardButton>>) -> (r: ReplyMarkup)
        ensures
            r matches ReplyMarkup::ReplyKeyboardMarkup(m) && m@ == (reply_rows_view(markup@), false, false, false),
    {
        ReplyMarkup::ReplyKeyboardMarkup(ReplyKeyboardMarkup::from(markup))
    }
}

impl vstd::std_specs::convert::FromSpecImpl<Vec<Vec<KeyboardButton>>> for ReplyMarkup {
    open spec fn obeys_from_spec() -> bool {
        false
    }

    open spec fn from_spec(markup: Vec<Vec<KeyboardButton>>) -> ReplyMarkup {
        choose|r: ReplyMarkup| r is ReplyKeyboardMarkup && (#[trigger] r->ReplyKeyboardMarkup_0)@ == (reply_rows_view(markup@), false, false, false)
    }
}

/// Reply markup as JSON: the JSON of the markup it holds.
pub open spec fn reply_markup_json(markup: ReplyMarkup) -> Seq<char> {
    match markup {
        ReplyMarkup::ForceReply(m) => force_reply_json(m@),
        ReplyMarkup::InlineKeyboardMarkup(m) => inline_keyboard_json(m@),
        ReplyMarkup::ReplyKeyboardMarkup(m) => reply_keyboard_json(m@),
        ReplyMarkup::ReplyKeyboardRemove(m) => keyboard_remove_json(m@),
    }
}

/// An error occurred with reply markup
#[derive(Debug)]
pub enum ReplyMarkupError {
    /// Can not serialize markup
    Serialize(serde_json::Error),
}

impl ReplyMarkup {
    /// The markup as the JSON text that the Bot API receives
    pub fn serialize(&self) -> (r: Result<String, ReplyMarkupError>)
        ensures
            r matches Ok(t) && t@ == reply_markup_json(*self),
    {
        let text = match self {
            ReplyMarkup::ForceReply(m) => m.to_json(),
            ReplyMarkup::InlineKeyboardMarkup(m) => m.to_json(),
            ReplyMarkup::ReplyKeyboardMarkup(m) => m.to_json(),
            ReplyMarkup::ReplyKeyboardRemove(m) => m.to_json(),
        };
        Ok(text)
    }
}

} // verus!
