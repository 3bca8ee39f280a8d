pub mod force_reply;
pub mod inline_keyboard;
pub mod reply_keyboard;

pub use self::force_reply::ForceReply;
pub use self::inline_keyboard::{
    InlineKeyboardButton, InlineKeyboardButtonAction, InlineKeyboardMarkup, RawInlineKeyboardButton,
};
pub use self::reply_keyboard::{KeyboardButton, KeyboardButtonPollType, ReplyKeyboardMarkup, ReplyKeyboardRemove};
pub use self::markup::{ReplyMarkup, ReplyMarkupError};

pub mod markup;
