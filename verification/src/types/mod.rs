pub mod animation;
pub mod callback_query;
pub mod chat;
pub mod audio;
pub mod contact;
pub mod document;
pub mod file;
pub mod inline_mode;
pub mod input_media;
pub mod location;
pub mod media_group;
pub mod login_url;
pub mod message;
pub mod passport;
pub mod payments;
pub mod photo_size;
pub mod poll;
pub mod primitive;
pub mod raw_error;
pub mod reply_markup;
pub mod response;
pub mod stickers;
pub mod user;
pub mod venue;
pub mod video;
pub mod video_note;
pub mod voice;

pub use self::animation::Animation;
pub use self::audio::Audio;
pub use self::contact::Contact;
pub use self::document::Document;
pub use self::file::File;
pub use self::location::Location;
pub use self::login_url::LoginUrl;
pub use self::passport::{EncryptedCredentials, PassportFile};
pub use self::payments::{
    Invoice, LabeledPrice, OrderInfo, PreCheckoutQuery, ShippingAddress, ShippingOption, ShippingQuery,
    SuccessfulPayment,
};
pub use self::photo_size::PhotoSize;
pub use self::poll::{Poll, PollKind, PollOption};
pub use self::primitive::{FloatBits, Integer, ParseMode};
pub use self::stickers::{MaskPosition, MaskPositionPoint, Sticker, StickerSet};
pub use self::user::{Me, MentionError, User, UserId, UserProfilePhotos};
pub use self::venue::Venue;
pub use self::video::Video;
pub use self::video_note::VideoNote;
pub use self::voice::Voice;
pub use self::reply_markup::{
    ForceReply, InlineKeyboardButton, InlineKeyboardButtonAction, InlineKeyboardMarkup, KeyboardButton,
    KeyboardButtonPollType, RawInlineKeyboardButton, ReplyKeyboardMarkup, ReplyKeyboardRemove, ReplyMarkup,
};
