pub mod sticker;
pub mod user;

pub use self::sticker::{
    AddStickerToSet, CreateNewStickerSet, DeleteStickerFromSet, GetStickerSet, SendSticker,
    SetStickerPositionInSet, UploadStickerFile,
};
pub use self::user::{GetMe, GetUserProfilePhotos};
