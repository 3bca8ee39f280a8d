use vstd::prelude::*;
use crate::encoding::str_eq;
use crate::types::{photo_size::PhotoSize, primitive::{FloatBits, Integer}};

verus! {

/// The part of the face relative to which the mask should be placed
#[derive(Clone, Copy, Debug, PartialEq, Eq, Structural)]
pub enum MaskPositionPoint {
    /// “forehead”
    Forehead,
    /// “eyes”
    Eyes,
    /// “mouth”
    Mouth,
    /// “chin”
    Chin,
}

/// The position on faces where a mask should be placed by default
///
/// The shifts and the scale are Telegram Floats, held as their bit patterns
#[derive(Clone, Copy, Debug)]
pub struct MaskPosition {
    /// The part of the face relative
    /// to which the mask should be placed
    pub point: MaskPositionPoint,
    /// Shift by X-axis measured in widths
    /// of the mask scaled to the face size,
    /// from left to right.
    /// For example, choosing -1.0 will place mask just to the left of the default mask position
    pub x_shift: FloatBits,
    /// Shift by Y-axis measured in heights
    /// of the mask scaled to the face size,
    /// from top to bottom.
    /// For example, 1.0 will place the mask just below the default mask position.
    pub y_shift: FloatBits,
    /// Mask scaling coefficient.
    /// For example, 2.0 means double size.
    pub scale: FloatBits,
}

/// Sticker
#[derive(Clone, Debug)]
pub struct Sticker {
    /// Unique identifier for this file
    pub file_id: String,
    /// Sticker width
    pub width: Integer,
    /// Sticker height
    pub height: Integer,
    /// Sticker thumbnail in the .webp or .jpg format
    pub thumb: Option<PhotoSize>,
    /// Emoji associated with the sticker
    pub emoji: Option<String>,
    /// Name of the sticker set to which the sticker belongs
    pub set_name: Option<String>,
    /// For mask stickers, the position where the mask should be placed
    pub mask_position: Option<MaskPosition>,
    /// File size
    pub file_size: Option<Integer>,
}

/// Sticker set
#[derive(Clone, Debug)]
pub struct StickerSet {
    /// Sticker set name
    pub name: String,
    /// Sticker set title
    pub title: String,
    /// True, if the sticker set contains masks
    pub contains_masks: bool,
    /// List of all set stickers
    pub stickers: Vec<Sticker>,
}

/// The name under which a part of the face is sent.
pub open spec fn mask_point_name(point: MaskPositionPoint) -> Seq<char> {
    match point {
        MaskPositionPoint::Forehead => "forehead"@,
        MaskPositionPoint::Eyes => "eyes"@,
        MaskPositionPoint::Mouth => "mouth"@,
        MaskPositionPoint::Chin => "chin"@,
    }
}

impl MaskPositionPoint {
    /// The name under which the part of the face is sent
    pub fn name(&self) -> (r: &'static str)
        ensures
            r@ == mask_point_name(*self),
    {
        match self {
            MaskPositionPoint::Forehead => "forehead",
            MaskPositionPoint::Eyes => "eyes",
            MaskPositionPoint::Mouth => "mouth",
            MaskPositionPoint::Chin => "chin",
        }
    }

    /// The part of the face as JSON: its name as a string
    pub fn to_json(&self) -> (r: String)
        ensures
            r@ == crate::json::json_string(mask_point_name(*self)),
    {
        crate::json::json_string_of(self.name())
    }

    /// The part of the face of a name, where the name is one
    pub fn from_name(name: &str) -> (r: Option<Self>)
        ensures
            match r {
                Some(p) => mask_point_name(p) == name@,
                None => forall|p: MaskPositionPoint| mask_point_name(p) != name@,
            },
    {
        if str_eq(name, "forehead") {
            Some(MaskPositionPoint::Forehead)
        } else if str_eq(name, "eyes") {
            Some(MaskPositionPoint::Eyes)
        } else if str_eq(name, "mouth") {
            Some(MaskPositionPoint::Mouth)
        } else if str_eq(name, "chin") {
            Some(MaskPositionPoint::Chin)
        } else {
            None
        }
    }
}

} // verus!
