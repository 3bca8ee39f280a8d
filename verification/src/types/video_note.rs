use vstd::prelude::*;
use crate::types::{photo_size::PhotoSize, primitive::Integer};

verus! {

/// Video message
#[derive(Clone, Debug)]
pub struct VideoNote {
    /// Unique identifier for this file
    pub file_id: String,
    /// Unique identifier for this file,
    /// which is supposed to be the same over time and for different bots
    pub file_unique_id: String,
    /// Video width and height as defined by sender
    pub length: Integer,
    /// Duration of the video in seconds as defined by sender
    pub duration: Integer,
    /// Video thumbnail
    pub thumb: Option<PhotoSize>,
    /// File size
    pub file_size: Option<Integer>,
}

} // verus!
