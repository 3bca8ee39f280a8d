use vstd::prelude::*;
use crate::types::{photo_size::PhotoSize, primitive::Integer};

verus! {

/// General file (as opposed to photos, voice messages and audio files)
#[derive(Clone, Debug)]
pub struct Document {
    /// Unique file identifier
    pub file_id: String,
    /// Unique identifier for this file,
    /// which is supposed to be the same over time and for different bots
    pub file_unique_id: String,
    /// Document thumbnail as defined by sender
    pub thumb: Option<PhotoSize>,
    /// Original filename as defined by sender
    pub file_name: Option<String>,
    /// MIME type of the file as defined by sender
    pub mime_type: Option<String>,
    /// File size
    pub file_size: Option<Integer>,
}

} // verus!
