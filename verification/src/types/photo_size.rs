use vstd::prelude::*;
use crate::types::primitive::Integer;

verus! {

/// One size of a photo or a file / sticker thumbnail
#[derive(Clone, Debug)]
pub struct PhotoSize {
    /// Identifier for this file, which can be used to download or reuse the file
    pub file_id: String,
    /// Unique identifier for this file,
    /// which is supposed to be the same over time and for different bots
    pub file_unique_id: String,
    /// Photo width
    pub width: Integer,
    /// Photo height
    pub height: Integer,
    /// File size
    pub file_size: Option<Integer>,
}

} // verus!
