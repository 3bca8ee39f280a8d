use vstd::prelude::*;

verus! {

/// Chat photo
#[derive(Clone, Debug)]
pub struct ChatPhoto {
    /// File identifier of small (160x160) chat photo.
    /// This file_id can be used only for photo download and
    /// only for as long as the photo is not changed
    pub small_file_id: String,
    /// Unique file identifier of small (160x160) chat photo,
    /// which is supposed to be the same over time and for different bots
    pub small_file_unique_id: String,
    /// File identifier of big (640x640) chat photo.
    /// This file_id can be used only for photo download and
    /// only for as long as the photo is not changed
    pub big_file_id: String,
    /// Unique file identifier of big (640x640) chat photo,
    /// which is supposed to be the same over time and for different bots
    pub big_file_unique_id: String,
}

} // verus!
