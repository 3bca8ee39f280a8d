use vstd::prelude::*;
use crate::types::primitive::Integer;

verus! {

/// Voice note
#[derive(Clone, Debug)]
pub struct Voice {
    /// Unique identifier for this file
    pub file_id: String,
    /// Unique identifier for this file,
    /// which is supposed to be the same over time and for different bots
    pub file_unique_id: String,
    /// Duration of the audio in seconds as defined by sender
    pub duration: Integer,
    /// MIME type of the file as defined by sender
    pub mime_type: Option<String>,
    /// File size
    pub file_size: Option<Integer>,
}

} // verus!
