use vstd::prelude::*;
use crate::types::primitive::FloatBits;

verus! {

/// Point on the map
///
/// The coordinates are Telegram Floats, held as their bit patterns
#[derive(Clone, Copy, Debug)]
pub struct Location {
    /// Longitude as defined by sender
    pub longitude: FloatBits,
    /// Latitude as defined by sender
    pub latitude: FloatBits,
}

} // verus!
