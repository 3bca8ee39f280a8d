use vstd::prelude::*;
use crate::encoding::push_str;

verus! {

/// A field that the Bot API data must hold for its kind, and does not
#[derive(Clone, Copy, Debug)]
pub struct MissingField {
    /// Name of the missing field
    pub field: &'static str,
}


/// The message of a missing field error.
pub open spec fn missing_field_message(e: MissingField) -> Seq<char> {
    "missing field `"@ + e.field@ + "`"@
}

impl MissingField {
    /// Returns a human-readable description of the error
    pub fn to_string(&self) -> (r: String)
        ensures
            r@ == missing_field_message(*self),
    {
        let mut r = String::new();
        push_str(&mut r, "missing field `");
        push_str(&mut r, self.field);
        push_str(&mut r, "`");
        assert(r@ =~= missing_field_message(*self));
        r
    }
}

} // verus!
