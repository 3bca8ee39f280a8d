use vstd::prelude::*;
use crate::types::primitive::Integer;

verus! {

/// Phone contact
#[derive(Clone, Debug)]
pub struct Contact {
    /// Contact phone number
    pub phone_number: String,
    /// Contact first name
    pub first_name: String,
    /// Contact last name
    pub last_name: Option<String>,
    /// Contact user identifier in Telegram
    pub user_id: Option<Integer>,
    /// Additional data about the contact in the form of a vCard
    pub vcard: Option<String>,
}

} // verus!
