use vstd::prelude::*;
use crate::types::primitive::Integer;

verus! {

/// Information about a poll
#[derive(Clone, Debug)]
pub struct Poll {
    /// Unique poll identifier
    pub id: String,
    /// Poll question, 1-255 characters
    pub question: String,
    /// List of poll options
    pub options: Vec<PollOption>,
    /// Total number of users that voted in the poll
    pub total_voter_count: Integer,
    /// True, if the poll is closed
    pub is_closed: bool,
    /// True, if the poll is anonymous
    pub is_anonymous: bool,
    /// Poll type
    pub kind: PollKind,
    /// True, if the poll allows multiple answers
    pub allows_multiple_answers: bool,
    /// 0-based identifier of the correct answer option
    ///
    /// Available only for polls in the quiz mode, which are closed,
    /// or was sent (not forwarded) by the bot or to the private chat with the bot
    pub correct_option_id: Option<Integer>,
}

/// Information about one answer option in a poll
#[derive(Clone, Debug)]
pub struct PollOption {
    /// Option text, 1-100 characters
    pub text: String,
    /// Number of users that voted for this option
    pub voter_count: Integer,
}

/// Type of a poll
#[derive(Clone, Copy, Debug, PartialEq, Eq, Structural, PartialOrd)]
pub enum PollKind {
    /// Quiz Mode
    Quiz,
    /// Regular poll
    Regular,
}

/// The name under which a kind of poll is sent.
pub open spec fn poll_kind_name(kind: PollKind) -> Seq<char> {
    match kind {
        PollKind::Quiz => "quiz"@,
        PollKind::Regular => "regular"@,
    }
}

impl PollKind {
    /// The kind of poll as JSON: its name as a string
    pub fn to_json(&self) -> (r: String)
        ensures
            r@ == crate::json::json_string(poll_kind_name(*self)),
    {
        match self {
            PollKind::Quiz => crate::json::json_string_of("quiz"),
            PollKind::Regular => crate::json::json_string_of("regular"),
        }
    }
}

} // verus!
