use vstd::prelude::*;
use crate::json::{json_bool, json_member, json_object, json_opt_member, opt_json_bool, JsonWriter};

verus! {

/// Shows a reply interface to the user,
/// as if they manually selected the bot‘s message and tapped ’Reply'
#[derive(Clone, Debug)]
pub struct ForceReply {
    force_reply: bool,
    selective: Option<bool>,
}

impl View for ForceReply {
    type V = (bool, Option<bool>);

    closed spec fn view(&self) -> (bool, Option<bool>) {
        (self.force_reply, self.selective)
    }
}

impl ForceReply {
    /// Creates a new ForceReply
    pub fn new(force_reply: bool) -> (r: Self)
        ensures
            r@ == (force_reply, None::<bool>),
    {
        ForceReply { force_reply, selective: None }
    }

    /// Use this parameter if you want to force reply from specific users only
    pub fn selective(self, selective: bool) -> (r: Self)
        ensures
            r@ == (self@.0, Some(selective)),
    {
        ForceReply { selective: Some(selective), ..self }
    }

    /// The force_reply flag
    pub fn get_force_reply(&self) -> (r: bool)
        ensures
            r == self@.0,
    {
        self.force_reply
    }

    /// The selective flag, if set
    pub fn get_selective(&self) -> (r: Option<bool>)
        ensures
            r == self@.1,
    {
        self.selective
    }
}

/// A forced reply as JSON: `force_reply`, then `selective` where it is set.
pub open spec fn force_reply_json(v: (bool, Option<bool>)) -> Seq<char> {
    json_object(seq![json_member("force_reply"@, json_bool(v.0))] + json_opt_member("selective"@, opt_json_bool(v.1)))
}

impl ForceReply {
    /// The forced reply as a JSON object
    pub fn to_json(&self) -> (r: String)
        ensures
            r@ == force_reply_json(self@),
    {
        let mut w = JsonWriter::object();
        w.member_bool("force_reply", self.force_reply);
        w.opt_bool("selective", self.selective);
        assert(w.parts() =~= seq![json_member("force_reply"@, json_bool(self@.0))] + json_opt_member(
            "selective"@,
            opt_json_bool(self@.1),
        ));
        w.finish()
    }
}

} // verus!
