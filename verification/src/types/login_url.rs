use vstd::prelude::*;
use crate::json::{
    json_member, json_object, json_opt_member, json_string, opt_json_bool, opt_json_string, JsonWriter,
};

verus! {

/// Represents a parameter of the inline keyboard button used to automatically authorize a user
///
/// Serves as a great replacement for the Telegram Login Widget when the user is coming from Telegram
#[derive(Clone, Debug)]
pub struct LoginUrl {
    url: String,
    forward_text: Option<String>,
    bot_username: Option<String>,
    request_write_access: Option<bool>,
}

/// The plain contents of a login URL: URL, forward text, bot username, write access request.
pub type LoginUrlView = (Seq<char>, Option<Seq<char>>, Option<Seq<char>>, Option<bool>);

/// The contents of an optional string.
pub open spec fn opt_view(s: Option<String>) -> Option<Seq<char>> {
    match s {
        Some(x) => Some(x@),
        None => None,
    }
}

impl View for LoginUrl {
    type V = LoginUrlView;

    closed spec fn view(&self) -> LoginUrlView {
        (self.url@, opt_view(self.forward_text), opt_view(self.bot_username), self.request_write_access)
    }
}

impl LoginUrl {
    /// Creates a new LoginUrl with given URL
    ///
    /// An HTTP URL will be opened with user authorization data added to the query string when the button is pressed
    ///
    /// If the user refuses to provide authorization data, the original URL without information about the user will be opened
    ///
    /// NOTE: You **must** always check the hash of the received data to verify the authentication
    /// and the integrity of the data as described in Checking authorization
    pub fn new(url: &str) -> (r: Self)
        ensures
            r@ == (url@, None::<Seq<char>>, None::<Seq<char>>, None::<bool>),
    {
        Self { url: url.to_owned(), forward_text: None, bot_username: None, request_write_access: None }
    }

    /// New text of the button in forwarded messages
    pub fn forward_text(self, forward_text: &str) -> (r: Self)
        ensures
            r@ == (self@.0, Some(forward_text@), self@.2, self@.3),
    {
        Self { forward_text: Some(forward_text.to_owned()), ..self }
    }

    /// Username of a bot, which will be used for user authorization
    ///
    /// If not specified, the current bot's username will be assumed
    ///
    /// The url's domain must be the same as the domain linked with the bot
    pub fn bot_username(self, bot_username: &str) -> (r: Self)
        ensures
            r@ == (self@.0, self@.1, Some(bot_username@), self@.3),
    {
        Self { bot_username: Some(bot_username.to_owned()), ..self }
    }

    /// Pass True to request the permission for your bot to send messages to the user
    pub fn request_write_access(self, request_write_access: bool) -> (r: Self)
        ensures
            r@ == (self@.0, self@.1, self@.2, Some(request_write_access)),
    {
        Self { request_write_access: Some(request_write_access), ..self }
    }

    /// The URL that is opened
    pub fn get_url(&self) -> (r: &str)
        ensures
            r@ == self@.0,
    {
        self.url.as_str()
    }

    /// The text of the button in forwarded messages, if set
    pub fn get_forward_text(&self) -> (r: Option<&str>)
        ensures
            match r {
                Some(s) => self@.1 == Some(s@),
                None => self@.1 is None,
            },
    {
        match &self.forward_text {
            Some(s) => Some(s.as_str()),
            None => None,
        }
    }

    /// The bot username used for authorization, if set
    pub fn get_bot_username(&self) -> (r: Option<&str>)
        ensures
            match r {
                Some(s) => self@.2 == Some(s@),
                None => self@.2 is None,
            },
    {
        match &self.bot_username {
            Some(s) => Some(s.as_str()),
            None => None,
        }
    }

    /// Whether write access is requested, if set
    pub fn get_request_write_access(&self) -> (r: Option<bool>)
        ensures
            r == self@.3,
    {
        self.request_write_access
    }
}

/// The members of a login URL as a JSON object: the URL, then each optional field that is set.
pub open spec fn login_url_members(v: LoginUrlView) -> Seq<Seq<char>> {
    seq![json_member("url"@, json_string(v.0))] + json_opt_member("forward_text"@, opt_json_string(v.1))
        + json_opt_member("bot_username"@, opt_json_string(v.2)) + json_opt_member(
        "request_write_access"@,
        opt_json_bool(v.3),
    )
}

/// A login URL as JSON.
pub open spec fn login_url_json(v: LoginUrlView) -> Seq<char> {
    json_object(login_url_members(v))
}

impl LoginUrl {
    /// The login URL as a JSON object
    pub fn to_json(&self) -> (r: String)
        ensures
            r@ == login_url_json(self@),
    {
        let mut w = JsonWriter::object();
        w.member_string("url", self.url.as_str());
        w.opt_string("forward_text", &self.forward_text);
        w.opt_string("bot_username", &self.bot_username);
        w.opt_bool("request_write_access", self.request_write_access);
        assert(w.parts() =~= login_url_members(self@));
        w.finish()
    }
}

impl From<&str> for LoginUrl {
    fn from(url: &str) -> (r: Self)
        ensures
            r@ == (url@, None::<Seq<char>>, None::<Seq<char>>, None::<bool>),
    {
        Self::new(url)
    }
}

impl vstd::std_specs::convert::FromSpecImpl<&str> for LoginUrl {
    open spec fn obeys_from_spec() -> bool {
        false
    }

    open spec fn from_spec(url: &str) -> LoginUrl {
        choose|r: LoginUrl| r@ == (url@, None::<Seq<char>>, None::<Seq<char>>, None::<bool>)
    }
}

} // verus!
