use vstd::prelude::*;
use crate::json::{
    flag_json, json_array, json_member, json_object, json_opt_member, json_string, opt_json_bool, JsonWriter,
};
use crate::types::poll::{poll_kind_name, PollKind};

verus! {

/// Custom keyboard with reply options
#[derive(Clone, Debug)]
pub struct ReplyKeyboardMarkup {
    keyboard: Vec<Vec<KeyboardButton>>,
    resize_keyboard: bool,
    one_time_keyboard: bool,
    selective: bool,
}

/// The plain contents of a reply keyboard: rows of buttons, then the
/// resize_keyboard, one_time_keyboard and selective flags.
pub type ReplyKeyboardMarkupView = (Seq<Seq<KeyboardButton>>, bool, bool, bool);

/// The rows of buttons of a reply keyboard.
pub open spec fn reply_rows_view(rows: Seq<Vec<KeyboardButton>>) -> Seq<Seq<KeyboardButton>> {
    rows.map_values(|row: Vec<KeyboardButton>| row@)
}

impl View for ReplyKeyboardMarkup {
    type V = ReplyKeyboardMarkupView;

    closed spec fn view(&self) -> ReplyKeyboardMarkupView {
        (reply_rows_view(self.keyboard@), self.resize_keyboard, self.one_time_keyboard, self.selective)
    }
}

impl ReplyKeyboardMarkup {
    /// Returns a KeyboardMarkup with given keyboard
    pub fn from_vec(keyboard: Vec<Vec<KeyboardButton>>) -> (r: Self)
        ensures
            r@ == (reply_rows_view(keyboard@), false, false, false),
    {
        ReplyKeyboardMarkup { keyboard, resize_keyboard: false, one_time_keyboard: false, selective: false }
    }

    /// Requests clients to resize the keyboard vertically for optimal fit
    ///
    /// (e.g., make the keyboard smaller if there are just two rows of buttons)
    /// Defaults to false, in which case the custom keyboard
    /// is always of the same height as the app's standard keyboard
    pub fn resize_keyboard(self, resize_keyboard: bool) -> (r: Self)
        ensures
            r@ == (self@.0, resize_keyboard, self@.2, self@.3),
    {
        ReplyKeyboardMarkup { resize_keyboard, ..self }
    }

    /// Requests clients to hide the keyboard as soon as it's been used
    ///
    /// The keyboard will still be available, but clients will automatically
    /// display the usual letter-keyboard in the chat – the user
    /// can press a special button in the input field to see the custom keyboard again
    /// Defaults to false
    pub fn one_time_keyboard(self, one_time_keyboard: bool) -> (r: Self)
        ensures
            r@ == (self@.0, self@.1, one_time_keyboard, self@.3),
    {
        ReplyKeyboardMarkup { one_time_keyboard, ..self }
    }

    /// Use this parameter if you want to show the keyboard to specific users only
    ///
    /// Targets:
    ///
    /// 1. users that are @mentioned in the text of the Message object;
    /// 2. if the bot's message is a reply (has reply_to_message_id), sender of the original message
    pub fn selective(self, selective: bool) -> (r: Self)
        ensures
            r@ == (self@.0, self@.1, self@.2, selective),
    {
        ReplyKeyboardMarkup { selective, ..self }
    }

    /// Adds a row to keyboard
    pub fn row(self, row: Vec<KeyboardButton>) -> (r: Self)
        ensures
            r@ == (self@.0.push(row@), self@.1, self@.2, self@.3),
    {
        let mut keyboard = self.keyboard;
        let ghost old_rows = keyboard@;
        keyboard.push(row);
        proof {
            assert(reply_rows_view(keyboard@) =~= reply_rows_view(old_rows).push(row@));
        }
        ReplyKeyboardMarkup { keyboard, ..self }
    }

    /// The rows of buttons
    pub fn rows(&self) -> (r: &Vec<Vec<KeyboardButton>>)
        ensures
            reply_rows_view(r@) == self@.0,
    {
        &self.keyboard
    }

    /// The resize_keyboard flag
    pub fn get_resize_keyboard(&self) -> (r: bool)
        ensures
            r == self@.1,
    {
        self.resize_keyboard
    }

    /// The one_time_keyboard flag
    pub fn get_one_time_keyboard(&self) -> (r: bool)
        ensures
            r == self@.2,
    {
        self.one_time_keyboard
    }

    /// The selective flag
    pub fn get_selective(&self) -> (r: bool)
        ensures
            r == self@.3,
    {
        self.selective
    }
}

impl Default for ReplyKeyboardMarkup {
    fn default() -> (r: Self)
        ensures
            r@ == (Seq::<Seq<KeyboardButton>>::empty(), false, false, false),
    {
        let r = ReplyKeyboardMarkup::from_vec(Vec::new());
        assert(r@.0 =~= Seq::<Seq<KeyboardButton>>::empty());
        r
    }
}

impl From<Vec<Vec<KeyboardButton>>> for ReplyKeyboardMarkup {
    fn from(keyboard: Vec<Vec<KeyboardButton>>) -> (r: ReplyKeyboardMarkup)
        ensures
            r@ == (reply_rows_view(keyboard@), false, false, false),
    {
        ReplyKeyboardMarkup { keyboard, resize_keyboard: false, one_time_keyboard: false, selective: false }
    }
}

impl vstd::std_specs::convert::FromSpecImpl<Vec<Vec<KeyboardButton>>> for ReplyKeyboardMarkup {
    open spec fn obeys_from_spec() -> bool {
        true
    }

    closed spec fn from_spec(keyboard: Vec<Vec<KeyboardButton>>) -> ReplyKeyboardMarkup {
        ReplyKeyboardMarkup { keyboard, resize_keyboard: false, one_time_keyboard: false, selective: false }
    }
}

/// Button of the reply keyboard
#[derive(Clone, Debug)]
pub struct KeyboardButton {
    text: String,
    request_contact: bool,
    request_location: bool,
    request_poll: Option<KeyboardButtonPollType>,
}

/// The plain contents of a reply keyboard button: the text, then whether it requests
/// a contact, a location or a poll.
pub type KeyboardButtonView = (Seq<char>, bool, bool, Option<KeyboardButtonPollType>);

/// A button requests at most one thing of the user: a contact, a location or a poll.
pub open spec fn requests_at_most_one(v: KeyboardButtonView) -> bool {
    &&& v.1 ==> !v.2 && v.3 is None
    &&& v.2 ==> !v.1 && v.3 is None
    &&& v.3 is Some ==> !v.1 && !v.2
}

impl View for KeyboardButton {
    type V = KeyboardButtonView;

    closed spec fn view(&self) -> KeyboardButtonView {
        (self.text@, self.request_contact, self.request_location, self.request_poll)
    }
}

impl KeyboardButton {
    /// Creates a new KeyboardButton
    ///
    /// # Arguments
    ///
    /// * text - Text of the button
    ///          If none of the optional fields are used,
    ///          it will be sent as a message when the button is pressed
    pub fn new(text: &str) -> (r: Self)
        ensures
            r@ == (text@, false, false, None::<KeyboardButtonPollType>),
            requests_at_most_one(r@),
    {
        KeyboardButton { text: text.to_owned(), request_contact: false, request_location: false, request_poll: None }
    }

    /// The user's phone number will be sent as a contact when the button is pressed
    ///
    /// Available in private chats only
    pub fn request_contact(self) -> (r: Self)
        ensures
            r@ == (self@.0, true, false, None::<KeyboardButtonPollType>),
            requests_at_most_one(r@),
    {
        KeyboardButton { text: self.text, request_contact: true, request_location: false, request_poll: None }
    }

    /// The user's current location will be sent when the button is pressed
    ///
    /// Available in private chats only
    pub fn request_location(self) -> (r: Self)
        ensures
            r@ == (self@.0, false, true, None::<KeyboardButtonPollType>),
            requests_at_most_one(r@),
    {
        KeyboardButton { text: self.text, request_contact: false, request_location: true, request_poll: None }
    }

    /// The user will be asked to create a poll and send it to the bot when the button is pressed
    ///
    /// Available in private chats only
    ///
    /// If quiz is passed, the user will be allowed to create only polls in the quiz mode.
    /// If regular is passed, only regular polls will be allowed.
    /// Otherwise, the user will be allowed to create a poll of any type.
    pub fn request_poll(self, button_type: KeyboardButtonPollType) -> (r: Self)
        ensures
            r@ == (self@.0, false, false, Some(button_type)),
            requests_at_most_one(r@),
    {
        KeyboardButton {
            text: self.text,
            request_contact: false,
            request_location: false,
            request_poll: Some(button_type),
        }
    }

    /// Text of the button
    pub fn get_text(&self) -> (r: &str)
        ensures
            r@ == self@.0,
    {
        self.text.as_str()
    }

    /// Whether the button requests the user's phone number
    pub fn get_request_contact(&self) -> (r: bool)
        ensures
            r == self@.1,
    {
        self.request_contact
    }

    /// Whether the button requests the user's location
    pub fn get_request_location(&self) -> (r: bool)
        ensures
            r == self@.2,
    {
        self.request_location
    }

    /// The kind of poll the button requests, if it requests one
    pub fn get_request_poll(&self) -> (r: Option<KeyboardButtonPollType>)
        ensures
            r == self@.3,
    {
        self.request_poll
    }
}

/// This object represents type of a poll which is allowed to be created
/// and sent when the corresponding button is pressed
#[derive(Clone, Copy, Debug, PartialEq, Eq, Structural)]
pub struct KeyboardButtonPollType {
    kind: Option<PollKind>,
}

impl KeyboardButtonPollType {
    /// The kind of poll that may be created, or any kind when absent.
    pub closed spec fn spec_kind(&self) -> Option<PollKind> {
        self.kind
    }

    /// The kind of poll that may be created, or any kind when absent
    pub fn kind(&self) -> (r: Option<PollKind>)
        ensures
            r == self.spec_kind(),
    {
        self.kind
    }
}

impl From<PollKind> for KeyboardButtonPollType {
    fn from(kind: PollKind) -> (r: Self)
        ensures
            r.spec_kind() == Some(kind),
    {
        KeyboardButtonPollType { kind: Some(kind) }
    }
}

impl vstd::std_specs::convert::FromSpecImpl<PollKind> for KeyboardButtonPollType {
    open spec fn obeys_from_spec() -> bool {
        true
    }

    closed spec fn from_spec(kind: PollKind) -> KeyboardButtonPollType {
        KeyboardButtonPollType { kind: Some(kind) }
    }
}

impl From<Option<PollKind>> for KeyboardButtonPollType {
    fn from(kind: Option<PollKind>) -> (r: Self)
        ensures
            r.spec_kind() == kind,
    {
        KeyboardButtonPollType { kind }
    }
}

impl vstd::std_specs::convert::FromSpecImpl<Option<PollKind>> for KeyboardButtonPollType {
    open spec fn obeys_from_spec() -> bool {
        true
    }

    closed spec fn from_spec(kind: Option<PollKind>) -> KeyboardButtonPollType {
        KeyboardButtonPollType { kind }
    }
}

/// Requests clients to remove the custom keyboard
///
/// (user will not be able to summon this keyboard;
/// if you want to hide the keyboard from sight but keep it accessible,
/// use one_time_keyboard in ReplyKeyboardMarkup)
#[derive(Clone, Debug)]
pub struct ReplyKeyboardRemove {
    remove_keyboard: bool,
    selective: Option<bool>,
}

impl View for ReplyKeyboardRemove {
    type V = (bool, Option<bool>);

    closed spec fn view(&self) -> (bool, Option<bool>) {
        (self.remove_keyboard, self.selective)
    }
}

impl Default for ReplyKeyboardRemove {
    /// Returns an new keyboard
    fn default() -> (r: ReplyKeyboardRemove)
        ensures
            r@ == (true, None::<bool>),
    {
        ReplyKeyboardRemove { remove_keyboard: true, selective: None }
    }
}

impl ReplyKeyboardRemove {
    /// Use this parameter if you want to remove the keyboard for specific users only
    ///
    /// Targets:
    ///
    /// 1. users that are @mentioned in the text of the Message object;
    /// 2. if the bot's message is a reply (has reply_to_message_id), sender of the original message
    pub fn selective(self, selective: bool) -> (r: Self)
        ensures
            r@ == (self@.0, Some(selective)),
    {
        ReplyKeyboardRemove { selective: Some(selective), ..self }
    }

    /// The remove_keyboard flag (always true)
    pub fn get_remove_keyboard(&self) -> (r: bool)
        ensures
            r == self@.0,
    {
        self.remove_keyboard
    }

    /// The selective flag, if set
    pub fn get_selective(&self) -> (r: Option<bool>)
        ensures
            r == self@.1,
    {
        self.selective
    }
}

/// The JSON of an optional kind of poll.
pub open spec fn opt_poll_kind_json(kind: Option<PollKind>) -> Option<Seq<char>> {
    match kind {
        Some(k) => Some(json_string(poll_kind_name(k))),
        None => None,
    }
}

/// A poll type as JSON: an object with the kind under `type`, where one is set.
pub open spec fn poll_type_json(t: KeyboardButtonPollType) -> Seq<char> {
    json_object(json_opt_member("type"@, opt_poll_kind_json(t.spec_kind())))
}

/// The JSON of an optional poll type.
pub open spec fn opt_poll_type_json(t: Option<KeyboardButtonPollType>) -> Option<Seq<char>> {
    match t {
        Some(p) => Some(poll_type_json(p)),
        None => None,
    }
}

/// The members of a reply keyboard button: the text, then the requests that are made.
pub open spec fn keyboard_button_members(v: KeyboardButtonView) -> Seq<Seq<char>> {
    seq![json_member("text"@, json_string(v.0))] + json_opt_member("request_contact"@, flag_json(v.1))
        + json_opt_member("request_location"@, flag_json(v.2)) + json_opt_member(
        "request_poll"@,
        opt_poll_type_json(v.3),
    )
}

/// A reply keyboard button as JSON.
pub open spec fn keyboard_button_json(v: KeyboardButtonView) -> Seq<char> {
    json_object(keyboard_button_members(v))
}

/// A row of reply keyboard buttons as a JSON array.
pub open spec fn keyboard_row_json(row: Seq<KeyboardButton>) -> Seq<char> {
    json_array(row.map_values(|b: KeyboardButton| keyboard_button_json(b@)))
}

/// The members of a reply keyboard: the rows under `keyboard`, then the flags that are set.
pub open spec fn reply_keyboard_members(v: ReplyKeyboardMarkupView) -> Seq<Seq<char>> {
    seq![json_member("keyboard"@, json_array(v.0.map_values(|row: Seq<KeyboardButton>| keyboard_row_json(row))))]
        + json_opt_member("resize_keyboard"@, flag_json(v.1)) + json_opt_member(
        "one_time_keyboard"@,
        flag_json(v.2),
    ) + json_opt_member("selective"@, flag_json(v.3))
}

/// A reply keyboard as JSON.
pub open spec fn reply_keyboard_json(v: ReplyKeyboardMarkupView) -> Seq<char> {
    json_object(reply_keyboard_members(v))
}

/// A keyboard removal as JSON: `remove_keyboard`, then `selective` where it is set.
pub open spec fn keyboard_remove_json(v: (bool, Option<bool>)) -> Seq<char> {
    json_object(seq![json_member("remove_keyboard"@, crate::json::json_bool(v.0))] + json_opt_member(
        "selective"@,
        opt_json_bool(v.1),
    ))
}

impl KeyboardButtonPollType {
    /// The poll type as a JSON object
    pub fn to_json(&self) -> (r: String)
        ensures
            r@ == poll_type_json(*self),
    {
        let mut w = JsonWriter::object();
        match self.kind {
            Some(k) => {
                let j = k.to_json();
                w.member_raw("type", j.as_str());
            },
            None => {},
        }
        assert(w.parts() =~= json_opt_member("type"@, opt_poll_kind_json(self.spec_kind())));
        w.finish()
    }
}

impl KeyboardButton {
    /// The button as a JSON object
    pub fn to_json(&self) -> (r: String)
        ensures
            r@ == keyboard_button_json(self@),
    {
        let mut w = JsonWriter::object();
        w.member_string("text", self.text.as_str());
        w.flag("request_contact", self.request_contact);
        w.flag("request_location", self.request_location);
        let ghost before = w.parts();
        match &self.request_poll {
            Some(p) => {
                let j = p.to_json();
                w.member_raw("request_poll", j.as_str());
            },
            None => {},
        }
        assert(w.parts() =~= before + json_opt_member("request_poll"@, opt_poll_type_json(self@.3)));
        assert(w.parts() =~= keyboard_button_members(self@));
        w.finish()
    }
}

/// A row of reply keyboard buttons as a JSON array.
fn keyboard_row_to_json(row: &Vec<KeyboardButton>) -> (r: String)
    ensures
        r@ == keyboard_row_json(row@),
{
    let mut w = JsonWriter::array();
    let mut i: usize = 0;
    while i < row.len()
        invariant
            i <= row.len(),
            !w.is_object(),
            w.parts() == row@.take(i as int).map_values(|b: KeyboardButton| keyboard_button_json(b@)),
        decreases row.len() - i,
    {
        let j = row[i].to_json();
        w.push_raw(j.as_str());
        assert(row@.take(i + 1) =~= row@.take(i as int).push(row@[i as int]));
        i = i + 1;
        assert(w.parts() =~= row@.take(i as int).map_values(|b: KeyboardButton| keyboard_button_json(b@)));
    }
    assert(row@.take(i as int) =~= row@);
    w.finish()
}

impl ReplyKeyboardMarkup {
    /// The keyboard as a JSON object
    pub fn to_json(&self) -> (r: String)
        ensures
            r@ == reply_keyboard_json(self@),
    {
        let rows = &self.keyboard;
        let ghost v = self@.0;
        let mut w = JsonWriter::array();
        let mut i: usize = 0;
        while i < rows.len()
            invariant
                i <= rows.len(),
                v == reply_rows_view(rows@),
                !w.is_object(),
                w.parts() == v.take(i as int).map_values(|row: Seq<KeyboardButton>| keyboard_row_json(row)),
            decreases rows.len() - i,
        {
            let j = keyboard_row_to_json(&rows[i]);
            w.push_raw(j.as_str());
            assert(v.take(i + 1) =~= v.take(i as int).push(v[i as int]));
            i = i + 1;
            assert(w.parts() =~= v.take(i as int).map_values(|row: Seq<KeyboardButton>| keyboard_row_json(row)));
        }
        assert(v.take(i as int) =~= v);
        let keyboard = w.finish();
        let mut o = JsonWriter::object();
        o.member_raw("keyboard", keyboard.as_str());
        o.flag("resize_keyboard", self.resize_keyboard);
        o.flag("one_time_keyboard", self.one_time_keyboard);
        o.flag("selective", self.selective);
        assert(o.parts() =~= reply_keyboard_members(self@));
        o.finish()
    }
}

impl ReplyKeyboardRemove {
    /// The keyboard removal as a JSON object
    pub fn to_json(&self) -> (r: String)
        ensures
            r@ == keyboard_remove_json(self@),
    {
        let mut w = JsonWriter::object();
        w.member_bool("remove_keyboard", self.remove_keyboard);
        w.opt_bool("selective", self.selective);
        assert(w.parts() =~= seq![json_member("remove_keyboard"@, crate::json::json_bool(self@.0))]
            + json_opt_member("selective"@, opt_json_bool(self@.1)));
        w.finish()
    }
}

} // verus!
