use vstd::prelude::*;
use crate::json::{
    json_array, json_member, json_object, json_opt_member, json_string, opt_json_bool, opt_json_string,
    JsonWriter,
};
use crate::types::login_url::{login_url_json, opt_view, LoginUrl, LoginUrlView};

verus! {

/// Inline keyboard that appears right next to the message it belongs to
#[derive(Clone, Debug)]
pub struct InlineKeyboardMarkup {
    inline_keyboard: Vec<Vec<InlineKeyboardButton>>,
}

/// The rows of buttons of an inline keyboard.
pub open spec fn inline_rows_view(rows: Seq<Vec<InlineKeyboardButton>>) -> Seq<Seq<InlineKeyboardButton>> {
    rows.map_values(|row: Vec<InlineKeyboardButton>| row@)
}

impl View for InlineKeyboardMarkup {
    type V = Seq<Seq<InlineKeyboardButton>>;

    closed spec fn view(&self) -> Seq<Seq<InlineKeyboardButton>> {
        inline_rows_view(self.inline_keyboard@)
    }
}

impl InlineKeyboardMarkup {
    /// Returns a KeyboardMarkup with given keyboard
    pub fn from_vec(inline_keyboard: Vec<Vec<InlineKeyboardButton>>) -> (r: Self)
        ensures
            r@ == inline_rows_view(inline_keyboard@),
    {
        InlineKeyboardMarkup { inline_keyboard }
    }

    /// Adds a row to keyboard
    pub fn row(self, row: Vec<InlineKeyboardButton>) -> (r: Self)
        ensures
            r@ == self@.push(row@),
    {
        let mut inline_keyboard = self.inline_keyboard;
        let ghost old_rows = inline_keyboard@;
        inline_keyboard.push(row);
        proof {
            assert(inline_rows_view(inline_keyboard@) =~= inline_rows_view(old_rows).push(row@));
        }
        InlineKeyboardMarkup { inline_keyboard }
    }

    /// The rows of buttons
    pub fn rows(&self) -> (r: &Vec<Vec<InlineKeyboardButton>>)
        ensures
            inline_rows_view(r@) == self@,
    {
        &self.inline_keyboard
    }
}

impl Default for InlineKeyboardMarkup {
    fn default() -> (r: Self)
        ensures
            r@ == Seq::<Seq<InlineKeyboardButton>>::empty(),
    {
        let r = InlineKeyboardMarkup { inline_keyboard: Vec::new() };
        assert(r@ =~= Seq::<Seq<InlineKeyboardButton>>::empty());
        r
    }
}

impl From<Vec<Vec<InlineKeyboardButton>>> for InlineKeyboardMarkup {
    fn from(keyboard: Vec<Vec<InlineKeyboardButton>>) -> (r: InlineKeyboardMarkup)
        ensures
            r@ == inline_rows_view(keyboard@),
    {
        InlineKeyboardMarkup { inline_keyboard: keyboard }
    }
}

impl vstd::std_specs::convert::FromSpecImpl<Vec<Vec<InlineKeyboardButton>>> for InlineKeyboardMarkup {
    open spec fn obeys_from_spec() -> bool {
        true
    }

    closed spec fn from_spec(keyboard: Vec<Vec<InlineKeyboardButton>>) -> InlineKeyboardMarkup {
        InlineKeyboardMarkup { inline_keyboard: keyboard }
    }
}

/// What pressing an inline keyboard button does.
#[derive(Clone, Debug)]
pub enum InlineKeyboardButtonAction {
    /// Opens an HTTP or tg:// url
    Url(String),
    /// Sends data in a callback query to the bot
    CallbackData(String),
    /// Prompts the user to select a chat and inserts the bot‘s username and the inline query
    SwitchInlineQuery(String),
    /// Inserts the bot‘s username and the inline query in the current chat
    SwitchInlineQueryCurrentChat(String),
    /// Launches a game
    CallbackGame(String),
    /// A Pay button
    Pay(bool),
    /// Authorizes the user through a login URL
    LoginUrl(LoginUrl),
}

/// The plain contents of an inline keyboard button: the text, then each optional field
/// (url, callback data, switch inline query, switch inline query in the current chat,
/// callback game, pay, login url).
pub type InlineKeyboardButtonView = (
    Seq<char>,
    Option<Seq<char>>,
    Option<Seq<char>>,
    Option<Seq<char>>,
    Option<Seq<char>>,
    Option<Seq<char>>,
    Option<bool>,
    Option<LoginUrlView>,
);

/// The number of optional fields that are set on a button.
pub open spec fn inline_button_field_count(v: InlineKeyboardButtonView) -> int {
    (if v.1 is Some { 1int } else { 0int }) + (if v.2 is Some { 1int } else { 0int }) + (if v.3 is Some {
        1int
    } else {
        0int
    }) + (if v.4 is Some { 1int } else { 0int }) + (if v.5 is Some { 1int } else { 0int }) + (if v.6 is Some {
        1int
    } else {
        0int
    }) + (if v.7 is Some { 1int } else { 0int })
}

/// Button of an inline keyboard
///
/// You must use exactly one of the optional fields
#[derive(Clone, Debug)]
pub struct InlineKeyboardButton {
    text: String,
    url: Option<String>,
    callback_data: Option<String>,
    switch_inline_query: Option<String>,
    switch_inline_query_current_chat: Option<String>,
    callback_game: Option<String>,
    pay: Option<bool>,
    login_url: Option<LoginUrl>,
}

/// The view of an optional login URL.
pub open spec fn opt_login_url_view(u: Option<LoginUrl>) -> Option<LoginUrlView> {
    match u {
        Some(x) => Some(x@),
        None => None,
    }
}

impl View for InlineKeyboardButton {
    type V = InlineKeyboardButtonView;

    closed spec fn view(&self) -> InlineKeyboardButtonView {
        (
            self.text@,
            opt_view(self.url),
            opt_view(self.callback_data),
            opt_view(self.switch_inline_query),
            opt_view(self.switch_inline_query_current_chat),
            opt_view(self.callback_game),
            self.pay,
            opt_login_url_view(self.login_url),
        )
    }
}

impl InlineKeyboardButton {
    fn empty(text: &str) -> (r: Self)
        ensures
            r@ == (text@, None::<Seq<char>>, None::<Seq<char>>, None::<Seq<char>>, None::<Seq<char>>,
                None::<Seq<char>>, None::<bool>, None::<LoginUrlView>),
    {
        InlineKeyboardButton {
            text: text.to_owned(),
            url: None,
            callback_data: None,
            switch_inline_query: None,
            switch_inline_query_current_chat: None,
            callback_game: None,
            pay: None,
            login_url: None,
        }
    }

    /// HTTP or tg:// url to be opened when button is pressed
    pub fn with_url(text: &str, url: &str) -> (r: Self)
        ensures
            r@ == (text@, Some(url@), None::<Seq<char>>, None::<Seq<char>>, None::<Seq<char>>,
                None::<Seq<char>>, None::<bool>, None::<LoginUrlView>),
            inline_button_field_count(r@) == 1,
    {
        InlineKeyboardButton { url: Some(url.to_owned()), ..Self::empty(text) }
    }

    /// Data to be sent in a callback query to the bot when button is pressed, 1-64 bytes
    pub fn with_callback_data(text: &str, callback_data: &str) -> (r: Self)
        ensures
            r@ == (text@, None::<Seq<char>>, Some(callback_data@), None::<Seq<char>>, None::<Seq<char>>,
                None::<Seq<char>>, None::<bool>, None::<LoginUrlView>),
            inline_button_field_count(r@) == 1,
    {
        InlineKeyboardButton { callback_data: Some(callback_data.to_owned()), ..Self::empty(text) }
    }

    /// Pressing the button will prompt the user to select one of their chats,
    /// open that chat and insert the bot‘s username and
    /// the specified inline query in the input field
    ///
    /// Can be empty, in which case just the bot’s username will be inserted
    pub fn with_switch_inline_query(text: &str, switch_inline_query: &str) -> (r: Self)
        ensures
            r@ == (text@, None::<Seq<char>>, None::<Seq<char>>, Some(switch_inline_query@), None::<Seq<char>>,
                None::<Seq<char>>, None::<bool>, None::<LoginUrlView>),
            inline_button_field_count(r@) == 1,
    {
        InlineKeyboardButton { switch_inline_query: Some(switch_inline_query.to_owned()), ..Self::empty(text) }
    }

    /// If set, pressing the button will insert the bot‘s username and
    /// the specified inline query in the current chat's input field
    ///
    /// Can be empty, in which case only the bot’s username will be inserted
    pub fn with_switch_inline_query_current_chat(text: &str, switch_inline_query_current_chat: &str) -> (r: Self)
        ensures
            r@ == (text@, None::<Seq<char>>, None::<Seq<char>>, None::<Seq<char>>,
                Some(switch_inline_query_current_chat@), None::<Seq<char>>, None::<bool>, None::<LoginUrlView>),
            inline_button_field_count(r@) == 1,
    {
        InlineKeyboardButton {
            switch_inline_query_current_chat: Some(switch_inline_query_current_chat.to_owned()),
            ..Self::empty(text)
        }
    }

    /// Description of the game that will be launched when the user presses the button
    ///
    /// NOTE: This type of button must always be the first button in the first row
    pub fn with_callback_game(text: &str) -> (r: Self)
        ensures
            r@ == (text@, None::<Seq<char>>, None::<Seq<char>>, None::<Seq<char>>, None::<Seq<char>>,
                Some(Seq::<char>::empty()), None::<bool>, None::<LoginUrlView>),
            inline_button_field_count(r@) == 1,
    {
        InlineKeyboardButton { callback_game: Some(String::new()), ..Self::empty(text) }
    }

    /// Send a Pay button
    ///
    /// NOTE: This type of button must always be the first button in the first row
    pub fn with_pay(text: &str) -> (r: Self)
        ensures
            r@ == (text@, None::<Seq<char>>, None::<Seq<char>>, None::<Seq<char>>, None::<Seq<char>>,
                None::<Seq<char>>, Some(true), None::<LoginUrlView>),
            inline_button_field_count(r@) == 1,
    {
        InlineKeyboardButton { pay: Some(true), ..Self::empty(text) }
    }

    /// An HTTP URL used to automatically authorize the user
    ///
    /// Can be used as a replacement for the Telegram Login Widget
    pub fn with_login_url(text: &str, login_url: LoginUrl) -> (r: Self)
        ensures
            r@ == (text@, None::<Seq<char>>, None::<Seq<char>>, None::<Seq<char>>, None::<Seq<char>>,
                None::<Seq<char>>, None::<bool>, Some(login_url@)),
            inline_button_field_count(r@) == 1,
    {
        InlineKeyboardButton { login_url: Some(login_url), ..Self::empty(text) }
    }

    /// Label text on the button
    pub fn get_text(&self) -> (r: &str)
        ensures
            r@ == self@.0,
    {
        self.text.as_str()
    }

    /// What pressing the button does, taken from the first optional field that is set
    pub fn get_action(&self) -> (r: Option<InlineKeyboardButtonAction>)
        ensures
            match r {
                Some(InlineKeyboardButtonAction::Url(s)) => self@.1 == Some(s@),
                Some(InlineKeyboardButtonAction::CallbackData(s)) => self@.1 is None && self@.2 == Some(
                    s@,
                ),
                Some(InlineKeyboardButtonAction::SwitchInlineQuery(s)) => self@.1 is None && self@.2 is None
                    && self@.3 == Some(s@),
                Some(InlineKeyboardButtonAction::SwitchInlineQueryCurrentChat(s)) => self@.1 is None
                    && self@.2 is None && self@.3 is None && self@.4 == Some(s@),
                Some(InlineKeyboardButtonAction::CallbackGame(s)) => self@.1 is None && self@.2 is None
                    && self@.3 is None && self@.4 is None && self@.5 == Some(s@),
                Some(InlineKeyboardButtonAction::Pay(b)) => self@.1 is None && self@.2 is None
                    && self@.3 is None && self@.4 is None && self@.5 is None && self@.6 == Some(b),
                Some(InlineKeyboardButtonAction::LoginUrl(u)) => self@.1 is None && self@.2 is None
                    && self@.3 is None && self@.4 is None && self@.5 is None && self@.6 is None
                    && self@.7 == Some(u@),
                None => inline_button_field_count(self@) == 0,
            },
    {
        if let Some(s) = &self.url {
            Some(InlineKeyboardButtonAction::Url(s.clone()))
        } else if let Some(s) = &self.callback_data {
            Some(InlineKeyboardButtonAction::CallbackData(s.clone()))
        } else if let Some(s) = &self.switch_inline_query {
            Some(InlineKeyboardButtonAction::SwitchInlineQuery(s.clone()))
        } else if let Some(s) = &self.switch_inline_query_current_chat {
            Some(InlineKeyboardButtonAction::SwitchInlineQueryCurrentChat(s.clone()))
        } else if let Some(s) = &self.callback_game {
            Some(InlineKeyboardButtonAction::CallbackGame(s.clone()))
        } else if let Some(b) = self.pay {
            Some(InlineKeyboardButtonAction::Pay(b))
        } else if let Some(u) = &self.login_url {
            Some(InlineKeyboardButtonAction::LoginUrl(copy_login_url(u)))
        } else {
            None
        }
    }
}

fn copy_login_url(u: &LoginUrl) -> (r: LoginUrl)
    ensures
        r@ == u@,
{
    let mut r = LoginUrl::new(u.get_url());
    if let Some(t) = u.get_forward_text() {
        r = r.forward_text(t);
    }
    if let Some(t) = u.get_bot_username() {
        r = r.bot_username(t);
    }
    if let Some(b) = u.get_request_write_access() {
        r = r.request_write_access(b);
    }
    r
}

/// A button of an inline keyboard as the Bot API sends it: the text and every optional field
#[derive(Clone, Debug)]
pub struct RawInlineKeyboardButton {
    /// Label text on the button
    pub text: String,
    /// HTTP or tg:// url to be opened when button is pressed
    pub url: Option<String>,
    /// Data to be sent in a callback query to the bot when button is pressed
    pub callback_data: Option<String>,
    /// The inline query inserted after the bot's username in a chat the user selects
    pub switch_inline_query: Option<String>,
    /// The inline query inserted after the bot's username in the current chat
    pub switch_inline_query_current_chat: Option<String>,
    /// Description of the game that is launched
    pub callback_game: Option<String>,
    /// Whether this is a Pay button
    pub pay: Option<bool>,
    /// An HTTP URL used to automatically authorize the user
    pub login_url: Option<LoginUrl>,
}

impl From<RawInlineKeyboardButton> for InlineKeyboardButton {
    /// The button with every field as it was sent
    fn from(raw: RawInlineKeyboardButton) -> (r: Self)
        ensures
            r@ == (
                raw.text@,
                opt_view(raw.url),
                opt_view(raw.callback_data),
                opt_view(raw.switch_inline_query),
                opt_view(raw.switch_inline_query_current_chat),
                opt_view(raw.callback_game),
                raw.pay,
                opt_login_url_view(raw.login_url),
            ),
    {
        InlineKeyboardButton {
            text: raw.text,
            url: raw.url,
            callback_data: raw.callback_data,
            switch_inline_query: raw.switch_inline_query,
            switch_inline_query_current_chat: raw.switch_inline_query_current_chat,
            callback_game: raw.callback_game,
            pay: raw.pay,
            login_url: raw.login_url,
        }
    }
}

impl vstd::std_specs::convert::FromSpecImpl<RawInlineKeyboardButton> for InlineKeyboardButton {
    open spec fn obeys_from_spec() -> bool {
        true
    }

    closed spec fn from_spec(raw: RawInlineKeyboardButton) -> InlineKeyboardButton {
        InlineKeyboardButton {
            text: raw.text,
            url: raw.url,
            callback_data: raw.callback_data,
            switch_inline_query: raw.switch_inline_query,
            switch_inline_query_current_chat: raw.switch_inline_query_current_chat,
            callback_game: raw.callback_game,
            pay: raw.pay,
            login_url: raw.login_url,
        }
    }
}

/// The JSON of an optional login URL.
pub open spec fn opt_login_url_json(u: Option<LoginUrlView>) -> Option<Seq<char>> {
    match u {
        Some(v) => Some(login_url_json(v)),
        None => None,
    }
}

/// The members of a button as a JSON object: the text, then each optional field that is set.
pub open spec fn inline_button_members(v: InlineKeyboardButtonView) -> Seq<Seq<char>> {
    seq![json_member("text"@, json_string(v.0))] + json_opt_member("url"@, opt_json_string(v.1))
        + json_opt_member("callback_data"@, opt_json_string(v.2)) + json_opt_member(
        "switch_inline_query"@,
        opt_json_string(v.3),
    ) + json_opt_member("switch_inline_query_current_chat"@, opt_json_string(v.4)) + json_opt_member(
        "callback_game"@,
        opt_json_string(v.5),
    ) + json_opt_member("pay"@, opt_json_bool(v.6)) + json_opt_member("login_url"@, opt_login_url_json(v.7))
}

/// A button as JSON.
pub open spec fn inline_button_json(v: InlineKeyboardButtonView) -> Seq<char> {
    json_object(inline_button_members(v))
}

/// A row of buttons as a JSON array.
pub open spec fn inline_row_json(row: Seq<InlineKeyboardButton>) -> Seq<char> {
    json_array(row.map_values(|b: InlineKeyboardButton| inline_button_json(b@)))
}

/// An inline keyboard as JSON: an object with the rows under `inline_keyboard`.
pub open spec fn inline_keyboard_json(rows: Seq<Seq<InlineKeyboardButton>>) -> Seq<char> {
    json_object(
        seq![json_member("inline_keyboard"@, json_array(rows.map_values(|row: Seq<InlineKeyboardButton>| inline_row_json(row))))],
    )
}

impl InlineKeyboardButton {
    /// The button as a JSON object
    pub fn to_json(&self) -> (r: String)
        ensures
            r@ == inline_button_json(self@),
    {
        let mut w = JsonWriter::object();
        w.member_string("text", self.text.as_str());
        w.opt_string("url", &self.url);
        w.opt_string("callback_data", &self.callback_data);
        w.opt_string("switch_inline_query", &self.switch_inline_query);
        w.opt_string("switch_inline_query_current_chat", &self.switch_inline_query_current_chat);
        w.opt_string("callback_game", &self.callback_game);
        w.opt_bool("pay", self.pay);
        let ghost before = w.parts();
        match &self.login_url {
            Some(u) => {
                let j = u.to_json();
                w.member_raw("login_url", j.as_str());
            },
            None => {},
        }
        assert(w.parts() =~= before + json_opt_member("login_url"@, opt_login_url_json(self@.7)));
        assert(w.parts() =~= inline_button_members(self@));
        w.finish()
    }
}

/// A row of buttons as a JSON array.
fn inline_row_to_json(row: &Vec<InlineKeyboardButton>) -> (r: String)
    ensures
        r@ == inline_row_json(row@),
{
    let mut w = JsonWriter::array();
    let mut i: usize = 0;
    while i < row.len()
        invariant
            i <= row.len(),
            !w.is_object(),
            w.parts() == row@.take(i as int).map_values(|b: InlineKeyboardButton| inline_button_json(b@)),
        decreases row.len() - i,
    {
        let j = row[i].to_json();
        w.push_raw(j.as_str());
        assert(row@.take(i + 1) =~= row@.take(i as int).push(row@[i as int]));
        i = i + 1;
        assert(w.parts() =~= row@.take(i as int).map_values(|b: InlineKeyboardButton| inline_button_json(b@)));
    }
    assert(row@.take(i as int) =~= row@);
    w.finish()
}

impl InlineKeyboardMarkup {
    /// The keyboard as a JSON object
    pub fn to_json(&self) -> (r: String)
        ensures
            r@ == inline_keyboard_json(self@),
    {
        let rows = &self.inline_keyboard;
        let ghost v = self@;
        let mut w = JsonWriter::array();
        let mut i: usize = 0;
        while i < rows.len()
            invariant
                i <= rows.len(),
                v == inline_rows_view(rows@),
                !w.is_object(),
                w.parts() == v.take(i as int).map_values(|row: Seq<InlineKeyboardButton>| inline_row_json(row)),
            decreases rows.len() - i,
        {
            let j = inline_row_to_json(&rows[i]);
            w.push_raw(j.as_str());
            assert(v.take(i + 1) =~= v.take(i as int).push(v[i as int]));
            i = i + 1;
            assert(w.parts() =~= v.take(i as int).map_values(
                |row: Seq<InlineKeyboardButton>| inline_row_json(row),
            ));
        }
        assert(v.take(i as int) =~= v);
        let keyboard = w.finish();
        let mut o = JsonWriter::object();
        o.member_raw("inline_keyboard", keyboard.as_str());
        assert(o.parts() =~= seq![json_member("inline_keyboard"@, json_array(v.map_values(|row: Seq<InlineKeyboardButton>| inline_row_json(row))))]);
        o.finish()
    }
}

} // verus!
