use tgbot::types::inline_mode::InlineQueryResultGif;
use tgbot::types::{
    ForceReply, InlineKeyboardButton, InlineKeyboardButtonAction, InlineKeyboardMarkup, KeyboardButton,
    KeyboardButtonPollType, LoginUrl, ParseMode, PollKind, RawInlineKeyboardButton, ReplyKeyboardMarkup, ReplyKeyboardRemove,
    ReplyMarkup,
};

/// What serde_json gives for `{"value":"cdstruct"}` as callback data
const CALLBACK_DATA_STRUCT: &str = r#"{"value":"cdstruct"}"#;

fn json(markup: ReplyMarkup) -> String {
    markup.serialize().unwrap()
}

#[test]
fn inline_keyboard_serialize() {
    let markup: ReplyMarkup = vec![vec![
        InlineKeyboardButton::with_url("url", "tg://user?id=1"),
        InlineKeyboardButton::with_callback_data("cd", "cd"),
        InlineKeyboardButton::with_callback_data("cd", CALLBACK_DATA_STRUCT),
        InlineKeyboardButton::with_switch_inline_query("siq", "siq"),
        InlineKeyboardButton::with_switch_inline_query_current_chat("siqcc", "siqcc"),
        InlineKeyboardButton::with_callback_game("cg"),
        InlineKeyboardButton::with_pay("pay"),
        InlineKeyboardButton::with_login_url("login url", LoginUrl::from("http://example.com")),
    ]]
    .into();
    let data: serde_json::Value = serde_json::from_str(&json(markup)).unwrap();
    let expected: serde_json::Value = serde_json::from_str(
        r#"{
            "inline_keyboard": [
                [
                    {"text":"url","url":"tg://user?id=1"},
                    {"text":"cd","callback_data":"cd"},
                    {"text":"cd","callback_data":"{\"value\":\"cdstruct\"}"},
                    {"text":"siq","switch_inline_query":"siq"},
                    {"text":"siqcc","switch_inline_query_current_chat":"siqcc"},
                    {"text":"cg","callback_game":""},
                    {"text":"pay","pay":true},
                    {"text":"login url","login_url":{"url":"http://example.com"}}
                ]
            ]
        }"#,
    )
    .unwrap();
    assert_eq!(data, expected);
}

fn poll_row() -> Vec<KeyboardButton> {
    vec![
        KeyboardButton::new("test"),
        KeyboardButton::new("request contact").request_contact(),
        KeyboardButton::new("request location").request_location(),
        KeyboardButton::new("request quiz").request_poll(KeyboardButtonPollType::from(PollKind::Quiz)),
        KeyboardButton::new("request regular poll").request_poll(KeyboardButtonPollType::from(PollKind::Regular)),
        KeyboardButton::new("request any poll").request_poll(KeyboardButtonPollType::from(None)),
    ]
}

#[test]
fn reply_keyboard_serialize() {
    let markup = ReplyKeyboardMarkup::from(vec![poll_row()])
        .one_time_keyboard(true)
        .selective(true)
        .resize_keyboard(true);
    assert_eq!(
        json(ReplyMarkup::from(markup)),
        r#"{"keyboard":[[{"text":"test"},{"text":"request contact","request_contact":true},{"text":"request location","request_location":true},{"text":"request quiz","request_poll":{"type":"quiz"}},{"text":"request regular poll","request_poll":{"type":"regular"}},{"text":"request any poll","request_poll":{}}]],"resize_keyboard":true,"one_time_keyboard":true,"selective":true}"#
    );

    let markup: ReplyMarkup = ReplyKeyboardMarkup::default().row(poll_row()).into();
    assert_eq!(
        json(markup),
        r#"{"keyboard":[[{"text":"test"},{"text":"request contact","request_contact":true},{"text":"request location","request_location":true},{"text":"request quiz","request_poll":{"type":"quiz"}},{"text":"request regular poll","request_poll":{"type":"regular"}},{"text":"request any poll","request_poll":{}}]]}"#
    );

    let markup: ReplyMarkup = ReplyKeyboardRemove::default().selective(true).into();
    assert_eq!(json(markup), r#"{"remove_keyboard":true,"selective":true}"#);
}

#[test]
fn test_serialize() {
    let markup: ReplyMarkup = ForceReply::new(true).into();
    assert_eq!(json(markup), r#"{"force_reply":true}"#);

    let markup: ReplyMarkup = ForceReply::new(true).selective(true).into();
    assert_eq!(json(markup), r#"{"force_reply":true,"selective":true}"#);

    let markup: ReplyMarkup = ForceReply::new(true).selective(false).into();
    assert_eq!(json(markup), r#"{"force_reply":true,"selective":false}"#);

    let markup: ReplyMarkup = vec![vec![
        InlineKeyboardButton::with_url("url", "tg://user?id=1"),
        InlineKeyboardButton::with_callback_data("cd", "cd"),
        InlineKeyboardButton::with_callback_data("cd", CALLBACK_DATA_STRUCT),
        InlineKeyboardButton::with_switch_inline_query("siq", "siq"),
        InlineKeyboardButton::with_switch_inline_query_current_chat("siqcc", "siqcc"),
        InlineKeyboardButton::with_callback_game("cg"),
        InlineKeyboardButton::with_pay("pay"),
    ]]
    .into();
    assert_eq!(
        json(markup),
        r#"{"inline_keyboard":[[{"text":"url","url":"tg://user?id=1"},{"text":"cd","callback_data":"cd"},{"text":"cd","callback_data":"{\"value\":\"cdstruct\"}"},{"text":"siq","switch_inline_query":"siq"},{"text":"siqcc","switch_inline_query_current_chat":"siqcc"},{"text":"cg","callback_game":""},{"text":"pay","pay":true}]]}"#
    );

    let row = vec![
        KeyboardButton::new("test"),
        KeyboardButton::new("request contact").request_contact(),
        KeyboardButton::new("request location").request_location(),
    ];
    let serialized_kb = r#"{"keyboard":[[{"text":"test"},{"text":"request contact","request_contact":true},{"text":"request location","request_location":true}]]}"#;
    let markup: ReplyMarkup = vec![row.clone()].into();
    assert_eq!(json(markup), serialized_kb);

    let markup: ReplyMarkup = ReplyKeyboardMarkup::default().row(row).into();
    assert_eq!(json(markup), serialized_kb);

    let markup: ReplyMarkup = ReplyKeyboardRemove::default().selective(true).into();
    assert_eq!(json(markup), r#"{"remove_keyboard":true,"selective":true}"#);
}

#[test]
fn login_url_serialize() {
    let mut url = LoginUrl::from("url");
    assert_eq!(url.to_json(), r#"{"url":"url"}"#);

    url = url.forward_text("forward text");
    assert_eq!(url.to_json(), r#"{"url":"url","forward_text":"forward text"}"#);

    url = url.bot_username("botusername");
    assert_eq!(
        url.to_json(),
        r#"{"url":"url","forward_text":"forward text","bot_username":"botusername"}"#
    );

    url = url.request_write_access(true);
    assert_eq!(
        url.to_json(),
        r#"{"url":"url","forward_text":"forward text","bot_username":"botusername","request_write_access":true}"#
    );
}

#[test]
fn parse_mode() {
    assert_eq!(ParseMode::Html.to_json(), r#""HTML""#);
    assert_eq!(ParseMode::Markdown.to_json(), r#""Markdown""#);
    assert_eq!(ParseMode::MarkdownV2.to_json(), r#""MarkdownV2""#);
    assert_eq!(ParseMode::Html.to_string(), "HTML");
    assert_eq!(ParseMode::Markdown.to_string(), "Markdown");
    assert_eq!(ParseMode::MarkdownV2.to_string(), "MarkdownV2");
}

#[test]
fn parse_mode_escape() {
    assert_eq!(ParseMode::Html.escape("<a&b>"), "&lt;a&amp;b&gt;");
    assert_eq!(ParseMode::MarkdownV2.escape("a_b.c!"), r"a\_b\.c\!");
}

#[test]
fn button_actions() {
    let button = InlineKeyboardButton::with_callback_data("text", "data");
    assert_eq!(button.get_text(), "text");
    match button.get_action() {
        Some(InlineKeyboardButtonAction::CallbackData(data)) => assert_eq!(data, "data"),
        other => panic!("Unexpected action: {:?}", other),
    }
    let button = InlineKeyboardButton::with_pay("pay");
    assert!(matches!(button.get_action(), Some(InlineKeyboardButtonAction::Pay(true))));
}

#[test]
fn keyboard_button_requests_one_thing() {
    let button = KeyboardButton::new("b").request_contact().request_location();
    assert!(!button.get_request_contact());
    assert!(button.get_request_location());
    let button = button.request_poll(KeyboardButtonPollType::from(PollKind::Quiz));
    assert!(!button.get_request_location());
    assert!(button.get_request_poll().is_some());
    let button = button.request_contact();
    assert!(button.get_request_poll().is_none());
    assert!(button.get_request_contact());
}

#[test]
fn inline_keyboard_rows() {
    let markup = InlineKeyboardMarkup::default()
        .row(vec![InlineKeyboardButton::with_url("a", "b")])
        .row(vec![]);
    assert_eq!(markup.rows().len(), 2);
    assert_eq!(markup.to_json(), r#"{"inline_keyboard":[[{"text":"a","url":"b"}],[]]}"#);
}

#[test]
fn json_escaping() {
    let button = InlineKeyboardButton::with_url("a\"b\\c\nd\u{1}", "u");
    assert_eq!(
        button.to_json(),
        "{\"text\":\"a\\\"b\\\\c\\nd\\u0001\",\"url\":\"u\"}"
    );
}

#[test]
fn gif_result_serialize() {
    let result = InlineQueryResultGif::new("id", "url", "thumb-url")
        .gif_width(200)
        .gif_height(300)
        .gif_duration(400)
        .title("title")
        .caption("caption")
        .parse_mode(ParseMode::Markdown)
        .reply_markup(InlineKeyboardMarkup::from_vec(vec![vec![InlineKeyboardButton::with_url("text", "url")]]));
    let data: serde_json::Value = serde_json::from_str(&result.to_json()).unwrap();
    let expected: serde_json::Value = serde_json::from_str(
        r#"{
            "type": "gif",
            "id": "id",
            "gif_url": "url",
            "thumb_url": "thumb-url",
            "gif_width": 200,
            "gif_height": 300,
            "gif_duration": 400,
            "title": "title",
            "caption": "caption",
            "parse_mode": "Markdown",
            "reply_markup": {"inline_keyboard": [[{"text": "text", "url": "url"}]]}
        }"#,
    )
    .unwrap();
    assert_eq!(data, expected);
    assert_eq!(
        InlineQueryResultGif::new("id", "url", "thumb-url").to_json(),
        r#"{"type":"gif","id":"id","gif_url":"url","thumb_url":"thumb-url"}"#
    );
}

#[test]
fn raw_button_keeps_every_field() {
    let raw = RawInlineKeyboardButton {
        text: String::from("t"),
        url: Some(String::from("u")),
        callback_data: Some(String::from("d")),
        switch_inline_query: None,
        switch_inline_query_current_chat: None,
        callback_game: None,
        pay: Some(true),
        login_url: None,
    };
    let button = InlineKeyboardButton::from(raw);
    assert_eq!(button.to_json(), r#"{"text":"t","url":"u","callback_data":"d","pay":true}"#);
}
