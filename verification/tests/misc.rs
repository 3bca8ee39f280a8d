use tgbot::types::callback_query::{CallbackQuery, CallbackQueryError};
use tgbot::types::chat::{Chat, RawChat, RawChatKind};
use tgbot::types::message::{Message, RawMessage};
use tgbot::types::response::{RawResponse, Response, ResponseParameters};
use tgbot::types::{LabeledPrice, MaskPositionPoint, ShippingOption, User};
use tgbot::webhook::{webhook_step, WebhookAction, WebhookEvent};

#[derive(Clone, Debug)]
struct Object {
    name: String,
}

fn raw_response(ok: bool) -> RawResponse<Object> {
    RawResponse {
        ok,
        description: None,
        error_code: None,
        result: None,
        parameters: None,
    }
}

#[test]
fn response_deserialize() {
    let mut raw = raw_response(true);
    raw.result = Some(Object { name: String::from("test") });
    let success = Response::from_raw(raw).unwrap();
    if let Response::Success(ref obj) = success {
        assert_eq!(obj.name, String::from("test"));
    } else {
        panic!("Unexpected response: {:?}", success);
    }

    let mut raw = raw_response(false);
    raw.description = Some(String::from("test err"));
    raw.error_code = Some(1);
    raw.parameters = Some(ResponseParameters {
        migrate_to_chat_id: Some(2),
        retry_after: Some(3),
    });
    let error = Response::from_raw(raw).unwrap();
    if let Response::Error(err) = error {
        assert_eq!(err.description, String::from("test err"));
        assert_eq!(err.error_code.unwrap(), 1);
        let params = err.parameters.unwrap();
        assert_eq!(params.migrate_to_chat_id.unwrap(), 2);
        assert_eq!(params.retry_after.unwrap(), 3);
    } else {
        panic!("Unexpected response: {:?}", success);
    }

    let mut raw = raw_response(false);
    raw.description = Some(String::from("test err"));
    let error = Response::from_raw(raw).unwrap();
    if let Response::Error(err) = error {
        assert_eq!(err.description, String::from("test err"));
        assert!(err.error_code.is_none());
        assert!(err.parameters.is_none());
    } else {
        panic!("Unexpected response: {:?}", success);
    }
}

#[test]
fn response_missing_fields() {
    assert_eq!(Response::from_raw(raw_response(true)).unwrap_err().field, "result");
    assert_eq!(Response::from_raw(raw_response(false)).unwrap_err().field, "description");
}

fn user() -> User {
    User {
        id: 1,
        is_bot: false,
        first_name: String::from("test"),
        last_name: None,
        username: None,
        language_code: None,
    }
}

fn message() -> Message {
    let chat = Chat::from_raw(RawChat {
        id: 4,
        kind: RawChatKind::Supergroup,
        title: Some(String::from("supergrouptitle")),
        username: None,
        first_name: None,
        last_name: None,
        all_members_are_administrators: None,
        photo: None,
        description: None,
        invite_link: None,
        pinned_message: None,
        sticker_set_name: None,
        can_set_sticker_set: None,
        permissions: None,
        slow_mode_delay: None,
    })
    .unwrap();
    Message::from_raw(RawMessage {
        message_id: 2,
        from: Some(user()),
        date: 0,
        chat,
        forward_from: None,
        forward_from_chat: None,
        forward_from_message_id: None,
        forward_signature: None,
        forward_sender_name: None,
        forward_date: None,
        reply_to_message: None,
        edit_date: None,
        media_group_id: None,
        author_signature: None,
        text: Some(String::from("test")),
        entities: None,
        caption_entities: None,
        audio: None,
        document: None,
        animation: None,
        photo: None,
        sticker: None,
        video: None,
        voice: None,
        video_note: None,
        caption: None,
        contact: None,
        location: None,
        venue: None,
        poll: None,
        new_chat_members: None,
        left_chat_member: None,
        new_chat_title: None,
        new_chat_photo: None,
        delete_chat_photo: None,
        group_chat_created: None,
        supergroup_chat_created: None,
        channel_chat_created: None,
        migrate_to_chat_id: None,
        migrate_from_chat_id: None,
        pinned_message: None,
        invoice: None,
        successful_payment: None,
        connected_website: None,
        reply_markup: None,
    })
    .unwrap()
}

#[test]
fn callback_query_deserialize_full() {
    let mut data = CallbackQuery {
        id: String::from("test"),
        from: user(),
        message: Some(message()),
        inline_message_id: Some(String::from("inline message id")),
        chat_instance: Some(String::from("chat instance")),
        data: Some(String::from(r#"{"k": "v"}"#)),
        game_short_name: Some(String::from("game short name")),
    };
    assert_eq!(data.id, "test");
    assert_eq!(data.from.id, 1);
    assert_eq!(data.from.first_name, "test");
    assert_eq!(data.from.is_bot, false);
    assert_eq!(data.message.take().unwrap().id, 2);
    assert_eq!(data.inline_message_id.take().unwrap(), "inline message id");
    assert_eq!(data.chat_instance.take().unwrap(), "chat instance");
    assert_eq!(data.data.take().unwrap(), r#"{"k": "v"}"#);
    assert_eq!(data.game_short_name.take().unwrap(), "game short name");
    data.data = Some(String::from(r#"{"k": "v"}"#));
    let parsed_query_data = data.parse_data().unwrap().unwrap();
    assert_eq!(parsed_query_data["k"], "v");
}

#[test]
fn callback_query_deserialize_partial() {
    let data = CallbackQuery {
        id: String::from("test"),
        from: user(),
        message: None,
        inline_message_id: None,
        chat_instance: None,
        data: None,
        game_short_name: None,
    };
    assert_eq!(data.id, "test");
    assert_eq!(data.from.id, 1);
    assert_eq!(data.from.first_name, "test");
    assert_eq!(data.from.is_bot, false);
    assert!(data.message.is_none());
    assert!(data.inline_message_id.is_none());
    assert!(data.chat_instance.is_none());
    assert!(data.data.is_none());
    assert!(data.game_short_name.is_none());
    assert!(data.parse_data().unwrap().is_none());
}

#[test]
fn callback_query_bad_data() {
    let data = CallbackQuery {
        id: String::from("test"),
        from: user(),
        message: None,
        inline_message_id: None,
        chat_instance: None,
        data: Some(String::from("{not json")),
        game_short_name: None,
    };
    assert!(matches!(data.parse_data(), Err(CallbackQueryError::ParseJsonData(_))));
}

#[test]
fn mask_position_point() {
    assert_eq!(MaskPositionPoint::Forehead.to_json(), r#""forehead""#);
    assert_eq!(MaskPositionPoint::Eyes.to_json(), r#""eyes""#);
    assert_eq!(MaskPositionPoint::Mouth.to_json(), r#""mouth""#);
    assert_eq!(MaskPositionPoint::Chin.to_json(), r#""chin""#);

    assert_eq!(MaskPositionPoint::from_name("forehead"), Some(MaskPositionPoint::Forehead));
    assert_eq!(MaskPositionPoint::from_name("eyes"), Some(MaskPositionPoint::Eyes));
    assert_eq!(MaskPositionPoint::from_name("mouth"), Some(MaskPositionPoint::Mouth));
    assert_eq!(MaskPositionPoint::from_name("chin"), Some(MaskPositionPoint::Chin));
    assert_eq!(MaskPositionPoint::from_name("nose"), None);
}

#[test]
fn serialize_labeled_price() {
    let price = LabeledPrice::new("price label", 145);
    let data = price.to_json();
    let new_price: serde_json::Value = serde_json::from_str(&data).unwrap();
    assert_eq!(price.label(), new_price.get("label").unwrap().as_str().unwrap());
    assert_eq!(price.amount(), new_price.get("amount").unwrap().as_i64().unwrap());
}

#[test]
fn serialize_shipping_option() {
    let option = ShippingOption::new("id", "title", vec![]);
    let data = option.to_json();
    let new_option: serde_json::Value = serde_json::from_str(&data).unwrap();
    assert_eq!(new_option.get("id").unwrap().as_str().unwrap(), option.id());
    assert_eq!(new_option.get("title").unwrap().as_str().unwrap(), option.title());
    assert!(new_option.get("prices").unwrap().as_array().unwrap().is_empty());
    assert!(option.prices().is_empty())
}

#[test]
fn shipping_option_with_prices() {
    let option = ShippingOption::new(
        "id",
        "title",
        vec![LabeledPrice::new("a", 1), LabeledPrice::new("b", -2)],
    );
    assert_eq!(
        option.to_json(),
        r#"{"id":"id","title":"title","prices":[{"label":"a","amount":1},{"label":"b","amount":-2}]}"#
    );
}

fn respond(action: WebhookAction) -> (u16, Vec<(String, String)>, String) {
    match action {
        WebhookAction::Respond(r) => (r.status, r.headers, r.body),
        other => panic!("Unexpected action: {:?}", other),
    }
}

#[test]
fn webhook() {
    let action = webhook_step(
        "/",
        WebhookEvent::Received {
            is_post: true,
            path: String::from("/"),
        },
    );
    assert!(matches!(action, WebhookAction::ReadBody));
    let action = webhook_step("/", WebhookEvent::Parsed { error: None });
    assert!(matches!(action, WebhookAction::HandleUpdate));
    let (status, headers, body) = respond(webhook_step("/", WebhookEvent::Handled { ok: true }));
    assert_eq!(status, 200);
    assert!(headers.is_empty());
    assert_eq!(body, "");
}

#[test]
fn webhook_refusals() {
    let (status, headers, body) = respond(webhook_step(
        "/hook",
        WebhookEvent::Received {
            is_post: false,
            path: String::from("/hook"),
        },
    ));
    assert_eq!(status, 405);
    assert_eq!(headers, vec![(String::from("Allow"), String::from("POST"))]);
    assert_eq!(body, "");

    let (status, _, _) = respond(webhook_step(
        "/hook",
        WebhookEvent::Received {
            is_post: true,
            path: String::from("/other"),
        },
    ));
    assert_eq!(status, 404);

    let (status, headers, body) = respond(webhook_step(
        "/hook",
        WebhookEvent::Parsed {
            error: Some(String::from("expected value at line 1 column 1")),
        },
    ));
    assert_eq!(status, 400);
    assert_eq!(headers, vec![(String::from("Content-Type"), String::from("text/plain"))]);
    assert_eq!(body, "Failed to parse update: expected value at line 1 column 1\n");

    let (status, _, _) = respond(webhook_step("/hook", WebhookEvent::Handled { ok: false }));
    assert_eq!(status, 500);
}

#[test]
fn callback_data_value_is_the_parsed_text() {
    let data = CallbackQuery {
        id: String::from("test"),
        from: user(),
        message: None,
        inline_message_id: None,
        chat_instance: None,
        data: Some(String::from(r#"{"k": [1, "two"]}"#)),
        game_short_name: None,
    };
    let value = data.parse_data().unwrap().unwrap();
    assert_eq!(value, serde_json::from_str::<serde_json::Value>(r#"{"k":[1,"two"]}"#).unwrap());
}
