use serde_json::Value;
use std::io::Cursor;
use tgbot::methods::{
    AddStickerToSet, CreateNewStickerSet, DeleteStickerFromSet, GetMe, GetStickerSet, GetUserProfilePhotos,
    SendSticker, SetStickerPositionInSet, UploadStickerFile,
};
use tgbot::request::{mime_type_or_default, Form, FormValue, Part, Request, RequestBody, RequestMethod};
use tgbot::types::chat::ChatId;
use tgbot::types::file::{InputFile, InputFileInfo, InputFileReader};
use tgbot::types::{ForceReply, MaskPosition, MaskPositionPoint};

type Reader = Cursor<&'static str>;

fn json_body(request: Request<Reader>) -> Value {
    if let RequestBody::Json(data) = request.into_body() {
        serde_json::from_str(&data).unwrap()
    } else {
        panic!("Unexpected request body");
    }
}

fn form_fields(request: Request<Reader>) -> Vec<(String, FormValue<Reader>)> {
    if let RequestBody::Form(form) = request.into_body() {
        form.into_fields()
    } else {
        panic!("Unexpected request body");
    }
}

fn field<'a>(fields: &'a [(String, FormValue<Reader>)], name: &str) -> &'a FormValue<Reader> {
    &fields.iter().find(|(key, _)| key == name).unwrap().1
}

#[test]
fn delete_sticker_from_set() {
    let request: Request<Reader> = DeleteStickerFromSet::new("sticker").into_request();
    assert_eq!(request.get_method(), RequestMethod::Post);
    assert_eq!(request.build_url("base-url", "token"), "base-url/bottoken/deleteStickerFromSet");
    let data = json_body(request);
    assert_eq!(data["sticker"], "sticker");
}

#[test]
fn get_sticker_set() {
    let request: Request<Reader> = GetStickerSet::new("name").into_request();
    assert_eq!(request.get_method(), RequestMethod::Post);
    assert_eq!(request.build_url("base-url", "token"), "base-url/bottoken/getStickerSet");
    let data = json_body(request);
    assert_eq!(data["name"], "name");
}

#[test]
fn send_sticker() {
    let request = SendSticker::new(ChatId::from(1), InputFile::<Reader>::file_id("sticker-id"))
        .disable_notification(true)
        .reply_to_message_id(1)
        .reply_markup(ForceReply::new(true).into())
        .unwrap()
        .into_request();
    assert_eq!(request.get_method(), RequestMethod::Post);
    assert_eq!(request.build_url("base-url", "token"), "base-url/bottoken/sendSticker");
    let fields = form_fields(request);
    assert_eq!(field(&fields, "chat_id").get_text().unwrap(), "1");
    assert!(field(&fields, "sticker").get_file().is_some());
    assert_eq!(field(&fields, "disable_notification").get_text().unwrap(), "true");
    assert_eq!(field(&fields, "reply_to_message_id").get_text().unwrap(), "1");
    assert_eq!(field(&fields, "reply_markup").get_text().unwrap(), r#"{"force_reply":true}"#);
}

#[test]
fn set_sticker_position_in_set() {
    let request: Request<Reader> = SetStickerPositionInSet::new("sticker", 1).into_request();
    assert_eq!(request.get_method(), RequestMethod::Post);
    assert_eq!(request.build_url("base-url", "token"), "base-url/bottoken/setStickerPositionInSet");
    let data = json_body(request);
    assert_eq!(data["sticker"], "sticker");
    assert_eq!(data["position"], 1);
}

#[test]
fn add_sticker_to_set() {
    let request = UploadStickerFile::new(1, InputFile::<Reader>::file_id("sticker-id")).into_request();
    assert_eq!(request.get_method(), RequestMethod::Post);
    assert_eq!(request.build_url("base-url", "token"), "base-url/bottoken/uploadStickerFile");
    let fields = form_fields(request);
    assert_eq!(field(&fields, "user_id").get_text().unwrap(), "1");
    assert!(field(&fields, "png_sticker").get_file().is_some());
}

#[test]
fn get_me() {
    let request: Request<Reader> = GetMe.into_request();
    assert_eq!(request.get_method(), RequestMethod::Get);
    assert_eq!(request.build_url("base-url", "token"), "base-url/bottoken/getMe");
    if let RequestBody::Empty = request.into_body() {
    } else {
        panic!("Unexpected request body");
    }
}

#[test]
fn get_user_profile_photos() {
    let request: Request<Reader> = GetUserProfilePhotos::new(1).offset(5).limit(10).into_request();
    assert_eq!(request.get_method(), RequestMethod::Post);
    assert_eq!(request.build_url("base-url", "token"), "base-url/bottoken/getUserProfilePhotos");
    let data = json_body(request);
    assert_eq!(data["user_id"], 1);
    assert_eq!(data["offset"], 5);
    assert_eq!(data["limit"], 10);
}

#[test]
fn get_user_profile_photos_without_options() {
    let request: Request<Reader> = GetUserProfilePhotos::new(-7).into_request();
    if let RequestBody::Json(data) = request.into_body() {
        assert_eq!(data, r#"{"user_id":-7}"#);
    } else {
        panic!("Unexpected request body");
    }
}

#[test]
fn add_sticker_to_existing_set() {
    let mask = MaskPosition {
        point: MaskPositionPoint::Eyes,
        x_shift: 1.0f32.to_bits(),
        y_shift: 0.5f32.to_bits(),
        scale: 2.0f32.to_bits(),
    };
    let request = AddStickerToSet::new(5, "set", InputFile::<Reader>::url("http://a/b.png"), "😀")
        .mask_position(mask)
        .into_request();
    assert_eq!(request.build_url("u", "t"), "u/bott/addStickerToSet");
    let fields = form_fields(request);
    assert_eq!(fields.len(), 5);
    assert_eq!(field(&fields, "user_id").get_text().unwrap(), "5");
    assert_eq!(field(&fields, "name").get_text().unwrap(), "set");
    assert_eq!(field(&fields, "emojis").get_text().unwrap(), "😀");
    assert!(matches!(field(&fields, "mask_position"), FormValue::MaskPosition(_)));
}

#[test]
fn create_new_sticker_set() {
    let request = CreateNewStickerSet::new(5, "name", "title", InputFile::<Reader>::file_id("f"), "e")
        .contains_masks(false)
        .contains_masks(true)
        .into_request();
    assert_eq!(request.get_method(), RequestMethod::Post);
    assert_eq!(request.build_url("u", "t"), "u/bott/createNewStickerSet");
    let fields = form_fields(request);
    let names: Vec<&str> = fields.iter().map(|(key, _)| key.as_str()).collect();
    assert_eq!(names, vec!["user_id", "name", "title", "png_sticker", "emojis", "contains_masks"]);
    assert_eq!(field(&fields, "contains_masks").get_text().unwrap(), "true");
}

#[test]
fn form_value() {
    let val = FormValue::<Reader>::from(1);
    assert_eq!(val.get_text().unwrap(), "1");
    assert!(val.get_file().is_none());

    let val = FormValue::from(InputFile::<Reader>::file_id("file-id"));
    assert!(val.get_text().is_none());
    assert!(val.get_file().is_some());
}

#[test]
fn form() {
    let mut form = Form::<Reader>::new();
    form.insert_field("id", FormValue::from(1));
    form.insert_field("id", FormValue::from(InputFile::file_id("file-id")));
    form.insert_field("id", FormValue::from(InputFile::url("url")));
    form.insert_field("id", FormValue::from(InputFile::path("file-path")));
    form.insert_field("id", FormValue::from(InputFile::from(InputFileReader::from(Cursor::new("test")))));
    let parts = form.into_parts();
    assert_eq!(parts.len(), 1);
    assert_eq!(parts[0].0, "id");
    assert!(matches!(parts[0].1, Part::Reader { file_name: None, mime_type: None, .. }));
}

#[test]
fn form_parts() {
    let mut form = Form::<Reader>::new();
    form.insert_field("text", FormValue::text("hello"));
    form.insert_field("id", FormValue::from(InputFile::file_id("file-id")));
    form.insert_field("path", FormValue::from(InputFile::path("/tmp/data/photo.png")));
    form.insert_field("plain", FormValue::from(InputFile::path("/tmp/data/noext")));
    form.insert_field(
        "reader",
        FormValue::from(InputFile::from(
            InputFileReader::from(Cursor::new("x")).info(InputFileInfo::from(("a.txt", "text/plain"))),
        )),
    );
    let parts = form.into_parts();
    let names: Vec<&str> = parts.iter().map(|(key, _)| key.as_str()).collect();
    assert_eq!(names, vec!["text", "id", "path", "plain", "reader"]);
    assert!(matches!(parts[0].1, Part::Text(ref t) if t == "hello"));
    assert!(matches!(parts[1].1, Part::Text(ref t) if t == "file-id"));
    match &parts[2].1 {
        Part::Path { path, file_name, mime_type } => {
            assert_eq!(path, "/tmp/data/photo.png");
            assert_eq!(file_name.as_deref(), Some("photo.png"));
            assert_eq!(mime_type, "image/png");
        }
        other => panic!("Unexpected part: {:?}", other),
    }
    match &parts[3].1 {
        Part::Path { file_name, mime_type, .. } => {
            assert_eq!(file_name.as_deref(), Some("noext"));
            assert_eq!(mime_type, "application/octet-stream");
        }
        other => panic!("Unexpected part: {:?}", other),
    }
    match &parts[4].1 {
        Part::Reader { file_name, mime_type, .. } => {
            assert_eq!(file_name.as_deref(), Some("a.txt"));
            assert_eq!(mime_type.as_deref(), Some("text/plain"));
        }
        other => panic!("Unexpected part: {:?}", other),
    }
}

#[test]
fn form_replaces_field_in_place() {
    let mut form = Form::<Reader>::new();
    form.insert_field("a", FormValue::text("1"));
    form.insert_field("b", FormValue::text("2"));
    form.insert_field("a", FormValue::text("3"));
    let fields = form.into_fields();
    assert_eq!(fields.len(), 2);
    assert_eq!(fields[0].0, "a");
    assert_eq!(fields[0].1.get_text().unwrap(), "3");
    assert_eq!(fields[1].1.get_text().unwrap(), "2");
}

#[test]
fn mime_type_default() {
    assert_eq!(mime_type_or_default(None), "application/octet-stream");
    assert_eq!(mime_type_or_default(Some(String::from("image/png"))), "image/png");
}
