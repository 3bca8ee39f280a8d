use std::io::Cursor;
use tgbot::request::FormValue;
use tgbot::types::file::{InputFile, InputFileInfo, InputFileKind, InputFileReader};
use tgbot::types::input_media::{
    InputMedia, InputMediaAnimation, InputMediaAudio, InputMediaDocument, InputMediaKind, InputMediaPhoto,
    InputMediaVideo,
};
use tgbot::types::media_group::{MediaGroup, MediaGroupItem};
use tgbot::types::ParseMode;

fn find<'a, R>(fields: &'a [(String, FormValue<R>)], name: &str) -> Option<&'a FormValue<R>> {
    fields.iter().find(|(key, _)| key == name).map(|(_, value)| value)
}

fn reader(data: &'static str) -> InputFile<Cursor<&'static str>> {
    InputFile::from(InputFileReader::from(Cursor::new(data)))
}

#[test]
fn input_media() {
    let data = InputMedia::new(
        InputFile::<Cursor<&str>>::file_id("animation-file-id"),
        InputMediaAnimation::default().caption("test"),
    )
    .into_form();
    assert!(find(&data, "media").is_some());
    assert_eq!(
        find(&data, "media").unwrap().get_text().unwrap(),
        r#"{"type":"animation","media":"animation-file-id","caption":"test"}"#
    );

    let data = InputMedia::with_thumb(
        reader("animation-file-data"),
        reader("animation-thumb-data"),
        InputMediaAnimation::default(),
    )
    .into_form();
    assert!(find(&data, "tgbot_im_file").is_some());
    assert!(find(&data, "tgbot_im_thumb").is_some());
    assert!(find(&data, "media").is_some());
    assert_eq!(
        find(&data, "media").unwrap().get_text().unwrap(),
        r#"{"type":"animation","media":"attach://tgbot_im_file","thumb":"attach://tgbot_im_thumb"}"#
    );
}

fn kind_json(kind: InputMediaKind) -> String {
    kind.to_json()
}

#[test]
fn input_media_kind() {
    assert_eq!(
        kind_json(InputMediaKind::from((String::from("file-id"), InputMediaAnimation::default().caption("test")))),
        r#"{"type":"animation","media":"file-id","caption":"test"}"#
    );
    assert_eq!(
        kind_json(InputMediaKind::from((
            String::from("file-id"),
            String::from("thumb-id"),
            InputMediaAnimation::default().caption("test"),
        ))),
        r#"{"type":"animation","media":"file-id","thumb":"thumb-id","caption":"test"}"#
    );
    assert_eq!(
        kind_json(InputMediaKind::from((String::from("file-id"), InputMediaAudio::default().caption("test")))),
        r#"{"type":"audio","media":"file-id","caption":"test"}"#
    );
    assert_eq!(
        kind_json(InputMediaKind::from((
            String::from("file-id"),
            String::from("thumb-id"),
            InputMediaAudio::default().caption("test"),
        ))),
        r#"{"type":"audio","media":"file-id","thumb":"thumb-id","caption":"test"}"#
    );
    assert_eq!(
        kind_json(InputMediaKind::from((String::from("file-id"), InputMediaDocument::default().caption("test")))),
        r#"{"type":"document","media":"file-id","caption":"test"}"#
    );
    assert_eq!(
        kind_json(InputMediaKind::from((
            String::from("file-id"),
            String::from("thumb-id"),
            InputMediaDocument::default().caption("test"),
        ))),
        r#"{"type":"document","media":"file-id","thumb":"thumb-id","caption":"test"}"#
    );
    assert_eq!(
        kind_json(InputMediaKind::from((String::from("file-id"), InputMediaVideo::default().caption("test")))),
        r#"{"type":"video","media":"file-id","caption":"test"}"#
    );
    assert_eq!(
        kind_json(InputMediaKind::from((
            String::from("file-id"),
            String::from("thumb-id"),
            InputMediaVideo::default().caption("test"),
        ))),
        r#"{"type":"video","media":"file-id","thumb":"thumb-id","caption":"test"}"#
    );
    assert_eq!(
        kind_json(InputMediaKind::from((String::from("file-id"), InputMediaPhoto::default().caption("test")))),
        r#"{"type":"photo","media":"file-id","caption":"test"}"#
    );
}

#[test]
fn video_serialize() {
    assert_eq!(
        InputMediaVideo::default()
            .caption("caption")
            .parse_mode(ParseMode::Markdown)
            .width(200)
            .height(200)
            .duration(100)
            .supports_streaming(true)
            .to_json(),
        r#"{"caption":"caption","parse_mode":"Markdown","width":200,"height":200,"duration":100,"supports_streaming":true}"#
    );
    assert_eq!(InputMediaVideo::default().to_json(), "{}");
}

#[test]
fn audio_attributes_json() {
    assert_eq!(
        InputMediaAudio::default()
            .caption("c")
            .parse_mode(ParseMode::Html)
            .duration(-5)
            .performer("p")
            .title("t")
            .to_json(),
        r#"{"caption":"c","parse_mode":"HTML","duration":-5,"performer":"p","title":"t"}"#
    );
}

#[test]
fn media_group() {
    let group = MediaGroup::default()
        .add_item(reader("test"), InputMediaPhoto::default())
        .add_item(reader("test"), InputMediaVideo::default())
        .add_item_with_thumb(
            InputFile::file_id("file-id"),
            InputFile::url("thumb-url"),
            InputMediaVideo::default(),
        )
        .into_form()
        .unwrap();
    assert!(find(&group, "media").is_some());
    assert!(find(&group, "tgbot_im_file_0").is_some());
    assert!(find(&group, "tgbot_im_file_1").is_some());
    assert_eq!(
        find(&group, "media").unwrap().get_text().unwrap(),
        r#"[{"type":"photo","media":"attach://tgbot_im_file_0"},{"type":"video","media":"attach://tgbot_im_file_1"},{"type":"video","media":"file-id","thumb":"thumb-url"}]"#
    );

    let err = MediaGroup::<Cursor<&str>>::default().into_form().unwrap_err();
    assert_eq!(err.to_string(), "Media group must contain at least 2 attachments");

    let mut group = MediaGroup::<Cursor<&str>>::default();
    for _ in 0..11 {
        group = group.add_item(InputFile::file_id("file-id"), InputMediaPhoto::default());
    }
    let err = group.into_form().unwrap_err();
    assert_eq!(err.to_string(), "Media group must contain no more than 10 attachments");
}

#[test]
fn media_group_bounds() {
    let mut group = MediaGroup::<Cursor<&str>>::default();
    for _ in 0..10 {
        group = group.add_item(InputFile::file_id("file-id"), InputMediaPhoto::default());
    }
    let fields = group.into_form().unwrap();
    assert_eq!(fields.len(), 1);
    assert_eq!(fields[0].0, "media");

    let group = MediaGroup::<Cursor<&str>>::new()
        .add_item(InputFile::file_id("a"), InputMediaPhoto::default())
        .add_item(InputFile::url("b"), InputMediaPhoto::default());
    assert!(group.into_form().is_ok());
}

#[test]
fn media_group_item() {
    assert_eq!(
        MediaGroupItem::from((
            String::from("file-id"),
            String::from("thumb-id"),
            InputMediaVideo::default().caption("test"),
        ))
        .to_json(),
        r#"{"type":"video","media":"file-id","thumb":"thumb-id","caption":"test"}"#
    );
    assert_eq!(
        MediaGroupItem::from((String::from("file-id"), InputMediaVideo::default().caption("test"))).to_json(),
        r#"{"type":"video","media":"file-id","caption":"test"}"#
    );
    assert_eq!(
        MediaGroupItem::from((String::from("file-id"), InputMediaPhoto::default().caption("test"))).to_json(),
        r#"{"type":"photo","media":"file-id","caption":"test"}"#
    );
}

#[test]
fn input_file() {
    let id = InputFile::<Cursor<&str>>::file_id("file-id");
    assert!(matches!(id.kind, InputFileKind::Id(ref s) if s == "file-id"));
    let url = InputFile::<Cursor<&str>>::url("http://example.com/archive.zip");
    assert!(matches!(url.kind, InputFileKind::Url(ref s) if s == "http://example.com/archive.zip"));
    let path = InputFile::<Cursor<&str>>::path("/home/user/data/archive.zip");
    assert!(matches!(path.kind, InputFileKind::Path(ref s) if s == "/home/user/data/archive.zip"));

    let reader = InputFileReader::from(Cursor::new(b"data"))
        .info(InputFileInfo::from(("name", mime::TEXT_PLAIN.as_ref())));
    let reader = InputFile::from(reader);
    assert!(format!("{:?}", reader.kind).starts_with("Reader("));
}

#[test]
fn input_file_info() {
    let info = InputFileInfo::from("name");
    assert_eq!(info.name, "name");
    assert!(info.mime_type.is_none());

    let info = InputFileInfo::from(("name", mime::TEXT_PLAIN.as_ref()));
    assert_eq!(info.name, "name");
    assert_eq!(info.mime_type.unwrap(), mime::TEXT_PLAIN.as_ref());

    let info = InputFileInfo::from(String::from("name"));
    assert_eq!(info.name, "name");
    assert!(info.mime_type.is_none());

    let info = InputFileInfo::from((String::from("name"), mime::TEXT_PLAIN.to_string()));
    assert_eq!(info.name, "name");
    assert_eq!(info.mime_type.unwrap(), mime::TEXT_PLAIN.as_ref());
}
