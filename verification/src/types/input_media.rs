use vstd::prelude::*;
use crate::encoding::push_str;
use crate::types::{
    file::{is_upload, InputFile, InputFileKind},
    primitive::{parse_mode_json, parse_mode_name, Integer, ParseMode},
};
use crate::json::{
    json_array, json_member, json_plain_text, lemma_member_names_differ, json_object, json_opt_member, json_string, opt_json_bool, opt_json_int,
    opt_json_string, JsonWriter,
};
use crate::request::FormValue;
use crate::types::login_url::opt_view;

verus! {

/// Animation file (GIF or H.264/MPEG-4 AVC video without sound) to be sent
#[derive(Clone, Debug)]
pub struct InputMediaAnimation {
    /// Caption of the file to be sent, 0-1024 characters
    pub caption: Option<String>,
    /// Parse mode of the caption
    pub parse_mode: Option<ParseMode>,
    /// Width
    pub width: Option<Integer>,
    /// Height
    pub height: Option<Integer>,
    /// Duration
    pub duration: Option<Integer>,
}

impl Default for InputMediaAnimation {
    fn default() -> (r: Self)
        ensures
            r.caption is None,
            r.parse_mode is None,
            r.width is None,
            r.height is None,
            r.duration is None,
    {
        InputMediaAnimation { caption: None, parse_mode: None, width: None, height: None, duration: None }
    }
}

impl InputMediaAnimation {
    /// Caption of the file to be sent, 0-1024 characters
    pub fn caption(self, caption: &str) -> (r: Self)
        ensures
            r.caption matches Some(s) && s@ == caption@,
            r.parse_mode == self.parse_mode,
            r.width == self.width,
            r.height == self.height,
            r.duration == self.duration,
    {
        InputMediaAnimation { caption: Some(caption.to_owned()), ..self }
    }

    /// Set parse mode
    pub fn parse_mode(self, parse_mode: ParseMode) -> (r: Self)
        ensures
            r.parse_mode == Some(parse_mode),
            r.caption == self.caption,
            r.width == self.width,
            r.height == self.height,
            r.duration == self.duration,
    {
        InputMediaAnimation { parse_mode: Some(parse_mode), ..self }
    }

    /// Set width
    pub fn width(self, width: Integer) -> (r: Self)
        ensures
            r.width == Some(width),
            r.caption == self.caption,
            r.parse_mode == self.parse_mode,
            r.height == self.height,
            r.duration == self.duration,
    {
        InputMediaAnimation { width: Some(width), ..self }
    }

    /// Set height
    pub fn height(self, height: Integer) -> (r: Self)
        ensures
            r.height == Some(height),
            r.caption == self.caption,
            r.parse_mode == self.parse_mode,
            r.width == self.width,
            r.duration == self.duration,
    {
        InputMediaAnimation { height: Some(height), ..self }
    }

    /// Set duration
    pub fn duration(self, duration: Integer) -> (r: Self)
        ensures
            r.duration == Some(duration),
            r.caption == self.caption,
            r.parse_mode == self.parse_mode,
            r.width == self.width,
            r.height == self.height,
    {
        InputMediaAnimation { duration: Some(duration), ..self }
    }

}

/// Audio file to be treated as music to be sent
#[derive(Clone, Debug)]
pub struct InputMediaAudio {
    /// Caption of the file to be sent, 0-1024 characters
    pub caption: Option<String>,
    /// Parse mode of the caption
    pub parse_mode: Option<ParseMode>,
    /// Duration
    pub duration: Option<Integer>,
    /// Performer of the audio
    pub performer: Option<String>,
    /// Title of the audio
    pub title: Option<String>,
}

impl Default for InputMediaAudio {
    fn default() -> (r: Self)
        ensures
            r.caption is None,
            r.parse_mode is None,
            r.duration is None,
            r.performer is None,
            r.title is None,
    {
        InputMediaAudio { caption: None, parse_mode: None, duration: None, performer: None, title: None }
    }
}

impl InputMediaAudio {
    /// Caption of the file to be sent, 0-1024 characters
    pub fn caption(self, caption: &str) -> (r: Self)
        ensures
            r.caption matches Some(s) && s@ == caption@,
            r.parse_mode == self.parse_mode,
            r.duration == self.duration,
            r.performer == self.performer,
            r.title == self.title,
    {
        InputMediaAudio { caption: Some(caption.to_owned()), ..self }
    }

    /// Set parse mode
    pub fn parse_mode(self, parse_mode: ParseMode) -> (r: Self)
        ensures
            r.parse_mode == Some(parse_mode),
            r.caption == self.caption,
            r.duration == self.duration,
            r.performer == self.performer,
            r.title == self.title,
    {
        InputMediaAudio { parse_mode: Some(parse_mode), ..self }
    }

    /// Set duration
    pub fn duration(self, duration: Integer) -> (r: Self)
        ensures
            r.duration == Some(duration),
            r.caption == self.caption,
            r.parse_mode == self.parse_mode,
            r.performer == self.performer,
            r.title == self.title,
    {
        InputMediaAudio { duration: Some(duration), ..self }
    }

    /// Performer of the audio
    pub fn performer(self, performer: &str) -> (r: Self)
        ensures
            r.performer matches Some(s) && s@ == performer@,
            r.caption == self.caption,
            r.parse_mode == self.parse_mode,
            r.duration == self.duration,
            r.title == self.title,
    {
        InputMediaAudio { performer: Some(performer.to_owned()), ..self }
    }

    /// Title of the audio
    pub fn title(self, title: &str) -> (r: Self)
        ensures
            r.title matches Some(s) && s@ == title@,
            r.caption == self.caption,
            r.parse_mode == self.parse_mode,
            r.duration == self.duration,
            r.performer == self.performer,
    {
        InputMediaAudio { title: Some(title.to_owned()), ..self }
    }

}

/// General file to be sent
#[derive(Clone, Debug)]
pub struct InputMediaDocument {
    /// Caption of the file to be sent, 0-1024 characters
    pub caption: Option<String>,
    /// Parse mode of the caption
    pub parse_mode: Option<ParseMode>,
}

impl Default for InputMediaDocument {
    fn default() -> (r: Self)
        ensures
            r.caption is None,
            r.parse_mode is None,
    {
        InputMediaDocument { caption: None, parse_mode: None }
    }
}

impl InputMediaDocument {
    /// Caption of the file to be sent, 0-1024 characters
    pub fn caption(self, caption: &str) -> (r: Self)
        ensures
            r.caption matches Some(s) && s@ == caption@,
            r.parse_mode == self.parse_mode,
    {
        InputMediaDocument { caption: Some(caption.to_owned()), ..self }
    }

    /// Set parse mode
    pub fn parse_mode(self, parse_mode: ParseMode) -> (r: Self)
        ensures
            r.parse_mode == Some(parse_mode),
            r.caption == self.caption,
    {
        InputMediaDocument { parse_mode: Some(parse_mode), ..self }
    }

}

/// Photo to be sent
#[derive(Clone, Debug)]
pub struct InputMediaPhoto {
    /// Caption of the file to be sent, 0-1024 characters
    pub caption: Option<String>,
    /// Parse mode of the caption
    pub parse_mode: Option<ParseMode>,
}

impl Default for InputMediaPhoto {
    fn default() -> (r: Self)
        ensures
            r.caption is None,
            r.parse_mode is None,
    {
        InputMediaPhoto { caption: None, parse_mode: None }
    }
}

impl InputMediaPhoto {
    /// Caption of the file to be sent, 0-1024 characters
    pub fn caption(self, caption: &str) -> (r: Self)
        ensures
            r.caption matches Some(s) && s@ == caption@,
            r.parse_mode == self.parse_mode,
    {
        InputMediaPhoto { caption: Some(caption.to_owned()), ..self }
    }

    /// Set parse mode
    pub fn parse_mode(self, parse_mode: ParseMode) -> (r: Self)
        ensures
            r.parse_mode == Some(parse_mode),
            r.caption == self.caption,
    {
        InputMediaPhoto { parse_mode: Some(parse_mode), ..self }
    }

}

/// Video to be sent
#[derive(Clone, Debug)]
pub struct InputMediaVideo {
    /// Caption of the file to be sent, 0-1024 characters
    pub caption: Option<String>,
    /// Parse mode of the caption
    pub parse_mode: Option<ParseMode>,
    /// Width
    pub width: Option<Integer>,
    /// Height
    pub height: Option<Integer>,
    /// Duration
    pub duration: Option<Integer>,
    /// True, if the uploaded video is suitable for streaming
    pub supports_streaming: Option<bool>,
}

impl Default for InputMediaVideo {
    fn default() -> (r: Self)
        ensures
            r.caption is None,
            r.parse_mode is None,
            r.width is None,
            r.height is None,
            r.duration is None,
            r.supports_streaming is None,
    {
        InputMediaVideo { caption: None, parse_mode: None, width: None, height: None, duration: None, supports_streaming: None }
    }
}

impl InputMediaVideo {
    /// Caption of the file to be sent, 0-1024 characters
    pub fn caption(self, caption: &str) -> (r: Self)
        ensures
            r.caption matches Some(s) && s@ == caption@,
            r.parse_mode == self.parse_mode,
            r.width == self.width,
            r.height == self.height,
            r.duration == self.duration,
            r.supports_streaming == self.supports_streaming,
    {
        InputMediaVideo { caption: Some(caption.to_owned()), ..self }
    }

    /// Set parse mode
    pub fn parse_mode(self, parse_mode: ParseMode) -> (r: Self)
        ensures
            r.parse_mode == Some(parse_mode),
            r.caption == self.caption,
            r.width == self.width,
            r.height == self.height,
            r.duration == self.duration,
            r.supports_streaming == self.supports_streaming,
    {
        InputMediaVideo { parse_mode: Some(parse_mode), ..self }
    }

    /// Set width
    pub fn width(self, width: Integer) -> (r: Self)
        ensures
            r.width == Some(width),
            r.caption == self.caption,
            r.parse_mode == self.parse_mode,
            r.height == self.height,
            r.duration == self.duration,
            r.supports_streaming == self.supports_streaming,
    {
        InputMediaVideo { width: Some(width), ..self }
    }

    /// Set height
    pub fn height(self, height: Integer) -> (r: Self)
        ensures
            r.height == Some(height),
            r.caption == self.caption,
            r.parse_mode == self.parse_mode,
            r.width == self.width,
            r.duration == self.duration,
            r.supports_streaming == self.supports_streaming,
    {
        InputMediaVideo { height: Some(height), ..self }
    }

    /// Set duration
    pub fn duration(self, duration: Integer) -> (r: Self)
        ensures
            r.duration == Some(duration),
            r.caption == self.caption,
            r.parse_mode == self.parse_mode,
            r.width == self.width,
            r.height == self.height,
            r.supports_streaming == self.supports_streaming,
    {
        InputMediaVideo { duration: Some(duration), ..self }
    }

    /// Pass True, if the uploaded video is suitable for streaming
    pub fn supports_streaming(self, supports_streaming: bool) -> (r: Self)
        ensures
            r.supports_streaming == Some(supports_streaming),
            r.caption == self.caption,
            r.parse_mode == self.parse_mode,
            r.width == self.width,
            r.height == self.height,
            r.duration == self.duration,
    {
        InputMediaVideo { supports_streaming: Some(supports_streaming), ..self }
    }

}

/// Description of a media file to be sent: where the file is, its thumbnail if any,
/// and the attributes of its kind
#[derive(Clone, Debug)]
pub enum InputMediaKind {
    /// Animation
    Animation {
        /// The file: an identifier, a URL or an `attach://` reference
        media: String,
        /// The thumbnail: an identifier, a URL or an `attach://` reference
        thumb: Option<String>,
        /// Attributes
        info: InputMediaAnimation,
    },
    /// Audio
    Audio {
        /// The file: an identifier, a URL or an `attach://` reference
        media: String,
        /// The thumbnail: an identifier, a URL or an `attach://` reference
        thumb: Option<String>,
        /// Attributes
        info: InputMediaAudio,
    },
    /// Document
    Document {
        /// The file: an identifier, a URL or an `attach://` reference
        media: String,
        /// The thumbnail: an identifier, a URL or an `attach://` reference
        thumb: Option<String>,
        /// Attributes
        info: InputMediaDocument,
    },
    /// Photo
    Photo {
        /// The file: an identifier, a URL or an `attach://` reference
        media: String,
        /// Attributes
        info: InputMediaPhoto,
    },
    /// Video
    Video {
        /// The file: an identifier, a URL or an `attach://` reference
        media: String,
        /// The thumbnail: an identifier, a URL or an `attach://` reference
        thumb: Option<String>,
        /// Attributes
        info: InputMediaVideo,
    },
}

impl From<(String, InputMediaAnimation)> for InputMediaKind {
    fn from(value: (String, InputMediaAnimation)) -> Self {
        let (media, info) = value;
        InputMediaKind::Animation { media, thumb: None, info }
    }
}

impl vstd::std_specs::convert::FromSpecImpl<(String, InputMediaAnimation)> for InputMediaKind {
    open spec fn obeys_from_spec() -> bool {
        true
    }

    open spec fn from_spec(value: (String, InputMediaAnimation)) -> InputMediaKind {
        InputMediaKind::Animation { media: value.0, thumb: None, info: value.1 }
    }
}

impl From<(String, String, InputMediaAnimation)> for InputMediaKind {
    fn from(value: (String, String, InputMediaAnimation)) -> Self {
        let (media, thumb, info) = value;
        InputMediaKind::Animation { media, thumb: Some(thumb), info }
    }
}

impl vstd::std_specs::convert::FromSpecImpl<(String, String, InputMediaAnimation)> for InputMediaKind {
    open spec fn obeys_from_spec() -> bool {
        true
    }

    open spec fn from_spec(value: (String, String, InputMediaAnimation)) -> InputMediaKind {
        InputMediaKind::Animation { media: value.0, thumb: Some(value.1), info: value.2 }
    }
}

impl From<(String, InputMediaAudio)> for InputMediaKind {
    fn from(value: (String, InputMediaAudio)) -> Self {
        let (media, info) = value;
        InputMediaKind::Audio { media, thumb: None, info }
    }
}

impl vstd::std_specs::convert::FromSpecImpl<(String, InputMediaAudio)> for InputMediaKind {
    open spec fn obeys_from_spec() -> bool {
        true
    }

    open spec fn from_spec(value: (String, InputMediaAudio)) -> InputMediaKind {
        InputMediaKind::Audio { media: value.0, thumb: None, info: value.1 }
    }
}

impl From<(String, String, InputMediaAudio)> for InputMediaKind {
    fn from(value: (String, String, InputMediaAudio)) -> Self {
        let (media, thumb, info) = value;
        InputMediaKind::Audio { media, thumb: Some(thumb), info }
    }
}

impl vstd::std_specs::convert::FromSpecImpl<(String, String, InputMediaAudio)> for InputMediaKind {
    open spec fn obeys_from_spec() -> bool {
        true
    }

    open spec fn from_spec(value: (String, String, InputMediaAudio)) -> InputMediaKind {
        InputMediaKind::Audio { media: value.0, thumb: Some(value.1), info: value.2 }
    }
}

impl From<(String, InputMediaDocument)> for InputMediaKind {
    fn from(value: (String, InputMediaDocument)) -> Self {
        let (media, info) = value;
        InputMediaKind::Document { media, thumb: None, info }
    }
}

impl vstd::std_specs::convert::FromSpecImpl<(String, InputMediaDocument)> for InputMediaKind {
    open spec fn obeys_from_spec() -> bool {
        true
    }

    open spec fn from_spec(value: (String, InputMediaDocument)) -> InputMediaKind {
        InputMediaKind::Document { media: value.0, thumb: None, info: value.1 }
    }
}

impl From<(String, String, InputMediaDocument)> for InputMediaKind {
    fn from(value: (String, String, InputMediaDocument)) -> Self {
        let (media, thumb, info) = value;
        InputMediaKind::Document { media, thumb: Some(thumb), info }
    }
}

impl vstd::std_specs::convert::FromSpecImpl<(String, String, InputMediaDocument)> for InputMediaKind {
    open spec fn obeys_from_spec() -> bool {
        true
    }

    open spec fn from_spec(value: (String, String, InputMediaDocument)) -> InputMediaKind {
        InputMediaKind::Document { media: value.0, thumb: Some(value.1), info: value.2 }
    }
}

impl From<(String, InputMediaPhoto)> for InputMediaKind {
    fn from(value: (String, InputMediaPhoto)) -> Self {
        let (media, info) = value;
        InputMediaKind::Photo { media, info }
    }
}

impl vstd::std_specs::convert::FromSpecImpl<(String, InputMediaPhoto)> for InputMediaKind {
    open spec fn obeys_from_spec() -> bool {
        true
    }

    open spec fn from_spec(value: (String, InputMediaPhoto)) -> InputMediaKind {
        InputMediaKind::Photo { media: value.0, info: value.1 }
    }
}

impl From<(String, InputMediaVideo)> for InputMediaKind {
    fn from(value: (String, InputMediaVideo)) -> Self {
        let (media, info) = value;
        InputMediaKind::Video { media, thumb: None, info }
    }
}

impl vstd::std_specs::convert::FromSpecImpl<(String, InputMediaVideo)> for InputMediaKind {
    open spec fn obeys_from_spec() -> bool {
        true
    }

    open spec fn from_spec(value: (String, InputMediaVideo)) -> InputMediaKind {
        InputMediaKind::Video { media: value.0, thumb: None, info: value.1 }
    }
}

impl From<(String, String, InputMediaVideo)> for InputMediaKind {
    fn from(value: (String, String, InputMediaVideo)) -> Self {
        let (media, thumb, info) = value;
        InputMediaKind::Video { media, thumb: Some(thumb), info }
    }
}

impl vstd::std_specs::convert::FromSpecImpl<(String, String, InputMediaVideo)> for InputMediaKind {
    open spec fn obeys_from_spec() -> bool {
        true
    }

    open spec fn from_spec(value: (String, String, InputMediaVideo)) -> InputMediaKind {
        InputMediaKind::Video { media: value.0, thumb: Some(value.1), info: value.2 }
    }
}

/// Attributes of a kind of media that can be sent on its own
pub trait InputMediaInfo: Sized {
    /// The description of a file of this kind given by `media`, with a thumbnail where
    /// one is given and the kind has one.
    spec fn media_kind(self, media: String, thumb: Option<String>) -> InputMediaKind;

    /// Describes a file of this kind given by `media`
    fn into_media_kind(self, media: String) -> (r: InputMediaKind)
        ensures
            r == self.media_kind(media, None),
    ;
}

/// Attributes of a kind of media that can be sent with a thumbnail
pub trait InputMediaInfoWithThumb: InputMediaInfo {
    /// Describes a file of this kind given by `media`, with the thumbnail `thumb`
    fn into_media_kind_with_thumb(self, media: String, thumb: String) -> (r: InputMediaKind)
        ensures
            r == self.media_kind(media, Some(thumb)),
    ;
}

impl InputMediaInfo for InputMediaAnimation {
    open spec fn media_kind(self, media: String, thumb: Option<String>) -> InputMediaKind {
        InputMediaKind::Animation { media, thumb, info: self }
    }

    fn into_media_kind(self, media: String) -> (r: InputMediaKind) {
        InputMediaKind::Animation { media, thumb: None, info: self }
    }
}

impl InputMediaInfoWithThumb for InputMediaAnimation {
    fn into_media_kind_with_thumb(self, media: String, thumb: String) -> (r: InputMediaKind) {
        InputMediaKind::Animation { media, thumb: Some(thumb), info: self }
    }
}

impl InputMediaInfo for InputMediaAudio {
    open spec fn media_kind(self, media: String, thumb: Option<String>) -> InputMediaKind {
        InputMediaKind::Audio { media, thumb, info: self }
    }

    fn into_media_kind(self, media: String) -> (r: InputMediaKind) {
        InputMediaKind::Audio { media, thumb: None, info: self }
    }
}

impl InputMediaInfoWithThumb for InputMediaAudio {
    fn into_media_kind_with_thumb(self, media: String, thumb: String) -> (r: InputMediaKind) {
        InputMediaKind::Audio { media, thumb: Some(thumb), info: self }
    }
}

impl InputMediaInfo for InputMediaDocument {
    open spec fn media_kind(self, media: String, thumb: Option<String>) -> InputMediaKind {
        InputMediaKind::Document { media, thumb, info: self }
    }

    fn into_media_kind(self, media: String) -> (r: InputMediaKind) {
        InputMediaKind::Document { media, thumb: None, info: self }
    }
}

impl InputMediaInfoWithThumb for InputMediaDocument {
    fn into_media_kind_with_thumb(self, media: String, thumb: String) -> (r: InputMediaKind) {
        InputMediaKind::Document { media, thumb: Some(thumb), info: self }
    }
}

impl InputMediaInfo for InputMediaPhoto {
    open spec fn media_kind(self, media: String, thumb: Option<String>) -> InputMediaKind {
        InputMediaKind::Photo { media, info: self }
    }

    fn into_media_kind(self, media: String) -> (r: InputMediaKind) {
        InputMediaKind::Photo { media, info: self }
    }
}

impl InputMediaInfo for InputMediaVideo {
    open spec fn media_kind(self, media: String, thumb: Option<String>) -> InputMediaKind {
        InputMediaKind::Video { media, thumb, info: self }
    }

    fn into_media_kind(self, media: String) -> (r: InputMediaKind) {
        InputMediaKind::Video { media, thumb: None, info: self }
    }
}

impl InputMediaInfoWithThumb for InputMediaVideo {
    fn into_media_kind_with_thumb(self, media: String, thumb: String) -> (r: InputMediaKind) {
        InputMediaKind::Video { media, thumb: Some(thumb), info: self }
    }
}

/// A file described with its attributes keeps the file it is given and the attributes, and
/// every kind that takes a thumbnail keeps the thumbnail it is given, which its JSON names
/// under `thumb`; a photo takes none.
pub proof fn lemma_media_kind_keeps_file_and_thumb(
    media: String,
    thumb: Option<String>,
    animation: InputMediaAnimation,
    audio: InputMediaAudio,
    document: InputMediaDocument,
    photo: InputMediaPhoto,
    video: InputMediaVideo,
)
    ensures
        animation.media_kind(media, thumb) matches InputMediaKind::Animation { media: m, thumb: t, info } && m == media
            && t == thumb && info == animation,
        audio.media_kind(media, thumb) matches InputMediaKind::Audio { media: m, thumb: t, info } && m == media
            && t == thumb && info == audio,
        document.media_kind(media, thumb) matches InputMediaKind::Document { media: m, thumb: t, info } && m == media
            && t == thumb && info == document,
        video.media_kind(media, thumb) matches InputMediaKind::Video { media: m, thumb: t, info } && m == media
            && t == thumb && info == video,
        photo.media_kind(media, thumb) matches InputMediaKind::Photo { media: m, info } && m == media && info == photo,
        thumb matches Some(t) ==> exists|members: Seq<Seq<char>>|
            media_kind_json(#[trigger] animation.media_kind(media, thumb)) == json_object(members) && members.contains(
                json_member("thumb"@, json_string(t@)),
            ),
        thumb matches Some(t) ==> exists|members: Seq<Seq<char>>|
            media_kind_json(#[trigger] audio.media_kind(media, thumb)) == json_object(members) && members.contains(
                json_member("thumb"@, json_string(t@)),
            ),
        thumb matches Some(t) ==> exists|members: Seq<Seq<char>>|
            media_kind_json(#[trigger] document.media_kind(media, thumb)) == json_object(members) && members.contains(
                json_member("thumb"@, json_string(t@)),
            ),
        thumb matches Some(t) ==> exists|members: Seq<Seq<char>>|
            media_kind_json(#[trigger] video.media_kind(media, thumb)) == json_object(members) && members.contains(
                json_member("thumb"@, json_string(t@)),
            ),
{
    broadcast use vstd::seq_lib::lemma_seq_concat_contains_all_elements;

    if let Some(t) = thumb {
        let tm = json_member("thumb"@, json_string(t@));
        assert(json_opt_member("thumb"@, opt_json_string(opt_view(thumb)))[0] == tm);
        assert(json_opt_member("thumb"@, opt_json_string(opt_view(thumb))).contains(tm));
        assert(media_head("animation"@, media, thumb).contains(tm));
        assert(media_head("audio"@, media, thumb).contains(tm));
        assert(media_head("document"@, media, thumb).contains(tm));
        assert(media_head("video"@, media, thumb).contains(tm));
        assert((media_head("animation"@, media, thumb) + animation_members(animation)).contains(tm));
        assert(media_kind_json(animation.media_kind(media, thumb)) == json_object(
            media_head("animation"@, media, thumb) + animation_members(animation),
        ));
        assert((media_head("audio"@, media, thumb) + audio_members(audio)).contains(tm));
        assert(media_kind_json(audio.media_kind(media, thumb)) == json_object(
            media_head("audio"@, media, thumb) + audio_members(audio),
        ));
        assert((media_head("document"@, media, thumb) + document_members(document)).contains(tm));
        assert(media_kind_json(document.media_kind(media, thumb)) == json_object(
            media_head("document"@, media, thumb) + document_members(document),
        ));
        assert((media_head("video"@, media, thumb) + video_members(video)).contains(tm));
        assert(media_kind_json(video.media_kind(media, thumb)) == json_object(
            media_head("video"@, media, thumb) + video_members(video),
        ));
    }
}

/// How a file is referred to in a request: an identifier or URL as it is, an uploaded file
/// as `attach://` and the key it is uploaded under.
pub open spec fn media_reference<R>(file: InputFile<R>, key: Seq<char>) -> Seq<char> {
    match file.kind {
        InputFileKind::Id(text) => text@,
        InputFileKind::Url(text) => text@,
        _ => "attach://"@ + key,
    }
}

/// Files uploaded with a request, each under its key, in the order they were added.
pub open spec fn uploads_view<R>(files: Seq<(String, InputFile<R>)>) -> Seq<(Seq<char>, InputFile<R>)> {
    files.map_values(|p: (String, InputFile<R>)| (p.0@, p.1))
}

/// The uploads after a file is added under `key`: the file joins them where it is uploaded.
pub open spec fn with_upload<R>(uploads: Seq<(Seq<char>, InputFile<R>)>, key: Seq<char>, file: InputFile<R>) -> Seq<
    (Seq<char>, InputFile<R>),
> {
    if is_upload(file) {
        uploads.push((key, file))
    } else {
        uploads
    }
}

/// Refers to `file` in a request, adding it to `files` under `key` where it is uploaded.
pub(crate) fn attach_file<R>(files: &mut Vec<(String, InputFile<R>)>, key: String, file: InputFile<R>) -> (r: String)
    ensures
        r@ == media_reference(file, key@),
        uploads_view(final(files)@) == with_upload(uploads_view(old(files)@), key@, file),
{
    let ghost f = file;
    let ghost k = key@;
    match file.kind {
        InputFileKind::Id(text) => text,
        InputFileKind::Url(text) => text,
        kind => {
            let mut reference = String::new();
            push_str(&mut reference, "attach://");
            push_str(&mut reference, key.as_str());
            let ghost old_files = files@;
            files.push((key, InputFile { kind }));
            proof {
                assert(reference@ =~= "attach://"@ + k);
                assert(uploads_view(files@) =~= uploads_view(old_files).push((k, f)));
            }
            reference
        },
    }
}

/// Content of a media message to be sent: the description of the media,
/// and the files that are uploaded with it
#[derive(Debug)]
pub struct InputMedia<R> {
    /// Files uploaded with the media, each under its key
    pub files: Vec<(String, InputFile<R>)>,
    /// Description of the media, which refers to uploaded files by `attach://` and their key
    pub media: InputMediaKind,
}

impl<R> InputMedia<R> {
    /// Creates a new input media
    ///
    /// A file given by identifier or URL is referred to as it is; any other file is
    /// uploaded under the key "tgbot_im_file"
    pub fn new<K: InputMediaInfo>(file: InputFile<R>, info: K) -> (r: InputMedia<R>)
        ensures
            uploads_view(r.files@) == with_upload(Seq::empty(), "tgbot_im_file"@, file),
            exists|media: String|
                media@ == media_reference(file, "tgbot_im_file"@) && r.media == info.media_kind(media, None),
    {
        let mut files: Vec<(String, InputFile<R>)> = Vec::new();
        let ghost f = file;
        proof {
            assert(uploads_view(files@) =~= Seq::<(Seq<char>, InputFile<R>)>::empty());
        }
        let media = attach_file(&mut files, "tgbot_im_file".to_owned(), file);
        let media = info.into_media_kind(media);
        InputMedia { files, media }
    }

    /// Creates a new input media with thumbnail
    ///
    /// Files given by identifier or URL are referred to as they are; any other file is
    /// uploaded, the file under the key "tgbot_im_file" and the thumbnail under "tgbot_im_thumb"
    pub fn with_thumb<K: InputMediaInfoWithThumb>(file: InputFile<R>, thumb: InputFile<R>, info: K) -> (r: InputMedia<R>)
        ensures
            uploads_view(r.files@) == with_upload(
                with_upload(Seq::empty(), "tgbot_im_file"@, file),
                "tgbot_im_thumb"@,
                thumb,
            ),
            exists|media: String, thumb_media: String|
                media@ == media_reference(file, "tgbot_im_file"@) && thumb_media@ == media_reference(
                    thumb,
                    "tgbot_im_thumb"@,
                ) && r.media == info.media_kind(media, Some(thumb_media)),
    {
        let mut files: Vec<(String, InputFile<R>)> = Vec::new();
        proof {
            assert(uploads_view(files@) =~= Seq::<(Seq<char>, InputFile<R>)>::empty());
        }
        let media = attach_file(&mut files, "tgbot_im_file".to_owned(), file);
        let thumb_media = attach_file(&mut files, "tgbot_im_thumb".to_owned(), thumb);
        let media = info.into_media_kind_with_thumb(media, thumb_media);
        InputMedia { files, media }
    }
}

/// The JSON of an optional parse mode.
pub open spec fn opt_parse_mode_json(mode: Option<ParseMode>) -> Option<Seq<char>> {
    match mode {
        Some(m) => Some(parse_mode_json(m)),
        None => None,
    }
}

/// Appends the member for a parse mode, where one is set.
fn write_parse_mode(w: &mut JsonWriter, mode: Option<ParseMode>)
    ensures
        final(w).is_object() == old(w).is_object(),
        final(w).parts() == old(w).parts() + json_opt_member("parse_mode"@, opt_parse_mode_json(mode)),
{
    match mode {
        Some(m) => {
            let j = m.to_json();
            w.member_raw("parse_mode", j.as_str());
        },
        None => {},
    }
    assert(w.parts() =~= old(w).parts() + json_opt_member("parse_mode"@, opt_parse_mode_json(mode)));
}

/// The members of an animation's attributes: each one that is set.
pub open spec fn animation_members(i: InputMediaAnimation) -> Seq<Seq<char>> {
    json_opt_member("caption"@, opt_json_string(opt_view(i.caption))) + json_opt_member(
        "parse_mode"@,
        opt_parse_mode_json(i.parse_mode),
    ) + json_opt_member("width"@, opt_json_int(i.width)) + json_opt_member("height"@, opt_json_int(i.height))
        + json_opt_member("duration"@, opt_json_int(i.duration))
}

/// The members of an audio's attributes: each one that is set.
pub open spec fn audio_members(i: InputMediaAudio) -> Seq<Seq<char>> {
    json_opt_member("caption"@, opt_json_string(opt_view(i.caption))) + json_opt_member(
        "parse_mode"@,
        opt_parse_mode_json(i.parse_mode),
    ) + json_opt_member("duration"@, opt_json_int(i.duration)) + json_opt_member(
        "performer"@,
        opt_json_string(opt_view(i.performer)),
    ) + json_opt_member("title"@, opt_json_string(opt_view(i.title)))
}

/// The members of a document's attributes: each one that is set.
pub open spec fn document_members(i: InputMediaDocument) -> Seq<Seq<char>> {
    json_opt_member("caption"@, opt_json_string(opt_view(i.caption))) + json_opt_member(
        "parse_mode"@,
        opt_parse_mode_json(i.parse_mode),
    )
}

/// The members of a photo's attributes: each one that is set.
pub open spec fn photo_members(i: InputMediaPhoto) -> Seq<Seq<char>> {
    json_opt_member("caption"@, opt_json_string(opt_view(i.caption))) + json_opt_member(
        "parse_mode"@,
        opt_parse_mode_json(i.parse_mode),
    )
}

/// The members of a video's attributes: each one that is set.
pub open spec fn video_members(i: InputMediaVideo) -> Seq<Seq<char>> {
    json_opt_member("caption"@, opt_json_string(opt_view(i.caption))) + json_opt_member(
        "parse_mode"@,
        opt_parse_mode_json(i.parse_mode),
    ) + json_opt_member("width"@, opt_json_int(i.width)) + json_opt_member("height"@, opt_json_int(i.height))
        + json_opt_member("duration"@, opt_json_int(i.duration)) + json_opt_member(
        "supports_streaming"@,
        opt_json_bool(i.supports_streaming),
    )
}

/// The members of some attributes show a caption and a parse mode under their Bot API
/// names: the caption as a string and the parse mode by its name, each where it is set,
/// and no member of either name where it is not.
pub open spec fn shows_caption_and_parse_mode(
    members: Seq<Seq<char>>,
    caption: Option<String>,
    parse_mode: Option<ParseMode>,
) -> bool {
    &&& match caption {
        Some(c) => members.contains(json_member("caption"@, json_string(c@))),
        None => forall|v: Seq<char>| !#[trigger] members.contains(json_member("caption"@, v)),
    }
    &&& match parse_mode {
        Some(p) => members.contains(json_member("parse_mode"@, json_string(parse_mode_name(p)))),
        None => forall|v: Seq<char>| !#[trigger] members.contains(json_member("parse_mode"@, v)),
    }
}

/// The names of the attributes of input media stand for themselves in JSON, and have these lengths.
proof fn lemma_attribute_names_plain()
    ensures
        json_plain_text("caption"@),
        json_plain_text("parse_mode"@),
        json_plain_text("width"@),
        json_plain_text("height"@),
        json_plain_text("duration"@),
        json_plain_text("performer"@),
        json_plain_text("title"@),
        json_plain_text("supports_streaming"@),
        "caption"@.len() == 7,
        "parse_mode"@.len() == 10,
        "width"@.len() == 5,
        "height"@.len() == 6,
        "duration"@.len() == 8,
        "performer"@.len() == 9,
        "title"@.len() == 5,
        "supports_streaming"@.len() == 18,
{
    reveal_strlit("caption");
    reveal_strlit("parse_mode");
    reveal_strlit("width");
    reveal_strlit("height");
    reveal_strlit("duration");
    reveal_strlit("performer");
    reveal_strlit("title");
    reveal_strlit("supports_streaming");
}

/// An optional member under one name holds no member under another.
proof fn lemma_opt_member_lacks(name: Seq<char>, value: Option<Seq<char>>, other: Seq<char>, v: Seq<char>)
    requires
        json_plain_text(name),
        json_plain_text(other),
        name.len() != other.len(),
    ensures
        !json_opt_member(name, value).contains(json_member(other, v)),
{
    if let Some(w) = value {
        lemma_member_names_differ(name, w, other, v);
        assert(json_opt_member(name, value)[0] == json_member(name, w));
    }
}

/// An optional member that is present is held.
proof fn lemma_opt_member_holds(name: Seq<char>, value: Seq<char>)
    ensures
        json_opt_member(name, Some(value)).contains(json_member(name, value)),
{
    assert(json_opt_member(name, Some(value))[0] == json_member(name, value));
}

/// Every kind of input media shows its caption and its parse mode under their Bot API
/// names exactly when they are set: `caption` with the caption, `parse_mode` with the
/// mode's name.
pub proof fn lemma_attributes_show_caption_and_parse_mode(
    animation: InputMediaAnimation,
    audio: InputMediaAudio,
    document: InputMediaDocument,
    photo: InputMediaPhoto,
    video: InputMediaVideo,
)
    ensures
        shows_caption_and_parse_mode(animation_members(animation), animation.caption, animation.parse_mode),
        shows_caption_and_parse_mode(audio_members(audio), audio.caption, audio.parse_mode),
        shows_caption_and_parse_mode(document_members(document), document.caption, document.parse_mode),
        shows_caption_and_parse_mode(photo_members(photo), photo.caption, photo.parse_mode),
        shows_caption_and_parse_mode(video_members(video), video.caption, video.parse_mode),
{
    broadcast use vstd::seq_lib::lemma_seq_concat_contains_all_elements;

    lemma_attribute_names_plain();
    let cap = "caption"@;
    let pm = "parse_mode"@;
    if let Some(c) = animation.caption {
        lemma_opt_member_holds(cap, json_string(c@));
    }
    if let Some(p) = animation.parse_mode {
        lemma_opt_member_holds(pm, json_string(parse_mode_name(p)));
    }
    assert forall|v: Seq<char>| animation.parse_mode is None implies !#[trigger] animation_members(animation).contains(json_member(pm, v)) by {
        lemma_opt_member_lacks(cap, opt_json_string(opt_view(animation.caption)), pm, v);
        lemma_opt_member_lacks("width"@, opt_json_int(animation.width), pm, v);
        lemma_opt_member_lacks("height"@, opt_json_int(animation.height), pm, v);
        lemma_opt_member_lacks("duration"@, opt_json_int(animation.duration), pm, v);
    }
    assert forall|v: Seq<char>| animation.caption is None implies !#[trigger] animation_members(animation).contains(json_member(cap, v)) by {
        lemma_opt_member_lacks(pm, opt_parse_mode_json(animation.parse_mode), cap, v);
        lemma_opt_member_lacks("width"@, opt_json_int(animation.width), cap, v);
        lemma_opt_member_lacks("height"@, opt_json_int(animation.height), cap, v);
        lemma_opt_member_lacks("duration"@, opt_json_int(animation.duration), cap, v);
    }
    if let Some(c) = audio.caption {
        lemma_opt_member_holds(cap, json_string(c@));
    }
    if let Some(p) = audio.parse_mode {
        lemma_opt_member_holds(pm, json_string(parse_mode_name(p)));
    }
    assert forall|v: Seq<char>| audio.parse_mode is None implies !#[trigger] audio_members(audio).contains(json_member(pm, v)) by {
        lemma_opt_member_lacks(cap, opt_json_string(opt_view(audio.caption)), pm, v);
        lemma_opt_member_lacks("duration"@, opt_json_int(audio.duration), pm, v);
        lemma_opt_member_lacks("performer"@, opt_json_string(opt_view(audio.performer)), pm, v);
        lemma_opt_member_lacks("title"@, opt_json_string(opt_view(audio.title)), pm, v);
    }
    assert forall|v: Seq<char>| audio.caption is None implies !#[trigger] audio_members(audio).contains(json_member(cap, v)) by {
        lemma_opt_member_lacks(pm, opt_parse_mode_json(audio.parse_mode), cap, v);
        lemma_opt_member_lacks("duration"@, opt_json_int(audio.duration), cap, v);
        lemma_opt_member_lacks("performer"@, opt_json_string(opt_view(audio.performer)), cap, v);
        lemma_opt_member_lacks("title"@, opt_json_string(opt_view(audio.title)), cap, v);
    }
    if let Some(c) = document.caption {
        lemma_opt_member_holds(cap, json_string(c@));
    }
    if let Some(p) = document.parse_mode {
        lemma_opt_member_holds(pm, json_string(parse_mode_name(p)));
    }
    assert forall|v: Seq<char>| document.parse_mode is None implies !#[trigger] document_members(document).contains(json_member(pm, v)) by {
        lemma_opt_member_lacks(cap, opt_json_string(opt_view(document.caption)), pm, v);
    }
    assert forall|v: Seq<char>| document.caption is None implies !#[trigger] document_members(document).contains(json_member(cap, v)) by {
        lemma_opt_member_lacks(pm, opt_parse_mode_json(document.parse_mode), cap, v);
    }
    if let Some(c) = photo.caption {
        lemma_opt_member_holds(cap, json_string(c@));
    }
    if let Some(p) = photo.parse_mode {
        lemma_opt_member_holds(pm, json_string(parse_mode_name(p)));
    }
    assert forall|v: Seq<char>| photo.parse_mode is None implies !#[trigger] photo_members(photo).contains(json_member(pm, v)) by {
        lemma_opt_member_lacks(cap, opt_json_string(opt_view(photo.caption)), pm, v);
    }
    assert forall|v: Seq<char>| photo.caption is None implies !#[trigger] photo_members(photo).contains(json_member(cap, v)) by {
        lemma_opt_member_lacks(pm, opt_parse_mode_json(photo.parse_mode), cap, v);
    }
    if let Some(c) = video.caption {
        lemma_opt_member_holds(cap, json_string(c@));
    }
    if let Some(p) = video.parse_mode {
        lemma_opt_member_holds(pm, json_string(parse_mode_name(p)));
    }
    assert forall|v: Seq<char>| video.parse_mode is None implies !#[trigger] video_members(video).contains(json_member(pm, v)) by {
        lemma_opt_member_lacks(cap, opt_json_string(opt_view(video.caption)), pm, v);
        lemma_opt_member_lacks("width"@, opt_json_int(video.width), pm, v);
        lemma_opt_member_lacks("height"@, opt_json_int(video.height), pm, v);
        lemma_opt_member_lacks("duration"@, opt_json_int(video.duration), pm, v);
        lemma_opt_member_lacks("supports_streaming"@, opt_json_bool(video.supports_streaming), pm, v);
    }
    assert forall|v: Seq<char>| video.caption is None implies !#[trigger] video_members(video).contains(json_member(cap, v)) by {
        lemma_opt_member_lacks(pm, opt_parse_mode_json(video.parse_mode), cap, v);
        lemma_opt_member_lacks("width"@, opt_json_int(video.width), cap, v);
        lemma_opt_member_lacks("height"@, opt_json_int(video.height), cap, v);
        lemma_opt_member_lacks("duration"@, opt_json_int(video.duration), cap, v);
        lemma_opt_member_lacks("supports_streaming"@, opt_json_bool(video.supports_streaming), cap, v);
    }
}

/// The members of some attributes show a value under a name: the member where the value
/// is set, and no member of that name where it is not.
pub open spec fn shows_member(members: Seq<Seq<char>>, name: Seq<char>, value: Option<Seq<char>>) -> bool {
    match value {
        Some(v) => members.contains(json_member(name, v)),
        None => forall|w: Seq<char>| !#[trigger] members.contains(json_member(name, w)),
    }
}

/// Every other attribute of an animation, an audio or a video stands in its JSON under its
/// Bot API name exactly when it is set: sizes and durations as numbers, performer and
/// title as strings, streaming support as a boolean.
pub proof fn lemma_attributes_show_set_values(
    animation: InputMediaAnimation,
    audio: InputMediaAudio,
    video: InputMediaVideo,
)
    ensures
        shows_member(animation_members(animation), "width"@, opt_json_int(animation.width)),
        shows_member(animation_members(animation), "height"@, opt_json_int(animation.height)),
        shows_member(animation_members(animation), "duration"@, opt_json_int(animation.duration)),
        shows_member(audio_members(audio), "duration"@, opt_json_int(audio.duration)),
        shows_member(audio_members(audio), "performer"@, opt_json_string(opt_view(audio.performer))),
        shows_member(audio_members(audio), "title"@, opt_json_string(opt_view(audio.title))),
        shows_member(video_members(video), "width"@, opt_json_int(video.width)),
        shows_member(video_members(video), "height"@, opt_json_int(video.height)),
        shows_member(video_members(video), "duration"@, opt_json_int(video.duration)),
        shows_member(video_members(video), "supports_streaming"@, opt_json_bool(video.supports_streaming)),
{
    broadcast use vstd::seq_lib::lemma_seq_concat_contains_all_elements;

    lemma_attribute_names_plain();
    if let Some(v) = opt_json_int(animation.width) {
        lemma_opt_member_holds("width"@, v);
    }
    assert forall|w: Seq<char>| opt_json_int(animation.width) is None implies !#[trigger] animation_members(animation).contains(json_member("width"@, w)) by {
        lemma_opt_member_lacks("caption"@, opt_json_string(opt_view(animation.caption)), "width"@, w);
        lemma_opt_member_lacks("parse_mode"@, opt_parse_mode_json(animation.parse_mode), "width"@, w);
        lemma_opt_member_lacks("height"@, opt_json_int(animation.height), "width"@, w);
        lemma_opt_member_lacks("duration"@, opt_json_int(animation.duration), "width"@, w);
    }
    if let Some(v) = opt_json_int(animation.height) {
        lemma_opt_member_holds("height"@, v);
    }
    assert forall|w: Seq<char>| opt_json_int(animation.height) is None implies !#[trigger] animation_members(animation).contains(json_member("height"@, w)) by {
        lemma_opt_member_lacks("caption"@, opt_json_string(opt_view(animation.caption)), "height"@, w);
        lemma_opt_member_lacks("parse_mode"@, opt_parse_mode_json(animation.parse_mode), "height"@, w);
        lemma_opt_member_lacks("width"@, opt_json_int(animation.width), "height"@, w);
        lemma_opt_member_lacks("duration"@, opt_json_int(animation.duration), "height"@, w);
    }
    if let Some(v) = opt_json_int(animation.duration) {
        lemma_opt_member_holds("duration"@, v);
    }
    assert forall|w: Seq<char>| opt_json_int(animation.duration) is None implies !#[trigger] animation_members(animation).contains(json_member("duration"@, w)) by {
        lemma_opt_member_lacks("caption"@, opt_json_string(opt_view(animation.caption)), "duration"@, w);
        lemma_opt_member_lacks("parse_mode"@, opt_parse_mode_json(animation.parse_mode), "duration"@, w);
        lemma_opt_member_lacks("width"@, opt_json_int(animation.width), "duration"@, w);
        lemma_opt_member_lacks("height"@, opt_json_int(animation.height), "duration"@, w);
    }
    if let Some(v) = opt_json_int(audio.duration) {
        lemma_opt_member_holds("duration"@, v);
    }
    assert forall|w: Seq<char>| opt_json_int(audio.duration) is None implies !#[trigger] audio_members(audio).contains(json_member("duration"@, w)) by {
        lemma_opt_member_lacks("caption"@, opt_json_string(opt_view(audio.caption)), "duration"@, w);
        lemma_opt_member_lacks("parse_mode"@, opt_parse_mode_json(audio.parse_mode), "duration"@, w);
        lemma_opt_member_lacks("performer"@, opt_json_string(opt_view(audio.performer)), "duration"@, w);
        lemma_opt_member_lacks("title"@, opt_json_string(opt_view(audio.title)), "duration"@, w);
    }
    if let Some(v) = opt_json_string(opt_view(audio.performer)) {
        lemma_opt_member_holds("performer"@, v);
    }
    assert forall|w: Seq<char>| opt_json_string(opt_view(audio.performer)) is None implies !#[trigger] audio_members(audio).contains(json_member("performer"@, w)) by {
        lemma_opt_member_lacks("caption"@, opt_json_string(opt_view(audio.caption)), "performer"@, w);
        lemma_opt_member_lacks("parse_mode"@, opt_parse_mode_json(audio.parse_mode), "performer"@, w);
        lemma_opt_member_lacks("duration"@, opt_json_int(audio.duration), "performer"@, w);
        lemma_opt_member_lacks("title"@, opt_json_string(opt_view(audio.title)), "performer"@, w);
    }
    if let Some(v) = opt_json_string(opt_view(audio.title)) {
        lemma_opt_member_holds("title"@, v);
    }
    assert forall|w: Seq<char>| opt_json_string(opt_view(audio.title)) is None implies !#[trigger] audio_members(audio).contains(json_member("title"@, w)) by {
        lemma_opt_member_lacks("caption"@, opt_json_string(opt_view(audio.caption)), "title"@, w);
        lemma_opt_member_lacks("parse_mode"@, opt_parse_mode_json(audio.parse_mode), "title"@, w);
        lemma_opt_member_lacks("duration"@, opt_json_int(audio.duration), "title"@, w);
        lemma_opt_member_lacks("performer"@, opt_json_string(opt_view(audio.performer)), "title"@, w);
    }
    if let Some(v) = opt_json_int(video.width) {
        lemma_opt_member_holds("width"@, v);
    }
    assert forall|w: Seq<char>| opt_json_int(video.width) is None implies !#[trigger] video_members(video).contains(json_member("width"@, w)) by {
        lemma_opt_member_lacks("caption"@, opt_json_string(opt_view(video.caption)), "width"@, w);
        lemma_opt_member_lacks("parse_mode"@, opt_parse_mode_json(video.parse_mode), "width"@, w);
        lemma_opt_member_lacks("height"@, opt_json_int(video.height), "width"@, w);
        lemma_opt_member_lacks("duration"@, opt_json_int(video.duration), "width"@, w);
        lemma_opt_member_lacks("supports_streaming"@, opt_json_bool(video.supports_streaming), "width"@, w);
    }
    if let Some(v) = opt_json_int(video.height) {
        lemma_opt_member_holds("height"@, v);
    }
    assert forall|w: Seq<char>| opt_json_int(video.height) is None implies !#[trigger] video_members(video).contains(json_member("height"@, w)) by {
        lemma_opt_member_lacks("caption"@, opt_json_string(opt_view(video.caption)), "height"@, w);
        lemma_opt_member_lacks("parse_mode"@, opt_parse_mode_json(video.parse_mode), "height"@, w);
        lemma_opt_member_lacks("width"@, opt_json_int(video.width), "height"@, w);
        lemma_opt_member_lacks("duration"@, opt_json_int(video.duration), "height"@, w);
        lemma_opt_member_lacks("supports_streaming"@, opt_json_bool(video.supports_streaming), "height"@, w);
    }
    if let Some(v) = opt_json_int(video.duration) {
        lemma_opt_member_holds("duration"@, v);
    }
    assert forall|w: Seq<char>| opt_json_int(video.duration) is None implies !#[trigger] video_members(video).contains(json_member("duration"@, w)) by {
        lemma_opt_member_lacks("caption"@, opt_json_string(opt_view(video.caption)), "duration"@, w);
        lemma_opt_member_lacks("parse_mode"@, opt_parse_mode_json(video.parse_mode), "duration"@, w);
        lemma_opt_member_lacks("width"@, opt_json_int(video.width), "duration"@, w);
        lemma_opt_member_lacks("height"@, opt_json_int(video.height), "duration"@, w);
        lemma_opt_member_lacks("supports_streaming"@, opt_json_bool(video.supports_streaming), "duration"@, w);
    }
    if let Some(v) = opt_json_bool(video.supports_streaming) {
        lemma_opt_member_holds("supports_streaming"@, v);
    }
    assert forall|w: Seq<char>| opt_json_bool(video.supports_streaming) is None implies !#[trigger] video_members(video).contains(json_member("supports_streaming"@, w)) by {
        lemma_opt_member_lacks("caption"@, opt_json_string(opt_view(video.caption)), "supports_streaming"@, w);
        lemma_opt_member_lacks("parse_mode"@, opt_parse_mode_json(video.parse_mode), "supports_streaming"@, w);
        lemma_opt_member_lacks("width"@, opt_json_int(video.width), "supports_streaming"@, w);
        lemma_opt_member_lacks("height"@, opt_json_int(video.height), "supports_streaming"@, w);
        lemma_opt_member_lacks("duration"@, opt_json_int(video.duration), "supports_streaming"@, w);
    }
}

impl InputMediaAnimation {
    /// Appends the attributes that are set
    pub fn write_json(&self, w: &mut JsonWriter)
        ensures
            final(w).is_object() == old(w).is_object(),
            final(w).parts() == old(w).parts() + animation_members(*self),
    {
        w.opt_string("caption", &self.caption);
        write_parse_mode(w, self.parse_mode);
        w.opt_int("width", self.width);
        w.opt_int("height", self.height);
        w.opt_int("duration", self.duration);
        assert(w.parts() =~= old(w).parts() + animation_members(*self));
    }

    /// The attributes as a JSON object
    pub fn to_json(&self) -> (r: String)
        ensures
            r@ == json_object(animation_members(*self)),
    {
        let mut w = JsonWriter::object();
        self.write_json(&mut w);
        assert(w.parts() =~= animation_members(*self));
        w.finish()
    }
}

impl InputMediaAudio {
    /// Appends the attributes that are set
    pub fn write_json(&self, w: &mut JsonWriter)
        ensures
            final(w).is_object() == old(w).is_object(),
            final(w).parts() == old(w).parts() + audio_members(*self),
    {
        w.opt_string("caption", &self.caption);
        write_parse_mode(w, self.parse_mode);
        w.opt_int("duration", self.duration);
        w.opt_string("performer", &self.performer);
        w.opt_string("title", &self.title);
        assert(w.parts() =~= old(w).parts() + audio_members(*self));
    }

    /// The attributes as a JSON object
    pub fn to_json(&self) -> (r: String)
        ensures
            r@ == json_object(audio_members(*self)),
    {
        let mut w = JsonWriter::object();
        self.write_json(&mut w);
        assert(w.parts() =~= audio_members(*self));
        w.finish()
    }
}

impl InputMediaDocument {
    /// Appends the attributes that are set
    pub fn write_json(&self, w: &mut JsonWriter)
        ensures
            final(w).is_object() == old(w).is_object(),
            final(w).parts() == old(w).parts() + document_members(*self),
    {
        w.opt_string("caption", &self.caption);
        write_parse_mode(w, self.parse_mode);
        assert(w.parts() =~= old(w).parts() + document_members(*self));
    }

    /// The attributes as a JSON object
    pub fn to_json(&self) -> (r: String)
        ensures
            r@ == json_object(document_members(*self)),
    {
        let mut w = JsonWriter::object();
        self.write_json(&mut w);
        assert(w.parts() =~= document_members(*self));
        w.finish()
    }
}

impl InputMediaPhoto {
    /// Appends the attributes that are set
    pub fn write_json(&self, w: &mut JsonWriter)
        ensures
            final(w).is_object() == old(w).is_object(),
            final(w).parts() == old(w).parts() + photo_members(*self),
    {
        w.opt_string("caption", &self.caption);
        write_parse_mode(w, self.parse_mode);
        assert(w.parts() =~= old(w).parts() + photo_members(*self));
    }

    /// The attributes as a JSON object
    pub fn to_json(&self) -> (r: String)
        ensures
            r@ == json_object(photo_members(*self)),
    {
        let mut w = JsonWriter::object();
        self.write_json(&mut w);
        assert(w.parts() =~= photo_members(*self));
        w.finish()
    }
}

impl InputMediaVideo {
    /// Appends the attributes that are set
    pub fn write_json(&self, w: &mut JsonWriter)
        ensures
            final(w).is_object() == old(w).is_object(),
            final(w).parts() == old(w).parts() + video_members(*self),
    {
        w.opt_string("caption", &self.caption);
        write_parse_mode(w, self.parse_mode);
        w.opt_int("width", self.width);
        w.opt_int("height", self.height);
        w.opt_int("duration", self.duration);
        w.opt_bool("supports_streaming", self.supports_streaming);
        assert(w.parts() =~= old(w).parts() + video_members(*self));
    }

    /// The attributes as a JSON object
    pub fn to_json(&self) -> (r: String)
        ensures
            r@ == json_object(video_members(*self)),
    {
        let mut w = JsonWriter::object();
        self.write_json(&mut w);
        assert(w.parts() =~= video_members(*self));
        w.finish()
    }
}

/// The first members of a described file: its type, the file and, where there is one,
/// the thumbnail.
pub open spec fn media_head(kind: Seq<char>, media: String, thumb: Option<String>) -> Seq<Seq<char>> {
    seq![json_member("type"@, json_string(kind)), json_member("media"@, json_string(media@))] + json_opt_member(
        "thumb"@,
        opt_json_string(opt_view(thumb)),
    )
}

/// A described file as JSON: its type, the file, the thumbnail where there is one,
/// then its attributes.
pub open spec fn media_kind_json(kind: InputMediaKind) -> Seq<char> {
    match kind {
        InputMediaKind::Animation { media, thumb, info } => json_object(
            media_head("animation"@, media, thumb) + animation_members(info),
        ),
        InputMediaKind::Audio { media, thumb, info } => json_object(
            media_head("audio"@, media, thumb) + audio_members(info),
        ),
        InputMediaKind::Document { media, thumb, info } => json_object(
            media_head("document"@, media, thumb) + document_members(info),
        ),
        InputMediaKind::Photo { media, info } => json_object(
            media_head("photo"@, media, None) + photo_members(info),
        ),
        InputMediaKind::Video { media, thumb, info } => json_object(
            media_head("video"@, media, thumb) + video_members(info),
        ),
    }
}

/// Starts the object of a described file.
pub(crate) fn write_media_head(kind: &str, media: &String, thumb: &Option<String>) -> (w: JsonWriter)
    ensures
        w.is_object(),
        w.parts() == media_head(kind@, *media, *thumb),
{
    let mut w = JsonWriter::object();
    w.member_string("type", kind);
    w.member_string("media", media.as_str());
    w.opt_string("thumb", thumb);
    assert(w.parts() =~= media_head(kind@, *media, *thumb));
    w
}

impl InputMediaKind {
    /// The described file as a JSON object
    pub fn to_json(&self) -> (r: String)
        ensures
            r@ == media_kind_json(*self),
    {
        match self {
            InputMediaKind::Animation { media, thumb, info } => {
                let mut w = write_media_head("animation", media, thumb);
                info.write_json(&mut w);
                w.finish()
            },
            InputMediaKind::Audio { media, thumb, info } => {
                let mut w = write_media_head("audio", media, thumb);
                info.write_json(&mut w);
                w.finish()
            },
            InputMediaKind::Document { media, thumb, info } => {
                let mut w = write_media_head("document", media, thumb);
                info.write_json(&mut w);
                w.finish()
            },
            InputMediaKind::Photo { media, info } => {
                let mut w = write_media_head("photo", media, &None);
                info.write_json(&mut w);
                w.finish()
            },
            InputMediaKind::Video { media, thumb, info } => {
                let mut w = write_media_head("video", media, thumb);
                info.write_json(&mut w);
                w.finish()
            },
        }
    }
}

/// The fields of a request that sends files: each uploaded file under its key, in order,
/// then the description under `media`, as JSON text.
pub open spec fn media_form_fields<R>(
    uploads: Seq<(Seq<char>, InputFile<R>)>,
    media: Seq<char>,
    fields: Seq<(String, FormValue<R>)>,
) -> bool {
    &&& fields.len() == uploads.len() + 1
    &&& forall|i: int|
        0 <= i < uploads.len() ==> #[trigger] fields[i].0@ == uploads[i].0 && fields[i].1 == FormValue::File(
            uploads[i].1,
        )
    &&& fields[uploads.len() as int].0@ == "media"@
    &&& fields[uploads.len() as int].1 matches FormValue::Text(t) && t@ == media
}

/// Builds the fields of a request that sends files.
pub(crate) fn media_form<R>(files: Vec<(String, InputFile<R>)>, media: String) -> (r: Vec<(String, FormValue<R>)>)
    ensures
        media_form_fields(uploads_view(files@), media@, r@),
{
    let mut files = files;
    let ghost all = files@;
    let mut fields: Vec<(String, FormValue<R>)> = Vec::new();
    let mut rest: Vec<(String, InputFile<R>)> = Vec::new();
    // move the files out in order
    while files.len() > 0
        invariant
            files@ + rest@.reverse() == all,
        decreases files.len(),
    {
        let last = files.pop().unwrap();
        rest.push(last);
        assert(files@ + rest@.reverse() =~= all);
    }
    while rest.len() > 0
        invariant
            fields@.len() + rest@.len() == all.len(),
            forall|i: int|
                0 <= i < fields@.len() ==> #[trigger] fields@[i].0@ == all[i].0@ && fields@[i].1 == FormValue::File(all[i].1),
            forall|i: int| 0 <= i < rest@.len() ==> #[trigger] rest@[i] == all[all.len() - 1 - i],
        decreases rest.len(),
    {
        let (key, file) = rest.pop().unwrap();
        fields.push((key, FormValue::File(file)));
    }
    fields.push(("media".to_owned(), FormValue::Text(media)));
    fields
}

impl<R> InputMedia<R> {
    /// The fields of the request: each uploaded file under its key, then the
    /// description under `media`, as JSON text
    pub fn into_form(self) -> (r: Vec<(String, FormValue<R>)>)
        ensures
            media_form_fields(uploads_view(self.files@), media_kind_json(self.media), r@),
    {
        let media = self.media.to_json();
        media_form(self.files, media)
    }
}

} // verus!
