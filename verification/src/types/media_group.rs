use vstd::prelude::*;
use crate::encoding::{decimal, push_decimal_unsigned, push_str};
use crate::types::{
    file::InputFile,
    input_media::{
        attach_file, media_form, media_form_fields, media_head, media_reference, photo_members, uploads_view,
        video_members, with_upload, write_media_head, InputMediaPhoto, InputMediaVideo,
    },
};
use crate::json::{json_array, json_object};
use crate::request::FormValue;

verus! {

/// The least number of attachments in a media group
pub const MIN_GROUP_ATTACHMENTS: usize = 2;

/// The greatest number of attachments in a media group
pub const MAX_GROUP_ATTACHMENTS: usize = 10;

/// Group of photos and/or videos to be sent
///
/// The uploaded files are a vector, each under the key of its position
/// (`keys_are_positions`), so keys are distinct as in a map from key to file. A `HashMap`
/// keyed by `String` is not used: for such a key vstd lets nothing about the map's
/// contents be proved, so the contracts on the uploads could not be.
#[derive(Debug)]
pub struct MediaGroup<R> {
    files: Vec<(String, InputFile<R>)>,
    items: Vec<MediaGroupItem>,
}

/// An item of a media group: a photo or a video, the file it refers to and its attributes
#[derive(Clone, Debug)]
pub enum MediaGroupItem {
    /// Photo
    Photo {
        /// The file: an identifier, a URL or an `attach://` reference
        media: String,
        /// Attributes
        info: InputMediaPhoto,
    },
    /// Video
    Video {
        /// The file: an identifier, a URL or an `attach://` reference
        media: String,
        /// The thumbnail: an identifier, a URL or an `attach://` reference
        thumb: Option<String>,
        /// Attributes
        info: InputMediaVideo,
    },
}

impl From<(String, InputMediaPhoto)> for MediaGroupItem {
    fn from(value: (String, InputMediaPhoto)) -> Self {
        let (media, info) = value;
        MediaGroupItem::Photo { media, info }
    }
}

impl vstd::std_specs::convert::FromSpecImpl<(String, InputMediaPhoto)> for MediaGroupItem {
    open spec fn obeys_from_spec() -> bool {
        true
    }

    open spec fn from_spec(value: (String, InputMediaPhoto)) -> MediaGroupItem {
        MediaGroupItem::Photo { media: value.0, info: value.1 }
    }
}

impl From<(String, InputMediaVideo)> for MediaGroupItem {
    fn from(value: (String, InputMediaVideo)) -> Self {
        let (media, info) = value;
        MediaGroupItem::Video { media, info, thumb: None }
    }
}

impl vstd::std_specs::convert::FromSpecImpl<(String, InputMediaVideo)> for MediaGroupItem {
    open spec fn obeys_from_spec() -> bool {
        true
    }

    open spec fn from_spec(value: (String, InputMediaVideo)) -> MediaGroupItem {
        MediaGroupItem::Video { media: value.0, info: value.1, thumb: None }
    }
}

impl From<(String, String, InputMediaVideo)> for MediaGroupItem {
    fn from(value: (String, String, InputMediaVideo)) -> Self {
        let (media, thumb, info) = value;
        MediaGroupItem::Video { media, info, thumb: Some(thumb) }
    }
}

impl vstd::std_specs::convert::FromSpecImpl<(String, String, InputMediaVideo)> for MediaGroupItem {
    open spec fn obeys_from_spec() -> bool {
        true
    }

    open spec fn from_spec(value: (String, String, InputMediaVideo)) -> MediaGroupItem {
        MediaGroupItem::Video { media: value.0, info: value.2, thumb: Some(value.1) }
    }
}

/// Attributes of a kind of media that a media group holds
pub trait MediaGroupInfo: Sized {
    /// The item for a file of this kind given by `media`.
    spec fn group_item(self, media: String) -> MediaGroupItem;

    /// Makes the item for a file of this kind given by `media`
    fn into_group_item(self, media: String) -> (r: MediaGroupItem)
        ensures
            r == self.group_item(media),
    ;
}

impl MediaGroupInfo for InputMediaPhoto {
    open spec fn group_item(self, media: String) -> MediaGroupItem {
        MediaGroupItem::Photo { media, info: self }
    }

    fn into_group_item(self, media: String) -> (r: MediaGroupItem) {
        MediaGroupItem::Photo { media, info: self }
    }
}

impl MediaGroupInfo for InputMediaVideo {
    open spec fn group_item(self, media: String) -> MediaGroupItem {
        MediaGroupItem::Video { media, thumb: None, info: self }
    }

    fn into_group_item(self, media: String) -> (r: MediaGroupItem) {
        MediaGroupItem::Video { media, thumb: None, info: self }
    }
}

/// The key under which the `i`-th uploaded file of a media group is uploaded.
pub open spec fn group_file_key(i: int) -> Seq<char> {
    "tgbot_im_file_"@ + decimal(i)
}

/// Every upload is under the key of its position.
pub open spec fn positional_keys<R>(uploads: Seq<(Seq<char>, InputFile<R>)>) -> bool {
    forall|i: int| 0 <= i < uploads.len() ==> #[trigger] uploads[i].0 == group_file_key(i)
}

/// Refers to a file of a media group, uploading it under the key of its position where it
/// is uploaded.
fn add_group_file<R>(files: &mut Vec<(String, InputFile<R>)>, file: InputFile<R>) -> (r: String)
    requires
        positional_keys(uploads_view(old(files)@)),
    ensures
        r@ == media_reference(file, group_file_key(old(files)@.len() as int)),
        uploads_view(final(files)@) == with_upload(
            uploads_view(old(files)@),
            group_file_key(old(files)@.len() as int),
            file,
        ),
        positional_keys(uploads_view(final(files)@)),
{
    let idx = files.len();
    let mut key = String::new();
    push_str(&mut key, "tgbot_im_file_");
    push_decimal_unsigned(&mut key, idx as u64);
    proof {
        assert(key@ =~= group_file_key(idx as int));
    }
    let ghost old_uploads = uploads_view(files@);
    let r = attach_file(files, key, file);
    proof {
        let now = uploads_view(files@);
        if is_upload_file(file) {
            assert(now[idx as int].0 == group_file_key(idx as int));
        }
        assert forall|i: int| 0 <= i < now.len() implies #[trigger] now[i].0 == group_file_key(i) by {
            if i < old_uploads.len() {
                assert(now[i] == old_uploads[i]);
            }
        }
    }
    r
}

/// An error with the number of attachments of a media group
#[derive(Debug, PartialEq, Eq, Structural)]
pub enum MediaGroupError {
    /// Media group contains not enough files
    NotEnoughAttachments(usize),
    /// Media group contains too many files
    TooManyAttachments(usize),
}

/// The message of a media group error.
pub open spec fn media_group_error_message(e: MediaGroupError) -> Seq<char> {
    match e {
        MediaGroupError::NotEnoughAttachments(n) => "Media group must contain at least "@ + decimal(n as int)
            + " attachments"@,
        MediaGroupError::TooManyAttachments(n) => "Media group must contain no more than "@ + decimal(
            n as int,
        ) + " attachments"@,
    }
}

impl MediaGroupError {
    /// Returns a human-readable description of the error
    pub fn to_string(&self) -> (r: String)
        ensures
            r@ == media_group_error_message(*self),
    {
        let mut r = String::new();
        match self {
            MediaGroupError::NotEnoughAttachments(n) => {
                push_str(&mut r, "Media group must contain at least ");
                push_decimal_unsigned(&mut r, *n as u64);
                push_str(&mut r, " attachments");
            },
            MediaGroupError::TooManyAttachments(n) => {
                push_str(&mut r, "Media group must contain no more than ");
                push_decimal_unsigned(&mut r, *n as u64);
                push_str(&mut r, " attachments");
            },
        }
        assert(r@ =~= media_group_error_message(*self));
        r
    }
}

impl<R> MediaGroup<R> {
    /// Files uploaded with the group, each under its key, in the order they were added.
    pub closed spec fn uploads(&self) -> Seq<(Seq<char>, InputFile<R>)> {
        uploads_view(self.files@)
    }

    /// Items of the group, in the order they were added.
    pub closed spec fn items(&self) -> Seq<MediaGroupItem> {
        self.items@
    }

    /// Every uploaded file is under the key of its position: "tgbot_im_file_" and the position.
    pub open spec fn keys_are_positions(&self) -> bool {
        positional_keys(self.uploads())
    }

    /// Every uploaded file is under the key of its position.
    #[verifier::type_invariant]
    closed spec fn keys_ok(&self) -> bool {
        positional_keys(uploads_view(self.files@))
    }

    /// Creates an empty group
    pub fn new() -> (r: Self)
        ensures
            r.uploads() == Seq::<(Seq<char>, InputFile<R>)>::empty(),
            r.items() == Seq::<MediaGroupItem>::empty(),
            r.keys_are_positions(),
    {
        let r = MediaGroup { files: Vec::new(), items: Vec::new() };
        assert(r.uploads() =~= Seq::<(Seq<char>, InputFile<R>)>::empty());
        r
    }

    /// Adds a photo or video to group
    ///
    /// A file given by identifier or URL is referred to as it is; any other file is uploaded
    /// under the key "tgbot_im_file_" and the number of files uploaded before it
    pub fn add_item<I: MediaGroupInfo>(self, file: InputFile<R>, info: I) -> (r: Self)
        ensures
            r.keys_are_positions(),
            r.uploads() == with_upload(self.uploads(), group_file_key(self.uploads().len() as int), file),
            exists|media: String|
                media@ == media_reference(file, group_file_key(self.uploads().len() as int)) && r.items()
                    == self.items().push(info.group_item(media)),
    {
        proof {
            use_type_invariant(&self);
        }
        let MediaGroup { mut files, mut items } = self;
        let media = add_group_file(&mut files, file);
        let item = info.into_group_item(media);
        items.push(item);
        MediaGroup { files, items }
    }

    /// Adds a video with thumbnail
    ///
    /// The file is added first, then the thumbnail, each as `add_item` adds a file
    pub fn add_item_with_thumb(self, file: InputFile<R>, thumb: InputFile<R>, info: InputMediaVideo) -> (r: Self)
        ensures
            r.keys_are_positions(),
            ({
                let n = self.uploads().len() as int;
                let after_file = with_upload(self.uploads(), group_file_key(n), file);
                &&& r.uploads() == with_upload(after_file, group_file_key(after_file.len() as int), thumb)
                &&& exists|media: String, thumb_media: String|
                    media@ == media_reference(file, group_file_key(n)) && thumb_media@ == media_reference(
                        thumb,
                        group_file_key(after_file.len() as int),
                    ) && r.items() == self.items().push(
                        MediaGroupItem::Video { media, thumb: Some(thumb_media), info },
                    )
            }),
    {
        proof {
            use_type_invariant(&self);
        }
        let MediaGroup { mut files, mut items } = self;
        let ghost n = files@.len();
        let media = add_group_file(&mut files, file);
        assert(uploads_view(files@).len() == files@.len());
        let ghost after_file = uploads_view(files@);
        let thumb_media = add_group_file(&mut files, thumb);
        assert(uploads_view(self.files@).len() == n);
        let ghost gm = media;
        let ghost gt = thumb_media;
        items.push(MediaGroupItem::Video { media, thumb: Some(thumb_media), info });
        let r = MediaGroup { files, items };
        assert(gm@ == media_reference(file, group_file_key(n as int)) && gt@ == media_reference(
            thumb,
            group_file_key(after_file.len() as int),
        ) && r.items() == self.items().push(MediaGroupItem::Video { media: gm, thumb: Some(gt), info }));
        r
    }

    /// Checks the number of attachments and gives the fields of the request: each uploaded
    /// file under its key, then the items under `media`, as a JSON array
    pub fn into_form(self) -> (r: Result<Vec<(String, FormValue<R>)>, MediaGroupError>)
        ensures
            match r {
                Ok(fields) => MIN_GROUP_ATTACHMENTS <= self.items().len() <= MAX_GROUP_ATTACHMENTS
                    && media_form_fields(self.uploads(), media_group_json(self.items()), fields@),
                Err(e) => (self.items().len() < MIN_GROUP_ATTACHMENTS && e
                    == MediaGroupError::NotEnoughAttachments(MIN_GROUP_ATTACHMENTS)) || (
                self.items().len() > MAX_GROUP_ATTACHMENTS && e == MediaGroupError::TooManyAttachments(
                    MAX_GROUP_ATTACHMENTS,
                )),
            },
    {
        let total_files = self.items.len();
        if total_files < MIN_GROUP_ATTACHMENTS {
            return Err(MediaGroupError::NotEnoughAttachments(MIN_GROUP_ATTACHMENTS));
        }
        if total_files > MAX_GROUP_ATTACHMENTS {
            return Err(MediaGroupError::TooManyAttachments(MAX_GROUP_ATTACHMENTS));
        }
        let media = items_to_json(&self.items);
        Ok(media_form(self.files, media))
    }
}

/// An item of a media group as JSON: its type, the file, the thumbnail where there is one,
/// then its attributes.
pub open spec fn group_item_json(item: MediaGroupItem) -> Seq<char> {
    match item {
        MediaGroupItem::Photo { media, info } => json_object(media_head("photo"@, media, None) + photo_members(info)),
        MediaGroupItem::Video { media, thumb, info } => json_object(
            media_head("video"@, media, thumb) + video_members(info),
        ),
    }
}

/// The items of a media group as a JSON array.
pub open spec fn media_group_json(items: Seq<MediaGroupItem>) -> Seq<char> {
    json_array(items.map_values(|i: MediaGroupItem| group_item_json(i)))
}

impl MediaGroupItem {
    /// The item as a JSON object
    pub fn to_json(&self) -> (r: String)
        ensures
            r@ == group_item_json(*self),
    {
        match self {
            MediaGroupItem::Photo { media, info } => {
                let mut w = write_media_head("photo", media, &None);
                info.write_json(&mut w);
                w.finish()
            },
            MediaGroupItem::Video { media, thumb, info } => {
                let mut w = write_media_head("video", media, thumb);
                info.write_json(&mut w);
                w.finish()
            },
        }
    }
}

fn items_to_json(items: &Vec<MediaGroupItem>) -> (r: String)
    ensures
        r@ == media_group_json(items@),
{
    let mut w = crate::json::JsonWriter::array();
    let mut i: usize = 0;
    while i < items.len()
        invariant
            i <= items.len(),
            !w.is_object(),
            w.parts() == items@.take(i as int).map_values(|it: MediaGroupItem| group_item_json(it)),
        decreases items.len() - i,
    {
        let j = items[i].to_json();
        w.push_raw(j.as_str());
        assert(items@.take(i + 1) =~= items@.take(i as int).push(items@[i as int]));
        i = i + 1;
        assert(w.parts() =~= items@.take(i as int).map_values(|it: MediaGroupItem| group_item_json(it)));
    }
    assert(items@.take(i as int) =~= items@);
    w.finish()
}

/// Whether a file is uploaded.
pub open spec fn is_upload_file<R>(file: InputFile<R>) -> bool {
    crate::types::file::is_upload(file)
}

impl<R> Default for MediaGroup<R> {
    fn default() -> (r: Self)
        ensures
            r.uploads() == Seq::<(Seq<char>, InputFile<R>)>::empty(),
            r.items() == Seq::<MediaGroupItem>::empty(),
    {
        MediaGroup::new()
    }
}

} // verus!
