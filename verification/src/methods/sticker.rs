use vstd::prelude::*;
use crate::encoding::decimal;
use crate::json::{json_int, json_member, json_object, json_string, JsonWriter};
use crate::request::{
    bool_text, set_field, FieldView, Form, FormValue, Request, RequestBody, RequestMethod,
};
use crate::types::{
    chat::{chat_id_text, ChatId},
    file::InputFile,
    primitive::Integer,
    reply_markup::{markup::reply_markup_json, ReplyMarkup, ReplyMarkupError},
    stickers::MaskPosition,
};

verus! {

/// An empty list of form fields.
pub open spec fn no_fields<R>() -> Seq<(Seq<char>, FieldView<R>)> {
    Seq::empty()
}

/// A POST request with a multipart form.
pub open spec fn is_form_request<R>(r: Request<R>, path: Seq<char>, fields: Seq<(Seq<char>, FieldView<R>)>) -> bool {
    &&& r.spec_path() == path
    &&& r.spec_method() == RequestMethod::Post
    &&& r.spec_body() matches RequestBody::Form(f) && f.fields() == fields
}

/// A POST request with a JSON object.
pub open spec fn is_json_request<R>(r: Request<R>, path: Seq<char>, body: Seq<char>) -> bool {
    &&& r.spec_path() == path
    &&& r.spec_method() == RequestMethod::Post
    &&& r.spec_body() matches RequestBody::Json(t) && t@ == body
}

/// Delete a sticker from a set created by the bot
#[derive(Clone, Debug)]
pub struct DeleteStickerFromSet {
    sticker: String,
}

impl View for DeleteStickerFromSet {
    /// The file identifier of the sticker
    type V = Seq<char>;

    closed spec fn view(&self) -> Seq<char> {
        self.sticker@
    }
}

impl DeleteStickerFromSet {
    /// Creates a new DeleteStickerFromSet
    ///
    /// # Arguments
    ///
    /// * sticker - File identifier of the sticker
    pub fn new(sticker: &str) -> (r: Self)
        ensures
            r@ == sticker@,
    {
        DeleteStickerFromSet { sticker: sticker.to_owned() }
    }
}

impl DeleteStickerFromSet {
    /// Builds the request that calls the method; it is answered with `bool`
    pub fn into_request<R>(self) -> (r: Request<R>)
        ensures
            is_json_request(r, "deleteStickerFromSet"@, json_object(seq![json_member("sticker"@, json_string(self@))])),
    {
        let mut w = JsonWriter::object();
        w.member_string("sticker", self.sticker.as_str());
        assert(w.parts() =~= seq![json_member("sticker"@, json_string(self@))]);
        Request::json("deleteStickerFromSet", w.finish())
    }
}

/// Get a sticker set
#[derive(Clone, Debug)]
pub struct GetStickerSet {
    name: String,
}

impl View for GetStickerSet {
    /// The name of the sticker set
    type V = Seq<char>;

    closed spec fn view(&self) -> Seq<char> {
        self.name@
    }
}

impl GetStickerSet {
    /// Creates a new GetStickerSet
    ///
    /// # Arguments
    ///
    /// * name - Name of the sticker set
    pub fn new(name: &str) -> (r: Self)
        ensures
            r@ == name@,
    {
        GetStickerSet { name: name.to_owned() }
    }
}

impl GetStickerSet {
    /// Builds the request that calls the method; it is answered with `StickerSet`
    pub fn into_request<R>(self) -> (r: Request<R>)
        ensures
            is_json_request(r, "getStickerSet"@, json_object(seq![json_member("name"@, json_string(self@))])),
    {
        let mut w = JsonWriter::object();
        w.member_string("name", self.name.as_str());
        assert(w.parts() =~= seq![json_member("name"@, json_string(self@))]);
        Request::json("getStickerSet", w.finish())
    }
}

/// Move a sticker in a set created by the bot to a specific position
#[derive(Clone, Debug)]
pub struct SetStickerPositionInSet {
    sticker: String,
    position: Integer,
}

impl View for SetStickerPositionInSet {
    /// The file identifier of the sticker and its new position
    type V = (Seq<char>, Integer);

    closed spec fn view(&self) -> (Seq<char>, Integer) {
        (self.sticker@, self.position)
    }
}

/// The members of a request that moves a sticker: the sticker, then the position.
pub open spec fn sticker_position_members(v: (Seq<char>, Integer)) -> Seq<Seq<char>> {
    seq![json_member("sticker"@, json_string(v.0)), json_member("position"@, json_int(v.1 as int))]
}

impl SetStickerPositionInSet {
    /// Creates a new SetStickerPositionInSet
    ///
    /// # Arguments
    ///
    /// * sticker - File identifier of the sticker
    /// * position - New sticker position in the set, zero-based
    pub fn new(sticker: &str, position: Integer) -> (r: Self)
        ensures
            r@ == (sticker@, position),
    {
        SetStickerPositionInSet { sticker: sticker.to_owned(), position }
    }
}

impl SetStickerPositionInSet {
    /// Builds the request that calls the method; it is answered with `bool`
    pub fn into_request<R>(self) -> (r: Request<R>)
        ensures
            is_json_request(r, "setStickerPositionInSet"@, json_object(sticker_position_members(self@))),
    {
        let mut w = JsonWriter::object();
        w.member_string("sticker", self.sticker.as_str());
        w.member_int("position", self.position);
        assert(w.parts() =~= sticker_position_members(self@));
        Request::json("setStickerPositionInSet", w.finish())
    }
}

/// Upload a .png file with a sticker for later use in createNewStickerSet and addStickerToSet methods
#[derive(Debug)]
pub struct UploadStickerFile<R> {
    form: Form<R>,
}

/// The fields of a sticker file upload.
pub open spec fn upload_sticker_fields<R>(user_id: Integer, png_sticker: InputFile<R>) -> Seq<
    (Seq<char>, FieldView<R>),
> {
    set_field(
        set_field(no_fields(), "user_id"@, FieldView::Text(decimal(user_id as int))),
        "png_sticker"@,
        FieldView::File(png_sticker),
    )
}

impl<R> UploadStickerFile<R> {
    /// The fields of the form.
    pub closed spec fn fields(&self) -> Seq<(Seq<char>, FieldView<R>)> {
        self.form.fields()
    }

    /// Creates a new UploadStickerFile
    ///
    /// # Arguments
    ///
    /// * user_id - User identifier of sticker file owner
    /// * png_sticker - Png image with the sticker, must be up to 512 kilobytes in size,
    ///                 dimensions must not exceed 512px, and either width or height must be exactly 512px
    pub fn new(user_id: Integer, png_sticker: InputFile<R>) -> (r: Self)
        ensures
            r.fields() == upload_sticker_fields(user_id, png_sticker),
    {
        let mut form = Form::new();
        form.insert_field("user_id", FormValue::from(user_id));
        form.insert_field("png_sticker", FormValue::from(png_sticker));
        UploadStickerFile { form }
    }
}

impl<R> UploadStickerFile<R> {
    /// Builds the request that calls the method; it is answered with `File`
    pub fn into_request(self) -> (r: Request<R>)
        ensures
            is_form_request(r, "uploadStickerFile"@, self.fields()),
    {
        Request::form("uploadStickerFile", self.form)
    }
}

/// Send .webp sticker
#[derive(Debug)]
pub struct SendSticker<R> {
    form: Form<R>,
}

/// The fields of a sticker message before any option is set.
pub open spec fn send_sticker_fields<R>(chat_id: ChatId, sticker: InputFile<R>) -> Seq<(Seq<char>, FieldView<R>)> {
    set_field(
        set_field(no_fields(), "chat_id"@, FieldView::Text(chat_id_text(chat_id))),
        "sticker"@,
        FieldView::File(sticker),
    )
}

impl<R> SendSticker<R> {
    /// The fields of the form.
    pub closed spec fn fields(&self) -> Seq<(Seq<char>, FieldView<R>)> {
        self.form.fields()
    }

    /// Creates a new SendSticker with empty optional parameters
    ///
    /// # Arguments
    ///
    /// * chat_id - Unique identifier for the target chat
    /// * sticker - Sticker to send
    ///             Pass a file_id as String to send a file that exists on the Telegram servers (recommended),
    ///             pass an HTTP URL as a String for Telegram to get a .webp file from the Internet,
    ///             or upload a new one using multipart/form-data
    pub fn new(chat_id: ChatId, sticker: InputFile<R>) -> (r: Self)
        ensures
            r.fields() == send_sticker_fields(chat_id, sticker),
    {
        let mut form = Form::new();
        let id = chat_id.to_string();
        form.insert_field("chat_id", FormValue::Text(id));
        form.insert_field("sticker", FormValue::from(sticker));
        SendSticker { form }
    }

    /// Sends the message silently
    ///
    /// Users will receive a notification with no sound
    pub fn disable_notification(self, value: bool) -> (r: Self)
        ensures
            r.fields() == set_field(self.fields(), "disable_notification"@, FieldView::<R>::Text(bool_text(value))),
    {
        let mut form = self.form;
        form.insert_field("disable_notification", FormValue::from(value));
        SendSticker { form }
    }

    /// If the message is a reply, ID of the original message
    pub fn reply_to_message_id(self, value: Integer) -> (r: Self)
        ensures
            r.fields() == set_field(
                self.fields(),
                "reply_to_message_id"@,
                FieldView::<R>::Text(decimal(value as int)),
            ),
    {
        let mut form = self.form;
        form.insert_field("reply_to_message_id", FormValue::from(value));
        SendSticker { form }
    }

    /// Additional interface options
    pub fn reply_markup(self, value: ReplyMarkup) -> (r: Result<Self, ReplyMarkupError>)
        ensures
            r matches Ok(s) && s.fields() == set_field(
                self.fields(),
                "reply_markup"@,
                FieldView::<R>::Text(reply_markup_json(value)),
            ),
    {
        let text = match value.serialize() {
            Ok(t) => t,
            Err(e) => {
                return Err(e);
            },
        };
        let mut form = self.form;
        form.insert_field("reply_markup", FormValue::Text(text));
        Ok(SendSticker { form })
    }
}

impl<R> SendSticker<R> {
    /// Builds the request that calls the method; it is answered with `Message`
    pub fn into_request(self) -> (r: Request<R>)
        ensures
            is_form_request(r, "sendSticker"@, self.fields()),
    {
        Request::form("sendSticker", self.form)
    }
}

/// Add a new sticker to a set created by the bot
#[derive(Debug)]
pub struct AddStickerToSet<R> {
    form: Form<R>,
}

/// The fields of a sticker added to a set, before the mask position is set.
pub open spec fn add_sticker_fields<R>(
    user_id: Integer,
    name: Seq<char>,
    png_sticker: InputFile<R>,
    emojis: Seq<char>,
) -> Seq<(Seq<char>, FieldView<R>)> {
    set_field(
        set_field(
            set_field(
                set_field(no_fields(), "user_id"@, FieldView::Text(decimal(user_id as int))),
                "name"@,
                FieldView::Text(name),
            ),
            "png_sticker"@,
            FieldView::File(png_sticker),
        ),
        "emojis"@,
        FieldView::Text(emojis),
    )
}

impl<R> AddStickerToSet<R> {
    /// The fields of the form.
    pub closed spec fn fields(&self) -> Seq<(Seq<char>, FieldView<R>)> {
        self.form.fields()
    }

    /// Creates a new AddStickerToSet
    ///
    /// # Arguments
    ///
    /// * user_id - User identifier of sticker set owner
    /// * name - Sticker set name
    /// * png_sticker - Png image with the sticker, must be up to 512 kilobytes in size,
    ///                 dimensions must not exceed 512px,
    ///                 and either width or height must be exactly 512px
    /// * emojis - One or more emoji corresponding to the sticker
    pub fn new(user_id: Integer, name: &str, png_sticker: InputFile<R>, emojis: &str) -> (r: Self)
        ensures
            r.fields() == add_sticker_fields(user_id, name@, png_sticker, emojis@),
    {
        let mut form = Form::new();
        form.insert_field("user_id", FormValue::from(user_id));
        form.insert_field("name", FormValue::text(name));
        form.insert_field("png_sticker", FormValue::from(png_sticker));
        form.insert_field("emojis", FormValue::text(emojis));
        AddStickerToSet { form }
    }

    /// Position where the mask should be placed on faces
    pub fn mask_position(self, value: MaskPosition) -> (r: Self)
        ensures
            r.fields() == set_field(self.fields(), "mask_position"@, FieldView::<R>::MaskPosition(value)),
    {
        let mut form = self.form;
        form.insert_field("mask_position", FormValue::MaskPosition(value));
        AddStickerToSet { form }
    }
}

impl<R> AddStickerToSet<R> {
    /// Builds the request that calls the method; it is answered with `bool`
    pub fn into_request(self) -> (r: Request<R>)
        ensures
            is_form_request(r, "addStickerToSet"@, self.fields()),
    {
        Request::form("addStickerToSet", self.form)
    }
}

/// Create new sticker set owned by a user
///
/// The bot will be able to edit the created sticker set
#[derive(Debug)]
pub struct CreateNewStickerSet<R> {
    form: Form<R>,
}

/// The fields of a new sticker set, before any option is set.
pub open spec fn new_sticker_set_fields<R>(
    user_id: Integer,
    name: Seq<char>,
    title: Seq<char>,
    png_sticker: InputFile<R>,
    emojis: Seq<char>,
) -> Seq<(Seq<char>, FieldView<R>)> {
    set_field(
        set_field(
            set_field(
                set_field(
                    set_field(no_fields(), "user_id"@, FieldView::Text(decimal(user_id as int))),
                    "name"@,
                    FieldView::Text(name),
                ),
                "title"@,
                FieldView::Text(title),
            ),
            "png_sticker"@,
            FieldView::File(png_sticker),
        ),
        "emojis"@,
        FieldView::Text(emojis),
    )
}

impl<R> CreateNewStickerSet<R> {
    /// The fields of the form.
    pub closed spec fn fields(&self) -> Seq<(Seq<char>, FieldView<R>)> {
        self.form.fields()
    }

    /// Creates a new CreateNewStickerSet with empty optional parameters
    ///
    /// # Arguments
    ///
    /// * user_id - User identifier of created sticker set owner
    /// * name - Short name of sticker set, to be used in t.me/addstickers/ URLs (e.g., animals)
    ///          Can contain only english letters, digits and underscores
    ///          Must begin with a letter, can't contain consecutive underscores
    ///          and must end in “_by_<bot username>”
    ///          <bot_username> is case insensitive
    ///          1-64 characters
    /// * title - Sticker set title, 1-64 characters
    /// * png_sticker - Png image with the sticker,
    ///                 must be up to 512 kilobytes in size, dimensions must not exceed 512px,
    ///                 and either width or height must be exactly 512px
    /// * emojis - One or more emoji corresponding to the sticker
    pub fn new(user_id: Integer, name: &str, title: &str, png_sticker: InputFile<R>, emojis: &str) -> (r: Self)
        ensures
            r.fields() == new_sticker_set_fields(user_id, name@, title@, png_sticker, emojis@),
    {
        let mut form = Form::new();
        form.insert_field("user_id", FormValue::from(user_id));
        form.insert_field("name", FormValue::text(name));
        form.insert_field("title", FormValue::text(title));
        form.insert_field("png_sticker", FormValue::from(png_sticker));
        form.insert_field("emojis", FormValue::text(emojis));
        CreateNewStickerSet { form }
    }

    /// Pass True, if a set of mask stickers should be created
    pub fn contains_masks(self, value: bool) -> (r: Self)
        ensures
            r.fields() == set_field(self.fields(), "contains_masks"@, FieldView::<R>::Text(bool_text(value))),
    {
        let mut form = self.form;
        form.insert_field("contains_masks", FormValue::from(value));
        CreateNewStickerSet { form }
    }

    /// Position where the mask should be placed on faces
    pub fn mask_position(self, value: MaskPosition) -> (r: Self)
        ensures
            r.fields() == set_field(self.fields(), "mask_position"@, FieldView::<R>::MaskPosition(value)),
    {
        let mut form = self.form;
        form.insert_field("mask_position", FormValue::MaskPosition(value));
        CreateNewStickerSet { form }
    }
}

impl<R> CreateNewStickerSet<R> {
    /// Builds the request that calls the method; it is answered with `bool`
    pub fn into_request(self) -> (r: Request<R>)
        ensures
            is_form_request(r, "createNewStickerSet"@, self.fields()),
    {
        Request::form("createNewStickerSet", self.form)
    }
}

} // verus!
