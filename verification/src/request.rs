use vstd::prelude::*;
use crate::encoding::{decimal, decimal_string, push_str, str_eq};
use crate::types::primitive::Integer;
use crate::types::{
    file::{InputFile, InputFileInfo, InputFileKind, InputFileReader},
    stickers::MaskPosition,
};

verus! {

/// HTTP method of a request
#[derive(Clone, Copy, Debug, PartialEq, Eq, Structural)]
pub enum RequestMethod {
    /// GET
    Get,
    /// POST
    Post,
}

/// Value of a form field
#[derive(Debug)]
pub enum FormValue<R> {
    /// Text
    Text(String),
    /// A file: its identifier or URL, or its contents
    File(InputFile<R>),
    /// A mask position, sent as its JSON text
    MaskPosition(MaskPosition),
}

impl<R> FormValue<R> {
    /// A text value
    pub fn text(value: &str) -> (r: Self)
        ensures
            r matches FormValue::Text(t) && t@ == value@,
    {
        FormValue::Text(value.to_owned())
    }

    /// The text, where the value is a text
    pub fn get_text(&self) -> (r: Option<&str>)
        ensures
            match r {
                Some(t) => self matches FormValue::Text(s) && s@ == t@,
                None => !(self is Text),
            },
    {
        match self {
            FormValue::Text(t) => Some(t.as_str()),
            _ => None,
        }
    }

    /// The file, where the value is a file
    pub fn get_file(&self) -> (r: Option<&InputFile<R>>)
        ensures
            match r {
                Some(f) => *self == FormValue::File(*f),
                None => !(self is File),
            },
    {
        match self {
            FormValue::File(f) => Some(f),
            _ => None,
        }
    }
}

impl<R> From<Integer> for FormValue<R> {
    fn from(value: Integer) -> (r: Self)
        ensures
            r matches FormValue::Text(t) && t@ == decimal(value as int),
    {
        FormValue::Text(decimal_string(value))
    }
}

impl<R> vstd::std_specs::convert::FromSpecImpl<Integer> for FormValue<R> {
    open spec fn obeys_from_spec() -> bool {
        false
    }

    open spec fn from_spec(value: Integer) -> FormValue<R> {
        choose|r: FormValue<R>| r is Text && (#[trigger] r->Text_0)@ == decimal(value as int)
    }
}

/// The text of a boolean form value.
pub open spec fn bool_text(value: bool) -> Seq<char> {
    if value {
        "true"@
    } else {
        "false"@
    }
}

impl<R> From<bool> for FormValue<R> {
    fn from(value: bool) -> (r: Self)
        ensures
            r matches FormValue::Text(t) && t@ == bool_text(value),
    {
        if value {
            FormValue::Text("true".to_owned())
        } else {
            FormValue::Text("false".to_owned())
        }
    }
}

impl<R> vstd::std_specs::convert::FromSpecImpl<bool> for FormValue<R> {
    open spec fn obeys_from_spec() -> bool {
        false
    }

    open spec fn from_spec(value: bool) -> FormValue<R> {
        choose|r: FormValue<R>| r is Text && (#[trigger] r->Text_0)@ == bool_text(value)
    }
}

impl<R> From<String> for FormValue<R> {
    fn from(value: String) -> (r: Self)
        ensures
            r == FormValue::<R>::Text(value),
    {
        FormValue::Text(value)
    }
}

impl<R> vstd::std_specs::convert::FromSpecImpl<String> for FormValue<R> {
    open spec fn obeys_from_spec() -> bool {
        true
    }

    open spec fn from_spec(value: String) -> FormValue<R> {
        FormValue::Text(value)
    }
}

impl<R> From<InputFile<R>> for FormValue<R> {
    fn from(value: InputFile<R>) -> (r: Self)
        ensures
            r == FormValue::File(value),
    {
        FormValue::File(value)
    }
}

impl<R> vstd::std_specs::convert::FromSpecImpl<InputFile<R>> for FormValue<R> {
    open spec fn obeys_from_spec() -> bool {
        true
    }

    open spec fn from_spec(value: InputFile<R>) -> FormValue<R> {
        FormValue::File(value)
    }
}

/// The final component of a path, where it has one (`Path::file_name`, taken lossily as
/// text); it depends on the path alone.
pub uninterp spec fn path_file_name(path: Seq<char>) -> Option<Seq<char>>;

/// The extension of a path's final component, where it has one (`Path::extension`, where
/// it is valid text); it depends on the path alone.
pub uninterp spec fn path_extension(path: Seq<char>) -> Option<Seq<char>>;

/// The first MIME type that `mime_guess` knows for an extension, where it knows one; it
/// depends on the extension alone.
pub uninterp spec fn mime_for_extension(extension: Seq<char>) -> Option<Seq<char>>;

/// The file name of a path (`std::path::Path::file_name`).
///
/// Claimed: the result is the name `path_file_name` of the path. The name comes back as an
/// `OsStr`, which is turned into a `String` (lossily, as `to_string_lossy` does); that is
/// the conversion of the result to a plain value.
#[verifier::external_body]
fn file_name_of(path: &str) -> (r: Option<String>)
    ensures
        opt_text(r) == path_file_name(path@),
{
    match std::path::Path::new(path).file_name() {
        Some(name) => Some(name.to_string_lossy().into_owned()),
        None => None,
    }
}

/// The extension of a path (`std::path::Path::extension`).
///
/// Claimed: the result is the name `path_extension` of the path. The extension comes back
/// as an `OsStr`, which is turned into a `String` where it is valid text (`to_str`); that
/// is the conversion of the result to a plain value.
#[verifier::external_body]
fn extension_of(path: &str) -> (r: Option<String>)
    ensures
        opt_text(r) == path_extension(path@),
{
    match std::path::Path::new(path).extension() {
        Some(ext) => match ext.to_str() {
            Some(text) => Some(text.to_owned()),
            None => None,
        },
        None => None,
    }
}

/// The MIME type that `mime_guess` gives first for an extension
/// (`mime_guess::from_ext(..).first()`, as its text).
///
/// Claimed: the result is the name `mime_for_extension` of the extension.
#[verifier::external_body]
fn guess_mime_type(extension: &str) -> (r: Option<String>)
    ensures
        opt_text(r) == mime_for_extension(extension@),
{
    match mime_guess::from_ext(extension).first() {
        Some(mime) => Some(mime.as_ref().to_owned()),
        None => None,
    }
}

/// The text of `mime::APPLICATION_OCTET_STREAM`.
///
/// Claimed: it is `application/octet-stream`.
#[verifier::external_body]
fn octet_stream() -> (r: String)
    ensures
        r@ == "application/octet-stream"@,
{
    mime::APPLICATION_OCTET_STREAM.as_ref().to_owned()
}

/// The contents of an optional string.
pub open spec fn opt_text(s: Option<String>) -> Option<Seq<char>> {
    match s {
        Some(x) => Some(x@),
        None => None,
    }
}

/// One part of a multipart request, as it is to be sent
#[derive(Debug)]
pub enum Part<R> {
    /// A text part
    Text(String),
    /// The contents of the file at a path, with the file's name where the path has one
    /// and its MIME type
    Path { path: String, file_name: Option<String>, mime_type: String },
    /// What a reader holds, with the file name and MIME type where they are known
    Reader { reader: R, file_name: Option<String>, mime_type: Option<String> },
    /// A mask position, sent as its JSON text
    MaskPosition(MaskPosition),
}

/// The MIME type of the file at a path: the one known for its extension, or
/// `application/octet-stream`.
pub open spec fn path_mime_type(path: Seq<char>) -> Seq<char> {
    match path_extension(path) {
        Some(ext) => match mime_for_extension(ext) {
            Some(m) => m,
            None => "application/octet-stream"@,
        },
        None => "application/octet-stream"@,
    }
}

/// The part a form value is sent as: text as it is, a file identifier or URL as text,
/// a path with its file name and MIME type, a reader with the name and MIME type of its
/// information, where there is some.
pub open spec fn part_of<R>(value: FormValue<R>, part: Part<R>) -> bool {
    match value {
        FormValue::Text(t) => part == Part::<R>::Text(t),
        FormValue::MaskPosition(m) => part == Part::<R>::MaskPosition(m),
        FormValue::File(f) => match f.kind {
            InputFileKind::Id(t) => part == Part::<R>::Text(t),
            InputFileKind::Url(t) => part == Part::<R>::Text(t),
            InputFileKind::Path(p) => part matches Part::Path { path, file_name, mime_type } && path == p
                && opt_text(file_name) == path_file_name(p@) && mime_type@ == path_mime_type(p@),
            InputFileKind::Reader(r) => part matches Part::Reader { reader, file_name, mime_type }
                && reader == r.reader && match r.info {
                Some(InputFileInfo { name, mime_type: m }) => file_name == Some(name) && mime_type == m,
                None => file_name is None && mime_type is None,
            },
        },
    }
}

/// The MIME type of an uploaded file: the one guessed from its extension, where there is
/// one, or `application/octet-stream`.
pub fn mime_type_or_default(guessed: Option<String>) -> (r: String)
    ensures
        r@ == match guessed {
            Some(m) => m@,
            None => "application/octet-stream"@,
        },
{
    match guessed {
        Some(m) => m,
        None => octet_stream(),
    }
}

impl<R> FormValue<R> {
    /// The part of a multipart request that the value is sent as
    pub fn into_part(self) -> (r: Part<R>)
        ensures
            part_of(self, r),
    {
        match self {
            FormValue::Text(text) => Part::Text(text),
            FormValue::MaskPosition(m) => Part::MaskPosition(m),
            FormValue::File(file) => match file.kind {
                InputFileKind::Id(text) => Part::Text(text),
                InputFileKind::Url(text) => Part::Text(text),
                InputFileKind::Path(path) => {
                    let file_name = file_name_of(path.as_str());
                    let guessed = match extension_of(path.as_str()) {
                        Some(ext) => guess_mime_type(ext.as_str()),
                        None => None,
                    };
                    let mime_type = mime_type_or_default(guessed);
                    Part::Path { path, file_name, mime_type }
                },
                InputFileKind::Reader(InputFileReader { reader, info }) => match info {
                    Some(InputFileInfo { name, mime_type }) => Part::Reader {
                        reader,
                        file_name: Some(name),
                        mime_type,
                    },
                    None => Part::Reader { reader, file_name: None, mime_type: None },
                },
            },
        }
    }
}

/// A multipart form: fields with distinct names, in the order they were first set
///
/// The fields are a vector whose names are kept distinct (`distinct_names`), which is what
/// a map from name to value gives. A `HashMap` keyed by `String` is not used: for such a
/// key vstd lets nothing about the map's contents be proved, so no contract below could
/// be. The vector also keeps the order the fields were set in, which the parts follow.
#[derive(Debug)]
pub struct Form<R> {
    fields: Vec<(String, FormValue<R>)>,
}

/// The plain contents of a form value.
pub enum FieldView<R> {
    /// Text
    Text(Seq<char>),
    /// A file
    File(InputFile<R>),
    /// A mask position, sent as its JSON text
    MaskPosition(MaskPosition),
}

/// The plain contents of a form value.
pub open spec fn value_view<R>(value: FormValue<R>) -> FieldView<R> {
    match value {
        FormValue::Text(t) => FieldView::Text(t@),
        FormValue::File(f) => FieldView::File(f),
        FormValue::MaskPosition(m) => FieldView::MaskPosition(m),
    }
}

/// The names and values of form fields.
pub open spec fn fields_view<R>(fields: Seq<(String, FormValue<R>)>) -> Seq<(Seq<char>, FieldView<R>)> {
    fields.map_values(|p: (String, FormValue<R>)| (p.0@, value_view(p.1)))
}

/// No two fields have the same name.
pub open spec fn distinct_names<R>(fields: Seq<(Seq<char>, FieldView<R>)>) -> bool {
    forall|i: int, j: int| 0 <= i < fields.len() && 0 <= j < fields.len() && i != j ==> #[trigger] fields[i].0
        != #[trigger] fields[j].0
}

/// The fields after a field is set: where a field of that name exists its value is replaced
/// in place, otherwise the field is added at the end.
pub open spec fn set_field<R>(fields: Seq<(Seq<char>, FieldView<R>)>, name: Seq<char>, value: FieldView<R>) -> Seq<
    (Seq<char>, FieldView<R>),
> {
    if exists|i: int| 0 <= i < fields.len() && fields[i].0 == name {
        let i = choose|i: int| 0 <= i < fields.len() && fields[i].0 == name;
        fields.update(i, (name, value))
    } else {
        fields.push((name, value))
    }
}

/// Sets a field in a list of fields with distinct names: replaces the value of the field
/// of that name, or adds the field at the end.
fn set_field_in<R>(fields: &mut Vec<(String, FormValue<R>)>, name: &str, value: FormValue<R>)
    requires
        distinct_names(fields_view(old(fields)@)),
    ensures
        fields_view(final(fields)@) == set_field(fields_view(old(fields)@), name@, value_view(value)),
        distinct_names(fields_view(final(fields)@)),
{
    let n = fields.len();
    let mut i: usize = 0;
    while i < n
        invariant
            n == fields.len(),
            0 <= i <= n,
            fields_view(fields@) == fields_view(old(fields)@),
            distinct_names(fields_view(fields@)),
            forall|j: int| 0 <= j < i ==> fields@[j].0@ != name@,
        decreases n - i,
    {
        if str_eq(fields[i].0.as_str(), name) {
            let ghost old_fields = fields_view(fields@);
            let key = name.to_owned();
            fields.set(i, (key, value));
            proof {
                assert(old_fields[i as int].0 == name@);
                let k = choose|k: int| 0 <= k < old_fields.len() && old_fields[k].0 == name@;
                assert(k == i) by {
                    if k != i {
                        assert(old_fields[k].0 != old_fields[i as int].0);
                    }
                }
                assert(fields_view(fields@) =~= old_fields.update(i as int, (name@, value_view(value))));
                assert forall|a: int, b: int|
                    0 <= a < fields_view(fields@).len() && 0 <= b < fields_view(fields@).len() && a != b implies #[trigger] fields_view(fields@)[a].0
                    != #[trigger] fields_view(fields@)[b].0 by {
                    if a != i && b != i {
                        assert(fields_view(fields@)[a] == old_fields[a]);
                        assert(fields_view(fields@)[b] == old_fields[b]);
                    } else if a == i {
                        assert(fields_view(fields@)[b] == old_fields[b]);
                        assert(old_fields[b].0 != old_fields[i as int].0);
                    } else {
                        assert(fields_view(fields@)[a] == old_fields[a]);
                        assert(old_fields[a].0 != old_fields[i as int].0);
                    }
                }
            }
            return;
        }
        i = i + 1;
    }
    let ghost old_fields = fields_view(fields@);
    let key = name.to_owned();
    fields.push((key, value));
    proof {
        assert forall|j: int| 0 <= j < old_fields.len() implies old_fields[j].0 != name@ by {
            assert(old_fields[j].0 == fields@[j].0@);
        }
        assert(fields_view(fields@) =~= old_fields.push((name@, value_view(value))));
        assert forall|a: int, b: int|
            0 <= a < fields_view(fields@).len() && 0 <= b < fields_view(fields@).len() && a != b implies #[trigger] fields_view(fields@)[a].0
            != #[trigger] fields_view(fields@)[b].0 by {
            if a < n && b < n {
                assert(fields_view(fields@)[a] == old_fields[a]);
                assert(fields_view(fields@)[b] == old_fields[b]);
            } else if a == n {
                assert(fields_view(fields@)[b] == old_fields[b]);
            } else {
                assert(fields_view(fields@)[a] == old_fields[a]);
            }
        }
    }
}

/// The value of the field of a name, where the form has one.
pub open spec fn field_value<R>(fields: Seq<(Seq<char>, FieldView<R>)>, name: Seq<char>) -> Option<FieldView<R>> {
    if exists|i: int| 0 <= i < fields.len() && fields[i].0 == name {
        let i = choose|i: int| 0 <= i < fields.len() && fields[i].0 == name;
        Some(fields[i].1)
    } else {
        None
    }
}

/// Setting a field: afterwards the names are still distinct, the field of that name holds
/// the value that was set, and every other field holds what it held before.
pub proof fn lemma_set_field_reads_back<R>(
    fields: Seq<(Seq<char>, FieldView<R>)>,
    name: Seq<char>,
    value: FieldView<R>,
    other: Seq<char>,
)
    requires
        distinct_names(fields),
    ensures
        distinct_names(set_field(fields, name, value)),
        field_value(set_field(fields, name, value), name) == Some(value),
        other != name ==> field_value(set_field(fields, name, value), other) == field_value(fields, other),
{
    let after = set_field(fields, name, value);
    if exists|i: int| 0 <= i < fields.len() && fields[i].0 == name {
        let k = choose|i: int| 0 <= i < fields.len() && fields[i].0 == name;
        assert(after == fields.update(k, (name, value)));
        assert forall|a: int, b: int|
            0 <= a < after.len() && 0 <= b < after.len() && a != b implies #[trigger] after[a].0 != #[trigger] after[b].0 by {
            if a != k && b != k {
                assert(after[a] == fields[a] && after[b] == fields[b]);
            } else if a == k {
                assert(after[b] == fields[b]);
                assert(fields[b].0 != fields[k].0);
            } else {
                assert(after[a] == fields[a]);
                assert(fields[a].0 != fields[k].0);
            }
        }
        assert(after[k].0 == name);
        let j = choose|i: int| 0 <= i < after.len() && after[i].0 == name;
        assert(j == k) by {
            if j != k {
                assert(after[j].0 != after[k].0);
            }
        }
        if other != name {
            if exists|i: int| 0 <= i < fields.len() && fields[i].0 == other {
                let m = choose|i: int| 0 <= i < fields.len() && fields[i].0 == other;
                assert(m != k);
                assert(after[m].0 == other);
                let m2 = choose|i: int| 0 <= i < after.len() && after[i].0 == other;
                assert(m2 == m) by {
                    if m2 != m {
                        assert(after[m2].0 != after[m].0);
                    }
                }
            } else {
                assert(!exists|i: int| 0 <= i < after.len() && after[i].0 == other) by {
                    assert forall|i: int| 0 <= i < after.len() implies after[i].0 != other by {
                        if i != k {
                            assert(after[i] == fields[i]);
                        }
                    }
                }
            }
        }
    } else {
        assert(after == fields.push((name, value)));
        let n = fields.len() as int;
        assert forall|a: int, b: int|
            0 <= a < after.len() && 0 <= b < after.len() && a != b implies #[trigger] after[a].0 != #[trigger] after[b].0 by {
            if a < n && b < n {
                assert(after[a] == fields[a] && after[b] == fields[b]);
            } else if a == n {
                assert(after[b] == fields[b]);
            } else {
                assert(after[a] == fields[a]);
            }
        }
        assert(after[n].0 == name);
        let j = choose|i: int| 0 <= i < after.len() && after[i].0 == name;
        assert(j == n) by {
            if j != n {
                assert(after[j] == fields[j]);
            }
        }
        if other != name {
            if exists|i: int| 0 <= i < fields.len() && fields[i].0 == other {
                let m = choose|i: int| 0 <= i < fields.len() && fields[i].0 == other;
                assert(after[m].0 == other);
                let m2 = choose|i: int| 0 <= i < after.len() && after[i].0 == other;
                assert(m2 == m) by {
                    if m2 != m {
                        assert(after[m2].0 != after[m].0);
                    }
                }
            } else {
                assert(!exists|i: int| 0 <= i < after.len() && after[i].0 == other) by {
                    assert forall|i: int| 0 <= i < after.len() implies after[i].0 != other by {
                        if i < n {
                            assert(after[i] == fields[i]);
                        }
                    }
                }
            }
        }
    }
}

impl<R> Form<R> {
    /// The fields of the form, in order.
    pub closed spec fn fields(&self) -> Seq<(Seq<char>, FieldView<R>)> {
        fields_view(self.fields@)
    }

    /// The values of the fields, in order.
    pub closed spec fn values(&self) -> Seq<FormValue<R>> {
        self.fields@.map_values(|p: (String, FormValue<R>)| p.1)
    }

    /// Creates an empty form
    pub fn new() -> (r: Self)
        ensures
            r.fields() == Seq::<(Seq<char>, FieldView<R>)>::empty(),
    {
        let r = Form { fields: Vec::new() };
        assert(r.fields() =~= Seq::<(Seq<char>, FieldView<R>)>::empty());
        r
    }

    /// The names of the fields are distinct.
    #[verifier::type_invariant]
    closed spec fn names_distinct(&self) -> bool {
        distinct_names(fields_view(self.fields@))
    }

    /// Sets a field: replaces the value of the field of that name, or adds the field
    pub fn insert_field(&mut self, name: &str, value: FormValue<R>)
        ensures
            final(self).fields() == set_field(old(self).fields(), name@, value_view(value)),
            distinct_names(final(self).fields()),
    {
        proof {
            use_type_invariant(&*self);
        }
        let mut fields: Vec<(String, FormValue<R>)> = Vec::new();
        proof {
            assert(fields_view(fields@) =~= Seq::<(Seq<char>, FieldView<R>)>::empty());
        }
        std::mem::swap(&mut fields, &mut self.fields);
        set_field_in(&mut fields, name, value);
        self.fields = fields;
    }

    /// The parts of a multipart request that the form is sent as, each with its field's
    /// name, in order
    pub fn into_parts(self) -> (r: Vec<(String, Part<R>)>)
        ensures
            r@.len() == self.fields().len(),
            forall|i: int|
                0 <= i < r@.len() ==> #[trigger] r@[i].0@ == self.fields()[i].0 && part_of(self.values()[i], r@[i].1),
    {
        let mut fields = self.fields;
        let ghost all = fields@;
        let mut rest: Vec<(String, FormValue<R>)> = Vec::new();
        while fields.len() > 0
            invariant
                fields@ + rest@.reverse() == all,
            decreases fields.len(),
        {
            let last = fields.pop().unwrap();
            rest.push(last);
            assert(fields@ + rest@.reverse() =~= all);
        }
        let mut parts: Vec<(String, Part<R>)> = Vec::new();
        while rest.len() > 0
            invariant
                parts@.len() + rest@.len() == all.len(),
                forall|i: int|
                    0 <= i < parts@.len() ==> #[trigger] parts@[i].0 == all[i].0 && part_of(all[i].1, parts@[i].1),
                forall|i: int| 0 <= i < rest@.len() ==> #[trigger] rest@[i] == all[all.len() - 1 - i],
            decreases rest.len(),
        {
            let (name, value) = rest.pop().unwrap();
            let part = value.into_part();
            parts.push((name, part));
        }
        parts
    }

    /// The fields of the form, each with its name, in order
    pub fn into_fields(self) -> (r: Vec<(String, FormValue<R>)>)
        ensures
            fields_view(r@) == self.fields(),
    {
        self.fields
    }
}

/// A request to the Bot API: the method's path, the HTTP method and the body
#[derive(Debug)]
pub struct Request<R> {
    path: String,
    method: RequestMethod,
    body: RequestBody<R>,
}

/// Body of a request
#[derive(Debug)]
pub enum RequestBody<R> {
    /// A multipart form
    Form(Form<R>),
    /// A JSON object
    Json(String),
    /// No body
    Empty,
}

/// The URL of a request: the base URL, `/bot` and the token, `/` and the method's path.
pub open spec fn request_url(base_url: Seq<char>, token: Seq<char>, path: Seq<char>) -> Seq<char> {
    base_url + "/bot"@ + token + "/"@ + path
}

impl<R> Request<R> {
    /// The method's path.
    pub closed spec fn spec_path(&self) -> Seq<char> {
        self.path@
    }

    /// The HTTP method.
    pub closed spec fn spec_method(&self) -> RequestMethod {
        self.method
    }

    /// The body.
    pub closed spec fn spec_body(&self) -> RequestBody<R> {
        self.body
    }

    /// A POST request with a multipart form
    pub fn form(path: &str, form: Form<R>) -> (r: Self)
        ensures
            r.spec_path() == path@,
            r.spec_method() == RequestMethod::Post,
            r.spec_body() == RequestBody::Form(form),
    {
        Request { path: path.to_owned(), method: RequestMethod::Post, body: RequestBody::Form(form) }
    }

    /// A POST request whose body is a JSON object
    pub fn json(path: &str, body: String) -> (r: Self)
        ensures
            r.spec_path() == path@,
            r.spec_method() == RequestMethod::Post,
            r.spec_body() == RequestBody::<R>::Json(body),
    {
        Request { path: path.to_owned(), method: RequestMethod::Post, body: RequestBody::Json(body) }
    }

    /// A GET request without body
    pub fn empty(path: &str) -> (r: Self)
        ensures
            r.spec_path() == path@,
            r.spec_method() == RequestMethod::Get,
            r.spec_body() == RequestBody::<R>::Empty,
    {
        Request { path: path.to_owned(), method: RequestMethod::Get, body: RequestBody::Empty }
    }

    /// The URL of the request under a base URL and a bot token
    pub fn build_url(&self, base_url: &str, token: &str) -> (r: String)
        ensures
            r@ == request_url(base_url@, token@, self.spec_path()),
    {
        let mut r = String::new();
        push_str(&mut r, base_url);
        push_str(&mut r, "/bot");
        push_str(&mut r, token);
        push_str(&mut r, "/");
        push_str(&mut r, self.path.as_str());
        assert(r@ =~= request_url(base_url@, token@, self.spec_path()));
        r
    }

    /// The HTTP method
    pub fn get_method(&self) -> (r: RequestMethod)
        ensures
            r == self.spec_method(),
    {
        self.method
    }

    /// The method's path
    pub fn get_path(&self) -> (r: &str)
        ensures
            r@ == self.spec_path(),
    {
        self.path.as_str()
    }

    /// The body of the request
    pub fn into_body(self) -> (r: RequestBody<R>)
        ensures
            r == self.spec_body(),
    {
        self.body
    }
}

} // verus!
