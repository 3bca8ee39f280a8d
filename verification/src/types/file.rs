use vstd::prelude::*;
use crate::types::primitive::Integer;

verus! {

/// File ready to be downloaded
///
/// The file can be downloaded via the link https://api.telegram.org/file/bot<token>/<file_path>
/// It is guaranteed that the link will be valid for at least 1 hour
/// When the link expires, a new one can be requested by calling getFile
/// Maximum file size to download is 20 MB
#[derive(Clone, Debug)]
pub struct File {
    /// Unique identifier for this file
    pub file_id: String,
    /// File size, if known
    pub file_size: Option<Integer>,
    /// File path
    /// Use https://api.telegram.org/file/bot<token>/<file_path> to get the file
    pub file_path: Option<String>,
}


/// Information about a file for reader
#[derive(Clone, Debug)]
pub struct InputFileInfo {
    /// Name of the file
    pub name: String,
    /// MIME type of the file, where known (such as `text/plain`)
    pub mime_type: Option<String>,
}

impl InputFileInfo {
    /// Creates a new info object with given file name
    pub fn new(name: &str) -> (r: Self)
        ensures
            r.name@ == name@,
            r.mime_type is None,
    {
        InputFileInfo { name: name.to_owned(), mime_type: None }
    }

    /// Sets mime type of a file
    pub fn mime_type(self, mime_type: &str) -> (r: Self)
        ensures
            r.name == self.name,
            r.mime_type matches Some(m) && m@ == mime_type@,
    {
        InputFileInfo { mime_type: Some(mime_type.to_owned()), ..self }
    }
}

impl From<&str> for InputFileInfo {
    fn from(name: &str) -> (r: Self)
        ensures
            r.name@ == name@,
            r.mime_type is None,
    {
        InputFileInfo::new(name)
    }
}

impl vstd::std_specs::convert::FromSpecImpl<&str> for InputFileInfo {
    open spec fn obeys_from_spec() -> bool {
        false
    }

    open spec fn from_spec(name: &str) -> InputFileInfo {
        choose|r: InputFileInfo| r.name@ == name@ && r.mime_type is None
    }
}

impl From<(&str, &str)> for InputFileInfo {
    fn from(value: (&str, &str)) -> (r: Self)
        ensures
            r.name@ == value.0@,
            r.mime_type matches Some(m) && m@ == value.1@,
    {
        InputFileInfo::new(value.0).mime_type(value.1)
    }
}

impl vstd::std_specs::convert::FromSpecImpl<(&str, &str)> for InputFileInfo {
    open spec fn obeys_from_spec() -> bool {
        false
    }

    open spec fn from_spec(value: (&str, &str)) -> InputFileInfo {
        choose|r: InputFileInfo| r.name@ == value.0@ && (r.mime_type matches Some(m) && m@ == value.1@)
    }
}

impl From<String> for InputFileInfo {
    fn from(name: String) -> (r: Self)
        ensures
            r.name == name,
            r.mime_type is None,
    {
        InputFileInfo { name, mime_type: None }
    }
}

impl vstd::std_specs::convert::FromSpecImpl<String> for InputFileInfo {
    open spec fn obeys_from_spec() -> bool {
        true
    }

    open spec fn from_spec(name: String) -> InputFileInfo {
        InputFileInfo { name, mime_type: None }
    }
}

impl From<(String, String)> for InputFileInfo {
    fn from(value: (String, String)) -> (r: Self)
        ensures
            r.name == value.0,
            r.mime_type == Some(value.1),
    {
        InputFileInfo { name: value.0, mime_type: Some(value.1) }
    }
}

impl vstd::std_specs::convert::FromSpecImpl<(String, String)> for InputFileInfo {
    open spec fn obeys_from_spec() -> bool {
        true
    }

    open spec fn from_spec(value: (String, String)) -> InputFileInfo {
        InputFileInfo { name: value.0, mime_type: Some(value.1) }
    }
}

/// File reader to upload
///
/// `R` is the type of the reader
#[derive(Debug)]
pub struct InputFileReader<R> {
    /// The reader
    pub reader: R,
    /// Information about the file, where given
    pub info: Option<InputFileInfo>,
}

impl<R> InputFileReader<R> {
    /// Creates a new file reader
    pub fn new(reader: R) -> (r: Self)
        ensures
            r.reader == reader,
            r.info is None,
    {
        InputFileReader { reader, info: None }
    }

    /// Sets a file info
    pub fn info(self, info: InputFileInfo) -> (r: Self)
        ensures
            r.reader == self.reader,
            r.info == Some(info),
    {
        InputFileReader { info: Some(info), ..self }
    }
}

impl<R> From<R> for InputFileReader<R> {
    fn from(reader: R) -> (r: Self)
        ensures
            r.reader == reader,
            r.info is None,
    {
        InputFileReader::new(reader)
    }
}

impl<R> vstd::std_specs::convert::FromSpecImpl<R> for InputFileReader<R> {
    open spec fn obeys_from_spec() -> bool {
        true
    }

    open spec fn from_spec(reader: R) -> InputFileReader<R> {
        InputFileReader { reader, info: None }
    }
}

/// How a file to send is given: by an identifier or URL that Telegram resolves,
/// or by a path or reader whose contents are uploaded
#[derive(Debug)]
pub enum InputFileKind<R> {
    /// A file_id that exists on the Telegram servers
    Id(String),
    /// An HTTP URL to get a file from the Internet
    Url(String),
    /// Path to file in FS (will be uploaded using multipart/form-data)
    Path(String),
    /// A reader (file will be uploaded using multipart/form-data)
    Reader(InputFileReader<R>),
}

/// File to upload
///
/// `R` is the type of reader that uploads read from
#[derive(Debug)]
pub struct InputFile<R> {
    /// How the file is given
    pub kind: InputFileKind<R>,
}

/// Whether a file is uploaded, rather than given by an identifier or URL.
pub open spec fn is_upload<R>(file: InputFile<R>) -> bool {
    file.kind is Path || file.kind is Reader
}

impl<R> InputFile<R> {
    /// Send a file_id that exists on the Telegram servers
    pub fn file_id(file_id: &str) -> (r: Self)
        ensures
            r.kind matches InputFileKind::Id(s) && s@ == file_id@,
    {
        Self { kind: InputFileKind::Id(file_id.to_owned()) }
    }

    /// Send an HTTP URL to get a file from the Internet
    ///
    /// Telegram will download a file from that URL
    pub fn url(url: &str) -> (r: Self)
        ensures
            r.kind matches InputFileKind::Url(s) && s@ == url@,
    {
        Self { kind: InputFileKind::Url(url.to_owned()) }
    }

    /// Path to file in FS (will be uploaded using multipart/form-data)
    pub fn path(path: &str) -> (r: Self)
        ensures
            r.kind matches InputFileKind::Path(s) && s@ == path@,
    {
        Self { kind: InputFileKind::Path(path.to_owned()) }
    }

    /// A reader (file will be uploaded using multipart/form-data)
    pub fn reader(reader: InputFileReader<R>) -> (r: Self)
        ensures
            r.kind == InputFileKind::Reader(reader),
    {
        Self { kind: InputFileKind::Reader(reader) }
    }
}

impl<R> From<InputFileReader<R>> for InputFile<R> {
    fn from(reader: InputFileReader<R>) -> (r: Self)
        ensures
            r.kind == InputFileKind::Reader(reader),
    {
        Self::reader(reader)
    }
}

impl<R> vstd::std_specs::convert::FromSpecImpl<InputFileReader<R>> for InputFile<R> {
    open spec fn obeys_from_spec() -> bool {
        true
    }

    open spec fn from_spec(reader: InputFileReader<R>) -> InputFile<R> {
        InputFile { kind: InputFileKind::Reader(reader) }
    }
}

} // verus!
