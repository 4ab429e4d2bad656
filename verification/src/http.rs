//! The endpoint layer: what is answered to an upload and to a download.
//!
//! Requests and responses are plain values here. The caller parses the
//! request, carries out the storage operations and sends what this module
//! returns.

use crate::error::{Error, ErrorView};
use crate::media::{content_type_for, content_type_of, guessed_media_type, text_of, OCTET_STREAM};
use crate::store::{
    begin_put, finish_get, get_outcome, put_start, read_view, Step, StepView, StoredObject,
    StoredObjectView, UNKNOWN_NAME,
};
use vstd::prelude::*;
use vstd::string::*;
use vstd::utf8::encode_utf8;

verus! {

/// Name of the header that carries the media type of a body.
pub const CONTENT_TYPE: &'static str = "Content-Type";

/// Name of the header that carries the file name of a download.
pub const CONTENT_DISPOSITION: &'static str = "Content-Disposition";

/// Media type of the answer to a successful upload.
pub const APPLICATION_JSON: &'static str = "application/json";

/// What precedes the file name in the `Content-Disposition` of a download.
pub const ATTACHMENT_PREFIX: &'static str = "attachment; filename=\"";

/// The double quote that encloses a JSON string and the file name of a download.
pub const QUOTE: &'static str = "\"";

/// The status of a response.
#[derive(Debug, Clone, Copy, PartialEq, Eq, Structural)]
pub enum Status {
    Success,
    BadRequest,
    NotFound,
    InternalServerError,
}

impl Status {
    /// The numeric status code.
    pub open spec fn code_of(self) -> int {
        match self {
            Status::Success => 200,
            Status::BadRequest => 400,
            Status::NotFound => 404,
            Status::InternalServerError => 500,
        }
    }

    /// The numeric status code.
    pub fn code(self) -> (code: u16)
        ensures
            code == self.code_of(),
    {
        match self {
            Status::Success => 200,
            Status::BadRequest => 400,
            Status::NotFound => 404,
            Status::InternalServerError => 500,
        }
    }
}

/// A response: status, headers in the order in which they are sent, body.
#[derive(Debug, PartialEq, Eq)]
pub struct Response {
    pub status: Status,
    pub headers: Vec<(String, String)>,
    pub body: Vec<u8>,
}

/// A [`Response`] over character and byte sequences.
pub struct ResponseView {
    pub status: Status,
    pub headers: Seq<(Seq<char>, Seq<char>)>,
    pub body: Seq<u8>,
}

impl View for Response {
    type V = ResponseView;

    open spec fn view(&self) -> ResponseView {
        ResponseView {
            status: self.status,
            headers: self.headers@.map_values(|header: (String, String)| (header.0@, header.1@)),
            body: self.body@,
        }
    }
}

/// What reading the first field of a multipart upload gave.
#[derive(Debug, PartialEq, Eq)]
pub enum Upload {
    /// The body held no field.
    NoField,
    /// The multipart stream could not be read; the text says why.
    Unreadable(String),
    /// The first field, with the file name it declares and its bytes.
    File { file_name: String, data: Vec<u8> },
}

/// An [`Upload`] over character and byte sequences.
pub enum UploadView {
    NoField,
    Unreadable(Seq<char>),
    File { file_name: Seq<char>, data: Seq<u8> },
}

impl View for Upload {
    type V = UploadView;

    open spec fn view(&self) -> UploadView {
        match self {
            Upload::NoField => UploadView::NoField,
            Upload::Unreadable(cause) => UploadView::Unreadable(cause@),
            Upload::File { file_name, data } => UploadView::File {
                file_name: file_name@,
                data: data@,
            },
        }
    }
}

/// The status that reports `error`: the client is at fault for a missing or
/// oversized file, an unknown object is not found, anything else is a failure
/// of the server.
pub open spec fn error_status(error: ErrorView) -> Status {
    match error {
        ErrorView::NoFileUploaded => Status::BadRequest,
        ErrorView::SizeLimitExceeded => Status::BadRequest,
        ErrorView::MultipartParse(_) => Status::InternalServerError,
        ErrorView::Storage(_) => Status::InternalServerError,
        ErrorView::NotFound(_) => Status::NotFound,
    }
}

/// The response that reports `error`: its status, no header, and its message
/// as the body.
pub open spec fn error_response_view(error: ErrorView) -> ResponseView {
    ResponseView {
        status: error_status(error),
        headers: Seq::empty(),
        body: encode_utf8(error.message()),
    }
}

/// The JSON encoding of an identifier. An identifier holds hexadecimal digits
/// only, so nothing in it needs escaping: it stands between double quotes.
pub open spec fn json_of_id(id: Seq<char>) -> Seq<char> {
    QUOTE@ + id + QUOTE@
}

/// The response to an upload that was stored under `id`.
pub open spec fn stored_response_view(id: Seq<char>) -> ResponseView {
    ResponseView {
        status: Status::Success,
        headers: seq![(CONTENT_TYPE@, APPLICATION_JSON@)],
        body: encode_utf8(json_of_id(id)),
    }
}

/// The `Content-Disposition` of a download named `file_name`.
pub open spec fn disposition_of(file_name: Seq<char>) -> Seq<char> {
    ATTACHMENT_PREFIX@ + file_name + QUOTE@
}

/// The response that delivers `object` with the given `Content-Type`.
pub open spec fn object_response_view(
    object: StoredObjectView,
    content_type: Seq<char>,
) -> ResponseView {
    ResponseView {
        status: Status::Success,
        headers: seq![
            (CONTENT_TYPE@, content_type),
            (CONTENT_DISPOSITION@, disposition_of(object.file_name)),
        ],
        body: object.content,
    }
}

/// The response to a download, given the outcome of the get: the object with
/// the media type guessed from its file name, or the report of the failure.
pub open spec fn download_response_view(
    outcome: Result<StoredObjectView, ErrorView>,
) -> ResponseView {
    match outcome {
        Ok(object) => object_response_view(
            object,
            content_type_of(guessed_media_type(object.file_name)),
        ),
        Err(error) => error_response_view(error),
    }
}

/// How an upload begins: without a field or with an unreadable stream it
/// fails at once; with a file, the put of its bytes begins.
pub open spec fn upload_start(upload: UploadView) -> StepView {
    match upload {
        UploadView::NoField => StepView::Failed(ErrorView::NoFileUploaded),
        UploadView::Unreadable(cause) => StepView::Failed(ErrorView::MultipartParse(cause)),
        UploadView::File { file_name, data } => put_start(data, file_name),
    }
}

/// The status that reports `error`.
pub fn status_of(error: &Error) -> (status: Status)
    ensures
        status == error_status(error@),
{
    match error {
        Error::NoFileUploaded => Status::BadRequest,
        Error::SizeLimitExceeded => Status::BadRequest,
        Error::MultipartParse(_) => Status::InternalServerError,
        Error::Storage(_) => Status::InternalServerError,
        Error::NotFound(_) => Status::NotFound,
    }
}

/// Builds the response that reports `error`.
pub fn error_response(error: &Error) -> (response: Response)
    ensures
        response@ == error_response_view(error@),
{
    let response = Response {
        status: status_of(error),
        headers: Vec::new(),
        body: error.message().as_str().as_bytes_vec(),
    };
    assert(response@.headers =~= Seq::empty());
    response
}

/// Builds the response to an upload that was stored under `id`.
pub fn stored_response(id: &str) -> (response: Response)
    ensures
        response@ == stored_response_view(id@),
{
    let mut json = String::from_str(QUOTE);
    json.append(id);
    json.append(QUOTE);
    let mut headers: Vec<(String, String)> = Vec::new();
    headers.push((String::from_str(CONTENT_TYPE), String::from_str(APPLICATION_JSON)));
    let response = Response { status: Status::Success, headers, body: json.as_str().as_bytes_vec() };
    assert(response@.headers =~= seq![(CONTENT_TYPE@, APPLICATION_JSON@)]);
    response
}

/// Builds the response that delivers `object` with the given `Content-Type`.
pub fn object_response(object: StoredObject, content_type: String) -> (response: Response)
    ensures
        response@ == object_response_view(object@, content_type@),
{
    let StoredObject { content, file_name } = object;
    let mut disposition = String::from_str(ATTACHMENT_PREFIX);
    disposition.append(file_name.as_str());
    disposition.append(QUOTE);
    let mut headers: Vec<(String, String)> = Vec::new();
    headers.push((String::from_str(CONTENT_TYPE), content_type));
    headers.push((String::from_str(CONTENT_DISPOSITION), disposition));
    let response = Response { status: Status::Success, headers, body: content };
    assert(response@.headers =~= seq![
        (CONTENT_TYPE@, content_type@),
        (CONTENT_DISPOSITION@, disposition_of(file_name@)),
    ]);
    response
}

/// Begins an upload from what reading its first field gave.
pub fn begin_upload(upload: Upload) -> (step: Step)
    ensures
        step@ == upload_start(upload@),
{
    match upload {
        Upload::NoField => Step::Failed(Error::NoFileUploaded),
        Upload::Unreadable(cause) => Step::Failed(Error::MultipartParse(cause)),
        Upload::File { file_name, data } => begin_put(data, file_name),
    }
}

/// Builds the response to a download from the outcome of reading the two
/// entries of the requested object: its bytes or the cause of the failed
/// read, and the text of its name entry where that could be read.
///
/// Unknown bytes are answered with `404`. A missing name does not fail the
/// download: the object is then served as `unknown`, with the generic binary
/// media type.
pub fn download_response(content: Result<Vec<u8>, String>, name: Option<String>) -> (response:
    Response)
    ensures
        response@ == download_response_view(get_outcome(read_view(content), text_of(name))),
        content is Err ==> response@.status == Status::NotFound,
        content is Ok ==> response@.status == Status::Success && response@.body == content->Ok_0@,
        content is Ok && name is None ==> response@.headers == seq![
            (CONTENT_TYPE@, OCTET_STREAM@),
            (CONTENT_DISPOSITION@, disposition_of(UNKNOWN_NAME@)),
        ],
{
    let ghost missing = name is None;
    match finish_get(content, name) {
        Ok(object) => {
            proof {
                if missing {
                    reveal_strlit("unknown");
                    assert(!UNKNOWN_NAME@.contains('.'));
                }
            }
            let content_type = content_type_for(object.file_name.as_str());
            object_response(object, content_type)
        },
        Err(error) => error_response(&error),
    }
}

} // verus!
