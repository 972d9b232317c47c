//! The responses of the service, as plain values.

use vstd::prelude::*;

verus! {

/// Status of a request that was served.
pub const STATUS_OK: u16 = 200;

/// Status of a request that the client got wrong.
pub const STATUS_BAD_REQUEST: u16 = 400;

/// Status of a request that failed in the service.
pub const STATUS_INTERNAL_SERVER_ERROR: u16 = 500;

/// A response: its status, the two headers the service sets, and its body.
#[derive(Clone, Debug, PartialEq, Eq)]
pub struct Response {
    pub status: u16,
    pub content_type: Option<String>,
    pub content_disposition: Option<String>,
    pub body: Vec<u8>,
}

/// What a `Response` holds.
pub struct ResponseView {
    pub status: u16,
    pub content_type: Option<Seq<char>>,
    pub content_disposition: Option<Seq<char>>,
    pub body: Seq<u8>,
}

impl View for Response {
    type V = ResponseView;

    open spec fn view(&self) -> ResponseView {
        ResponseView {
            status: self.status,
            content_type: self.content_type.deep_view(),
            content_disposition: self.content_disposition.deep_view(),
            body: self.body@,
        }
    }
}

/// What an optional response holds.
pub open spec fn response_view(response: Option<Response>) -> Option<ResponseView> {
    match response {
        Some(r) => Some(r@),
        None => None,
    }
}

/// A response without headers whose body is `message` in UTF-8.
pub open spec fn message_response(status: u16, message: Seq<char>) -> ResponseView {
    ResponseView {
        status,
        content_type: None,
        content_disposition: None,
        body: vstd::utf8::encode_utf8(message),
    }
}

/// The answer to a request for the root path.
pub open spec fn greeting() -> ResponseView {
    message_response(STATUS_OK, "Hello world!"@)
}

/// The refusal of an upload that declares no media type.
pub open spec fn missing_content_type() -> ResponseView {
    message_response(STATUS_BAD_REQUEST, "Bad file content type?"@)
}

/// The refusal of an upload that is not declared as an image.
pub open spec fn unsupported_format() -> ResponseView {
    message_response(STATUS_BAD_REQUEST, "File uploaded in not a supported format!"@)
}

/// The refusal of an image that the AVIF conversion does not take.
pub open spec fn unsupported_avif_input() -> ResponseView {
    message_response(
        STATUS_BAD_REQUEST,
        "Only PNG and JPEG inputs are allowed for AVIF at the moment"@,
    )
}

/// The answer to a request that failed in the service: an encode operation
/// was refused, a command or a file failed, or the upload has no name to
/// send the output under. It says nothing of the cause.
pub open spec fn compression_failed() -> ResponseView {
    message_response(STATUS_INTERNAL_SERVER_ERROR, "Compression failed"@)
}

/// The answer that carries an image.
pub open spec fn image_response(
    content_type: Seq<char>,
    content_disposition: Option<Seq<char>>,
    body: Seq<u8>,
) -> ResponseView {
    ResponseView { status: STATUS_OK, content_type: Some(content_type), content_disposition, body }
}

/// The header value that suggests `name` with `extension` appended as the
/// name of the file sent.
pub open spec fn suggested_file_name(name: Seq<char>, extension: Seq<char>) -> Seq<char> {
    "filename=\""@ + name + extension + "\""@
}

impl Response {
    /// Builds a response without headers whose body is `message`.
    pub fn message(status: u16, message: &str) -> (response: Response)
        ensures
            response@ == message_response(status, message@),
    {
        Response {
            status,
            content_type: None,
            content_disposition: None,
            body: message.as_bytes_vec(),
        }
    }

    /// Builds the answer that carries an image of the given media type.
    pub fn image(content_type: String, content_disposition: Option<String>, body: Vec<u8>) -> (response:
        Response)
        ensures
            response@ == image_response(content_type@, content_disposition.deep_view(), body@),
    {
        Response { status: STATUS_OK, content_type: Some(content_type), content_disposition, body }
    }
}

/// Writes the header value that suggests `name` with `extension` appended.
pub fn write_suggested_file_name(name: &str, extension: &str) -> (value: String)
    ensures
        value@ == suggested_file_name(name@, extension@),
{
    let mut value = "filename=\"".to_owned();
    value.append(name);
    value.append(extension);
    value.append("\"");
    value
}

} // verus!
