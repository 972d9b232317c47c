//! The request handlers, one per path of the service.
//!
//! A handler neither reads a file nor runs a command. It is a function from
//! what is known of a request, and from what has happened to it last, to what
//! the server does next. The server performs that and calls the handler
//! again, until the handler gives a response.

use crate::encode::{
    avif_commands, encode_avif, encode_jpeg, jpeg_commands, AVIF_COMMANDS, JPEG_COMMANDS,
};
use crate::media::{is_avif_source, is_image, mime_parsed, MediaType};
use crate::options::{
    effective_quality, quality_accepted, AVIFOptions, EncodeError, JpegOptions,
};
use crate::response::{
    compression_failed, greeting, image_response, missing_content_type, response_view,
    suggested_file_name, unsupported_avif_input, unsupported_format, write_suggested_file_name,
    Response, ResponseView, STATUS_BAD_REQUEST, STATUS_INTERNAL_SERVER_ERROR, STATUS_OK,
};
use vstd::prelude::*;

verus! {

/// What the service knows of an uploaded file besides its content.
#[derive(Clone, Debug, PartialEq, Eq)]
pub struct Upload {
    /// The declared media type, absent where none was declared or the
    /// declaration could not be read.
    pub content_type: Option<MediaType>,
    /// The declared file name, absent where none was declared.
    pub file_name: Option<String>,
    /// The number of bytes uploaded.
    pub size: u64,
}

impl Upload {
    /// Builds the record of an upload from what was declared with it. A
    /// declared media type that `mime` cannot read counts as absent.
    pub fn from_declared(content_type: Option<&str>, file_name: Option<&str>, size: u64) -> (upload:
        Upload)
        ensures
            match content_type {
                Some(text) => match mime_parsed(text@) {
                    Some(parts) => upload.content_type is Some && upload.content_type->0.type_@
                        == parts.0 && upload.content_type->0.subtype@ == parts.1
                        && upload.content_type->0.text@ == parts.2,
                    None => upload.content_type is None,
                },
                None => upload.content_type is None,
            },
            match file_name {
                Some(name) => upload.file_name is Some && upload.file_name->0@ == name@,
                None => upload.file_name is None,
            },
            upload.size == size,
    {
        let content_type = match content_type {
            Some(text) => MediaType::parse(text),
            None => None,
        };
        let file_name = match file_name {
            Some(name) => Some(name.to_owned()),
            None => None,
        };
        Upload { content_type, file_name, size }
    }
}

/// What has happened to a request last.
#[derive(Clone, Debug, PartialEq, Eq)]
pub enum Event {
    /// The upload has been received and stored.
    Received,
    /// A fresh output file exists. `input` is the path of the stored upload,
    /// `output` the path of the new file.
    Prepared { input: String, output: String },
    /// The command lines have been run. `outcomes` tells of each, in the
    /// order in which they ran, whether it was started and ended with
    /// success.
    Ran { outcomes: Vec<bool> },
    /// The file asked for has been read.
    Loaded { bytes: Vec<u8> },
    /// A file could not be created or read.
    Failed,
}

/// What the server does next for a request.
#[derive(Clone, Debug, PartialEq, Eq)]
pub enum Action {
    /// Send the response. The request is done.
    Respond(Response),
    /// Read the stored upload, then report `Event::Loaded`.
    ReadUpload,
    /// Create a fresh output file, then report `Event::Prepared`.
    Prepare,
    /// Run each command line through a shell, one after the other and
    /// whatever the earlier ones came to, then report `Event::Ran`.
    Run(Vec<String>),
    /// Read the output file, then report `Event::Loaded`.
    ReadOutput,
    /// Send the response to a conversion. The request is done. The number is
    /// the size of the output in percent of the size of the upload, for the
    /// log; it is absent where there is no such number.
    Deliver(Response, Option<u64>),
    /// Send the response to a conversion that is not attempted. The request
    /// is done. The error is for the log: the response says nothing of it.
    Refuse(Response, EncodeError),
}

/// What an `Action` holds.
pub enum ActionView {
    Respond(ResponseView),
    ReadUpload,
    Prepare,
    Run(Seq<Seq<char>>),
    ReadOutput,
    Deliver(ResponseView, Option<u64>),
    Refuse(ResponseView, EncodeError),
}

impl View for Action {
    type V = ActionView;

    open spec fn view(&self) -> ActionView {
        match self {
            Action::Respond(response) => ActionView::Respond(response@),
            Action::ReadUpload => ActionView::ReadUpload,
            Action::Prepare => ActionView::Prepare,
            Action::Run(commands) => ActionView::Run(commands.deep_view()),
            Action::ReadOutput => ActionView::ReadOutput,
            Action::Deliver(response, percentage) => ActionView::Deliver(response@, *percentage),
            Action::Refuse(response, error) => ActionView::Refuse(response@, *error),
        }
    }
}

/// The media type of a JPEG image.
pub open spec fn jpeg_media_type() -> Seq<char> {
    "image/jpeg"@
}

/// The media type of an AVIF image.
pub open spec fn avif_media_type() -> Seq<char> {
    "image/avif"@
}

/// The refusal that an upload of the declared media type gets from every
/// handler, or `None` where the upload may proceed.
pub open spec fn content_type_refusal(content_type: Option<MediaType>) -> Option<ResponseView> {
    match content_type {
        None => Some(missing_content_type()),
        Some(media) => if is_image(media) {
            None
        } else {
            Some(unsupported_format())
        },
    }
}

/// The refusal that an upload of the declared media type gets from the AVIF
/// handler, or `None` where the upload may proceed.
pub open spec fn avif_refusal(content_type: Option<MediaType>) -> Option<ResponseView> {
    match content_type_refusal(content_type) {
        Some(refusal) => Some(refusal),
        None => if is_avif_source(content_type->0) {
            None
        } else {
            Some(unsupported_avif_input())
        },
    }
}

/// The size of the output in percent of the size of the input, rounded
/// down. There is none for an empty input, nor where the number is too
/// large for its type.
pub open spec fn size_percentage(output_bytes: nat, input_bytes: nat) -> Option<u64> {
    if input_bytes == 0 || output_bytes * 100 / input_bytes > u64::MAX {
        None
    } else {
        Some((output_bytes * 100 / input_bytes) as u64)
    }
}

/// What the echo handler decides.
pub open spec fn echo_image_step(upload: Upload, event: Event) -> ActionView {
    match content_type_refusal(upload.content_type) {
        Some(refusal) => ActionView::Respond(refusal),
        None => match event {
            Event::Loaded { bytes } => ActionView::Respond(
                image_response(upload.content_type->0.text@, None, bytes@),
            ),
            Event::Failed => ActionView::Respond(compression_failed()),
            _ => ActionView::ReadUpload,
        },
    }
}

/// Whether a run of `count` command lines went well: each of them was
/// started and ended with success.
pub open spec fn ran_well(outcomes: Seq<bool>, count: nat) -> bool {
    outcomes.len() == count && forall|i: int| 0 <= i < outcomes.len() ==> outcomes[i]
}

/// What follows a run of `count` command lines: the output is read where the
/// run went well, and the request has failed where it did not.
pub open spec fn after_run(outcomes: Seq<bool>, count: nat) -> ActionView {
    if ran_well(outcomes, count) {
        ActionView::ReadOutput
    } else {
        ActionView::Respond(compression_failed())
    }
}

/// The last action of a conversion of `upload` that gave `bytes`: the output
/// is sent under the name of the upload with `extension` appended. For an
/// upload without a name there is no such name, and the request has failed.
pub open spec fn delivery(
    upload: Upload,
    media_type: Seq<char>,
    extension: Seq<char>,
    bytes: Seq<u8>,
) -> ActionView {
    match upload.file_name {
        Some(name) => ActionView::Deliver(
            image_response(media_type, Some(suggested_file_name(name@, extension)), bytes),
            size_percentage(bytes.len(), upload.size as nat),
        ),
        None => ActionView::Respond(compression_failed()),
    }
}

/// What the JPEG handler decides.
pub open spec fn jpeg_step(upload: Upload, options: JpegOptions, event: Event) -> ActionView {
    match content_type_refusal(upload.content_type) {
        Some(refusal) => ActionView::Respond(refusal),
        None => if !quality_accepted(options.quality) {
            ActionView::Refuse(compression_failed(), EncodeError::InvalidQuality)
        } else {
            match event {
                Event::Received => ActionView::Prepare,
                Event::Prepared { input, output } => ActionView::Run(
                    jpeg_commands(input@, output@, options.quality),
                ),
                Event::Ran { outcomes } => after_run(outcomes@, JPEG_COMMANDS as nat),
                Event::Loaded { bytes } => delivery(upload, jpeg_media_type(), ".jpeg"@, bytes@),
                Event::Failed => ActionView::Respond(compression_failed()),
            }
        },
    }
}

/// What the AVIF handler decides.
pub open spec fn avif_step(upload: Upload, options: AVIFOptions, event: Event) -> ActionView {
    match avif_refusal(upload.content_type) {
        Some(refusal) => ActionView::Respond(refusal),
        None => if !quality_accepted(options.quality) {
            ActionView::Refuse(compression_failed(), EncodeError::InvalidQuality)
        } else {
            match event {
                Event::Received => ActionView::Prepare,
                Event::Prepared { input, output } => ActionView::Run(
                    avif_commands(input@, output@, options),
                ),
                Event::Ran { outcomes } => after_run(outcomes@, AVIF_COMMANDS as nat),
                Event::Loaded { bytes } => delivery(upload, avif_media_type(), ".avif"@, bytes@),
                Event::Failed => ActionView::Respond(compression_failed()),
            }
        },
    }
}

/// The handler of the root path.
pub fn hello() -> (response: Response)
    ensures
        response@ == greeting(),
{
    Response::message(STATUS_OK, "Hello world!")
}

/// The guard that every upload handler applies first. It gives the refusal
/// to send, or `None` where the upload is declared as an image.
pub fn is_file_image(input_mime: &Option<MediaType>) -> (refusal: Option<Response>)
    ensures
        response_view(refusal) == content_type_refusal(*input_mime),
{
    match input_mime {
        None => Some(Response::message(STATUS_BAD_REQUEST, "Bad file content type?")),
        Some(media) => {
            if media.is_image() {
                None
            } else {
                Some(
                    Response::message(
                        STATUS_BAD_REQUEST,
                        "File uploaded in not a supported format!",
                    ),
                )
            }
        },
    }
}

/// The guard of the AVIF handler: that of every handler, then the test of
/// the subtype.
pub fn is_file_avif_source(input_mime: &Option<MediaType>) -> (refusal: Option<Response>)
    ensures
        response_view(refusal) == avif_refusal(*input_mime),
{
    match is_file_image(input_mime) {
        Some(refusal) => Some(refusal),
        None => {
            match input_mime {
                Some(media) => {
                    if media.is_avif_source() {
                        None
                    } else {
                        Some(
                            Response::message(
                                STATUS_BAD_REQUEST,
                                "Only PNG and JPEG inputs are allowed for AVIF at the moment",
                            ),
                        )
                    }
                },
                None => None,
            }
        },
    }
}

/// Computes the size of the output in percent of the size of the input.
pub fn compute_size_percentage(output_bytes: u64, input_bytes: u64) -> (percentage: Option<u64>)
    ensures
        percentage == size_percentage(output_bytes as nat, input_bytes as nat),
{
    if input_bytes == 0 {
        return None;
    }
    let scaled: u128 = (output_bytes as u128) * 100;
    let quotient: u128 = scaled / (input_bytes as u128);
    if quotient > u64::MAX as u128 {
        None
    } else {
        Some(quotient as u64)
    }
}

/// Builds the answer to a conversion that is not attempted.
fn refuse(error: EncodeError) -> (action: Action)
    ensures
        action@ == ActionView::Refuse(compression_failed(), error),
{
    Action::Refuse(
        Response::message(STATUS_INTERNAL_SERVER_ERROR, "Compression failed"),
        error,
    )
}

/// Builds the answer to a request that failed in the service.
fn failure() -> (action: Action)
    ensures
        action@ == ActionView::Respond(compression_failed()),
{
    Action::Respond(Response::message(STATUS_INTERNAL_SERVER_ERROR, "Compression failed"))
}

/// Decides what follows a run of `count` command lines.
fn conclude_run(outcomes: &Vec<bool>, count: usize) -> (action: Action)
    ensures
        action@ == after_run(outcomes@, count as nat),
{
    if outcomes.len() != count {
        return failure();
    }
    let mut i: usize = 0;
    while i < outcomes.len()
        invariant
            i <= outcomes.len(),
            outcomes.len() == count,
            forall|j: int| 0 <= j < i ==> outcomes@[j],
        decreases outcomes.len() - i,
    {
        if !outcomes[i] {
            return failure();
        }
        i += 1;
    }
    Action::ReadOutput
}

/// Builds the last action of a conversion that gave `bytes`.
fn deliver(upload: &Upload, media_type: &str, extension: &str, bytes: Vec<u8>) -> (action: Action)
    ensures
        action@ == delivery(*upload, media_type@, extension@, bytes@),
{
    match &upload.file_name {
        Some(name) => {
            let suggested = write_suggested_file_name(name.as_str(), extension);
            let percentage = compute_size_percentage(bytes.len() as u64, upload.size);
            Action::Deliver(
                Response::image(media_type.to_owned(), Some(suggested), bytes),
                percentage,
            )
        },
        None => failure(),
    }
}

/// The handler of `/echo-image`: an image comes back as it was sent.
pub fn echo_image(upload: &Upload, event: Event) -> (action: Action)
    ensures
        action@ == echo_image_step(*upload, event),
{
    match is_file_image(&upload.content_type) {
        Some(refusal) => {
            return Action::Respond(refusal);
        },
        None => {},
    }
    match event {
        Event::Loaded { bytes } => {
            let content_type = match &upload.content_type {
                Some(media) => media.text.clone(),
                None => String::new(),
            };
            Action::Respond(Response::image(content_type, None, bytes))
        },
        Event::Failed => failure(),
        _ => Action::ReadUpload,
    }
}

/// The handler of `/jpeg`: an image comes back as a JPEG file.
pub fn jpeg(upload: &Upload, options: &JpegOptions, event: Event) -> (action: Action)
    ensures
        action@ == jpeg_step(*upload, *options, event),
{
    match is_file_image(&upload.content_type) {
        Some(refusal) => {
            return Action::Respond(refusal);
        },
        None => {},
    }
    match effective_quality(options.quality) {
        Ok(_) => {},
        Err(error) => {
            return refuse(error);
        },
    }
    match event {
        Event::Received => Action::Prepare,
        Event::Prepared { input, output } => match encode_jpeg(
            input.as_str(),
            output.as_str(),
            options.quality,
        ) {
            Ok(commands) => Action::Run(commands),
            Err(error) => refuse(error),
        },
        Event::Ran { outcomes } => conclude_run(&outcomes, JPEG_COMMANDS),
        Event::Loaded { bytes } => deliver(upload, "image/jpeg", ".jpeg", bytes),
        Event::Failed => failure(),
    }
}

/// The handler of `/avif`: a PNG or JPEG image comes back as an AVIF file.
pub fn avif(upload: &Upload, options: &AVIFOptions, event: Event) -> (action: Action)
    ensures
        action@ == avif_step(*upload, *options, event),
{
    match is_file_avif_source(&upload.content_type) {
        Some(refusal) => {
            return Action::Respond(refusal);
        },
        None => {},
    }
    match effective_quality(options.quality) {
        Ok(_) => {},
        Err(error) => {
            return refuse(error);
        },
    }
    match event {
        Event::Received => Action::Prepare,
        Event::Prepared { input, output } => match encode_avif(
            input.as_str(),
            output.as_str(),
            options,
        ) {
            Ok(commands) => Action::Run(commands),
            Err(error) => refuse(error),
        },
        Event::Ran { outcomes } => conclude_run(&outcomes, AVIF_COMMANDS),
        Event::Loaded { bytes } => deliver(upload, "image/avif", ".avif", bytes),
        Event::Failed => failure(),
    }
}

/// An upload that declares no media type, or one that is not an image, is
/// refused with status 400 by every upload handler, whatever has happened to
/// the request and whatever the options are.
pub proof fn lemma_not_an_image_is_refused(
    upload: Upload,
    jpeg_options: JpegOptions,
    avif_options: AVIFOptions,
    event: Event,
)
    requires
        upload.content_type matches Some(media) ==> !is_image(media),
    ensures
        ({
            let refusal = if upload.content_type is None {
                missing_content_type()
            } else {
                unsupported_format()
            };
            &&& refusal.status == 400
            &&& echo_image_step(upload, event) == ActionView::Respond(refusal)
            &&& jpeg_step(upload, jpeg_options, event) == ActionView::Respond(refusal)
            &&& avif_step(upload, avif_options, event) == ActionView::Respond(refusal)
        }),
{
}

/// The AVIF handler refuses with status 400 every upload whose subtype is
/// not `png`, `jpg` or `jpeg`, an image or not.
pub proof fn lemma_avif_takes_png_and_jpeg_only(upload: Upload, options: AVIFOptions, event: Event)
    requires
        upload.content_type matches Some(media) && !is_avif_source(media),
    ensures
        ({
            let refusal = if is_image(upload.content_type->0) {
                unsupported_avif_input()
            } else {
                unsupported_format()
            };
            &&& refusal.status == 400
            &&& avif_step(upload, options, event) == ActionView::Respond(refusal)
        }),
{
}

/// With a quality above 100 the JPEG handler has no file made, no command
/// run and no image sent, and it answers an upload that it does not refuse
/// with status 500.
pub proof fn lemma_jpeg_refuses_quality_above_100(
    upload: Upload,
    options: JpegOptions,
    event: Event,
)
    requires
        options.quality matches Some(quality) && quality > 100,
    ensures
        !(jpeg_step(upload, options, event) is Prepare),
        !(jpeg_step(upload, options, event) is Run),
        !(jpeg_step(upload, options, event) is ReadOutput),
        !(jpeg_step(upload, options, event) is Deliver),
        content_type_refusal(upload.content_type) is None ==> jpeg_step(upload, options, event)
            == ActionView::Refuse(compression_failed(), EncodeError::InvalidQuality),
        compression_failed().status == 500,
{
}

/// With a quality above 100 the AVIF handler has no file made, no command
/// run and no image sent, and it answers an upload that it does not refuse
/// with status 500. This holds also where lossless encoding or a target size
/// is asked for, so that the quality would not be in force.
pub proof fn lemma_avif_refuses_quality_above_100(
    upload: Upload,
    options: AVIFOptions,
    event: Event,
)
    requires
        options.quality matches Some(quality) && quality > 100,
    ensures
        !(avif_step(upload, options, event) is Prepare),
        !(avif_step(upload, options, event) is Run),
        !(avif_step(upload, options, event) is ReadOutput),
        !(avif_step(upload, options, event) is Deliver),
        avif_refusal(upload.content_type) is None ==> avif_step(upload, options, event)
            == ActionView::Refuse(compression_failed(), EncodeError::InvalidQuality),
        compression_failed().status == 500,
{
}

/// The echo handler sends an image back as it came: the body is the bytes
/// uploaded, the media type the one declared.
pub proof fn lemma_echo_round_trip(upload: Upload, bytes: Vec<u8>)
    requires
        upload.content_type matches Some(media) && is_image(media),
    ensures
        echo_image_step(upload, Event::Loaded { bytes }) == ActionView::Respond(
            ResponseView {
                status: 200,
                content_type: Some(upload.content_type->0.text@),
                content_disposition: None,
                body: bytes@,
            },
        ),
{
}

/// A conversion that has come to its end sends the output as it was read,
/// with status 200, under the media type of the output format, and under
/// the name of the upload with the extension of the output format appended.
pub proof fn lemma_conversion_is_delivered(
    upload: Upload,
    jpeg_options: JpegOptions,
    avif_options: AVIFOptions,
    bytes: Vec<u8>,
)
    requires
        upload.file_name is Some,
    ensures
        content_type_refusal(upload.content_type) is None && quality_accepted(jpeg_options.quality)
            ==> jpeg_step(upload, jpeg_options, Event::Loaded { bytes }) == ActionView::Deliver(
            ResponseView {
                status: 200,
                content_type: Some("image/jpeg"@),
                content_disposition: Some("filename=\""@ + upload.file_name->0@ + ".jpeg"@ + "\""@),
                body: bytes@,
            },
            size_percentage(bytes@.len(), upload.size as nat),
        ),
        avif_refusal(upload.content_type) is None && quality_accepted(avif_options.quality)
            ==> avif_step(upload, avif_options, Event::Loaded { bytes }) == ActionView::Deliver(
            ResponseView {
                status: 200,
                content_type: Some("image/avif"@),
                content_disposition: Some("filename=\""@ + upload.file_name->0@ + ".avif"@ + "\""@),
                body: bytes@,
            },
            size_percentage(bytes@.len(), upload.size as nat),
        ),
{
}

} // verus!
