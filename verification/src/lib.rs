//! Decisions of an image-conversion service: which uploads are accepted, which
//! encoder command lines are run for them, and which responses are sent.
//!
//! The service takes an image by multipart upload and sends it back as a JPEG
//! or an AVIF file, which command-line encoders make. This crate holds what
//! the service decides. It opens no socket, touches no file and starts no
//! process: a server around it does that, and asks a handler after each step
//! what comes next.

pub mod decimal;
pub mod encode;
pub mod handlers;
pub mod media;
pub mod options;
pub mod response;

pub use encode::{encode_avif, encode_jpeg};
pub use handlers::{avif, echo_image, hello, is_file_image, jpeg, Action, Event, Upload};
pub use media::MediaType;
pub use options::{AVIFOptions, AvifSettings, EncodeError, JpegOptions, SizeControl};
pub use response::Response;
