//! Media types as clients declare them.

use vstd::prelude::*;

verus! {

/// A media type: its top-level type, its subtype, and the whole of it as
/// text, parameters included.
#[derive(Clone, Debug, PartialEq, Eq)]
pub struct MediaType {
    pub type_: String,
    pub subtype: String,
    pub text: String,
}

/// What `mime` reads in a declared media type: `None` where its parser
/// refuses the text, else the top-level type, the subtype and the whole text
/// of the parsed value, in this order and as `mime` writes them.
pub uninterp spec fn mime_parsed(text: Seq<char>) -> Option<(Seq<char>, Seq<char>, Seq<char>)>;

/// Calls `mime`'s `FromStr::from_str` for `Mime` on `text`. Nothing is
/// proved of it. The contract claims that the outcome depends on `text`
/// alone and names it `mime_parsed`: its parts are what `Mime::type_`,
/// `Mime::subtype` and `Mime::as_ref` give for the parsed value.
#[verifier::external_body]
fn parse_with_mime(text: &str) -> (parts: Option<(String, String, String)>)
    ensures
        parts.deep_view() == mime_parsed(text@),
{
    match text.parse::<mime::Mime>() {
        Ok(parsed) => Some(
            (
                parsed.type_().as_str().to_string(),
                parsed.subtype().as_str().to_string(),
                parsed.as_ref().to_string(),
            ),
        ),
        Err(_) => None,
    }
}

/// Whether a media type is an image.
pub open spec fn is_image(media: MediaType) -> bool {
    media.type_@ == "image"@
}

/// Whether a media type is one that the AVIF conversion takes: its subtype
/// is `png`, `jpg` or `jpeg`.
pub open spec fn is_avif_source(media: MediaType) -> bool {
    media.subtype@ == "png"@ || media.subtype@ == "jpg"@ || media.subtype@ == "jpeg"@
}

/// Whether two texts are the same.
fn same_text(left: &str, right: &str) -> (same: bool)
    ensures
        same == (left@ == right@),
{
    left.to_owned() == right.to_owned()
}

impl MediaType {
    /// Builds a media type from its parts.
    pub fn new(type_: &str, subtype: &str, text: &str) -> (media: MediaType)
        ensures
            media.type_@ == type_@,
            media.subtype@ == subtype@,
            media.text@ == text@,
    {
        MediaType { type_: type_.to_owned(), subtype: subtype.to_owned(), text: text.to_owned() }
    }

    /// Reads a declared media type. The result is `None` exactly where
    /// `mime` refuses the text.
    pub fn parse(text: &str) -> (media: Option<MediaType>)
        ensures
            match mime_parsed(text@) {
                Some(parts) => media is Some && media->0.type_@ == parts.0 && media->0.subtype@
                    == parts.1 && media->0.text@ == parts.2,
                None => media is None,
            },
    {
        match parse_with_mime(text) {
            Some(parts) => Some(MediaType { type_: parts.0, subtype: parts.1, text: parts.2 }),
            None => None,
        }
    }

    /// Tells whether the media type is an image.
    pub fn is_image(&self) -> (image: bool)
        ensures
            image == is_image(*self),
    {
        same_text(self.type_.as_str(), "image")
    }

    /// Tells whether the AVIF conversion takes the media type.
    pub fn is_avif_source(&self) -> (accepted: bool)
        ensures
            accepted == is_avif_source(*self),
    {
        let subtype = self.subtype.as_str();
        same_text(subtype, "png") || same_text(subtype, "jpg") || same_text(subtype, "jpeg")
    }
}

} // verus!
