//! The HTTP camera source: a stream of JPEG files as the parts of a
//! `multipart` response.

use vstd::prelude::*;
use vstd::string::*;
use crate::text::str_eq;

verus! {

/// How long a connection may stay idle before the source connects again:
/// one second.
pub const HTTP_CONNECTION_TIMEOUT: u64 = 1_000_000_000;

/// A camera that streams over HTTP.
#[derive(Clone, Debug)]
pub struct HttpCameraSource {
    url: String,
}

impl HttpCameraSource {
    /// The address of the stream.
    pub closed spec fn spec_url(self) -> Seq<char> {
        self.url@
    }

    pub fn new(url: String) -> (source: HttpCameraSource)
        ensures
            source.spec_url() == url@,
    {
        HttpCameraSource { url }
    }

    /// The address of the stream.
    pub fn url(&self) -> (url: &str)
        ensures
            url@ == self.spec_url(),
    {
        self.url.as_str()
    }
}

/// What a content type says, as far as the source reads it.
pub struct ContentType {
    /// The top-level type, in lower case.
    pub top_level: String,
    /// The value of the parameter `boundary`, if there is one.
    pub boundary: Option<String>,
}

/// Why a response is not a stream of frames.
#[derive(Debug, Clone, Copy, PartialEq, Eq, Structural)]
pub enum ContentTypeError {
    /// The content type is not one.
    Malformed,
    /// The content type is not `multipart`.
    NotMultipart,
    /// The content type names no boundary.
    NoBoundary,
}

impl ContentType {
    /// The content type as plain values: the top-level type, and the value
    /// of the parameter `boundary`.
    pub open spec fn parts(self) -> (Seq<char>, Option<Seq<char>>) {
        (
            self.top_level@,
            match self.boundary {
                Some(value) => Some(value@),
                None => None,
            },
        )
    }
}

/// What the `mime` crate makes of the text of a content type: the top-level
/// type, which it gives in lower case, and the value of the parameter
/// `boundary`, where there is one; `None` where the crate refuses the text.
pub uninterp spec fn parsed_content_type(header: Seq<char>) -> Option<(Seq<char>, Option<Seq<char>>)>;

/// Parses a content type with the `mime` crate: `str::parse::<mime::Mime>`,
/// then `Mime::type_` and `Mime::get_param` for the boundary. `None` where
/// the crate refuses the text. What comes back is a function of the text
/// alone, and is given its name here.
#[verifier::external_body]
fn parse_content_type(header: &str) -> (parsed: Option<ContentType>)
    ensures
        match parsed {
            Some(content_type) => parsed_content_type(header@) == Some(content_type.parts()),
            None => parsed_content_type(header@).is_none(),
        },
{
    match header.parse::<mime::Mime>() {
        Ok(parsed) => {
            let boundary = match parsed.get_param(mime::BOUNDARY) {
                Some(value) => Some(value.as_str().to_owned()),
                None => None,
            };
            Some(ContentType { top_level: parsed.type_().as_str().to_owned(), boundary })
        },
        Err(_) => None,
    }
}

/// The boundary that a parsed content type names, or why it names none: the
/// content type must be `multipart` and must have a parameter `boundary`.
pub open spec fn boundary_named(parsed: Option<(Seq<char>, Option<Seq<char>>)>) -> Result<
    Seq<char>,
    ContentTypeError,
> {
    match parsed {
        None => Err(ContentTypeError::Malformed),
        Some((top_level, boundary)) => if top_level != "multipart"@ {
            Err(ContentTypeError::NotMultipart)
        } else {
            match boundary {
                Some(value) => Ok(value),
                None => Err(ContentTypeError::NoBoundary),
            }
        },
    }
}

/// The boundary between the parts of a response with the content type
/// `parsed`: the response must be `multipart` and name a boundary.
pub fn boundary_of(parsed: Option<ContentType>) -> (boundary: Result<String, ContentTypeError>)
    ensures
        match boundary {
            Ok(value) => {
                &&& parsed matches Some(content_type)
                &&& boundary_named(Some(content_type.parts())) == Ok::<
                    Seq<char>,
                    ContentTypeError,
                >(value@)
            },
            Err(error) => boundary_named(
                match parsed {
                    Some(content_type) => Some(content_type.parts()),
                    None => None,
                },
            ) == Err::<Seq<char>, ContentTypeError>(error),
        },
{
    match parsed {
        None => Err(ContentTypeError::Malformed),
        Some(content_type) => {
            if !str_eq(content_type.top_level.as_str(), "multipart") {
                return Err(ContentTypeError::NotMultipart);
            }
            match content_type.boundary {
                Some(named) => Ok(named),
                None => Err(ContentTypeError::NoBoundary),
            }
        },
    }
}

/// The boundary between the parts of a response with the content type
/// `header`, as the `mime` crate reads it: the content type must be one,
/// must be `multipart`, and must name a boundary.
pub fn multipart_boundary(header: &str) -> (boundary: Result<String, ContentTypeError>)
    ensures
        match boundary {
            Ok(value) => boundary_named(parsed_content_type(header@)) == Ok::<
                Seq<char>,
                ContentTypeError,
            >(value@),
            Err(error) => boundary_named(parsed_content_type(header@)) == Err::<
                Seq<char>,
                ContentTypeError,
            >(error),
        },
{
    boundary_of(parse_content_type(header))
}

} // verus!
