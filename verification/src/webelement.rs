//! What the replies of the WebDriver server mean for an element.

use vstd::prelude::*;
use vstd::string::StringSliceAdditionalSpecFns;

verus! {

/// The value in a reply of the server, as far as an element cares: nothing, a
/// text, or something else.
#[derive(Debug, Clone, PartialEq, Eq)]
pub enum Reply {
    Null,
    Text(String),
    /// Any other value, written out as JSON.
    Other(String),
}

/// The value of a property. A property that is not a text is given as it is
/// written in JSON.
pub fn property_value(reply: Reply) -> (value: Option<String>)
    ensures
        value == match reply {
            Reply::Null => None,
            Reply::Text(text) => Some(text),
            Reply::Other(json) => Some(json),
        },
{
    match reply {
        Reply::Null => None,
        Reply::Text(text) => Some(text),
        Reply::Other(json) => Some(json),
    }
}

/// The value of an attribute: an attribute is a text or it is not there.
pub fn attribute_value(reply: Reply) -> (value: Option<String>)
    ensures
        value == match reply {
            Reply::Text(text) => Some(text),
            _ => None,
        },
{
    match reply {
        Reply::Text(text) => Some(text),
        _ => None,
    }
}

/// The value of a CSS property: a text, and the empty text where the reply
/// holds none.
pub fn css_value(reply: Reply) -> (value: String)
    ensures
        match reply {
            Reply::Text(text) => value == text,
            _ => value@ == Seq::<char>::empty(),
        },
{
    match reply {
        Reply::Text(text) => text,
        _ => String::new(),
    }
}

/// Why a read of an element failed.
#[derive(Debug, PartialEq, Eq)]
pub enum ReadFailure<E> {
    /// The server knows no such element, or the reference to it is stale.
    Gone,
    /// Any other failure.
    Other(E),
}

/// Whether an element is still part of the page, by an attempt to read its
/// tag name: it is when the read succeeds and it is not when the read fails
/// because the element is gone. Any other failure is passed on.
pub fn is_present<E>(tag_name_read: Result<(), ReadFailure<E>>) -> (present: Result<bool, E>)
    ensures
        present == match tag_name_read {
            Ok(_) => Ok::<bool, E>(true),
            Err(ReadFailure::Gone) => Ok(false),
            Err(ReadFailure::Other(e)) => Err(e),
        },
{
    match tag_name_read {
        Ok(_) => Ok(true),
        Err(ReadFailure::Gone) => Ok(false),
        Err(ReadFailure::Other(e)) => Err(e),
    }
}

/// The error of `base64::decode`. It is carried through as it is.
#[verifier::external_type_specification]
#[verifier::external_body]
pub struct ExDecodeError(base64::DecodeError);

/// The bytes that a text in base64 stands for, as `base64::decode` gives them
/// with its standard alphabet and padding; `None` where the text is no base64.
pub uninterp spec fn base64_decoded(encoded: Seq<char>) -> Option<Seq<u8>>;

/// The longest text, in bytes, that is handed to the decoder. No buffer can
/// be longer, and the decoder asks for one of three quarters of this length.
pub const DECODE_LIMIT: usize = usize::MAX / 2;

/// Calls `base64::decode`. It returns the decoded bytes or why the text is
/// not base64, and which of the two depends on the text alone. It panics
/// where it cannot size its buffer, three bytes for every four of the text
/// and a few more, so a text beyond the longest possible buffer is not
/// admitted.
#[verifier::external_body]
fn decode(encoded: &str) -> (decoded: Result<Vec<u8>, base64::DecodeError>)
    requires
        encoded.spec_bytes().len() <= DECODE_LIMIT,
    ensures
        match decoded {
            Ok(bytes) => base64_decoded(encoded@) == Some(bytes@),
            Err(_) => base64_decoded(encoded@) is None,
        },
{
    base64::decode(encoded)
}

/// Why a screenshot could not be turned into an image.
#[derive(Debug)]
pub enum ScreenshotError {
    /// The text is too long to be decoded at all.
    TooLong,
    /// The text is not base64.
    Invalid(base64::DecodeError),
}

/// The image of a screenshot that the server sent in base64.
pub fn screenshot_png(encoded: &str) -> (image: Result<Vec<u8>, ScreenshotError>)
    ensures
        match image {
            Ok(bytes) => encoded.spec_bytes().len() <= DECODE_LIMIT && base64_decoded(encoded@)
                == Some(bytes@),
            Err(ScreenshotError::TooLong) => encoded.spec_bytes().len() > DECODE_LIMIT,
            Err(ScreenshotError::Invalid(_)) => encoded.spec_bytes().len() <= DECODE_LIMIT
                && base64_decoded(encoded@) is None,
        },
{
    if encoded.as_bytes().len() > DECODE_LIMIT {
        return Err(ScreenshotError::TooLong);
    }
    match decode(encoded) {
        Ok(bytes) => Ok(bytes),
        Err(e) => Err(ScreenshotError::Invalid(e)),
    }
}

} // verus!
