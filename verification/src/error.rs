//! Decode failures and how a `serde_json` error is turned into one.

use vstd::prelude::*;

verus! {

/// `serde_json::Error`, carried through as an opaque value.
#[verifier::external_type_specification]
#[verifier::external_body]
pub struct ExJsonError(serde_json::Error);

/// `serde_json::error::Category`, the four causes `serde_json` tells apart.
#[verifier::external_type_specification]
pub struct ExJsonCategory(serde_json::error::Category);

/// The category `serde_json::Error::classify` reports for an error.
pub uninterp spec fn json_error_category(e: serde_json::Error) -> serde_json::error::Category;

/// `serde_json::Error::classify` reads the category off the error's code; it
/// depends on nothing but the error and cannot fail.
pub assume_specification[ serde_json::Error::classify ](e: &serde_json::Error) -> (c:
    serde_json::error::Category)
    ensures
        c == json_error_category(*e),
;

/// Why a body could not be decoded.
#[derive(Clone, Copy, Debug, PartialEq, Eq, Structural)]
pub enum Cause {
    /// The body is not a well-formed document.
    Syntax,
    /// The document is well formed but does not have the target type's shape.
    Shape,
    /// The body ended, or could not be read, before the document was complete.
    Stream,
}

/// The cause that stands for a `serde_json` category.
pub open spec fn cause_of(c: serde_json::error::Category) -> Cause {
    match c {
        serde_json::error::Category::Syntax => Cause::Syntax,
        serde_json::error::Category::Data => Cause::Shape,
        serde_json::error::Category::Eof => Cause::Stream,
        serde_json::error::Category::Io => Cause::Stream,
    }
}

/// Maps a `serde_json` category to the cause it stands for.
pub fn cause_from_category(c: serde_json::error::Category) -> (cause: Cause)
    ensures
        cause == cause_of(c),
{
    match c {
        serde_json::error::Category::Syntax => Cause::Syntax,
        serde_json::error::Category::Data => Cause::Shape,
        serde_json::error::Category::Eof => Cause::Stream,
        serde_json::error::Category::Io => Cause::Stream,
    }
}

/// The text `serde_json` prints for an error that did not come from the
/// underlying stream.
pub uninterp spec fn json_error_text(e: serde_json::Error) -> Seq<char>;

/// `serde_json::Error`'s `Display`, through `to_string`. For every category
/// but `Io` the text is made of the error's code, line and column alone; for
/// `Io` it is the text of the stream's own error, of which nothing is claimed.
#[verifier::external_body]
fn error_text(e: &serde_json::Error) -> (text: String)
    ensures
        json_error_category(*e) != serde_json::error::Category::Io ==> text@ == json_error_text(*e),
{
    e.to_string()
}

/// What a [`DecodeError`] holds.
pub ghost struct DecodeErrorView {
    pub cause: Cause,
    pub message: Seq<char>,
}

/// The one failure a decode can end in: a cause and a text for a human reader.
#[derive(Debug)]
pub struct DecodeError {
    cause: Cause,
    message: String,
}

impl View for DecodeError {
    type V = DecodeErrorView;

    closed spec fn view(&self) -> DecodeErrorView {
        DecodeErrorView { cause: self.cause, message: self.message@ }
    }
}

/// Whether `err` is a faithful account of the `serde_json` error `e`: its
/// cause stands for the error's category and, unless the stream itself
/// failed, its message is the text `serde_json` prints.
pub open spec fn reports(err: DecodeErrorView, e: serde_json::Error) -> bool {
    &&& err.cause == cause_of(json_error_category(e))
    &&& json_error_category(e) != serde_json::error::Category::Io ==> err.message
        == json_error_text(e)
}

impl DecodeError {
    /// A failure with the given cause and text.
    pub fn new(cause: Cause, message: String) -> (err: DecodeError)
        ensures
            err@ == (DecodeErrorView { cause, message: message@ }),
    {
        DecodeError { cause, message }
    }

    /// The failure that stands for a `serde_json` error.
    pub fn from_json(e: &serde_json::Error) -> (err: DecodeError)
        ensures
            reports(err@, *e),
    {
        let cause = cause_from_category(e.classify());
        let message = error_text(e);
        DecodeError { cause, message }
    }

    /// Why the decode failed.
    pub fn cause(&self) -> (cause: Cause)
        ensures
            cause == self@.cause,
    {
        self.cause
    }

    /// The text that describes the failure.
    pub fn message(&self) -> (text: &str)
        ensures
            text@ == self@.message,
    {
        self.message.as_str()
    }
}

} // verus!
