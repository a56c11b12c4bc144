//! Errors reported by the library.
//!
//! Every failure is one of three kinds and carries a message written for a
//! human operator. Contracts speak of an error through its view, which keeps
//! the kind and the characters of the message.

use std::borrow::Cow;
use vstd::prelude::*;

verus! {

/// The result of an operation that can fail with a [`PrinterError`].
pub type Result<T> = std::result::Result<T, PrinterError>;

/// What went wrong, with a message for a human operator.
#[derive(Debug)]
pub enum PrinterError {
    /// A local resource (a file, a buffer) failed.
    Io(String),
    /// The caller's data cannot be used for the operation: an unsupported
    /// page code, a character the page code lacks, malformed command bytes.
    Input(String),
    /// The remote device could not be reached.
    Network(String),
}

/// A [`PrinterError`] as a mathematical value: its kind and the characters of
/// its message.
pub enum PrinterErrorView {
    Io(Seq<char>),
    Input(Seq<char>),
    Network(Seq<char>),
}

impl PrinterErrorView {
    /// The message alone, whatever the kind.
    pub open spec fn message(self) -> Seq<char> {
        match self {
            PrinterErrorView::Io(message) => message,
            PrinterErrorView::Input(message) => message,
            PrinterErrorView::Network(message) => message,
        }
    }

    /// The words that announce the kind in the printed form of an error.
    pub open spec fn label(self) -> Seq<char> {
        match self {
            PrinterErrorView::Io(_) => "IO error: "@,
            PrinterErrorView::Input(_) => "Input error: "@,
            PrinterErrorView::Network(_) => "Network error: "@,
        }
    }

    /// The printed form of an error: the label of its kind, then the message.
    pub open spec fn text(self) -> Seq<char> {
        self.label() + self.message()
    }
}

impl View for PrinterError {
    type V = PrinterErrorView;

    open spec fn view(&self) -> PrinterErrorView {
        match self {
            PrinterError::Io(message) => PrinterErrorView::Io(message@),
            PrinterError::Input(message) => PrinterErrorView::Input(message@),
            PrinterError::Network(message) => PrinterErrorView::Network(message@),
        }
    }
}

impl PrinterError {
    /// The printed form of the error, such as `Input error: no such page`.
    pub fn to_string(&self) -> (text: String)
        ensures
            text@ == self@.text(),
    {
        match self {
            PrinterError::Io(message) => String::from_str("IO error: ").concat(message.as_str()),
            PrinterError::Input(message) => String::from_str("Input error: ").concat(
                message.as_str(),
            ),
            PrinterError::Network(message) => String::from_str("Network error: ").concat(
                message.as_str(),
            ),
        }
    }
}

/// `std::io::Error`, carried through as an opaque value.
#[verifier::external_type_specification]
#[verifier::external_body]
pub struct ExIoError(std::io::Error);

/// `std::cell::BorrowMutError`, carried through as an opaque value.
#[verifier::external_type_specification]
#[verifier::external_body]
pub struct ExBorrowMutError(std::cell::BorrowMutError);

/// `image::ImageError`, carried through as an opaque value.
#[verifier::external_type_specification]
#[verifier::external_body]
pub struct ExImageError(image::ImageError);

/// `Cow::into_owned` on a string: the owned `String` has the characters that
/// the `Cow` had, whether it was borrowed or owned.
#[verifier::external_body]
fn owned_text(value: Cow<'_, str>) -> (text: String)
    ensures
        text@ == value@,
{
    value.into_owned()
}

/// An I/O failure becomes an `Io` error, whose message is the text that the
/// failure is printed as.
impl From<std::io::Error> for PrinterError {
    fn from(err: std::io::Error) -> (error: PrinterError)
        ensures
            error is Io,
            vstd::string::to_string_from_display_ensures::<std::io::Error>(
                &err,
                error->Io_0,
            ),
    {
        PrinterError::Io(err.to_string())
    }
}

impl vstd::std_specs::convert::FromSpecImpl<std::io::Error> for PrinterError {
    open spec fn obeys_from_spec() -> bool {
        false
    }

    open spec fn from_spec(err: std::io::Error) -> PrinterError {
        arbitrary()
    }
}

/// A bare message becomes an `Io` error with that message.
impl<'a> From<Cow<'a, str>> for PrinterError {
    fn from(value: Cow<'a, str>) -> (error: PrinterError)
        ensures
            error@ == PrinterErrorView::Io(value@),
    {
        PrinterError::Io(owned_text(value))
    }
}

impl<'a> vstd::std_specs::convert::FromSpecImpl<Cow<'a, str>> for PrinterError {
    open spec fn obeys_from_spec() -> bool {
        false
    }

    open spec fn from_spec(value: Cow<'a, str>) -> PrinterError {
        arbitrary()
    }
}

/// A value that was already borrowed becomes an `Io` error, whose message is
/// the text that the failure is printed as.
impl From<std::cell::BorrowMutError> for PrinterError {
    fn from(err: std::cell::BorrowMutError) -> (error: PrinterError)
        ensures
            error is Io,
            vstd::string::to_string_from_display_ensures::<std::cell::BorrowMutError>(
                &err,
                error->Io_0,
            ),
    {
        PrinterError::Io(err.to_string())
    }
}

impl vstd::std_specs::convert::FromSpecImpl<std::cell::BorrowMutError> for PrinterError {
    open spec fn obeys_from_spec() -> bool {
        false
    }

    open spec fn from_spec(err: std::cell::BorrowMutError) -> PrinterError {
        arbitrary()
    }
}

/// An integer that did not fit its target type becomes an `Io` error, whose
/// message is the text that the failure is printed as.
impl From<std::num::TryFromIntError> for PrinterError {
    fn from(err: std::num::TryFromIntError) -> (error: PrinterError)
        ensures
            error is Io,
            vstd::string::to_string_from_display_ensures::<std::num::TryFromIntError>(
                &err,
                error->Io_0,
            ),
    {
        PrinterError::Io(err.to_string())
    }
}

impl vstd::std_specs::convert::FromSpecImpl<std::num::TryFromIntError> for PrinterError {
    open spec fn obeys_from_spec() -> bool {
        false
    }

    open spec fn from_spec(err: std::num::TryFromIntError) -> PrinterError {
        arbitrary()
    }
}

/// A failure to read, write or convert an image becomes an `Io` error, whose
/// message is the text that the image library prints the failure as.
impl From<image::ImageError> for PrinterError {
    fn from(err: image::ImageError) -> (error: PrinterError)
        ensures
            error is Io,
            vstd::string::to_string_from_display_ensures::<image::ImageError>(
                &err,
                error->Io_0,
            ),
    {
        PrinterError::Io(err.to_string())
    }
}

impl vstd::std_specs::convert::FromSpecImpl<image::ImageError> for PrinterError {
    open spec fn obeys_from_spec() -> bool {
        false
    }

    open spec fn from_spec(err: image::ImageError) -> PrinterError {
        arbitrary()
    }
}

} // verus!
