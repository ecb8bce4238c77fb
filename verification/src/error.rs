//! What can go wrong in one run, and the text shown for it.

use vstd::prelude::*;

verus! {

/// The value on a listing page that a parse failure is about.
#[derive(Clone, Copy, Debug, PartialEq, Eq, Structural)]
pub enum Field {
    /// The heading with the job title.
    Title,
    /// The link with the company name.
    Company,
    /// The list item with the locations.
    Locations,
    /// The list item with the employment types.
    EmploymentTypes,
}

/// Why a listing page could not be read.
#[derive(Clone, Debug, PartialEq, Eq)]
pub enum ParseError {
    /// The page is larger than the parser takes.
    PageTooLarge,
    /// No element matches the selector of the field, or the one that does
    /// lacks the text or the attribute that holds the value.
    Missing(Field),
    /// An employment type on the page is not in the label table.
    UnknownJobType(String),
}

/// A `ParseError` with its text as a sequence of characters.
pub enum ParseErrorView {
    PageTooLarge,
    Missing(Field),
    UnknownJobType(Seq<char>),
}

impl View for ParseError {
    type V = ParseErrorView;

    open spec fn view(&self) -> ParseErrorView {
        match self {
            ParseError::PageTooLarge => ParseErrorView::PageTooLarge,
            ParseError::Missing(field) => ParseErrorView::Missing(*field),
            ParseError::UnknownJobType(label) => ParseErrorView::UnknownJobType(label@),
        }
    }
}

/// A failure that ends the run. None is recovered from.
#[derive(Clone, Debug, PartialEq, Eq)]
pub enum Error {
    /// A required configuration value is missing or cannot be used; the text
    /// names the value.
    Config(String),
    /// The page could not be fetched; the text is the cause.
    Network(String),
    /// The page does not have the expected structure.
    Parse(ParseError),
    /// The chat-completion call failed or gave nothing to use; the text is
    /// the cause.
    Inference(String),
}

/// An `Error` with its texts as sequences of characters.
pub enum ErrorView {
    Config(Seq<char>),
    Network(Seq<char>),
    Parse(ParseErrorView),
    Inference(Seq<char>),
}

impl View for Error {
    type V = ErrorView;

    open spec fn view(&self) -> ErrorView {
        match self {
            Error::Config(name) => ErrorView::Config(name@),
            Error::Network(cause) => ErrorView::Network(cause@),
            Error::Parse(error) => ErrorView::Parse(error@),
            Error::Inference(cause) => ErrorView::Inference(cause@),
        }
    }
}

/// The name of a field as it is written in messages.
pub open spec fn field_name(field: Field) -> Seq<char> {
    match field {
        Field::Title => "job title"@,
        Field::Company => "company name"@,
        Field::Locations => "locations"@,
        Field::EmploymentTypes => "employment types"@,
    }
}

/// The message for a parse failure.
pub open spec fn parse_error_message(error: ParseErrorView) -> Seq<char> {
    match error {
        ParseErrorView::PageTooLarge => "page too large"@,
        ParseErrorView::Missing(field) => "missing "@ + field_name(field),
        ParseErrorView::UnknownJobType(label) => "unknown employment type: "@ + label,
    }
}

/// The message for a failure: the kind of error, a colon, and the detail.
pub open spec fn error_message(error: ErrorView) -> Seq<char> {
    match error {
        ErrorView::Config(name) => "configuration error: "@ + name,
        ErrorView::Network(cause) => "network error: "@ + cause,
        ErrorView::Parse(inner) => "parse error: "@ + parse_error_message(inner),
        ErrorView::Inference(cause) => "inference error: "@ + cause,
    }
}

impl Field {
    /// The name of the field as it is written in messages.
    pub fn name(&self) -> (name: &'static str)
        ensures
            name@ == field_name(*self),
    {
        match self {
            Field::Title => "job title",
            Field::Company => "company name",
            Field::Locations => "locations",
            Field::EmploymentTypes => "employment types",
        }
    }
}

impl ParseError {
    /// The message for this failure.
    pub fn message(&self) -> (text: String)
        ensures
            text@ == parse_error_message(self@),
    {
        match self {
            ParseError::PageTooLarge => String::from_str("page too large"),
            ParseError::Missing(field) => String::from_str("missing ").concat(field.name()),
            ParseError::UnknownJobType(label) => String::from_str(
                "unknown employment type: ",
            ).concat(label.as_str()),
        }
    }
}

impl Error {
    /// The message shown when the run ends on this failure.
    pub fn message(&self) -> (text: String)
        ensures
            text@ == error_message(self@),
    {
        match self {
            Error::Config(name) => String::from_str("configuration error: ").concat(name.as_str()),
            Error::Network(cause) => String::from_str("network error: ").concat(cause.as_str()),
            Error::Parse(inner) => String::from_str("parse error: ").concat(
                inner.message().as_str(),
            ),
            Error::Inference(cause) => String::from_str("inference error: ").concat(
                cause.as_str(),
            ),
        }
    }
}

} // verus!
