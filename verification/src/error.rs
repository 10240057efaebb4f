//! The single error type of the library.

use vstd::prelude::*;
use crate::text::{append_str, owned};

verus! {

/// The single error type of the library.
#[derive(Debug, Clone, PartialEq, Eq)]
pub enum Error {
    /// A value rejected by a domain type for breaking its constraint.
    InvalidValue(String),
    /// A malformed XML document, or one with an unrecognized binding, rejected on parse.
    MalformedXml(String),
    /// An abbreviation the document binds to a second namespace.
    AmbiguousAbbreviation(String),
    /// An answer of a validator whose entries could not be read, with the reason.
    UnreadableReport(String),
    /// An address of a report entry that could not be rewritten into the normalized form.
    UnreadableLocation(String),
    /// An address of a report entry that binds to no node of the checked document,
    /// kept as the validator wrote it.
    UnboundLocation(String),
}

/// The value an error stands for: its kind and its text.
pub enum ErrorView {
    InvalidValue(Seq<char>),
    MalformedXml(Seq<char>),
    AmbiguousAbbreviation(Seq<char>),
    UnreadableReport(Seq<char>),
    UnreadableLocation(Seq<char>),
    UnboundLocation(Seq<char>),
}

impl View for Error {
    type V = ErrorView;

    open spec fn view(&self) -> ErrorView {
        match self {
            Error::InvalidValue(s) => ErrorView::InvalidValue(s@),
            Error::MalformedXml(s) => ErrorView::MalformedXml(s@),
            Error::AmbiguousAbbreviation(s) => ErrorView::AmbiguousAbbreviation(s@),
            Error::UnreadableReport(s) => ErrorView::UnreadableReport(s@),
            Error::UnreadableLocation(s) => ErrorView::UnreadableLocation(s@),
            Error::UnboundLocation(s) => ErrorView::UnboundLocation(s@),
        }
    }
}

/// The label that leads the rendering of each kind of error.
pub open spec fn spec_error_label(e: Error) -> Seq<char> {
    match e {
        Error::InvalidValue(_) => "invalid value: "@,
        Error::MalformedXml(_) => "malformed XML: "@,
        Error::AmbiguousAbbreviation(_) => "ambiguous abbreviation: "@,
        Error::UnreadableReport(_) => "unreadable report: "@,
        Error::UnreadableLocation(_) => "unreadable location: "@,
        Error::UnboundLocation(_) => "unbound location: "@,
    }
}

/// The detail an error carries.
pub open spec fn spec_error_detail(e: Error) -> Seq<char> {
    match e {
        Error::InvalidValue(s) => s@,
        Error::MalformedXml(s) => s@,
        Error::AmbiguousAbbreviation(s) => s@,
        Error::UnreadableReport(s) => s@,
        Error::UnreadableLocation(s) => s@,
        Error::UnboundLocation(s) => s@,
    }
}

impl Error {
    /// A malformed-XML error carrying the given message.
    pub fn malformed_xml(message: &str) -> (e: Error)
        ensures
            e matches Error::MalformedXml(m) && m@ == message@,
    {
        Error::MalformedXml(owned(message))
    }

    /// A malformed-XML error carrying `message` followed by `detail`.
    pub fn malformed_xml_with(message: &str, detail: &str) -> (e: Error)
        ensures
            e matches Error::MalformedXml(m) && m@ == message@ + detail@,
    {
        let mut m = owned(message);
        append_str(&mut m, detail);
        Error::MalformedXml(m)
    }

    /// An invalid-value error carrying the rejected text.
    pub fn invalid_value(value: &str) -> (e: Error)
        ensures
            e matches Error::InvalidValue(m) && m@ == value@,
    {
        Error::InvalidValue(owned(value))
    }

    /// The human-readable rendering of the error: its label, then its detail.
    pub fn to_string(&self) -> (s: String)
        ensures
            s@ == spec_error_label(*self) + spec_error_detail(*self),
    {
        match self {
            Error::InvalidValue(d) => {
                let mut s = owned("invalid value: ");
                append_str(&mut s, d.as_str());
                s
            },
            Error::MalformedXml(d) => {
                let mut s = owned("malformed XML: ");
                append_str(&mut s, d.as_str());
                s
            },
            Error::AmbiguousAbbreviation(d) => {
                let mut s = owned("ambiguous abbreviation: ");
                append_str(&mut s, d.as_str());
                s
            },
            Error::UnreadableReport(d) => {
                let mut s = owned("unreadable report: ");
                append_str(&mut s, d.as_str());
                s
            },
            Error::UnreadableLocation(d) => {
                let mut s = owned("unreadable location: ");
                append_str(&mut s, d.as_str());
                s
            },
            Error::UnboundLocation(d) => {
                let mut s = owned("unbound location: ");
                append_str(&mut s, d.as_str());
                s
            },
        }
    }
}

} // verus!
