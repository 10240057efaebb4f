//! Normalized report locations: one address stripped of the dialect of its validator.

use vstd::prelude::*;
use crate::error::Error;

verus! {

/// A normalized address of a report entry.
///
/// Nothing here is resolved yet. A namespace stays in the form its dialect wrote,
/// and a trailing step that addresses no element of the model, such as an attribute,
/// stays in place. Resolving the namespaces and dropping the unmatched tail
/// both belong to the match against a document.
#[derive(Debug, Clone, PartialEq, Eq)]
pub struct Location {
    /// The ordered steps from the document root down to the addressed node.
    pub steps: Vec<LocationStep>,
}

/// One step of a normalized address:
/// an element with its position among the same-named siblings.
///
/// The name and the namespace stay as the address wrote them.
/// A normalizer supplies `1` for a step whose dialect omits the index.
#[derive(Debug, Clone, PartialEq, Eq)]
pub struct LocationStep {
    /// The namespace the step belongs to, or `None` for a step that belongs to none,
    /// such as an attribute: no node of the document answers it.
    pub namespace: Option<RawNamespace>,
    /// The local name, copied verbatim from the address.
    pub name: String,
    /// The 1-based position among the same-named siblings.
    pub index: usize,
}

/// The namespace of a location step, in the form its dialect wrote it.
///
/// A URI already names the namespace.
/// An abbreviation names nothing on its own: only the table of the checked document binds it.
#[derive(Debug, Clone, PartialEq, Eq)]
pub enum RawNamespace {
    /// The full namespace URI.
    Uri(String),
    /// The abbreviation of a namespace, which the document's table resolves.
    Abbreviation(String),
}

/// Converts the error references of one validator into the normalized form.
///
/// An implementation for the dialect of a processor strips the processor-specific syntax of
/// its error references and converts them into the standard representation.
pub trait Normalizer {
    /// The error of a reference the dialect cannot read.
    type Error: Into<Error>;

    /// Turns a validator-specific location into its normalized form.
    fn normalize(&self, location: &str) -> Result<Location, Self::Error>;
}

} // verus!
