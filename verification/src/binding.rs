//! The two XML syntaxes of the standard, and the detection of a document's binding.

use vstd::prelude::*;
use crate::error::{Error, ErrorView};
use crate::namespace::Namespace;
use crate::text::str_eq;
use crate::token::{
    next_event, open_reader, spec_ends_reading, spec_event_stream, spec_reader_events, spec_xml_events, XmlEvent,
    XmlEventView,
};

verus! {

/// A serialization binding: one of the two EN-16931 XML syntaxes.
#[derive(Debug, Clone, Copy, PartialEq, Eq, Structural)]
pub enum Binding {
    /// OASIS Universal Business Language.
    Ubl,
    /// UN/CEFACT Cross Industry Invoice.
    Cii,
}

/// The namespace of the root of a UBL credit note.
pub open spec fn spec_ubl_credit_note_uri() -> Seq<char> {
    "urn:oasis:names:specification:ubl:schema:xsd:CreditNote-2"@
}

/// The binding a root namespace denotes: UBL for the root of an invoice or of a credit note,
/// CII for the root of a cross-industry invoice, and an error for any other namespace
/// or for a root without one.
pub open spec fn spec_from_root(namespace: Option<Seq<char>>) -> Result<Binding, ErrorView> {
    match namespace {
        None => Err(ErrorView::MalformedXml("the root element has no namespace"@)),
        Some(uri) => if uri == crate::ubl::Namespace::Inv.spec_uri() || uri
            == spec_ubl_credit_note_uri() {
            Ok(Binding::Ubl)
        } else if uri == crate::cii::Namespace::Rsm.spec_uri() {
            Ok(Binding::Cii)
        } else {
            Err(ErrorView::MalformedXml("unrecognized root namespace: "@ + uri))
        },
    }
}

/// The binding of a document whose reader yields the events, looked for from the event at
/// `i` on: that of the namespace of the first element; an error of the reader, or the end of the
/// document before any element, yield `MalformedXml`.
pub open spec fn spec_detect(events: Seq<Result<XmlEventView, Seq<char>>>, i: int) -> Result<Binding, ErrorView>
    decreases events.len() - i,
{
    if i < 0 || i >= events.len() {
        Err(ErrorView::MalformedXml("no root element"@))
    } else {
        match events[i] {
            Err(m) => Err(ErrorView::MalformedXml(m)),
            Ok(XmlEventView::Start { namespace, .. }) => spec_from_root(namespace),
            Ok(XmlEventView::Eof) => Err(ErrorView::MalformedXml("no root element"@)),
            Ok(_) => spec_detect(events, i + 1),
        }
    }
}

impl Binding {
    /// The binding the namespace of a document's root names.
    pub fn from_root(namespace: &Option<String>) -> (r: Result<Binding, Error>)
        ensures
            match spec_from_root(
                match namespace {
                    Some(u) => Some(u@),
                    None => None,
                },
            ) {
                Ok(b) => r == Ok::<Binding, Error>(b),
                Err(e) => r matches Err(x) && x@ == e,
            },
    {
        let uri = match namespace {
            None => {
                return Err(Error::malformed_xml("the root element has no namespace"));
            },
            Some(uri) => uri.as_str(),
        };
        if str_eq(uri, crate::ubl::Namespace::Inv.uri()) || str_eq(
            uri,
            "urn:oasis:names:specification:ubl:schema:xsd:CreditNote-2",
        ) {
            Ok(Binding::Ubl)
        } else if str_eq(uri, crate::cii::Namespace::Rsm.uri()) {
            Ok(Binding::Cii)
        } else {
            Err(Error::malformed_xml_with("unrecognized root namespace: ", uri))
        }
    }

    /// Detects the binding from the namespace of the document's root element.
    /// A malformed document or an unrecognized root namespace yield `Error::MalformedXml`.
    ///
    /// What comes back is the binding of the namespace the reader reports for the first
    /// element of the document (`spec_detect` of the events the reader yields for the text).
    pub fn detect(xml: &str) -> (r: Result<Binding, Error>)
        ensures
            match spec_detect(spec_xml_events(xml@), 0) {
                Ok(b) => r == Ok::<Binding, Error>(b),
                Err(e) => r matches Err(x) && x@ == e,
            },
    {
        let mut reader = open_reader(xml);
        let ghost all = spec_xml_events(xml@);
        let ghost mut read: int = 0;
        proof {
            assert(all.skip(0) =~= all);
        }
        loop
            invariant
                all == spec_xml_events(xml@),
                spec_event_stream(all),
                0 <= read < all.len(),
                spec_reader_events(reader) == all.skip(read),
                spec_detect(all, read) == spec_detect(all, 0),
            decreases all.len() - read,
        {
            proof {
                assert(all.skip(read)[0] == all[read]);
                assert(all.skip(read).drop_first() =~= all.skip(read + 1));
            }
            match next_event(&mut reader) {
                Err(message) => {
                    return Err(Error::MalformedXml(message));
                },
                Ok(XmlEvent::Start { namespace, .. }) => {
                    return Binding::from_root(&namespace);
                },
                Ok(XmlEvent::Eof) => {
                    return Err(Error::malformed_xml("no root element"));
                },
                Ok(_) => {},
            }
            proof {
                assert(!spec_ends_reading(all[read]));
                read = read + 1;
            }
        }
    }
}

} // verus!
