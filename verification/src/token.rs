//! The resolved tokens of a document: what the reading walk consumes and the writing walk emits.

use vstd::prelude::*;
use quick_xml::events::{BytesStart, Event};
use quick_xml::name::ResolveResult;
use quick_xml::reader::NsReader;
use crate::error::{Error, ErrorView};
use crate::namespace::{
    Abbreviations, Namespace, from_uri, spec_declare, spec_default_entries, spec_from_uri,
};
use crate::text::{append_str, owned, spec_trim, starts_with, str_eq, trim};

verus! {

/// One token of a document: an element opening with its resolved namespace and attributes,
/// a significant text, or the closing of the innermost open element.
#[derive(Debug, Clone, PartialEq, Eq)]
pub enum Token<N: Namespace> {
    /// The start of an element.
    Open { namespace: N, name: String, attributes: Vec<(String, String)> },
    /// A text that is not blank.
    Text(String),
    /// The end of the innermost open element.
    Close,
}

/// The value a token stands for.
pub enum TokenView<N> {
    Open { namespace: N, name: Seq<char>, attributes: Seq<(Seq<char>, Seq<char>)> },
    Text(Seq<char>),
    Close,
}

/// The attributes of an element, as values.
pub open spec fn spec_attributes(attributes: Seq<(String, String)>) -> Seq<(Seq<char>, Seq<char>)> {
    attributes.map_values(|a: (String, String)| (a.0@, a.1@))
}

impl<N: Namespace> Token<N> {
    pub open spec fn view(&self) -> TokenView<N> {
        match self {
            Token::Open { namespace, name, attributes } => TokenView::Open {
                namespace: *namespace,
                name: name@,
                attributes: spec_attributes(attributes@),
            },
            Token::Text(t) => TokenView::Text(t@),
            Token::Close => TokenView::Close,
        }
    }
}

/// The tokens of a list, as values.
pub open spec fn spec_tokens<N: Namespace>(tokens: Seq<Token<N>>) -> Seq<TokenView<N>> {
    tokens.map_values(|t: Token<N>| t.view())
}

/// An equal copy of an attribute list.
pub fn copy_attributes(attributes: &Vec<(String, String)>) -> (r: Vec<(String, String)>)
    ensures
        spec_attributes(r@) == spec_attributes(attributes@),
{
    let mut r: Vec<(String, String)> = Vec::new();
    let mut i: usize = 0;
    while i < attributes.len()
        invariant
            i <= attributes@.len(),
            r@.len() == i,
            forall|j: int| 0 <= j < i ==> (#[trigger] r@[j]).0@ == attributes@[j].0@ && r@[j].1@
                == attributes@[j].1@,
        decreases attributes@.len() - i,
    {
        r.push((owned(attributes[i].0.as_str()), owned(attributes[i].1.as_str())));
        i = i + 1;
    }
    assert(spec_attributes(r@) =~= spec_attributes(attributes@));
    r
}

/// One attribute of a start tag as the reader reports it:
/// its qualified key, its local key and its raw value.
pub struct XmlAttribute {
    pub key: String,
    pub local: String,
    pub value: String,
}

/// One event of the reader, in plain values.
pub enum XmlEvent {
    /// A start tag, or an empty element when `empty` holds.
    /// `namespace` is the URI its prefix resolves to, if any.
    Start { namespace: Option<String>, local: String, attributes: Vec<XmlAttribute>, empty: bool },
    /// An end tag.
    End,
    /// Character data, as written.
    Text(String),
    /// The end of the document.
    Eof,
    /// An event the walk does not read (a declaration, a comment, a reference, ...).
    Other,
}

/// The value a reader event stands for.
pub enum XmlEventView {
    Start {
        namespace: Option<Seq<char>>,
        local: Seq<char>,
        attributes: Seq<(Seq<char>, Seq<char>, Seq<char>)>,
        empty: bool,
    },
    End,
    Text(Seq<char>),
    Eof,
    Other,
}

/// The attributes of a start tag, as values.
pub open spec fn spec_xml_attributes(attributes: Seq<XmlAttribute>) -> Seq<(Seq<char>, Seq<char>, Seq<char>)> {
    attributes.map_values(|a: XmlAttribute| (a.key@, a.local@, a.value@))
}

impl XmlEvent {
    pub open spec fn view(&self) -> XmlEventView {
        match self {
            XmlEvent::Start { namespace, local, attributes, empty } => XmlEventView::Start {
                namespace: match namespace {
                    Some(u) => Some(u@),
                    None => None,
                },
                local: local@,
                attributes: spec_xml_attributes(attributes@),
                empty: *empty,
            },
            XmlEvent::End => XmlEventView::End,
            XmlEvent::Text(t) => XmlEventView::Text(t@),
            XmlEvent::Eof => XmlEventView::Eof,
            XmlEvent::Other => XmlEventView::Other,
        }
    }
}

#[verifier::external_type_specification]
#[verifier::external_body]
#[verifier::reject_recursive_types(R)]
pub struct ExNsReader<R>(NsReader<R>);

#[verifier::external_type_specification]
#[verifier::external_body]
pub struct ExBytesStart<'a>(BytesStart<'a>);

/// The events a reader over a text yields, read from its start: each the event or the message
/// of an error, the reader's own or one in the attributes of a start tag, up to and including
/// the first end of the document or error. It is a function of the characters of the text alone.
pub uninterp spec fn spec_xml_events(xml: Seq<char>) -> Seq<Result<XmlEventView, Seq<char>>>;

/// The results `next_event` has still to give on a reader, in turn, up to and including the
/// first end of the document or error: each an event or the message of an error, the reader's
/// own or one in the attributes of a start tag. Nothing is said of the reader once one of those
/// came back; the reading of this library stops there.
pub uninterp spec fn spec_reader_events(reader: NsReader<&[u8]>) -> Seq<Result<XmlEventView, Seq<char>>>;

/// Whether an event ends the reading: the end of the document or an error.
pub open spec fn spec_ends_reading(event: Result<XmlEventView, Seq<char>>) -> bool {
    event is Err || event matches Ok(XmlEventView::Eof)
}

/// Whether a sequence of events is what a reader yields up to its end: not empty, ending with
/// the end of the document or an error, and with no such event before.
pub open spec fn spec_event_stream(events: Seq<Result<XmlEventView, Seq<char>>>) -> bool {
    &&& events.len() > 0
    &&& spec_ends_reading(events.last())
    &&& forall|i: int| 0 <= i < events.len() - 1 ==> !spec_ends_reading(#[trigger] events[i])
}

/// A namespace-aware reader over a document.
///
/// Trusted: `NsReader::from_str`. The reader yields the events the name `spec_xml_events`
/// gives the text: finitely many, since every event but the last consumes input, ending with
/// the end of the document or an error.
#[verifier::external_body]
pub(crate) fn open_reader(xml: &str) -> (r: NsReader<&[u8]>)
    ensures
        spec_reader_events(r) == spec_xml_events(xml@),
        spec_event_stream(spec_reader_events(r)),
{
    NsReader::from_str(xml)
}

/// The next event of the reader, with the namespace of a start tag resolved,
/// or the message of the reader's error.
///
/// Trusted: `NsReader::read_resolved_event`. It yields the first event the reader has still
/// to yield; unless that event ends the reading, the reader goes on with the rest. What the
/// reader yields after an end of the document or an error is left unsaid.
#[verifier::external_body]
pub(crate) fn next_event(reader: &mut NsReader<&[u8]>) -> (r: Result<XmlEvent, String>)
    requires
        spec_reader_events(*old(reader)).len() > 0,
    ensures
        match spec_reader_events(*old(reader))[0] {
            Ok(v) => r matches Ok(e) && e.view() == v,
            Err(m) => r matches Err(x) && x@ == m,
        },
        !spec_ends_reading(spec_reader_events(*old(reader))[0]) ==> spec_reader_events(*final(reader))
            == spec_reader_events(*old(reader)).drop_first(),
{
    let (resolved, event) = reader.read_resolved_event().map_err(|error| error.to_string())?;
    let namespace = match resolved {
        ResolveResult::Bound(uri) => Some(uri.into_inner().to_owned()),
        _ => None,
    };
    match event {
        Event::Start(start) => start_event(namespace, &start, false),
        Event::Empty(start) => start_event(namespace, &start, true),
        Event::End(_) => Ok(XmlEvent::End),
        Event::Text(text) => Ok(XmlEvent::Text(text.into_inner().into_owned())),
        Event::Eof => Ok(XmlEvent::Eof),
        _ => Ok(XmlEvent::Other),
    }
}

/// The start event of a tag, with its attributes in plain values.
///
/// Trusted: `BytesStart::local_name` and `BytesStart::attributes`; nothing is stated of them.
#[verifier::external_body]
fn start_event(namespace: Option<String>, start: &BytesStart, empty: bool) -> Result<XmlEvent, String> {
    let local = start.local_name().into_inner().to_owned();
    let attributes = start.attributes().map(|attribute| attribute.map(|a| XmlAttribute {
        key: a.key.into_inner().to_owned(),
        local: a.key.local_name().into_inner().to_owned(),
        value: a.value.into_owned(),
    })).collect::<Result<Vec<XmlAttribute>, _>>().map_err(|error| error.to_string())?;
    Ok(XmlEvent::Start { namespace, local, attributes, empty })
}

/// Whether an attribute key declares a namespace.
pub open spec fn spec_is_declaration(key: Seq<char>) -> bool {
    key == "xmlns"@ || ("xmlns:"@.len() <= key.len() && key.subrange(0, 6) == "xmlns:"@)
}

/// The abbreviation a namespace declaration binds: the key without `xmlns:`,
/// empty for the default namespace.
pub open spec fn spec_declared_abbreviation(key: Seq<char>) -> Seq<char> {
    if "xmlns:"@.len() <= key.len() && key.subrange(0, 6) == "xmlns:"@ {
        key.subrange(6, key.len() as int)
    } else {
        Seq::empty()
    }
}

/// The attributes an element keeps and the abbreviation table after its declarations,
/// or the abbreviation a declaration binds to a second namespace.
pub open spec fn spec_read_attributes<N: Namespace>(
    attributes: Seq<(Seq<char>, Seq<char>, Seq<char>)>,
    entries: Seq<(Seq<char>, N)>,
) -> Result<(Seq<(Seq<char>, Seq<char>)>, Seq<(Seq<char>, N)>), Seq<char>>
    decreases attributes.len(),
{
    if attributes.len() == 0 {
        Ok((Seq::empty(), entries))
    } else {
        match spec_read_attributes(attributes.drop_last(), entries) {
            Err(a) => Err(a),
            Ok((kept, table)) => {
                let a = attributes.last();
                if spec_is_declaration(a.0) {
                    match spec_from_uri::<N>(a.2) {
                        Some(n) => match spec_declare(table, spec_declared_abbreviation(a.0), n) {
                            Some(t) => Ok((kept, t)),
                            None => Err(spec_declared_abbreviation(a.0)),
                        },
                        None => Ok((kept, table)),
                    }
                } else {
                    Ok((kept.push((a.1, a.2)), table))
                }
            },
        }
    }
}

/// The token a start tag opens with the table after its declarations.
///
/// An element without a namespace, or of a namespace outside the set,
/// or a declaration that rebinds an abbreviation fail.
pub open spec fn spec_open_token<N: Namespace>(
    namespace: Option<Seq<char>>,
    local: Seq<char>,
    attributes: Seq<(Seq<char>, Seq<char>, Seq<char>)>,
    entries: Seq<(Seq<char>, N)>,
) -> Result<(TokenView<N>, Seq<(Seq<char>, N)>), ErrorView> {
    match namespace {
        None => Err(ErrorView::MalformedXml("an element has no namespace"@)),
        Some(uri) => match spec_from_uri::<N>(uri) {
            None => Err(ErrorView::MalformedXml("unknown namespace: "@ + uri)),
            Some(n) => match spec_read_attributes(attributes, entries) {
                Err(a) => Err(ErrorView::AmbiguousAbbreviation(a)),
                Ok((kept, table)) => Ok(
                    (TokenView::Open { namespace: n, name: local, attributes: kept }, table),
                ),
            },
        },
    }
}

/// The tokens and the table after one more event of the reader.
pub open spec fn spec_absorb<N: Namespace>(
    tokens: Seq<TokenView<N>>,
    entries: Seq<(Seq<char>, N)>,
    event: XmlEventView,
) -> Result<(Seq<TokenView<N>>, Seq<(Seq<char>, N)>), ErrorView> {
    match event {
        XmlEventView::Start { namespace, local, attributes, empty } => match spec_open_token(
            namespace,
            local,
            attributes,
            entries,
        ) {
            Err(e) => Err(e),
            Ok((token, table)) => if empty {
                Ok((tokens.push(token).push(TokenView::Close), table))
            } else {
                Ok((tokens.push(token), table))
            },
        },
        XmlEventView::End => Ok((tokens.push(TokenView::Close), entries)),
        XmlEventView::Text(t) => if spec_trim(t).len() > 0 {
            Ok((tokens.push(TokenView::Text(t)), entries))
        } else {
            Ok((tokens, entries))
        },
        _ => Ok((tokens, entries)),
    }
}

/// The tokens and the table a sequence of reader events yields, from the default table.
pub open spec fn spec_tokenize<N: Namespace>(events: Seq<XmlEventView>) -> Result<
    (Seq<TokenView<N>>, Seq<(Seq<char>, N)>),
    ErrorView,
>
    decreases events.len(),
{
    if events.len() == 0 {
        Ok((Seq::empty(), spec_default_entries::<N>()))
    } else {
        match spec_tokenize::<N>(events.drop_last()) {
            Err(e) => Err(e),
            Ok((tokens, entries)) => spec_absorb(tokens, entries, events.last()),
        }
    }
}

// Reads the attributes of a start tag into the kept list, declaring the namespaces it binds.
fn read_attributes<N: Namespace>(
    attributes: &Vec<XmlAttribute>,
    abbreviations: &mut Abbreviations<N>,
) -> (r: Result<Vec<(String, String)>, Error>)
    ensures
        match spec_read_attributes(spec_xml_attributes(attributes@), old(abbreviations).spec_entries()) {
            Ok((kept, table)) => r matches Ok(k) && spec_attributes(k@) == kept
                && final(abbreviations).spec_entries() == table,
            Err(a) => r matches Err(e) && e@ == ErrorView::AmbiguousAbbreviation(a),
        },
{
    let ghost all = spec_xml_attributes(attributes@);
    let ghost start = abbreviations.spec_entries();
    let mut kept: Vec<(String, String)> = Vec::new();
    let mut i: usize = 0;
    proof {
        assert(all.take(0) =~= Seq::<(Seq<char>, Seq<char>, Seq<char>)>::empty());
        assert(spec_attributes(kept@) =~= Seq::<(Seq<char>, Seq<char>)>::empty());
    }
    while i < attributes.len()
        invariant
            i <= attributes@.len(),
            all == spec_xml_attributes(attributes@),
            start == old(abbreviations).spec_entries(),
            spec_read_attributes(all.take(i as int), start) matches Ok(pair)
                && pair.0 == spec_attributes(kept@) && pair.1 == abbreviations.spec_entries(),
        decreases attributes@.len() - i,
    {
        let ghost table = abbreviations.spec_entries();
        let ghost before = spec_attributes(kept@);
        proof {
            assert(all.take(i + 1).drop_last() =~= all.take(i as int));
            assert(all.take(i + 1).last() == all[i as int]);
        }
        let attribute = &attributes[i];
        let key = attribute.key.as_str();
        proof {
            reveal_strlit("xmlns");
            reveal_strlit("xmlns:");
            reveal_strlit("");
            assert(all[i as int] == (attribute.key@, attribute.local@, attribute.value@));
        }
        if str_eq(key, "xmlns") || starts_with(key, "xmlns:") {
            let declared = if starts_with(key, "xmlns:") {
                key.substring_char(6, key.unicode_len())
            } else {
                ""
            };
            assert(declared@ =~= spec_declared_abbreviation(key@));
            match from_uri::<N>(attribute.value.as_str()) {
                Some(namespace) => {
                    match abbreviations.declare(declared, namespace) {
                        Ok(()) => {},
                        Err(e) => {
                            proof {
                                lemma_read_attributes_err(all, start, i as int + 1);
                            }
                            return Err(e);
                        },
                    }
                },
                None => {},
            }
        } else {
            kept.push((owned(attribute.local.as_str()), owned(attribute.value.as_str())));
            assert(spec_attributes(kept@) =~= before.push((attribute.local@, attribute.value@)));
        }
        i = i + 1;
    }
    assert(all.take(i as int) =~= all);
    Ok(kept)
}

// A failure on a prefix of the attributes is the failure on the whole list.
proof fn lemma_read_attributes_err<N: Namespace>(
    all: Seq<(Seq<char>, Seq<char>, Seq<char>)>,
    entries: Seq<(Seq<char>, N)>,
    i: int,
)
    requires
        0 <= i <= all.len(),
        spec_read_attributes(all.take(i), entries) is Err,
    ensures
        spec_read_attributes(all, entries) == spec_read_attributes(all.take(i), entries),
    decreases all.len() - i,
{
    if i < all.len() {
        assert(all.take(i + 1).drop_last() =~= all.take(i));
        lemma_read_attributes_err(all, entries, i + 1);
    } else {
        assert(all.take(i) =~= all);
    }
}

/// Builds an `Open` token from a start tag, resolving its namespace and reading
/// its attributes. A namespace declaration binds an abbreviation instead of an attribute.
pub fn open_token<N: Namespace>(
    namespace: &Option<String>,
    local: &String,
    attributes: &Vec<XmlAttribute>,
    abbreviations: &mut Abbreviations<N>,
) -> (r: Result<Token<N>, Error>)
    ensures
        match spec_open_token::<N>(
            match namespace {
                Some(u) => Some(u@),
                None => None,
            },
            local@,
            spec_xml_attributes(attributes@),
            old(abbreviations).spec_entries(),
        ) {
            Ok((token, table)) => r matches Ok(t) && t.view() == token
                && final(abbreviations).spec_entries() == table,
            Err(e) => r matches Err(x) && x@ == e,
        },
{
    let uri = match namespace {
        None => {
            return Err(Error::malformed_xml("an element has no namespace"));
        },
        Some(uri) => uri,
    };
    let n = match from_uri::<N>(uri.as_str()) {
        None => {
            return Err(Error::malformed_xml_with("unknown namespace: ", uri.as_str()));
        },
        Some(n) => n,
    };
    let kept = read_attributes(attributes, abbreviations)?;
    Ok(Token::Open { namespace: n, name: owned(local.as_str()), attributes: kept })
}

/// The tokens and the abbreviation table of a document being read.
pub struct Tokenized<N: Namespace> {
    pub tokens: Vec<Token<N>>,
    pub abbreviations: Abbreviations<N>,
}

// Folds one reader event into the tokens and the table.
fn absorb<N: Namespace>(state: &mut Tokenized<N>, event: XmlEvent) -> (r: Result<(), Error>)
    ensures
        match spec_absorb(
            spec_tokens(old(state).tokens@),
            old(state).abbreviations.spec_entries(),
            event.view(),
        ) {
            Ok((tokens, table)) => r is Ok && spec_tokens(final(state).tokens@) == tokens
                && final(state).abbreviations.spec_entries() == table,
            Err(e) => r matches Err(x) && x@ == e,
        },
{
    let ghost before = spec_tokens(state.tokens@);
    match event {
        XmlEvent::Start { namespace, local, attributes, empty } => {
            let token = open_token(&namespace, &local, &attributes, &mut state.abbreviations)?;
            state.tokens.push(token);
            if empty {
                state.tokens.push(Token::Close);
            }
            proof {
                if empty {
                    assert(spec_tokens(state.tokens@) =~= before.push(token.view()).push(TokenView::Close));
                } else {
                    assert(spec_tokens(state.tokens@) =~= before.push(token.view()));
                }
            }
            Ok(())
        },
        XmlEvent::End => {
            state.tokens.push(Token::Close);
            assert(spec_tokens(state.tokens@) =~= before.push(TokenView::Close));
            Ok(())
        },
        XmlEvent::Text(text) => {
            if trim(text.as_str()).unicode_len() > 0 {
                let ghost t = text@;
                state.tokens.push(Token::Text(text));
                assert(spec_tokens(state.tokens@) =~= before.push(TokenView::Text(t)));
            }
            Ok(())
        },
        _ => Ok(()),
    }
}

/// The events of a stream that come before its end, as values.
pub open spec fn spec_event_values(events: Seq<Result<XmlEventView, Seq<char>>>) -> Seq<XmlEventView> {
    events.map_values(|e: Result<XmlEventView, Seq<char>>| match e {
        Ok(v) => v,
        Err(_) => XmlEventView::Other,
    })
}

/// The tokens and the table a whole stream of reader events yields: those of the events before
/// its end, unless one fails or the reader fails, which fails the whole.
pub open spec fn spec_tokenize_stream<N: Namespace>(events: Seq<Result<XmlEventView, Seq<char>>>) -> Result<
    (Seq<TokenView<N>>, Seq<(Seq<char>, N)>),
    ErrorView,
> {
    let before = spec_tokenize::<N>(spec_event_values(events.drop_last()));
    match before {
        Err(e) => Err(e),
        Ok(done) => match events.last() {
            Err(m) => Err(ErrorView::MalformedXml(m)),
            Ok(_) => Ok(done),
        },
    }
}

/// Reads a document into resolved, owned tokens,
/// collecting the abbreviations it declares and dropping blank text.
///
/// A malformed document, an element without a namespace,
/// or an element of a namespace outside the set yield `Error::MalformedXml`.
/// What comes back is the tokenization of the events the reader yields for the text.
pub fn tokenize<N: Namespace>(xml: &str) -> (r: Result<Tokenized<N>, Error>)
    ensures
        match spec_tokenize_stream::<N>(spec_xml_events(xml@)) {
            Ok((tokens, table)) => r matches Ok(t) && spec_tokens(t.tokens@) == tokens
                && t.abbreviations.spec_entries() == table,
            Err(e) => r matches Err(x) && x@ == e,
        },
{
    let mut reader = open_reader(xml);
    let ghost all = spec_xml_events(xml@);
    let mut state = Tokenized { tokens: Vec::new(), abbreviations: Abbreviations::default_abbreviations() };
    let ghost mut read: int = 0;
    proof {
        assert(spec_tokens(state.tokens@) =~= Seq::empty());
        assert(spec_event_values(all.take(0)) =~= Seq::empty());
        assert(all.skip(0) =~= all);
    }
    loop
        invariant
            all == spec_xml_events(xml@),
            spec_event_stream(all),
            0 <= read < all.len(),
            spec_reader_events(reader) == all.skip(read),
            spec_tokenize::<N>(spec_event_values(all.take(read))) == Ok::<(Seq<TokenView<N>>, Seq<(Seq<char>, N)>), ErrorView>(
                (spec_tokens(state.tokens@), state.abbreviations.spec_entries()),
            ),
        decreases all.len() - read,
    {
        proof {
            assert(all.skip(read)[0] == all[read]);
            assert(all.skip(read).drop_first() =~= all.skip(read + 1));
        }
        let event = match next_event(&mut reader) {
            Ok(event) => event,
            Err(message) => {
                proof {
                    assert(spec_ends_reading(all[read]));
                    assert(read == all.len() - 1);
                    assert(all.drop_last() =~= all.take(read));
                    assert(spec_event_values(all.drop_last()) == spec_event_values(all.take(read)));
                    assert(all.last() == all[read]);
                    assert(all[read] == Err::<XmlEventView, Seq<char>>(message@));
                    assert(spec_tokenize_stream::<N>(all) == Err::<(Seq<TokenView<N>>, Seq<(Seq<char>, N)>), ErrorView>(ErrorView::MalformedXml(message@)));
                }
                let error = Error::MalformedXml(message);
                return Err(error);
            },
        };
        if let XmlEvent::Eof = event {
            proof {
                assert(spec_ends_reading(all[read]));
                assert(read == all.len() - 1);
                assert(all.drop_last() =~= all.take(read));
                assert(spec_event_values(all.drop_last()) == spec_event_values(all.take(read)));
                assert(all.last() == all[read]);
            }
            return Ok(state);
        }
        let ghost seen = event.view();
        proof {
            assert(!spec_ends_reading(all[read]));
            assert(read + 1 < all.len());
            assert(spec_event_values(all.take(read + 1)) =~= spec_event_values(all.take(read)).push(seen));
            assert(spec_event_values(all.take(read + 1)).drop_last() =~= spec_event_values(all.take(read)));
        }
        let outcome = absorb(&mut state, event);
        match outcome {
            Ok(()) => {},
            Err(e) => {
                proof {
                    let values = spec_event_values(all.take(read + 1));
                    assert(values.last() == seen);
                    assert(spec_tokenize::<N>(values) is Err);
                    assert(spec_event_values(all.drop_last()).take(read + 1) =~= values);
                    lemma_tokenize_stays_failed::<N>(spec_event_values(all.drop_last()), read + 1);
                    assert(spec_tokenize::<N>(values) == Err::<(Seq<TokenView<N>>, Seq<(Seq<char>, N)>), ErrorView>(e@));
                    assert(spec_tokenize_stream::<N>(all) == Err::<(Seq<TokenView<N>>, Seq<(Seq<char>, N)>), ErrorView>(e@));
                }
                return Err(e);
            },
        }
        proof {
            read = read + 1;
        }
    }
}

/// Once a prefix of the events fails, every longer one fails with the same error.
proof fn lemma_tokenize_stays_failed<N: Namespace>(events: Seq<XmlEventView>, k: int)
    requires
        0 <= k <= events.len(),
        spec_tokenize::<N>(events.take(k)) is Err,
    ensures
        spec_tokenize::<N>(events) == spec_tokenize::<N>(events.take(k)),
    decreases events.len() - k,
{
    if k < events.len() {
        assert(events.take(k + 1).drop_last() =~= events.take(k));
        lemma_tokenize_stays_failed::<N>(events, k + 1);
    } else {
        assert(events.take(k) =~= events);
    }
}

} // verus!
