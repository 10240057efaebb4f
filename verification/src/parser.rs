//! The reading machinery shared by the bindings: a cursor over the resolved tokens and the
//! trace that rebuilds the dictionary in lockstep, behind one set of reading primitives.

use vstd::prelude::*;
use crate::error::{Error, ErrorView};
use crate::namespace::Namespace;
use crate::serializer::{lemma_push_then_drop, spec_entered, spec_left, spec_visited};
use crate::text::{append_str, owned, push_char, spec_trim, str_eq, trim};
use crate::token::{Token, TokenView, copy_attributes, spec_attributes, spec_tokens};
use crate::trace::{Dictionary, Trace};
use crate::values::NonEmptyString;

verus! {

broadcast use lemma_push_then_drop;

/// Whether the token at `cursor` opens an element of the namespace and the name.
pub open spec fn spec_opens<N: Namespace>(
    tokens: Seq<TokenView<N>>,
    cursor: int,
    namespace: N,
    name: Seq<char>,
) -> bool {
    0 <= cursor < tokens.len() && (tokens[cursor] matches TokenView::Open {
        namespace: n,
        name: m,
        ..
    } && n == namespace && m == name)
}

/// The attributes of the element the token at `cursor` opens, if it opens one.
pub open spec fn spec_open_attributes<N: Namespace>(tokens: Seq<TokenView<N>>, cursor: int) -> Seq<(Seq<char>, Seq<char>)> {
    if 0 <= cursor < tokens.len() {
        match tokens[cursor] {
            TokenView::Open { attributes, .. } => attributes,
            _ => Seq::empty(),
        }
    } else {
        Seq::empty()
    }
}

/// The text the token at `cursor` holds, if it is a text.
pub open spec fn spec_text_at<N: Namespace>(tokens: Seq<TokenView<N>>, cursor: int) -> Option<Seq<char>> {
    if 0 <= cursor < tokens.len() {
        match tokens[cursor] {
            TokenView::Text(t) => Some(t),
            _ => None,
        }
    } else {
        None
    }
}

/// The error of a missing start tag: `expected <name>`.
pub open spec fn spec_expected(name: Seq<char>) -> ErrorView {
    ErrorView::MalformedXml("expected <"@ + name + seq!['>'])
}

/// The trimmed text of the first element named `child` at depth one from `cursor`, counted
/// from `depth`, that holds a text; the scan stops at the end of the element it starts in.
pub open spec fn spec_child_text<N: Namespace>(
    tokens: Seq<TokenView<N>>,
    cursor: int,
    depth: int,
    child: Seq<char>,
) -> Option<Seq<char>>
    decreases tokens.len() - cursor,
{
    if cursor < 0 || cursor >= tokens.len() {
        None
    } else {
        match tokens[cursor] {
            TokenView::Open { name, .. } => if depth == 1 && name == child && cursor + 1
                < tokens.len() && tokens[cursor + 1] is Text {
                Some(spec_trim(tokens[cursor + 1]->Text_0))
            } else {
                spec_child_text(tokens, cursor + 1, depth + 1, child)
            },
            TokenView::Close => if depth <= 1 {
                None
            } else {
                spec_child_text(tokens, cursor + 1, depth - 1, child)
            },
            TokenView::Text(_) => spec_child_text(tokens, cursor + 1, depth, child),
        }
    }
}

/// The trimmed text of the first `ID` element that holds a text and follows a `TaxScheme`
/// element from `cursor` on, or from the start when `in_scheme` says one was already passed.
pub open spec fn spec_tax_scheme<N: Namespace>(
    tokens: Seq<TokenView<N>>,
    cursor: int,
    in_scheme: bool,
) -> Option<Seq<char>>
    decreases tokens.len() - cursor,
{
    if cursor < 0 || cursor >= tokens.len() {
        None
    } else {
        match tokens[cursor] {
            TokenView::Open { name, .. } => if name == "TaxScheme"@ {
                spec_tax_scheme(tokens, cursor + 1, true)
            } else if in_scheme && name == "ID"@ && cursor + 1 < tokens.len()
                && tokens[cursor + 1] is Text {
                Some(spec_trim(tokens[cursor + 1]->Text_0))
            } else {
                spec_tax_scheme(tokens, cursor + 1, in_scheme)
            },
            _ => spec_tax_scheme(tokens, cursor + 1, in_scheme),
        }
    }
}

/// Whether the token at `cursor` closes an element.
pub open spec fn spec_closes<N: Namespace>(tokens: Seq<TokenView<N>>, cursor: int) -> bool {
    0 <= cursor < tokens.len() && tokens[cursor] is Close
}

/// The text of an element whose start is already read, from `cursor` on, and the position
/// after its end: the text token, or the empty text where the end follows at once.
pub open spec fn spec_text_close<N: Namespace>(tokens: Seq<TokenView<N>>, cursor: int) -> Option<(Seq<char>, int)> {
    match spec_text_at(tokens, cursor) {
        Some(t) => if spec_closes(tokens, cursor + 1) {
            Some((t, cursor + 2))
        } else {
            None
        },
        None => if spec_closes(tokens, cursor) {
            Some((Seq::empty(), cursor + 1))
        } else {
            None
        },
    }
}

/// The text of a leaf element of the namespace and the name at `cursor`, and the position
/// after it: its start, at most one text, and its end.
pub open spec fn spec_leaf_at<N: Namespace>(
    tokens: Seq<TokenView<N>>,
    cursor: int,
    namespace: N,
    name: Seq<char>,
) -> Option<(Seq<char>, int)> {
    if spec_opens(tokens, cursor, namespace, name) {
        spec_text_close(tokens, cursor + 1)
    } else {
        None
    }
}

/// An optional leaf element at `cursor`: its text when it is there, and the position after it;
/// absent without consuming anything when the cursor opens no such element; `None` when the
/// element is there but malformed.
pub open spec fn spec_optional_leaf_at<N: Namespace>(
    tokens: Seq<TokenView<N>>,
    cursor: int,
    namespace: N,
    name: Seq<char>,
) -> Option<(Option<Seq<char>>, int)> {
    if spec_opens(tokens, cursor, namespace, name) {
        match spec_text_close(tokens, cursor + 1) {
            Some((t, next)) => Some((Some(t), next)),
            None => None,
        }
    } else {
        Some((None, cursor))
    }
}

/// Whether an optional text, when there is one, is not empty.
pub open spec fn spec_filled_text(text: Option<Seq<char>>) -> bool {
    text matches Some(t) ==> t.len() > 0
}

/// An element at `cursor` whose only content is one value carrier of another namespace and
/// name: the text of the carrier and the position after the element.
pub open spec fn spec_carrier_at<N: Namespace>(
    tokens: Seq<TokenView<N>>,
    cursor: int,
    namespace: N,
    name: Seq<char>,
    carrier_namespace: N,
    carrier: Seq<char>,
) -> Option<(Seq<char>, int)> {
    if spec_opens(tokens, cursor, namespace, name) && spec_opens(tokens, cursor + 1, carrier_namespace, carrier) {
        match spec_text_close(tokens, cursor + 2) {
            Some((t, next)) => if spec_closes(tokens, next) {
                Some((t, next + 1))
            } else {
                None
            },
            None => None,
        }
    } else {
        None
    }
}

/// An optional wrapper element at `cursor` around an optional leaf: what the leaf holds when
/// both are there, and the position after the wrapper; the wrapper absent consumes nothing.
/// `None` when the wrapper is there but malformed.
pub open spec fn spec_optional_wrapped_leaf_at<N: Namespace>(
    tokens: Seq<TokenView<N>>,
    cursor: int,
    wrapper_namespace: N,
    wrapper: Seq<char>,
    namespace: N,
    name: Seq<char>,
) -> Option<(Option<Seq<char>>, int)> {
    if spec_opens(tokens, cursor, wrapper_namespace, wrapper) {
        match spec_optional_leaf_at(tokens, cursor + 1, namespace, name) {
            Some((v, next)) => if spec_closes(tokens, next) {
                Some((v, next + 1))
            } else {
                None
            },
            None => None,
        }
    } else {
        Some((None, cursor))
    }
}

/// An optional element at `cursor` whose only content is one value carrier: the text of the
/// carrier when the element is there, and the position after it.
pub open spec fn spec_optional_carrier_at<N: Namespace>(
    tokens: Seq<TokenView<N>>,
    cursor: int,
    namespace: N,
    name: Seq<char>,
    carrier_namespace: N,
    carrier: Seq<char>,
) -> Option<(Option<Seq<char>>, int)> {
    if spec_opens(tokens, cursor, namespace, name) {
        match spec_carrier_at(tokens, cursor, namespace, name, carrier_namespace, carrier) {
            Some((t, next)) => Some((Some(t), next)),
            None => None,
        }
    } else {
        Some((None, cursor))
    }
}

/// The stateful reader of a binding, handed to a reading walk.
///
/// It reads the resolved tokens of a document through a cursor and records every read node
/// into the dictionary in the same pass, so a finding of a validator later binds to the model
/// context of the node it addresses.
pub struct Parser<N: Namespace> {
    tokens: Vec<Token<N>>,
    cursor: usize,
    trace: Trace<N>,
}

impl<N: Namespace> Parser<N> {
    /// The tokens the parser reads.
    pub closed spec fn spec_tokens(&self) -> Seq<TokenView<N>> {
        spec_tokens(self.tokens@)
    }

    /// The position of the next token to read.
    pub closed spec fn spec_cursor(&self) -> int {
        self.cursor as int
    }

    /// The walk state of the read nodes.
    pub closed spec fn spec_trace(&self) -> Trace<N> {
        self.trace
    }

    /// Whether the parser can go on: the cursor is within the tokens and the trace is well formed.
    pub open spec fn wf(&self) -> bool {
        &&& 0 <= self.spec_cursor() <= self.spec_tokens().len()
        &&& self.spec_tokens().len() <= usize::MAX
        &&& self.spec_trace().wf()
    }

    /// Whether a read kept the tokens, stayed well formed and did not move the cursor back.
    pub open spec fn follows(&self, before: &Self) -> bool {
        &&& self.wf()
        &&& self.spec_tokens() == before.spec_tokens()
        &&& self.spec_cursor() >= before.spec_cursor()
    }

    /// Whether a read left the walk at the node and context it started from.
    pub open spec fn restored(&self, before: &Self) -> bool {
        &&& self.follows(before)
        &&& self.spec_trace().spec_path() == before.spec_trace().spec_path()
        &&& self.spec_trace().spec_context() == before.spec_trace().spec_context()
    }

    /// Whether a read left the walk at its node and context, past at least one token.
    pub open spec fn advanced(&self, before: &Self) -> bool {
        &&& self.restored(before)
        &&& self.spec_cursor() > before.spec_cursor()
    }

    /// A parser at the first of the tokens, with nothing recorded.
    pub fn new(tokens: Vec<Token<N>>) -> (r: Self)
        ensures
            r.wf(),
            r.spec_tokens() == spec_tokens(tokens@),
            r.spec_cursor() == 0,
            r.spec_trace().spec_path().len() == 0,
            r.spec_trace().spec_context().len() == 0,
            forall|p: Seq<(N, Seq<char>, nat)>| r.spec_trace().spec_dictionary().lookup(p) is None,
    {
        let length = tokens.len();
        assert(spec_tokens(tokens@).len() == length);
        Parser { tokens, cursor: 0, trace: Trace::new() }
    }

    /// The dictionary of the read nodes.
    pub fn finish(self) -> (r: Dictionary<N>)
        ensures
            r == self.spec_trace().spec_dictionary(),
    {
        self.trace.into_dictionary()
    }

    /// Whether the next token opens an element of the namespace and the name.
    pub fn is_open(&self, namespace: N, name: &str) -> (r: bool)
        ensures
            r == spec_opens(self.spec_tokens(), self.spec_cursor(), namespace, name@),
    {
        if self.cursor < self.tokens.len() {
            match &self.tokens[self.cursor] {
                Token::Open { namespace: found, name: local, .. } => found.same(namespace) && str_eq(
                    local.as_str(),
                    name,
                ),
                _ => false,
            }
        } else {
            false
        }
    }

    /// Whether the next token opens an element of the namespace.
    pub fn is_open_namespace(&self, namespace: N) -> (r: bool)
        ensures
            r == (0 <= self.spec_cursor() < self.spec_tokens().len() && (self.spec_tokens()[self.spec_cursor()] matches TokenView::Open {
                namespace: n,
                ..
            } && n == namespace)),
    {
        if self.cursor < self.tokens.len() {
            match &self.tokens[self.cursor] {
                Token::Open { namespace: found, .. } => found.same(namespace),
                _ => false,
            }
        } else {
            false
        }
    }

    /// The namespace and the name of the element the next token opens.
    pub fn head(&self) -> (r: Result<(N, String), Error>)
        ensures
            r matches Ok((n, m)) ==> 0 <= self.spec_cursor() < self.spec_tokens().len() && spec_opens(
                self.spec_tokens(),
                self.spec_cursor(),
                n,
                m@,
            ),
            r is Err ==> !(0 <= self.spec_cursor() < self.spec_tokens().len() && self.spec_tokens()[self.spec_cursor()] is Open),
            r matches Err(e) ==> e@ == ErrorView::MalformedXml("expected an element"@),
    {
        if self.cursor < self.tokens.len() {
            match &self.tokens[self.cursor] {
                Token::Open { namespace, name, .. } => {
                    return Ok((*namespace, owned(name.as_str())));
                },
                _ => {},
            }
        }
        Err(Error::malformed_xml("expected an element"))
    }

    /// Consumes the start of an element of the namespace and the name, giving its attributes.
    pub fn take_open(&mut self, namespace: N, name: &str) -> (r: Result<Vec<(String, String)>, Error>)
        requires
            old(self).wf(),
        ensures
            final(self).spec_tokens() == old(self).spec_tokens(),
            final(self).spec_trace() == old(self).spec_trace(),
            spec_opens(old(self).spec_tokens(), old(self).spec_cursor(), namespace, name@) ==> (r matches Ok(a)
                && final(self).spec_cursor() == old(self).spec_cursor() + 1
                && spec_attributes(a@) == spec_open_attributes(old(self).spec_tokens(), old(self).spec_cursor())),
            !spec_opens(old(self).spec_tokens(), old(self).spec_cursor(), namespace, name@) ==> (r matches Err(e)
                && e@ == spec_expected(name@) && final(self).spec_cursor() == old(self).spec_cursor()),
            final(self).wf(),
    {
        assert(spec_tokens(self.tokens@).len() == self.tokens@.len());
        if self.is_open(namespace, name) {
            assert(self.spec_tokens() == spec_tokens(self.tokens@));
            let length = self.tokens.len();
            assert(self.cursor < length);
            assert(spec_tokens(self.tokens@)[self.cursor as int] == self.tokens@[self.cursor as int].view());
            let attributes = match &self.tokens[self.cursor] {
                Token::Open { attributes, .. } => copy_attributes(attributes),
                _ => Vec::new(),
            };
            self.cursor = self.cursor + 1;
            Ok(attributes)
        } else {
            let mut message = owned("expected <");
            append_str(&mut message, name);
            push_char(&mut message, '>');
            assert(message@ =~= "expected <"@ + name@ + seq!['>']);
            Err(Error::MalformedXml(message))
        }
    }

    /// Consumes the end of the current element.
    pub fn take_close(&mut self) -> (r: Result<(), Error>)
        requires
            old(self).wf(),
        ensures
            final(self).spec_tokens() == old(self).spec_tokens(),
            final(self).spec_trace() == old(self).spec_trace(),
            final(self).wf(),
            (0 <= old(self).spec_cursor() < old(self).spec_tokens().len() && old(self).spec_tokens()[old(self).spec_cursor()] is Close)
                ==> (r is Ok && final(self).spec_cursor() == old(self).spec_cursor() + 1),
            !(0 <= old(self).spec_cursor() < old(self).spec_tokens().len() && old(self).spec_tokens()[old(self).spec_cursor()] is Close)
                ==> (r matches Err(e) && e@ == ErrorView::MalformedXml("expected an end tag"@)
                && final(self).spec_cursor() == old(self).spec_cursor()),
    {
        assert(spec_tokens(self.tokens@).len() == self.tokens@.len());
        if self.cursor < self.tokens.len() {
            assert(spec_tokens(self.tokens@)[self.cursor as int] == self.tokens@[self.cursor as int].view());
            if let Token::Close = &self.tokens[self.cursor] {
                self.cursor = self.cursor + 1;
                return Ok(());
            }
        }
        Err(Error::malformed_xml("expected an end tag"))
    }

    /// Consumes the text of the current element, or gives the empty text when there is none.
    pub fn take_text(&mut self) -> (r: String)
        requires
            old(self).wf(),
        ensures
            final(self).spec_tokens() == old(self).spec_tokens(),
            final(self).spec_trace() == old(self).spec_trace(),
            final(self).wf(),
            spec_text_at(old(self).spec_tokens(), old(self).spec_cursor()) matches Some(t)
                ==> (r@ == t && final(self).spec_cursor() == old(self).spec_cursor() + 1),
            spec_text_at(old(self).spec_tokens(), old(self).spec_cursor()) is None
                ==> (r@ == Seq::<char>::empty() && final(self).spec_cursor() == old(self).spec_cursor()),
    {
        assert(spec_tokens(self.tokens@).len() == self.tokens@.len());
        if self.cursor < self.tokens.len() {
            assert(spec_tokens(self.tokens@)[self.cursor as int] == self.tokens@[self.cursor as int].view());
            if let Token::Text(text) = &self.tokens[self.cursor] {
                let t = owned(text.as_str());
                self.cursor = self.cursor + 1;
                return t;
            }
        }
        String::new()
    }

    /// The trimmed text of the first child element of the current element named `child`,
    /// without consuming anything.
    pub fn peek_child_text(&self, child: &str) -> (r: Option<String>)
        requires
            self.wf(),
        ensures
            match spec_child_text(self.spec_tokens(), self.spec_cursor(), 0, child@) {
                Some(t) => r matches Some(x) && x@ == t,
                None => r is None,
            },
    {
        let mut depth: usize = 0;
        let mut cursor = self.cursor;
        let ghost tokens = self.spec_tokens();
        assert(tokens.len() == self.tokens@.len());
        while cursor < self.tokens.len()
            invariant
                cursor <= self.tokens@.len(),
                depth <= cursor,
                tokens == spec_tokens(self.tokens@),
                tokens.len() == self.tokens@.len(),
                spec_child_text(tokens, cursor as int, depth as int, child@) == spec_child_text(
                    tokens,
                    self.spec_cursor(),
                    0,
                    child@,
                ),
            decreases self.tokens@.len() - cursor,
        {
            assert(tokens[cursor as int] == self.tokens@[cursor as int].view());
            if cursor + 1 < self.tokens.len() {
                assert(tokens[cursor + 1] == self.tokens@[cursor + 1].view());
            }
            match &self.tokens[cursor] {
                Token::Open { name, .. } => {
                    if depth == 1 && str_eq(name.as_str(), child) {
                        if cursor + 1 < self.tokens.len() {
                            if let Token::Text(text) = &self.tokens[cursor + 1] {
                                return Some(owned(trim(text.as_str())));
                            }
                        }
                    }
                    depth = depth + 1;
                },
                Token::Close => {
                    if depth <= 1 {
                        return None;
                    }
                    depth = depth - 1;
                },
                Token::Text(_) => {},
            }
            cursor = cursor + 1;
        }
        None
    }

    /// The trimmed text of the first `ID` element that follows a `TaxScheme` element from the
    /// cursor on, without consuming anything: the scheme code of the next party tax scheme.
    pub fn peek_tax_scheme(&self) -> (r: Option<String>)
        requires
            self.wf(),
        ensures
            match spec_tax_scheme(self.spec_tokens(), self.spec_cursor(), false) {
                Some(t) => r matches Some(x) && x@ == t,
                None => r is None,
            },
    {
        let mut cursor = self.cursor;
        let mut in_scheme = false;
        let ghost tokens = self.spec_tokens();
        assert(tokens.len() == self.tokens@.len());
        while cursor < self.tokens.len()
            invariant
                cursor <= self.tokens@.len(),
                tokens == spec_tokens(self.tokens@),
                tokens.len() == self.tokens@.len(),
                spec_tax_scheme(tokens, cursor as int, in_scheme) == spec_tax_scheme(
                    tokens,
                    self.spec_cursor(),
                    false,
                ),
            decreases self.tokens@.len() - cursor,
        {
            assert(tokens[cursor as int] == self.tokens@[cursor as int].view());
            if cursor + 1 < self.tokens.len() {
                assert(tokens[cursor + 1] == self.tokens@[cursor + 1].view());
            }
            if let Token::Open { name, .. } = &self.tokens[cursor] {
                if str_eq(name.as_str(), "TaxScheme") {
                    in_scheme = true;
                } else if in_scheme && str_eq(name.as_str(), "ID") {
                    if cursor + 1 < self.tokens.len() {
                        if let Token::Text(text) = &self.tokens[cursor + 1] {
                            return Some(owned(trim(text.as_str())));
                        }
                    }
                }
            }
            cursor = cursor + 1;
        }
        None
    }

    /// The value of an attribute of the first child of the element the cursor opens, without
    /// consuming anything: absent unless the cursor opens an element whose first token inside
    /// opens another one.
    pub fn peek_child_attribute(&self, key: &str) -> (r: Option<String>)
        requires
            self.wf(),
        ensures
            r is Some <==> (self.spec_cursor() + 1 < self.spec_tokens().len()
                && self.spec_tokens()[self.spec_cursor()] is Open
                && crate::reading::spec_attribute(
                    spec_open_attributes(self.spec_tokens(), self.spec_cursor() + 1),
                    key@,
                ) is Some),
            r matches Some(v) ==> Some(v@) == crate::reading::spec_attribute(
                spec_open_attributes(self.spec_tokens(), self.spec_cursor() + 1),
                key@,
            ),
    {
        assert(spec_tokens(self.tokens@).len() == self.tokens@.len());
        if self.cursor < self.tokens.len() && self.cursor + 1 < self.tokens.len() {
            assert(spec_tokens(self.tokens@)[self.cursor as int] == self.tokens@[self.cursor as int].view());
            assert(spec_tokens(self.tokens@)[self.cursor + 1] == self.tokens@[self.cursor + 1].view());
            if let Token::Open { .. } = &self.tokens[self.cursor] {
                if let Token::Open { attributes, .. } = &self.tokens[self.cursor + 1] {
                    return match crate::reading::attribute(attributes, key) {
                        Some(value) => Some(owned(value)),
                        None => None,
                    };
                }
            }
        }
        None
    }

    // Reads the text of the current element and its end tag.
    fn text_and_close(&mut self) -> (r: Result<String, Error>)
        requires
            old(self).wf(),
        ensures
            final(self).spec_trace() == old(self).spec_trace(),
            final(self).follows(old(self)),
            r is Ok ==> final(self).spec_cursor() > old(self).spec_cursor(),
            match spec_text_close(old(self).spec_tokens(), old(self).spec_cursor()) {
                Some((t, next)) => r matches Ok(x) && x@ == t && final(self).spec_cursor() == next,
                None => r is Err,
            },
    {
        let text = self.take_text();
        self.take_close()?;
        Ok(text)
    }

    /// Reads a leaf mapped to a model field, giving its attributes and text.
    pub fn leaf_attr(&mut self, namespace: N, name: &str, field: &'static str) -> (r: Result<(Vec<(String, String)>, String), Error>)
        requires
            old(self).wf(),
        ensures
            final(self).follows(old(self)),
            r is Ok ==> final(self).spec_cursor() > old(self).spec_cursor(),
            r is Ok ==> spec_visited(
                old(self).spec_trace(),
                final(self).spec_trace(),
                namespace,
                name@,
                old(self).spec_trace().spec_context().push((field@, None::<nat>)),
            ),
            !spec_opens(old(self).spec_tokens(), old(self).spec_cursor(), namespace, name@) ==> (r matches Err(e)
                && e@ == spec_expected(name@)),
            match spec_leaf_at(old(self).spec_tokens(), old(self).spec_cursor(), namespace, name@) {
                Some((t, next)) => r matches Ok(x) && x.1@ == t && spec_attributes(x.0@) == spec_open_attributes(old(self).spec_tokens(), old(self).spec_cursor()) && final(self).spec_cursor() == next,
                None => r is Err,
            },
    {
        let attributes = self.take_open(namespace, name)?;
        self.trace.enter(namespace, name);
        self.trace.push_field(field);
        self.trace.record_context();
        let text = self.text_and_close()?;
        self.trace.pop_context();
        self.trace.leave();
        Ok((attributes, text))
    }

    /// Reads a leaf mapped to a model field, giving its text.
    pub fn leaf(&mut self, namespace: N, name: &str, field: &'static str) -> (r: Result<String, Error>)
        requires
            old(self).wf(),
        ensures
            final(self).follows(old(self)),
            r is Ok ==> final(self).spec_cursor() > old(self).spec_cursor(),
            r is Ok ==> spec_visited(
                old(self).spec_trace(),
                final(self).spec_trace(),
                namespace,
                name@,
                old(self).spec_trace().spec_context().push((field@, None::<nat>)),
            ),
            !spec_opens(old(self).spec_tokens(), old(self).spec_cursor(), namespace, name@) ==> (r matches Err(e)
                && e@ == spec_expected(name@)),
            match spec_leaf_at(old(self).spec_tokens(), old(self).spec_cursor(), namespace, name@) {
                Some((t, next)) => r matches Ok(x) && x@ == t && final(self).spec_cursor() == next,
                None => r is Err,
            },
    {
        let (_, text) = self.leaf_attr(namespace, name, field)?;
        Ok(text)
    }

    /// Reads an optional leaf mapped to a model field as a non-empty text.
    pub fn optional_leaf(&mut self, namespace: N, name: &str, field: &'static str) -> (r: Result<Option<NonEmptyString>, Error>)
        requires
            old(self).wf(),
        ensures
            final(self).follows(old(self)),
            r is Ok ==> final(self).spec_trace().spec_path() == old(self).spec_trace().spec_path()
                && final(self).spec_trace().spec_context() == old(self).spec_trace().spec_context(),
            !spec_opens(old(self).spec_tokens(), old(self).spec_cursor(), namespace, name@) ==> (r == Ok::<Option<NonEmptyString>, Error>(None)
                && *final(self) == *old(self)),
            match spec_leaf_at(old(self).spec_tokens(), old(self).spec_cursor(), namespace, name@) {
                Some((t, next)) => if t.len() > 0 {
                    r matches Ok(Some(x)) && x@ == t && final(self).spec_cursor() == next
                } else {
                    r matches Err(e) && e@ == ErrorView::InvalidValue("empty text"@)
                },
                None => spec_opens(old(self).spec_tokens(), old(self).spec_cursor(), namespace, name@) ==> r is Err,
            },
    {
        if self.is_open(namespace, name) {
            let text = self.leaf(namespace, name, field)?;
            Ok(Some(NonEmptyString::parse(text.as_str())?))
        } else {
            Ok(None)
        }
    }

    /// Reads the text of an optional leaf mapped to a model field.
    pub fn optional_text(&mut self, namespace: N, name: &str, field: &'static str) -> (r: Result<Option<String>, Error>)
        requires
            old(self).wf(),
        ensures
            final(self).follows(old(self)),
            r is Ok ==> final(self).spec_trace().spec_path() == old(self).spec_trace().spec_path()
                && final(self).spec_trace().spec_context() == old(self).spec_trace().spec_context(),
            !spec_opens(old(self).spec_tokens(), old(self).spec_cursor(), namespace, name@) ==> (r == Ok::<Option<String>, Error>(None)
                && *final(self) == *old(self)),
            spec_opens(old(self).spec_tokens(), old(self).spec_cursor(), namespace, name@) ==> (r matches Ok(t) ==> t is Some),
            match spec_leaf_at(old(self).spec_tokens(), old(self).spec_cursor(), namespace, name@) {
                Some((t, next)) => r matches Ok(Some(x)) && x@ == t && final(self).spec_cursor() == next,
                None => spec_opens(old(self).spec_tokens(), old(self).spec_cursor(), namespace, name@) ==> r is Err,
            },
    {
        if self.is_open(namespace, name) {
            Ok(Some(self.leaf(namespace, name, field)?))
        } else {
            Ok(None)
        }
    }

    /// Reads an optional leaf mapped to a model field, giving its attributes and text.
    pub fn optional_leaf_attr(&mut self, namespace: N, name: &str, field: &'static str) -> (r: Result<Option<(Vec<(String, String)>, String)>, Error>)
        requires
            old(self).wf(),
        ensures
            final(self).follows(old(self)),
            r is Ok ==> final(self).spec_trace().spec_path() == old(self).spec_trace().spec_path()
                && final(self).spec_trace().spec_context() == old(self).spec_trace().spec_context(),
            !spec_opens(old(self).spec_tokens(), old(self).spec_cursor(), namespace, name@) ==> (r matches Ok(None)
                && *final(self) == *old(self)),
            match spec_leaf_at(old(self).spec_tokens(), old(self).spec_cursor(), namespace, name@) {
                Some((t, next)) => r matches Ok(Some(x)) && x.1@ == t && spec_attributes(x.0@) == spec_open_attributes(
                    old(self).spec_tokens(),
                    old(self).spec_cursor(),
                ) && final(self).spec_cursor() == next,
                None => spec_opens(old(self).spec_tokens(), old(self).spec_cursor(), namespace, name@) ==> r is Err,
            },
    {
        if self.is_open(namespace, name) {
            Ok(Some(self.leaf_attr(namespace, name, field)?))
        } else {
            Ok(None)
        }
    }

    /// Reads an optional derived leaf with no model field, giving its attributes and text.
    pub fn optional_derived(&mut self, namespace: N, name: &str) -> (r: Result<Option<(Vec<(String, String)>, String)>, Error>)
        requires
            old(self).wf(),
        ensures
            final(self).follows(old(self)),
            r is Ok ==> final(self).spec_trace().spec_path() == old(self).spec_trace().spec_path()
                && final(self).spec_trace().spec_context() == old(self).spec_trace().spec_context(),
            !spec_opens(old(self).spec_tokens(), old(self).spec_cursor(), namespace, name@) ==> (r matches Ok(None)
                && *final(self) == *old(self)),
            match spec_leaf_at(old(self).spec_tokens(), old(self).spec_cursor(), namespace, name@) {
                Some((t, next)) => r matches Ok(Some(x)) && x.1@ == t && spec_attributes(x.0@) == spec_open_attributes(
                    old(self).spec_tokens(),
                    old(self).spec_cursor(),
                ) && final(self).spec_cursor() == next,
                None => spec_opens(old(self).spec_tokens(), old(self).spec_cursor(), namespace, name@) ==> r is Err,
            },
    {
        if self.is_open(namespace, name) {
            Ok(Some(self.derived(namespace, name)?))
        } else {
            Ok(None)
        }
    }

    /// Reads a repeatable single-value element, recorded against its group instance.
    pub fn repeatable_leaf(&mut self, namespace: N, name: &str, field: &'static str, instance: usize) -> (r: Result<String, Error>)
        requires
            old(self).wf(),
        ensures
            final(self).follows(old(self)),
            r is Ok ==> final(self).spec_cursor() > old(self).spec_cursor(),
            r is Ok ==> spec_visited(
                old(self).spec_trace(),
                final(self).spec_trace(),
                namespace,
                name@,
                old(self).spec_trace().spec_context().push((field@, Some(instance as nat))),
            ),
            !spec_opens(old(self).spec_tokens(), old(self).spec_cursor(), namespace, name@) ==> (r matches Err(e)
                && e@ == spec_expected(name@)),
            match spec_leaf_at(old(self).spec_tokens(), old(self).spec_cursor(), namespace, name@) {
                Some((t, next)) => r matches Ok(x) && x@ == t && final(self).spec_cursor() == next,
                None => r is Err,
            },
    {
        self.take_open(namespace, name)?;
        self.trace.enter(namespace, name);
        self.trace.push_instance(field, instance);
        self.trace.record_context();
        let text = self.text_and_close()?;
        self.trace.pop_context();
        self.trace.leave();
        Ok(text)
    }

    /// Reads a leaf recorded at the root context, such as a regulatory field.
    pub fn rooted(&mut self, namespace: N, name: &str) -> (r: Result<String, Error>)
        requires
            old(self).wf(),
        ensures
            final(self).follows(old(self)),
            r is Ok ==> final(self).spec_cursor() > old(self).spec_cursor(),
            r is Ok ==> spec_visited(
                old(self).spec_trace(),
                final(self).spec_trace(),
                namespace,
                name@,
                Seq::empty(),
            ),
            !spec_opens(old(self).spec_tokens(), old(self).spec_cursor(), namespace, name@) ==> (r matches Err(e)
                && e@ == spec_expected(name@)),
            match spec_leaf_at(old(self).spec_tokens(), old(self).spec_cursor(), namespace, name@) {
                Some((t, next)) => r matches Ok(x) && x@ == t && final(self).spec_cursor() == next,
                None => r is Err,
            },
    {
        self.take_open(namespace, name)?;
        self.trace.enter(namespace, name);
        self.trace.record_root();
        let text = self.text_and_close()?;
        self.trace.leave();
        Ok(text)
    }

    /// Reads a derived leaf with no model field, recorded against the enclosing context.
    pub fn derived(&mut self, namespace: N, name: &str) -> (r: Result<(Vec<(String, String)>, String), Error>)
        requires
            old(self).wf(),
        ensures
            final(self).follows(old(self)),
            r is Ok ==> final(self).spec_cursor() > old(self).spec_cursor(),
            r is Ok ==> spec_visited(
                old(self).spec_trace(),
                final(self).spec_trace(),
                namespace,
                name@,
                old(self).spec_trace().spec_context(),
            ),
            !spec_opens(old(self).spec_tokens(), old(self).spec_cursor(), namespace, name@) ==> (r matches Err(e)
                && e@ == spec_expected(name@)),
            match spec_leaf_at(old(self).spec_tokens(), old(self).spec_cursor(), namespace, name@) {
                Some((t, next)) => r matches Ok(x) && x.1@ == t && spec_attributes(x.0@) == spec_open_attributes(old(self).spec_tokens(), old(self).spec_cursor()) && final(self).spec_cursor() == next,
                None => r is Err,
            },
    {
        let attributes = self.take_open(namespace, name)?;
        self.trace.enter(namespace, name);
        self.trace.record_context();
        let text = self.text_and_close()?;
        self.trace.leave();
        Ok((attributes, text))
    }

    // Consumes the start of an element and enters it in the trace.
    fn open(&mut self, namespace: N, name: &str) -> (r: Result<(), Error>)
        requires
            old(self).wf(),
        ensures
            final(self).follows(old(self)),
            r is Ok ==> final(self).spec_cursor() == old(self).spec_cursor() + 1,
            r is Ok ==> final(self).spec_trace().spec_path().len() == old(self).spec_trace().spec_path().len() + 1,
            r is Ok ==> final(self).spec_trace().spec_path().drop_last() == old(self).spec_trace().spec_path(),
            r is Ok ==> final(self).spec_trace().spec_context() == old(self).spec_trace().spec_context(),
            r is Err ==> final(self).spec_trace() == old(self).spec_trace(),
            !spec_opens(old(self).spec_tokens(), old(self).spec_cursor(), namespace, name@) ==> (r matches Err(e)
                && e@ == spec_expected(name@)),
    {
        self.take_open(namespace, name)?;
        self.trace.enter(namespace, name);
        Ok(())
    }

    /// Enters a term-less structural wrapper recorded at the root context.
    pub fn enter_structural(&mut self, namespace: N, name: &str) -> (r: Result<(), Error>)
        requires
            old(self).wf(),
        ensures
            final(self).follows(old(self)),
            r is Ok ==> final(self).spec_cursor() > old(self).spec_cursor(),
            r is Ok ==> spec_entered(old(self).spec_trace(), final(self).spec_trace(), namespace, name@, None, true),
            !spec_opens(old(self).spec_tokens(), old(self).spec_cursor(), namespace, name@) ==> (r matches Err(e)
                && e@ == spec_expected(name@)),
            spec_opens(old(self).spec_tokens(), old(self).spec_cursor(), namespace, name@) ==> (r is Ok
                && final(self).spec_cursor() == old(self).spec_cursor() + 1),
    {
        self.take_open(namespace, name)?;
        self.trace.enter(namespace, name);
        self.trace.record_root();
        Ok(())
    }

    /// Enters a wrapper recorded against the enclosing context, without a new segment.
    pub fn enter_nested(&mut self, namespace: N, name: &str) -> (r: Result<(), Error>)
        requires
            old(self).wf(),
        ensures
            final(self).follows(old(self)),
            r is Ok ==> final(self).spec_cursor() > old(self).spec_cursor(),
            r is Ok ==> spec_entered(old(self).spec_trace(), final(self).spec_trace(), namespace, name@, None, false),
            !spec_opens(old(self).spec_tokens(), old(self).spec_cursor(), namespace, name@) ==> (r matches Err(e)
                && e@ == spec_expected(name@)),
            spec_opens(old(self).spec_tokens(), old(self).spec_cursor(), namespace, name@) ==> (r is Ok
                && final(self).spec_cursor() == old(self).spec_cursor() + 1),
    {
        self.take_open(namespace, name)?;
        self.trace.enter(namespace, name);
        self.trace.record_context();
        Ok(())
    }

    /// Enters a group mapped to a model field.
    pub fn enter_group(&mut self, namespace: N, name: &str, field: &'static str) -> (r: Result<(), Error>)
        requires
            old(self).wf(),
        ensures
            final(self).follows(old(self)),
            r is Ok ==> final(self).spec_cursor() > old(self).spec_cursor(),
            r is Ok ==> spec_entered(old(self).spec_trace(), final(self).spec_trace(), namespace, name@, Some((field@, None::<nat>)), false),
            !spec_opens(old(self).spec_tokens(), old(self).spec_cursor(), namespace, name@) ==> (r matches Err(e)
                && e@ == spec_expected(name@)),
            spec_opens(old(self).spec_tokens(), old(self).spec_cursor(), namespace, name@) ==> (r is Ok
                && final(self).spec_cursor() == old(self).spec_cursor() + 1),
    {
        self.take_open(namespace, name)?;
        self.trace.enter(namespace, name);
        self.trace.push_field(field);
        self.trace.record_context();
        Ok(())
    }

    /// Enters one instance of a repeatable group, carrying its index.
    pub fn enter_repeatable(&mut self, namespace: N, name: &str, field: &'static str, instance: usize) -> (r: Result<(), Error>)
        requires
            old(self).wf(),
        ensures
            final(self).follows(old(self)),
            r is Ok ==> final(self).spec_cursor() > old(self).spec_cursor(),
            r is Ok ==> spec_entered(old(self).spec_trace(), final(self).spec_trace(), namespace, name@, Some((field@, Some(instance as nat))), false),
            !spec_opens(old(self).spec_tokens(), old(self).spec_cursor(), namespace, name@) ==> (r matches Err(e)
                && e@ == spec_expected(name@)),
            spec_opens(old(self).spec_tokens(), old(self).spec_cursor(), namespace, name@) ==> (r is Ok
                && final(self).spec_cursor() == old(self).spec_cursor() + 1),
    {
        self.take_open(namespace, name)?;
        self.trace.enter(namespace, name);
        self.trace.push_instance(field, instance);
        self.trace.record_context();
        Ok(())
    }

    /// Leaves a structural or nested wrapper, which carries no segment.
    pub fn leave_wrapper(&mut self) -> (r: Result<(), Error>)
        requires
            old(self).wf(),
            old(self).spec_trace().spec_path().len() > 0,
        ensures
            final(self).follows(old(self)),
            r is Ok ==> final(self).spec_cursor() > old(self).spec_cursor(),
            r is Ok ==> spec_left(old(self).spec_trace(), final(self).spec_trace(), false),
            spec_closes(old(self).spec_tokens(), old(self).spec_cursor()) ==> (r is Ok
                && final(self).spec_cursor() == old(self).spec_cursor() + 1),
            !spec_closes(old(self).spec_tokens(), old(self).spec_cursor()) ==> (r matches Err(e)
                && e@ == ErrorView::MalformedXml("expected an end tag"@)),
    {
        self.take_close()?;
        self.trace.leave();
        Ok(())
    }

    /// Leaves a group or a repeatable group instance, dropping its segment.
    pub fn leave_group(&mut self) -> (r: Result<(), Error>)
        requires
            old(self).wf(),
            old(self).spec_trace().spec_path().len() > 0,
        ensures
            final(self).follows(old(self)),
            r is Ok ==> final(self).spec_cursor() > old(self).spec_cursor(),
            r is Ok ==> spec_left(old(self).spec_trace(), final(self).spec_trace(), true),
            spec_closes(old(self).spec_tokens(), old(self).spec_cursor()) ==> (r is Ok
                && final(self).spec_cursor() == old(self).spec_cursor() + 1),
            !spec_closes(old(self).spec_tokens(), old(self).spec_cursor()) ==> (r matches Err(e)
                && e@ == ErrorView::MalformedXml("expected an end tag"@)),
    {
        self.take_close()?;
        self.trace.pop_context();
        self.trace.leave();
        Ok(())
    }

    /// Drops the innermost model segment while the walk stays in the current element,
    /// for an element whose later children belong to the enclosing context.
    pub fn pop_segment(&mut self)
        requires
            old(self).wf(),
        ensures
            final(self).follows(old(self)),
            final(self).spec_cursor() == old(self).spec_cursor(),
            final(self).spec_trace().spec_path() == old(self).spec_trace().spec_path(),
            final(self).spec_trace().spec_context() == if old(self).spec_trace().spec_context().len() > 0 {
                old(self).spec_trace().spec_context().drop_last()
            } else {
                old(self).spec_trace().spec_context()
            },
    {
        self.trace.pop_context();
    }
}

} // verus!
