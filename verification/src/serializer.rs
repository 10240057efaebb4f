//! The writing machinery shared by the bindings: it renders the XML and records every written
//! node into the dictionary in the same pass, behind one set of writing primitives.

use vstd::prelude::*;
use crate::context::SegmentView;
use crate::format::Format;
use crate::namespace::{Abbreviations, Namespace, spec_default_entries};
use crate::table::spec_lookup;
use crate::term::Term;
use crate::text::{append_str, owned, push_char};
use crate::token::spec_attributes;
use crate::trace::{spec_bump, spec_next_index, Dictionary, FrameView, Trace};
use crate::xml::{end_tag, spec_end_tag, spec_escape_text, spec_start_tag, start_tag, text_event};

verus! {

/// The qualified name of an element, prefixed for its namespace.
pub open spec fn spec_qname<N: Namespace>(namespace: N, name: Seq<char>) -> Seq<char> {
    if namespace.spec_prefix().len() == 0 {
        name
    } else {
        namespace.spec_prefix() + seq![':'] + name
    }
}

/// A whole element as written: its start tag, its escaped text and its end tag.
pub open spec fn spec_element<N: Namespace>(
    namespace: N,
    name: Seq<char>,
    attributes: Seq<(Seq<char>, Seq<char>)>,
    value: Seq<char>,
) -> Seq<char> {
    spec_start_tag(spec_qname(namespace, name), attributes) + spec_escape_text(value) + spec_end_tag(
        spec_qname(namespace, name),
    )
}

/// The declaration of a namespace on the root: `xmlns` for the default namespace,
/// `xmlns:` and the prefix otherwise, bound to the URI.
pub open spec fn spec_declaration<N: Namespace>(namespace: N) -> (Seq<char>, Seq<char>) {
    if namespace.spec_prefix().len() == 0 {
        ("xmlns"@, namespace.spec_uri())
    } else {
        ("xmlns:"@ + namespace.spec_prefix(), namespace.spec_uri())
    }
}

/// How a trace moves when the walk visits a whole element and records it against `context`:
/// the element is indexed among its siblings, recorded, and left.
pub open spec fn spec_visited<N: Namespace>(
    before: Trace<N>,
    after: Trace<N>,
    namespace: N,
    name: Seq<char>,
    context: Seq<SegmentView>,
) -> bool {
    let step = (namespace, name, spec_next_index(before.spec_frames().last(), namespace, name));
    &&& after.wf()
    &&& after.spec_path() == before.spec_path()
    &&& after.spec_context() == before.spec_context()
    &&& after.spec_frames() == before.spec_frames().drop_last().push(
        spec_bump(before.spec_frames().last(), namespace, name),
    )
    &&& forall|p: Seq<(N, Seq<char>, nat)>| #[trigger] after.spec_dictionary().lookup(p) == if p
        == before.spec_path().push(step) {
        Some(context)
    } else {
        before.spec_dictionary().lookup(p)
    }
}

/// How a trace moves when the walk enters an element, extends the context by `segment`
/// if any, and records the element against the extended context (or the root context).
pub open spec fn spec_entered<N: Namespace>(
    before: Trace<N>,
    after: Trace<N>,
    namespace: N,
    name: Seq<char>,
    segment: Option<SegmentView>,
    rooted: bool,
) -> bool {
    let step = (namespace, name, spec_next_index(before.spec_frames().last(), namespace, name));
    let context = match segment {
        Some(s) => before.spec_context().push(s),
        None => before.spec_context(),
    };
    &&& after.wf()
    &&& after.spec_path() == before.spec_path().push(step)
    &&& after.spec_context() == context
    &&& after.spec_frames() == before.spec_frames().drop_last().push(
        spec_bump(before.spec_frames().last(), namespace, name),
    ).push(Map::<(N, Seq<char>), nat>::empty())
    &&& forall|p: Seq<(N, Seq<char>, nat)>| #[trigger] after.spec_dictionary().lookup(p) == if p
        == after.spec_path() {
        Some(if rooted { Seq::<SegmentView>::empty() } else { context })
    } else {
        before.spec_dictionary().lookup(p)
    }
}

/// How a trace moves when the walk leaves the current element, dropping the segment
/// it entered with, if any.
pub open spec fn spec_left<N: Namespace>(before: Trace<N>, after: Trace<N>, segment: bool) -> bool {
    &&& after.wf()
    &&& after.spec_path() == before.spec_path().drop_last()
    &&& after.spec_context() == if segment && before.spec_context().len() > 0 {
        before.spec_context().drop_last()
    } else {
        before.spec_context()
    }
    &&& after.spec_frames() == before.spec_frames().drop_last()
    &&& after.spec_dictionary() == before.spec_dictionary()
}

/// The stateful writer of a binding, handed to a writing walk.
///
/// It renders the XML and records every written node into the dictionary in the same pass,
/// so a finding of a validator later binds to the model context of the node it addresses.
/// The walk writes the document through the writing primitives only, from the root element down.
pub struct Serializer<N: Namespace> {
    xml: String,
    trace: Trace<N>,
    abbreviations: Abbreviations<N>,
    forbidden: Vec<Term>,
}

impl<N: Namespace> Serializer<N> {
    /// The XML written so far.
    pub closed spec fn spec_xml(&self) -> Seq<char> {
        self.xml@
    }

    /// The walk state of the written nodes.
    pub closed spec fn spec_trace(&self) -> Trace<N> {
        self.trace
    }

    /// The abbreviations the written document binds.
    pub closed spec fn spec_abbreviations(&self) -> Seq<(Seq<char>, N)> {
        self.abbreviations.spec_entries()
    }

    /// The terms the profile forbids.
    pub closed spec fn spec_forbidden(&self) -> Seq<Term> {
        self.forbidden@
    }

    /// Whether the writer can go on: its trace is well formed.
    pub open spec fn wf(&self) -> bool {
        self.spec_trace().wf()
    }

    /// Whether a call changed neither the abbreviations nor the forbidden terms.
    pub open spec fn keeps(&self, other: &Self) -> bool {
        &&& self.spec_abbreviations() == other.spec_abbreviations()
        &&& self.spec_forbidden() == other.spec_forbidden()
    }

    /// A writer with nothing written, forbidding the given terms.
    pub fn new(forbidden: Vec<Term>) -> (r: Self)
        ensures
            r.wf(),
            r.spec_xml() == Seq::<char>::empty(),
            r.spec_forbidden() == forbidden@,
            r.spec_abbreviations() == spec_default_entries::<N>(),
            r.spec_trace().spec_path().len() == 0,
            r.spec_trace().spec_context().len() == 0,
            r.spec_trace().spec_frames() == seq![Map::<(N, Seq<char>), nat>::empty()],
            forall|p: Seq<(N, Seq<char>, nat)>| r.spec_trace().spec_dictionary().lookup(p) is None,
    {
        Serializer {
            xml: String::new(),
            trace: Trace::new(),
            abbreviations: Abbreviations::default_abbreviations(),
            forbidden,
        }
    }

    /// The written XML, the dictionary of its nodes, and the abbreviations it binds.
    pub fn finish(self) -> (r: (String, Dictionary<N>, Abbreviations<N>))
        ensures
            r.0@ == self.spec_xml(),
            r.1 == self.spec_trace().spec_dictionary(),
            r.2.spec_entries() == self.spec_abbreviations(),
    {
        let dictionary = self.trace.into_dictionary();
        (self.xml, dictionary, self.abbreviations)
    }

    /// Whether the profile forbids the term of a node about to be written.
    pub fn forbids(&self, term: Term) -> (r: bool)
        ensures
            r == self.spec_forbidden().contains(term),
    {
        let mut i: usize = 0;
        while i < self.forbidden.len()
            invariant
                i <= self.forbidden@.len(),
                forall|j: int| 0 <= j < i ==> self.forbidden@[j] != term,
            decreases self.forbidden@.len() - i,
        {
            if self.forbidden[i].same(&term) {
                return true;
            }
            i = i + 1;
        }
        false
    }

    /// The qualified name of an element, prefixed for its namespace.
    pub fn qname(namespace: N, name: &str) -> (r: String)
        ensures
            r@ == spec_qname(namespace, name@),
    {
        let prefix = namespace.prefix();
        if prefix.unicode_len() == 0 {
            owned(name)
        } else {
            let mut r = owned(prefix);
            push_char(&mut r, ':');
            append_str(&mut r, name);
            r
        }
    }

    /// Writes a whole element with its attributes and text, never recorded.
    pub fn write_element(
        &mut self,
        namespace: N,
        name: &str,
        attributes: &Vec<(String, String)>,
        value: &str,
    )
        ensures
            final(self).spec_xml() == old(self).spec_xml() + spec_element(
                namespace,
                name@,
                spec_attributes(attributes@),
                value@,
            ),
            final(self).spec_trace() == old(self).spec_trace(),
            final(self).keeps(old(self)),
    {
        let tag = Self::qname(namespace, name);
        let start = start_tag(tag.as_str(), attributes);
        let text = text_event(value);
        let end = end_tag(tag.as_str());
        append_str(&mut self.xml, start.as_str());
        append_str(&mut self.xml, text.as_str());
        append_str(&mut self.xml, end.as_str());
        assert(self.xml@ =~= old(self).spec_xml() + spec_element(
            namespace,
            name@,
            spec_attributes(attributes@),
            value@,
        ));
    }

    /// Writes the start tag of an element without attributes.
    pub fn write_start(&mut self, namespace: N, name: &str)
        ensures
            final(self).spec_xml() == old(self).spec_xml() + spec_start_tag(
                spec_qname(namespace, name@),
                Seq::empty(),
            ),
            final(self).spec_trace() == old(self).spec_trace(),
            final(self).keeps(old(self)),
    {
        let tag = Self::qname(namespace, name);
        let none: Vec<(String, String)> = Vec::new();
        let start = start_tag(tag.as_str(), &none);
        assert(spec_attributes(none@) =~= Seq::empty());
        append_str(&mut self.xml, start.as_str());
    }

    /// Writes the end tag of an element.
    pub fn write_end(&mut self, namespace: N, name: &str)
        ensures
            final(self).spec_xml() == old(self).spec_xml() + spec_end_tag(
                spec_qname(namespace, name@),
            ),
            final(self).spec_trace() == old(self).spec_trace(),
            final(self).keeps(old(self)),
    {
        let tag = Self::qname(namespace, name);
        let end = end_tag(tag.as_str());
        append_str(&mut self.xml, end.as_str());
    }

    /// Writes a leaf mapped to a model field with its attributes, recorded against the
    /// context extended by the field.
    pub fn write_field_leaf(
        &mut self,
        namespace: N,
        name: &str,
        field: &'static str,
        attributes: &Vec<(String, String)>,
        value: &str,
    )
        requires
            old(self).wf(),
        ensures
            spec_restored(*old(self), *final(self)),
            final(self).spec_xml() == old(self).spec_xml() + spec_element(
                namespace,
                name@,
                spec_attributes(attributes@),
                value@,
            ),
            spec_visited(
                old(self).spec_trace(),
                final(self).spec_trace(),
                namespace,
                name@,
                old(self).spec_trace().spec_context().push((field@, None::<nat>)),
            ),
            final(self).keeps(old(self)),
    {
        self.trace.enter(namespace, name);
        self.trace.push_field(field);
        self.trace.record_context();
        self.write_element(namespace, name, attributes, value);
        self.trace.pop_context();
        self.trace.leave();
        proof {
            let before = old(self).spec_trace();
            let step = (namespace, name@, spec_next_index(before.spec_frames().last(), namespace, name@));
            assert(before.spec_path().push(step).drop_last() =~= before.spec_path());
            assert(before.spec_context().push((field@, None::<nat>)).drop_last() =~= before.spec_context());
            let bumped = before.spec_frames().drop_last().push(
                spec_bump(before.spec_frames().last(), namespace, name@),
            );
            assert(bumped.push(Map::<(N, Seq<char>), nat>::empty()).drop_last() =~= bumped);
        }
    }

    /// Writes a leaf mapped to a model field without attributes, never filtered.
    pub fn field_leaf(&mut self, namespace: N, name: &str, field: &'static str, value: &str)
        requires
            old(self).wf(),
        ensures
            spec_restored(*old(self), *final(self)),
            final(self).spec_xml() == old(self).spec_xml() + spec_element(
                namespace,
                name@,
                Seq::empty(),
                value@,
            ),
            spec_visited(
                old(self).spec_trace(),
                final(self).spec_trace(),
                namespace,
                name@,
                old(self).spec_trace().spec_context().push((field@, None::<nat>)),
            ),
            final(self).keeps(old(self)),
    {
        let none: Vec<(String, String)> = Vec::new();
        assert(spec_attributes(none@) =~= Seq::empty());
        self.write_field_leaf(namespace, name, field, &none, value);
    }

    /// Drops the innermost model segment while the walk stays in the current element,
    /// for an element whose later children belong to the enclosing context.
    pub fn pop_segment(&mut self)
        requires
            old(self).wf(),
        ensures
            final(self).wf(),
            final(self).spec_xml() == old(self).spec_xml(),
            final(self).spec_trace().spec_path() == old(self).spec_trace().spec_path(),
            final(self).spec_trace().spec_context() == if old(self).spec_trace().spec_context().len()
                > 0 {
                old(self).spec_trace().spec_context().drop_last()
            } else {
                old(self).spec_trace().spec_context()
            },
            final(self).spec_trace().spec_dictionary() == old(self).spec_trace().spec_dictionary(),
            final(self).keeps(old(self)),
    {
        self.trace.pop_context();
    }

    /// Writes a term-bearing leaf, skipped when the profile forbids the term.
    pub fn leaf(&mut self, namespace: N, name: &str, field: &'static str, term: Term, value: &str)
        requires
            old(self).wf(),
        ensures
            spec_restored(*old(self), *final(self)),
            final(self).keeps(old(self)),
            old(self).spec_forbidden().contains(term) ==> *final(self) == *old(self),
            !old(self).spec_forbidden().contains(term) ==> {
                &&& final(self).spec_xml() == old(self).spec_xml() + spec_element(
                    namespace,
                    name@,
                    Seq::empty(),
                    value@,
                )
                &&& spec_visited(
                    old(self).spec_trace(),
                    final(self).spec_trace(),
                    namespace,
                    name@,
                    old(self).spec_trace().spec_context().push((field@, None::<nat>)),
                )
            },
    {
        proof {
            lemma_extends_itself(self.spec_xml());
        }
        if self.forbids(term) {
            return;
        }
        let none: Vec<(String, String)> = Vec::new();
        assert(spec_attributes(none@) =~= Seq::empty());
        self.write_field_leaf(namespace, name, field, &none, value);
    }

    /// Writes a term-bearing leaf with attributes, skipped when the profile forbids the term.
    pub fn leaf_attr(
        &mut self,
        namespace: N,
        name: &str,
        field: &'static str,
        term: Term,
        attributes: &Vec<(String, String)>,
        value: &str,
    )
        requires
            old(self).wf(),
        ensures
            spec_restored(*old(self), *final(self)),
            final(self).keeps(old(self)),
            old(self).spec_forbidden().contains(term) ==> *final(self) == *old(self),
            !old(self).spec_forbidden().contains(term) ==> {
                &&& final(self).spec_xml() == old(self).spec_xml() + spec_element(
                    namespace,
                    name@,
                    spec_attributes(attributes@),
                    value@,
                )
                &&& spec_visited(
                    old(self).spec_trace(),
                    final(self).spec_trace(),
                    namespace,
                    name@,
                    old(self).spec_trace().spec_context().push((field@, None::<nat>)),
                )
            },
    {
        proof {
            lemma_extends_itself(self.spec_xml());
        }
        if self.forbids(term) {
            return;
        }
        self.write_field_leaf(namespace, name, field, attributes, value);
    }

    /// Writes a repeatable single-value element mapped to a group instance,
    /// skipped when the profile forbids the term.
    pub fn repeatable_leaf(
        &mut self,
        namespace: N,
        name: &str,
        field: &'static str,
        term: Term,
        instance: usize,
        value: &str,
    )
        requires
            old(self).wf(),
        ensures
            spec_restored(*old(self), *final(self)),
            final(self).keeps(old(self)),
            old(self).spec_forbidden().contains(term) ==> *final(self) == *old(self),
            !old(self).spec_forbidden().contains(term) ==> {
                &&& final(self).spec_xml() == old(self).spec_xml() + spec_element(
                    namespace,
                    name@,
                    Seq::empty(),
                    value@,
                )
                &&& spec_visited(
                    old(self).spec_trace(),
                    final(self).spec_trace(),
                    namespace,
                    name@,
                    old(self).spec_trace().spec_context().push((field@, Some(instance as nat))),
                )
            },
    {
        proof {
            lemma_extends_itself(self.spec_xml());
        }
        if self.forbids(term) {
            return;
        }
        let none: Vec<(String, String)> = Vec::new();
        assert(spec_attributes(none@) =~= Seq::empty());
        self.trace.enter(namespace, name);
        self.trace.push_instance(field, instance);
        self.trace.record_context();
        self.write_element(namespace, name, &none, value);
        self.trace.pop_context();
        self.trace.leave();
        proof {
            let before = old(self).spec_trace();
            let step = (namespace, name@, spec_next_index(before.spec_frames().last(), namespace, name@));
            assert(before.spec_path().push(step).drop_last() =~= before.spec_path());
            assert(before.spec_context().push((field@, Some(instance as nat))).drop_last()
                =~= before.spec_context());
            let bumped = before.spec_frames().drop_last().push(
                spec_bump(before.spec_frames().last(), namespace, name@),
            );
            assert(bumped.push(Map::<(N, Seq<char>), nat>::empty()).drop_last() =~= bumped);
        }
    }

    /// Writes a leaf recorded at the root context, such as a regulatory field (`BT-23`/`BT-24`).
    pub fn rooted(
        &mut self,
        namespace: N,
        name: &str,
        attributes: &Vec<(String, String)>,
        value: &str,
    )
        requires
            old(self).wf(),
        ensures
            spec_restored(*old(self), *final(self)),
            final(self).spec_xml() == old(self).spec_xml() + spec_element(
                namespace,
                name@,
                spec_attributes(attributes@),
                value@,
            ),
            spec_visited(
                old(self).spec_trace(),
                final(self).spec_trace(),
                namespace,
                name@,
                Seq::empty(),
            ),
            final(self).keeps(old(self)),
    {
        self.trace.enter(namespace, name);
        self.trace.record_root();
        self.write_element(namespace, name, attributes, value);
        self.trace.leave();
        proof {
            let before = old(self).spec_trace();
            let step = (namespace, name@, spec_next_index(before.spec_frames().last(), namespace, name@));
            assert(before.spec_path().push(step).drop_last() =~= before.spec_path());
            let bumped = before.spec_frames().drop_last().push(
                spec_bump(before.spec_frames().last(), namespace, name@),
            );
            assert(bumped.push(Map::<(N, Seq<char>), nat>::empty()).drop_last() =~= bumped);
        }
    }

    /// Writes a derived leaf with no model field, recorded against the enclosing context.
    pub fn derived(
        &mut self,
        namespace: N,
        name: &str,
        attributes: &Vec<(String, String)>,
        value: &str,
    )
        requires
            old(self).wf(),
        ensures
            spec_restored(*old(self), *final(self)),
            final(self).spec_xml() == old(self).spec_xml() + spec_element(
                namespace,
                name@,
                spec_attributes(attributes@),
                value@,
            ),
            spec_visited(
                old(self).spec_trace(),
                final(self).spec_trace(),
                namespace,
                name@,
                old(self).spec_trace().spec_context(),
            ),
            final(self).keeps(old(self)),
    {
        self.trace.enter(namespace, name);
        self.trace.record_context();
        self.write_element(namespace, name, attributes, value);
        self.trace.leave();
        proof {
            let before = old(self).spec_trace();
            let step = (namespace, name@, spec_next_index(before.spec_frames().last(), namespace, name@));
            assert(before.spec_path().push(step).drop_last() =~= before.spec_path());
            let bumped = before.spec_frames().drop_last().push(
                spec_bump(before.spec_frames().last(), namespace, name@),
            );
            assert(bumped.push(Map::<(N, Seq<char>), nat>::empty()).drop_last() =~= bumped);
        }
    }

    /// Opens a term-bearing group mapped to a model field, unless the profile forbids the term;
    /// says whether it opened it. The walk writes the body and closes the group only then.
    pub fn open_group(&mut self, namespace: N, name: &str, field: &'static str, term: Term) -> (r: bool)
        requires
            old(self).wf(),
        ensures
            r == !old(self).spec_forbidden().contains(term),
            !r ==> *final(self) == *old(self),
            r ==> final(self).spec_xml() == old(self).spec_xml() + spec_start_tag(
                spec_qname(namespace, name@),
                Seq::empty(),
            ),
            r ==> spec_entered(
                old(self).spec_trace(),
                final(self).spec_trace(),
                namespace,
                name@,
                Some((field@, None::<nat>)),
                false,
            ),
            final(self).keeps(old(self)),
    {
        if self.forbids(term) {
            return false;
        }
        self.open_field_group(namespace, name, field);
        true
    }

    /// Opens a group mapped to a model field, never filtered (its term is never forbidden).
    pub fn open_field_group(&mut self, namespace: N, name: &str, field: &'static str)
        requires
            old(self).wf(),
        ensures
            final(self).spec_xml() == old(self).spec_xml() + spec_start_tag(
                spec_qname(namespace, name@),
                Seq::empty(),
            ),
            spec_entered(
                old(self).spec_trace(),
                final(self).spec_trace(),
                namespace,
                name@,
                Some((field@, None::<nat>)),
                false,
            ),
            final(self).keeps(old(self)),
    {
        self.trace.enter(namespace, name);
        self.trace.push_field(field);
        self.trace.record_context();
        self.write_start(namespace, name);
    }

    /// Opens one instance of a term-bearing repeatable group, carrying its index,
    /// unless the profile forbids the term; says whether it opened it.
    pub fn open_repeatable(
        &mut self,
        namespace: N,
        name: &str,
        field: &'static str,
        term: Term,
        instance: usize,
    ) -> (r: bool)
        requires
            old(self).wf(),
        ensures
            r == !old(self).spec_forbidden().contains(term),
            !r ==> *final(self) == *old(self),
            r ==> final(self).spec_xml() == old(self).spec_xml() + spec_start_tag(
                spec_qname(namespace, name@),
                Seq::empty(),
            ),
            r ==> spec_entered(
                old(self).spec_trace(),
                final(self).spec_trace(),
                namespace,
                name@,
                Some((field@, Some(instance as nat))),
                false,
            ),
            final(self).keeps(old(self)),
    {
        if self.forbids(term) {
            return false;
        }
        self.trace.enter(namespace, name);
        self.trace.push_instance(field, instance);
        self.trace.record_context();
        self.write_start(namespace, name);
        true
    }

    /// Closes a group or a repeatable group instance, dropping its segment.
    pub fn close_group(&mut self, namespace: N, name: &str)
        requires
            old(self).wf(),
            old(self).spec_trace().spec_path().len() > 0,
        ensures
            final(self).spec_xml() == old(self).spec_xml() + spec_end_tag(spec_qname(namespace, name@)),
            spec_left(old(self).spec_trace(), final(self).spec_trace(), true),
            final(self).keeps(old(self)),
    {
        self.write_end(namespace, name);
        self.trace.pop_context();
        self.trace.leave();
    }

    /// Opens a term-less structural wrapper recorded at the root context.
    pub fn open_structural(&mut self, namespace: N, name: &str)
        requires
            old(self).wf(),
        ensures
            final(self).spec_xml() == old(self).spec_xml() + spec_start_tag(
                spec_qname(namespace, name@),
                Seq::empty(),
            ),
            spec_entered(
                old(self).spec_trace(),
                final(self).spec_trace(),
                namespace,
                name@,
                None,
                true,
            ),
            final(self).keeps(old(self)),
    {
        self.trace.enter(namespace, name);
        self.trace.record_root();
        self.write_start(namespace, name);
    }

    /// Opens a wrapper recorded against the enclosing context, without a new segment.
    pub fn open_nested(&mut self, namespace: N, name: &str)
        requires
            old(self).wf(),
        ensures
            final(self).spec_xml() == old(self).spec_xml() + spec_start_tag(
                spec_qname(namespace, name@),
                Seq::empty(),
            ),
            spec_entered(
                old(self).spec_trace(),
                final(self).spec_trace(),
                namespace,
                name@,
                None,
                false,
            ),
            final(self).keeps(old(self)),
    {
        self.trace.enter(namespace, name);
        self.trace.record_context();
        self.write_start(namespace, name);
    }

    /// Closes a structural or nested wrapper, which carries no segment.
    pub fn close_wrapper(&mut self, namespace: N, name: &str)
        requires
            old(self).wf(),
            old(self).spec_trace().spec_path().len() > 0,
        ensures
            final(self).spec_xml() == old(self).spec_xml() + spec_end_tag(spec_qname(namespace, name@)),
            spec_left(old(self).spec_trace(), final(self).spec_trace(), false),
            final(self).keeps(old(self)),
    {
        self.write_end(namespace, name);
        self.trace.leave();
    }
}

/// Pushing an element and dropping the last one gives the sequence back.
pub broadcast proof fn lemma_push_then_drop<A>(s: Seq<A>, a: A)
    ensures
        #[trigger] s.push(a).drop_last() == s,
{
    assert(s.push(a).drop_last() =~= s);
}

/// Whether a text goes on from another one: the other is its beginning.
pub closed spec fn spec_extends(before: Seq<char>, after: Seq<char>) -> bool {
    exists|rest: Seq<char>| after == before + rest
}

/// A text goes on from itself.
pub broadcast proof fn lemma_extends_itself(text: Seq<char>)
    ensures
        #[trigger] spec_extends(text, text),
{
    assert(text == text + Seq::<char>::empty());
}

/// A text goes on from its beginning.
pub broadcast proof fn lemma_extends_append(text: Seq<char>, rest: Seq<char>)
    ensures
        #![trigger text + rest]
        spec_extends(text, text + rest),
{
}

/// Going on from a text that goes on from another one goes on from the other.
pub broadcast proof fn lemma_extends_chain(a: Seq<char>, b: Seq<char>, c: Seq<char>)
    requires
        #[trigger] spec_extends(a, b),
        #[trigger] spec_extends(b, c),
    ensures
        spec_extends(a, c),
{
    let x = choose|x: Seq<char>| b == a + x;
    let y = choose|y: Seq<char>| c == b + y;
    assert(c == a + (x + y));
}

/// Whether `after` is `before` followed by one element of the namespace and the name, without
/// attributes, whatever it holds.
pub closed spec fn spec_wrapped<N: Namespace>(before: Seq<char>, after: Seq<char>, namespace: N, name: Seq<char>) -> bool {
    exists|body: Seq<char>|
        after == before + spec_start_tag(spec_qname(namespace, name), Seq::empty()) + body + spec_end_tag(
            spec_qname(namespace, name),
        )
}

/// Closing an element whose start tag was written after `before` wraps what was written
/// in between.
pub broadcast proof fn lemma_wrapped<N: Namespace>(before: Seq<char>, inner: Seq<char>, namespace: N, name: Seq<char>)
    requires
        spec_extends(before + spec_start_tag(spec_qname(namespace, name), Seq::empty()), inner),
    ensures
        #[trigger] spec_wrapped(before, inner + spec_end_tag(spec_qname(namespace, name)), namespace, name),
{
    let start = spec_start_tag(spec_qname(namespace, name), Seq::<(Seq<char>, Seq<char>)>::empty());
    let end = spec_end_tag(spec_qname(namespace, name));
    let rest = choose|rest: Seq<char>| inner == before + start + rest;
    assert(inner + end == before + start + rest + end);
}

/// The body of an element that was written whole.
pub proof fn lemma_wrapped_body<N: Namespace>(before: Seq<char>, after: Seq<char>, namespace: N, name: Seq<char>)
    requires
        spec_wrapped(before, after, namespace, name),
    ensures
        exists|body: Seq<char>|
            after == before + spec_start_tag(spec_qname(namespace, name), Seq::empty()) + body + spec_end_tag(
                spec_qname(namespace, name),
            ),
{
}

/// Whether `after` is `before` followed by `count` elements of the namespace and the name,
/// one after the other, without attributes, whatever each holds.
pub open spec fn spec_wrapped_each<N: Namespace>(
    before: Seq<char>,
    after: Seq<char>,
    namespace: N,
    name: Seq<char>,
    count: nat,
) -> bool
    decreases count,
{
    if count == 0 {
        after == before
    } else {
        exists|mid: Seq<char>|
            spec_wrapped_each(before, mid, namespace, name, (count - 1) as nat) && #[trigger] spec_wrapped(
                mid,
                after,
                namespace,
                name,
            )
    }
}

/// A whole element without attributes wraps its escaped text.
pub broadcast proof fn lemma_element_wrapped<N: Namespace>(before: Seq<char>, namespace: N, name: Seq<char>, value: Seq<char>)
    ensures
        #[trigger] spec_wrapped(before, before + spec_element(namespace, name, Seq::empty(), value), namespace, name),
{
    let body = spec_escape_text(value);
    assert(before + spec_element(namespace, name, Seq::empty(), value) == before + spec_start_tag(
        spec_qname(namespace, name),
        Seq::empty(),
    ) + body + spec_end_tag(spec_qname(namespace, name)));
}

/// The `schemeID` attribute of an identifier, absent without its scheme.
pub open spec fn spec_scheme_attribute(scheme: Option<crate::values::NonEmptyString>) -> Seq<(Seq<char>, Seq<char>)> {
    match scheme {
        Some(v) => seq![("schemeID"@, v@)],
        None => Seq::empty(),
    }
}

/// A whole element without attributes when there is a value, nothing otherwise.
pub open spec fn spec_optional_element<N: Namespace>(
    namespace: N,
    name: Seq<char>,
    value: Option<crate::values::NonEmptyString>,
) -> Seq<char> {
    match value {
        Some(v) => spec_element(namespace, name, Seq::empty(), v@),
        None => Seq::empty(),
    }
}

/// A leaf element with its attributes when there is a value and the profile allows its term,
/// nothing otherwise.
pub open spec fn spec_term_element<N: Namespace>(
    forbidden: Seq<Term>,
    term: Term,
    namespace: N,
    name: Seq<char>,
    attributes: Seq<(Seq<char>, Seq<char>)>,
    value: Option<Seq<char>>,
) -> Seq<char> {
    match value {
        Some(v) => if forbidden.contains(term) {
            Seq::empty()
        } else {
            spec_element(namespace, name, attributes, v)
        },
        None => Seq::empty(),
    }
}

/// A walk made of two parts that each leave the writer where they found it leaves it there too.
pub broadcast proof fn lemma_restored_chain<N: Namespace>(a: Serializer<N>, b: Serializer<N>, c: Serializer<N>)
    requires
        #[trigger] spec_restored(a, b),
        #[trigger] spec_restored(b, c),
    ensures
        spec_restored(a, c),
{
    lemma_extends_chain(a.spec_xml(), b.spec_xml(), c.spec_xml());
    assert forall|p: Seq<(N, Seq<char>, nat)>| p.len() <= a.spec_trace().spec_path().len() implies #[trigger] c.spec_trace().spec_dictionary().lookup(
        p,
    ) == a.spec_trace().spec_dictionary().lookup(p) by {
        assert(c.spec_trace().spec_dictionary().lookup(p) == b.spec_trace().spec_dictionary().lookup(p));
    }
}

/// A whole element without attributes when there is a text, nothing otherwise.
pub open spec fn spec_text_element<N: Namespace>(namespace: N, name: Seq<char>, value: Option<Seq<char>>) -> Seq<char> {
    match value {
        Some(v) => spec_element(namespace, name, Seq::empty(), v),
        None => Seq::empty(),
    }
}

/// An element without attributes around the text of its body.
pub open spec fn spec_group<N: Namespace>(namespace: N, name: Seq<char>, body: Seq<char>) -> Seq<char> {
    spec_start_tag(spec_qname(namespace, name), Seq::empty()) + body + spec_end_tag(spec_qname(namespace, name))
}

/// The facts on texts that go on from others, for the writing walks.
pub broadcast group group_extends {
    lemma_restored_chain,
    lemma_extends_itself,
    lemma_extends_append,
    lemma_extends_chain,
    lemma_wrapped,
    lemma_element_wrapped,
}

/// Whether the dictionary still binds every path no longer than the current one as it did: the
/// nodes a walk records lie below the node it starts at.
pub open spec fn spec_keeps_shallow<N: Namespace>(before: Trace<N>, after: Trace<N>) -> bool {
    forall|p: Seq<(N, Seq<char>, nat)>| p.len() <= before.spec_path().len() ==> #[trigger] after.spec_dictionary().lookup(p)
        == before.spec_dictionary().lookup(p)
}

/// Whether a part of a walk left the writer where it found it: well formed, at the same
/// node and context, with the same abbreviations and forbidden terms, and its XML going on
/// from what was written before.
pub open spec fn spec_restored<N: Namespace>(before: Serializer<N>, after: Serializer<N>) -> bool {
    &&& spec_extends(before.spec_xml(), after.spec_xml())
    &&& spec_keeps_shallow(before.spec_trace(), after.spec_trace())
    &&& after.wf()
    &&& after.spec_trace().spec_path() == before.spec_trace().spec_path()
    &&& after.spec_trace().spec_context() == before.spec_trace().spec_context()
    &&& after.keeps(&before)
}

/// Whether an abbreviation a table binds is the abbreviation of its member, or the prefix
/// of one of the first `i` members.
pub open spec fn spec_bound_by<N: Namespace>(
    entries: Seq<(Seq<char>, N)>,
    members: Seq<N>,
    i: int,
    k: Seq<char>,
) -> bool {
    match spec_lookup(entries, k) {
        Some(m) => k == m.spec_abbreviation() || exists|j: int|
            0 <= j < i && members[j] == m && k == m.spec_prefix(),
        None => true,
    }
}

/// Whether `after` is `before` followed by one root element of the binding `F`, whose start
/// tag declares every namespace of the set, whatever the element holds.
pub open spec fn spec_root_written<F: Format>(before: Seq<char>, after: Seq<char>) -> bool {
    exists|body: Seq<char>|
        after == before + spec_start_tag(
            spec_qname(F::spec_root_namespace(), F::spec_root_element()),
            spec_declarations(F::Namespace::spec_members()),
        ) + body + spec_end_tag(spec_qname(F::spec_root_namespace(), F::spec_root_element()))
}

/// The step of the root element of the binding `F` written at a trace: its first occurrence
/// among the nodes of the current level.
pub open spec fn spec_root_step<F: Format>(trace: Trace<F::Namespace>) -> (F::Namespace, Seq<char>, nat) {
    (
        F::spec_root_namespace(),
        F::spec_root_element(),
        spec_next_index(trace.spec_frames().last(), F::spec_root_namespace(), F::spec_root_element()),
    )
}

/// The declarations of a list of namespaces.
pub open spec fn spec_declarations<N: Namespace>(members: Seq<N>) -> Seq<(Seq<char>, Seq<char>)> {
    members.map_values(|n: N| spec_declaration(n))
}

impl<N: Namespace> Serializer<N> {
    /// Opens the root element of the binding `F`, declaring every namespace of its set,
    /// binds each prefix it declares, and records the root at the root context.
    pub fn open_root<F: Format<Namespace = N>>(&mut self)
        requires
            old(self).wf(),
            old(self).spec_abbreviations() == spec_default_entries::<N>(),
        ensures
            final(self).spec_xml() == old(self).spec_xml() + spec_start_tag(
                spec_qname(F::spec_root_namespace(), F::spec_root_element()),
                spec_declarations(N::spec_members()),
            ),
            spec_entered(
                old(self).spec_trace(),
                final(self).spec_trace(),
                F::spec_root_namespace(),
                F::spec_root_element(),
                None,
                true,
            ),
            forall|n: N| #[trigger] spec_lookup(final(self).spec_abbreviations(), n.spec_prefix())
                == Some(n),
            forall|n: N| #[trigger] spec_lookup(final(self).spec_abbreviations(), n.spec_abbreviation())
                == Some(n),
            final(self).spec_forbidden() == old(self).spec_forbidden(),
    {
        proof {
            N::lemma_members();
        }
        let members = N::members();
        let mut declarations: Vec<(String, String)> = Vec::new();
        let mut i: usize = 0;
        while i < members.len()
            invariant
                i <= members@.len(),
                members@ == N::spec_members(),
                spec_attributes(declarations@) == spec_declarations(members@.take(i as int)),
            decreases members@.len() - i,
        {
            let n = members[i];
            let prefix = n.prefix();
            let key = if prefix.unicode_len() == 0 {
                owned("xmlns")
            } else {
                let mut key = owned("xmlns:");
                append_str(&mut key, prefix);
                key
            };
            proof {
                reveal_strlit("xmlns");
                reveal_strlit("xmlns:");
            }
            let ghost before = spec_attributes(declarations@);
            declarations.push((key, owned(n.uri())));
            proof {
                assert(members@.take(i + 1).drop_last() =~= members@.take(i as int));
                assert(spec_attributes(declarations@) =~= before.push(spec_declaration(n)));
                assert(spec_declarations(members@.take(i + 1)) =~= spec_declarations(
                    members@.take(i as int),
                ).push(spec_declaration(n)));
            }
            i = i + 1;
        }
        assert(members@.take(i as int) =~= members@);
        let root = F::root_namespace();
        let element = F::root_element();
        let tag = Self::qname(root, element);
        let start = start_tag(tag.as_str(), &declarations);
        append_str(&mut self.xml, start.as_str());
        self.declare_prefixes();
        self.trace.enter(root, element);
        self.trace.record_root();
    }

    // Binds the prefix of every member of the set, on top of the abbreviations of the rule sets.
    fn declare_prefixes(&mut self)
        requires
            old(self).spec_abbreviations() == spec_default_entries::<N>(),
        ensures
            forall|n: N| #[trigger] spec_lookup(final(self).spec_abbreviations(), n.spec_prefix())
                == Some(n),
            forall|n: N| #[trigger] spec_lookup(final(self).spec_abbreviations(), n.spec_abbreviation())
                == Some(n),
            final(self).spec_xml() == old(self).spec_xml(),
            final(self).spec_trace() == old(self).spec_trace(),
            final(self).spec_forbidden() == old(self).spec_forbidden(),
    {
        proof {
            N::lemma_members();
            assert forall|n: N| #[trigger] spec_lookup(spec_default_entries::<N>(), n.spec_abbreviation())
                == Some(n) by {
                crate::laws::law_default_abbreviations_resolve(n);
            }
            assert forall|k: Seq<char>| #[trigger] spec_bound_by(
                spec_default_entries::<N>(),
                N::spec_members(),
                0,
                k,
            ) by {
                crate::table::lemma_lookup_found(spec_default_entries::<N>(), k);
            }
        }
        let members = N::members();
        let mut i: usize = 0;
        while i < members.len()
            invariant
                i <= members@.len(),
                members@ == N::spec_members(),
                forall|a: N, b: N| a.spec_prefix() == b.spec_abbreviation() ==> a == b,
                forall|a: N, b: N| a.spec_prefix() == b.spec_prefix() ==> a == b,
                forall|a: N, b: N| a.spec_abbreviation() == b.spec_abbreviation() ==> a == b,
                forall|j: int, k: int| 0 <= j < k < members@.len() ==> members@[j] != members@[k],
                forall|n: N| #[trigger] spec_lookup(self.spec_abbreviations(), n.spec_abbreviation())
                    == Some(n),
                forall|j: int| 0 <= j < i ==> #[trigger] spec_lookup(
                    self.spec_abbreviations(),
                    members@[j].spec_prefix(),
                ) == Some(members@[j]),
                forall|k: Seq<char>| #[trigger] spec_bound_by(
                    self.spec_abbreviations(),
                    members@,
                    i as int,
                    k,
                ),
                self.spec_xml() == old(self).spec_xml(),
                self.spec_trace() == old(self).spec_trace(),
                self.spec_forbidden() == old(self).spec_forbidden(),
            decreases members@.len() - i,
        {
            let n = members[i];
            proof {
                let p = n.spec_prefix();
                assert(spec_bound_by(self.spec_abbreviations(), members@, i as int, p));
                if let Some(m) = spec_lookup(self.spec_abbreviations(), p) {
                    if p == m.spec_abbreviation() {
                        assert(n == m);
                    } else {
                        let j = choose|j: int| 0 <= j < i && members@[j] == m && p == m.spec_prefix();
                        assert(n == m);
                    }
                }
            }
            let ghost before = self.spec_abbreviations();
            let _ = self.abbreviations.declare(n.prefix(), n);
            proof {
                assert forall|k: Seq<char>| #[trigger] spec_bound_by(
                    self.spec_abbreviations(),
                    members@,
                    i + 1,
                    k,
                ) by {
                    assert(spec_bound_by(before, members@, i as int, k));
                    if k == n.spec_prefix() {
                        assert(members@[i as int] == n);
                    } else {
                        assert(self.abbreviations.lookup(k) == spec_lookup(before, k));
                    }
                }
                assert forall|j: int| 0 <= j < i + 1 implies #[trigger] spec_lookup(
                    self.spec_abbreviations(),
                    members@[j].spec_prefix(),
                ) == Some(members@[j]) by {
                    if j < i {
                        assert(self.abbreviations.lookup(members@[j].spec_prefix()) == spec_lookup(
                            before,
                            members@[j].spec_prefix(),
                        ) || members@[j].spec_prefix() == n.spec_prefix());
                    }
                }
                assert forall|m: N| #[trigger] spec_lookup(self.spec_abbreviations(), m.spec_abbreviation())
                    == Some(m) by {
                    assert(self.abbreviations.lookup(m.spec_abbreviation()) == spec_lookup(
                        before,
                        m.spec_abbreviation(),
                    ) || m.spec_abbreviation() == n.spec_prefix());
                }
            }
            i = i + 1;
        }
        proof {
            assert forall|n: N| #[trigger] spec_lookup(self.spec_abbreviations(), n.spec_prefix())
                == Some(n) by {
                assert(N::spec_members().contains(n));
                let j = choose|j: int| 0 <= j < members@.len() && members@[j] == n;
                assert(spec_lookup(self.spec_abbreviations(), members@[j].spec_prefix()) == Some(
                    members@[j],
                ));
            }
        }
    }

    /// Closes the root element of the binding `F`.
    pub fn close_root<F: Format<Namespace = N>>(&mut self)
        requires
            old(self).wf(),
            old(self).spec_trace().spec_path().len() > 0,
        ensures
            final(self).spec_xml() == old(self).spec_xml() + spec_end_tag(
                spec_qname(F::spec_root_namespace(), F::spec_root_element()),
            ),
            spec_left(old(self).spec_trace(), final(self).spec_trace(), false),
            final(self).keeps(old(self)),
    {
        let root = F::root_namespace();
        let element = F::root_element();
        self.trace.leave();
        self.write_end(root, element);
    }
}

} // verus!
