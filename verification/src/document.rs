//! The reporting artifact of the library: a document of a binding with the dictionary of its
//! nodes, and the binding of a validator's answer to the nodes of that document.

use vstd::prelude::*;
use crate::binding::Binding;
use crate::context::{Context, SegmentView};
use crate::error::{Error, ErrorView};
use crate::format::{Deserializable, Format, Serializable};
use crate::location::{Location, LocationStep, RawNamespace};
use crate::model::Invoice;
use crate::namespace::{from_uri, spec_from_uri, Abbreviations, Namespace};
use crate::path::{Path, Step, StepView, spec_steps};
use crate::profile::Profile;
use crate::serializer::{spec_root_written, Serializer};
use crate::table::spec_lookup;
use crate::text::owned;
use crate::trace::Dictionary;

verus! {

/// The builder of the document to be sent: the business terms and what the exchange alone needs.
pub struct DocumentBuilder {
    /// The business document with every fact it carries.
    pub invoice: Invoice,
    /// Stamps the specification identifier and forbids terms (`BT-24`).
    pub profile: Profile,
    /// Business process type (`BT-23`).
    pub business_process: Option<String>,
}

/// What a validator needs to pick the rule set for a document.
#[derive(Debug, Clone, Copy, PartialEq, Eq)]
pub struct Target {
    /// The profile the document declares.
    pub profile: Profile,
    /// The binding it is written in.
    pub binding: Binding,
}

/// The severity of a finding of a validator.
#[derive(Debug, Clone, Copy, PartialEq, Eq, Structural)]
pub enum Severity {
    /// A violated rule: the document is rejected.
    Error,
    /// A rule the document should follow.
    Warning,
    /// A remark.
    Information,
}

/// One finding of a validator as it answered it, with its address normalized if that succeeded.
pub struct Entry {
    /// The severity of the finding.
    pub severity: Severity,
    /// The identifier of the violated rule.
    pub code: String,
    /// The message of the validator.
    pub text: String,
    /// The address as the validator wrote it.
    pub original_location: String,
    /// The address stripped of the dialect of the validator, if it could be normalized.
    pub normalized_location: Option<Location>,
}

/// The answer of a validator: its findings, in its order.
pub struct RawReport {
    pub findings: Vec<Entry>,
}

/// One finding bound to the node of the model it addresses.
pub struct Problem {
    pub severity: Severity,
    pub code: String,
    pub text: String,
    /// The model node the finding addresses.
    pub context: Context,
}

/// The findings of one pass of a validator, each bound to a model node.
pub struct Report {
    pub problems: Vec<Problem>,
}

impl Report {
    /// Whether at least one finding is an error.
    pub fn has_errors(&self) -> (r: bool)
        ensures
            r == exists|i: int| 0 <= i < self.problems@.len() && #[trigger] self.problems@[i].severity
                == Severity::Error,
    {
        let mut i: usize = 0;
        while i < self.problems.len()
            invariant
                i <= self.problems@.len(),
                forall|j: int| 0 <= j < i ==> self.problems@[j].severity != Severity::Error,
            decreases self.problems@.len() - i,
        {
            if let Severity::Error = self.problems[i].severity {
                return true;
            }
            i = i + 1;
        }
        false
    }
}

/// A document of the binding `F`: the invoice by value, with its XML, the dictionary of its
/// nodes, and the abbreviations a report location of this document may name.
pub struct Document<F: Format> {
    builder: DocumentBuilder,
    xml: String,
    dictionary: Dictionary<F::Namespace>,
    abbreviations: Abbreviations<F::Namespace>,
}

/// A document a validator rejected, with the report of that pass.
pub struct InvalidDocument<F: Format> {
    document: Document<F>,
    report: Report,
}

/// A document a validator accepted, with the report of that pass.
pub struct ValidDocument<F: Format> {
    document: Document<F>,
    report: Report,
}

impl<F: Format> InvalidDocument<F> {
    /// The report of the pass that rejected the document.
    pub closed spec fn spec_report(&self) -> Report {
        self.report
    }

    /// The document the pass rejected.
    pub closed spec fn spec_document(&self) -> Document<F> {
        self.document
    }

    /// The report of the pass that rejected the document.
    pub fn report(&self) -> (r: &Report)
        ensures
            *r == self.spec_report(),
    {
        &self.report
    }

    /// The problems of the pass, at least one of them an error.
    pub fn problems(&self) -> (r: &Vec<Problem>)
        ensures
            *r == self.spec_report().problems,
    {
        &self.report.problems
    }

    /// Recovers the checked document, dropping the report of the pass.
    pub fn into_document(self) -> (r: Document<F>)
        ensures
            r == self.spec_document(),
    {
        self.document
    }
}

impl<F: Format> ValidDocument<F> {
    /// The report of the pass that accepted the document.
    pub closed spec fn spec_report(&self) -> Report {
        self.report
    }

    /// The document the pass accepted.
    pub closed spec fn spec_document(&self) -> Document<F> {
        self.document
    }

    /// The report of the pass that accepted the document.
    pub fn report(&self) -> (r: &Report)
        ensures
            *r == self.spec_report(),
    {
        &self.report
    }

    /// Recovers the checked document, dropping the report of the pass.
    pub fn into_document(self) -> (r: Document<F>)
        ensures
            r == self.spec_document(),
    {
        self.document
    }
}

/// The problems of a checked document, valid or not.
pub open spec fn spec_problems<F: Format>(checked: Result<ValidDocument<F>, InvalidDocument<F>>) -> Seq<Problem> {
    match checked {
        Ok(v) => v.spec_report().problems@,
        Err(x) => x.spec_report().problems@,
    }
}

/// The namespace of a location step, as a value.
pub enum RawNamespaceView {
    Uri(Seq<char>),
    Abbreviation(Seq<char>),
}

/// A location step, as a value: its namespace, its name and its index.
pub type LocationStepView = (Option<RawNamespaceView>, Seq<char>, nat);

/// The steps of a location, as values.
pub open spec fn spec_location(steps: Seq<LocationStep>) -> Seq<LocationStepView> {
    steps.map_values(
        |s: LocationStep|
            (
                match s.namespace {
                    Some(RawNamespace::Uri(u)) => Some(RawNamespaceView::Uri(u@)),
                    Some(RawNamespace::Abbreviation(a)) => Some(RawNamespaceView::Abbreviation(a@)),
                    None => None,
                },
                s.name@,
                s.index as nat,
            ),
    )
}

/// The member a location namespace names: a URI by the set, an abbreviation by the table.
pub open spec fn spec_step_namespace<N: Namespace>(
    namespace: Option<RawNamespaceView>,
    entries: Seq<(Seq<char>, N)>,
) -> Option<N> {
    match namespace {
        Some(RawNamespaceView::Uri(u)) => spec_from_uri::<N>(u),
        Some(RawNamespaceView::Abbreviation(a)) => spec_lookup(entries, a),
        None => None,
    }
}

/// The context the deepest node of a location binds to: the steps are followed from the root
/// while each names a namespace and the path so far is in the dictionary; the context of the
/// last such path answers, or `bound` when no further step does.
pub open spec fn spec_resolve<N: Namespace>(
    steps: Seq<LocationStepView>,
    path: Seq<StepView<N>>,
    bound: Option<Seq<SegmentView>>,
    entries: Seq<(Seq<char>, N)>,
    dictionary: Dictionary<N>,
) -> Option<Seq<SegmentView>>
    decreases steps.len(),
{
    if steps.len() == 0 {
        bound
    } else {
        match spec_step_namespace(steps[0].0, entries) {
            None => bound,
            Some(n) => {
                let next = path.push((n, steps[0].1, steps[0].2));
                match dictionary.lookup(next) {
                    None => bound,
                    Some(c) => spec_resolve(steps.drop_first(), next, Some(c), entries, dictionary),
                }
            },
        }
    }
}

/// The path of a run of location steps after `path`, each step's namespace resolved by the
/// abbreviations; `None` when one of them does not resolve.
pub open spec fn spec_path_from<N: Namespace>(
    path: Seq<StepView<N>>,
    steps: Seq<LocationStepView>,
    entries: Seq<(Seq<char>, N)>,
) -> Option<Seq<StepView<N>>>
    decreases steps.len(),
{
    if steps.len() == 0 {
        Some(path)
    } else {
        match spec_step_namespace(steps[0].0, entries) {
            None => None,
            Some(n) => spec_path_from(path.push((n, steps[0].1, steps[0].2)), steps.drop_first(), entries),
        }
    }
}

/// Whether a path is there and is a key of the dictionary.
pub open spec fn spec_is_key<N: Namespace>(dictionary: Dictionary<N>, path: Option<Seq<StepView<N>>>) -> bool {
    match path {
        Some(p) => dictionary.lookup(p) is Some,
        None => false,
    }
}

/// Whether each of the first `j` steps resolves and the path of the steps up to it, after
/// `path`, is a key of the dictionary.
pub open spec fn spec_answered<N: Namespace>(
    path: Seq<StepView<N>>,
    steps: Seq<LocationStepView>,
    j: int,
    entries: Seq<(Seq<char>, N)>,
    dictionary: Dictionary<N>,
) -> bool {
    forall|i: int| 0 < i <= j ==> spec_is_key(dictionary, #[trigger] spec_path_from(path, steps.take(i), entries))
}

/// Resolving a location binds it to the context of its longest answered prefix: where `j` steps
/// are answered and the next is not (or there is none), the walk gives the context of the path
/// of those `j` steps, or what was bound before them when `j` is zero. A trailing step that
/// does not resolve, such as an attribute, leaves the location bound to its element.
pub proof fn law_resolve_binds_the_longest_answered_prefix<N: Namespace>(
    steps: Seq<LocationStepView>,
    path: Seq<StepView<N>>,
    bound: Option<Seq<SegmentView>>,
    entries: Seq<(Seq<char>, N)>,
    dictionary: Dictionary<N>,
    j: int,
)
    requires
        0 <= j <= steps.len(),
        spec_answered(path, steps, j, entries, dictionary),
        j < steps.len() ==> !spec_answered(path, steps, j + 1, entries, dictionary),
    ensures
        spec_resolve(steps, path, bound, entries, dictionary) == if j == 0 {
            bound
        } else {
            dictionary.lookup(spec_path_from(path, steps.take(j), entries).unwrap())
        },
    decreases steps.len(),
{
    if steps.len() == 0 {
        return;
    }
    let first = steps.take(1);
    assert(first.drop_first() =~= Seq::<LocationStepView>::empty());
    assert(first[0] == steps[0]);
    if j == 0 {
        assert(!spec_answered(path, steps, 1, entries, dictionary));
        let i = choose|i: int| 0 < i <= 1 && !spec_is_key(dictionary, spec_path_from(path, steps.take(i), entries));
        assert(i == 1);
        if let Some(n) = spec_step_namespace(steps[0].0, entries) {
            let next = path.push((n, steps[0].1, steps[0].2));
            assert(spec_path_from(next, first.drop_first(), entries) == Some(next));
            assert(spec_path_from(path, first, entries) == Some(next));
            assert(dictionary.lookup(next) is None);
        }
        return;
    }
    assert(spec_is_key(dictionary, spec_path_from(path, steps.take(1), entries)));
    let n = spec_step_namespace(steps[0].0, entries).unwrap();
    let next = path.push((n, steps[0].1, steps[0].2));
    let rest = steps.drop_first();
    assert forall|i: int| 0 < i <= steps.len() implies #[trigger] spec_path_from(path, steps.take(i), entries) == spec_path_from(
        next,
        rest.take(i - 1),
        entries,
    ) by {
        assert(steps.take(i)[0] == steps[0]);
        assert(steps.take(i).drop_first() =~= rest.take(i - 1));
    }
    assert(spec_answered(next, rest, j - 1, entries, dictionary)) by {
        assert forall|i: int| 0 < i <= j - 1 implies spec_is_key(dictionary, #[trigger] spec_path_from(next, rest.take(i), entries)) by {
            assert(spec_path_from(path, steps.take(i + 1), entries) == spec_path_from(next, rest.take(i), entries));
        }
    }
    if j < steps.len() {
        assert(!spec_answered(next, rest, j, entries, dictionary)) by {
            let i = choose|i: int| 0 < i <= j + 1 && !spec_is_key(dictionary, spec_path_from(path, steps.take(i), entries));
            assert(spec_path_from(path, steps.take(i), entries) == spec_path_from(next, rest.take(i - 1), entries));
            if i == 1 {
                assert(false);
            }
            assert(!spec_is_key(dictionary, spec_path_from(next, rest.take(i - 1), entries)));
        }
    }
    law_resolve_binds_the_longest_answered_prefix(rest, next, dictionary.lookup(next), entries, dictionary, j - 1);
    assert(spec_path_from(path, steps.take(j), entries) == spec_path_from(next, rest.take(j - 1), entries));
    if j == 1 {
        assert(rest.take(0) =~= Seq::<LocationStepView>::empty());
    }
}

impl<F: Format> Document<F> {
    /// The builder the document holds.
    pub closed spec fn spec_builder(&self) -> DocumentBuilder {
        self.builder
    }

    /// The XML of the document.
    pub closed spec fn spec_xml(&self) -> Seq<char> {
        self.xml@
    }

    /// The dictionary of the nodes of the document.
    pub closed spec fn spec_dictionary(&self) -> Dictionary<F::Namespace> {
        self.dictionary
    }

    /// The abbreviations a location of the document may name.
    pub closed spec fn spec_abbreviations(&self) -> Seq<(Seq<char>, F::Namespace)> {
        self.abbreviations.spec_entries()
    }

    /// Serializes a builder into a document of the binding `F`: the pass renders the XML and
    /// fills the dictionary in lockstep. The XML is one root element of the binding, whose start
    /// tag declares every namespace of the set; the abbreviations of the document bind the
    /// prefix it declares for every namespace, and the abbreviation of the rule sets.
    pub fn try_from(builder: DocumentBuilder) -> (r: Result<Document<F>, Error>)
        where
            Invoice: Serializable<F>,
        ensures
            r matches Ok(d) ==> d.spec_builder() == builder,
            r matches Ok(d) ==> spec_root_written::<F>(Seq::empty(), d.spec_xml()),
            r matches Ok(d) ==> d.spec_xml() == <Invoice as Serializable<F>>::spec_written(
                builder.invoice,
                builder.profile,
                builder.business_process,
                crate::profile::spec_forbidden_terms(builder.profile),
            ),
            r matches Ok(d) ==> d.spec_dictionary().lookup(seq![(F::spec_root_namespace(), F::spec_root_element(), 1nat)])
                == Some(Seq::<SegmentView>::empty()),
            r matches Ok(d) ==> forall|n: F::Namespace| #[trigger] spec_lookup(
                d.spec_abbreviations(),
                n.spec_prefix(),
            ) == Some(n),
            r matches Ok(d) ==> forall|n: F::Namespace| #[trigger] spec_lookup(
                d.spec_abbreviations(),
                n.spec_abbreviation(),
            ) == Some(n),
            r is Ok,
    {
        let mut serializer: Serializer<F::Namespace> = Serializer::new(
            builder.profile.forbidden_terms(),
        );
        proof {
            let t = serializer.spec_trace();
            let step = crate::serializer::spec_root_step::<F>(t);
            assert(t.spec_frames().last() == Map::<(F::Namespace, Seq<char>), nat>::empty());
            assert(step == (F::spec_root_namespace(), F::spec_root_element(), 1nat));
            assert(t.spec_path().push(step) =~= seq![step]);
        }
        <Invoice as Serializable<F>>::serialize(
            &mut serializer,
            &builder.invoice,
            builder.profile,
            &builder.business_process,
        );
        let (xml, dictionary, abbreviations) = serializer.finish();
        Ok(Document { builder, xml, dictionary, abbreviations })
    }

    /// Parses a document of the binding `F` into a `Document`: the invoice it states, with the
    /// dictionary of the nodes the walk read and the abbreviations the document declares.
    ///
    /// The abbreviation of each rule set still resolves in the document, whatever it declares.
    /// A malformed document, or one that misses a mandatory element, fails the read; a document
    /// whose root element is not the binding's fails with the error that names the expected
    /// element.
    pub fn parse(xml: &str) -> (r: Result<Document<F>, Error>)
        where
            Invoice: Deserializable<F>,
        ensures
            r matches Ok(d) ==> d.spec_xml() == xml@,
            r matches Ok(d) ==> forall|n: F::Namespace| #[trigger] spec_lookup(
                d.spec_abbreviations(),
                n.spec_abbreviation(),
            ) == Some(n),
            match crate::token::spec_tokenize_stream::<F::Namespace>(crate::token::spec_xml_events(xml@)) {
                Err(e) => r matches Err(x) && x@ == e,
                Ok((tokens, table)) => {
                    &&& r matches Ok(d) ==> d.spec_abbreviations() == table
                    &&& r matches Ok(d) ==> <Invoice as Deserializable<F>>::spec_reads(tokens, 0, d.spec_builder())
                    &&& <Invoice as Deserializable<F>>::spec_refused(tokens, 0) ==> r is Err
                    &&& !crate::parser::spec_opens(tokens, 0, F::spec_root_namespace(), F::spec_root_element())
                        ==> (r matches Err(x) && x@ == crate::parser::spec_expected(F::spec_root_element()))
                },
            },
    {
        let tokenized = crate::token::tokenize::<F::Namespace>(xml)?;
        proof {
            let events = crate::token::spec_event_values(crate::token::spec_xml_events(xml@).drop_last());
            assert forall|n: F::Namespace| #[trigger] spec_lookup(
                tokenized.abbreviations.spec_entries(),
                n.spec_abbreviation(),
            ) == Some(n) by {
                crate::laws::law_reading_keeps_the_rule_set_abbreviations::<F::Namespace>(events, n);
            }
        }
        let mut parser = crate::parser::Parser::new(tokenized.tokens);
        let builder = <Invoice as Deserializable<F>>::deserialize(&mut parser)?;
        let dictionary = parser.finish();
        Ok(Document { builder, xml: owned(xml), dictionary, abbreviations: tokenized.abbreviations })
    }


    /// The serialized XML.
    pub fn xml(&self) -> (r: &str)
        ensures
            r@ == self.spec_xml(),
    {
        self.xml.as_str()
    }

    /// What a validator needs to pick the rule set for this document.
    pub fn target(&self) -> (r: Target)
        ensures
            r.profile == self.spec_builder().profile,
            r.binding == F::spec_binding(),
    {
        Target { profile: self.builder.profile, binding: F::binding() }
    }

    /// Consumes the document and yields its invoice.
    pub fn into_invoice(self) -> (r: Invoice)
        ensures
            r == self.spec_builder().invoice,
    {
        self.builder.invoice
    }

    // The member a location namespace names.
    fn step_namespace(&self, namespace: &Option<RawNamespace>) -> (r: Option<F::Namespace>)
        ensures
            r == spec_step_namespace(
                match namespace {
                    Some(RawNamespace::Uri(u)) => Some(RawNamespaceView::Uri(u@)),
                    Some(RawNamespace::Abbreviation(a)) => Some(RawNamespaceView::Abbreviation(a@)),
                    None => None,
                },
                self.spec_abbreviations(),
            ),
    {
        match namespace {
            Some(RawNamespace::Uri(uri)) => from_uri::<F::Namespace>(uri.as_str()),
            Some(RawNamespace::Abbreviation(name)) => self.abbreviations.resolve(name.as_str()),
            None => None,
        }
    }

    /// The context a finding binds to in this document, if any.
    pub open spec fn spec_entry_context(&self, entry: Entry) -> Option<Seq<SegmentView>> {
        match entry.normalized_location {
            Some(l) => spec_resolve(
                spec_location(l.steps@),
                Seq::empty(),
                None,
                self.spec_abbreviations(),
                self.spec_dictionary(),
            ),
            None => None,
        }
    }

    /// Binds the answer of a validator to the nodes of this document.
    ///
    /// A finding whose location binds to no node yields `Error::UnboundLocation` with the
    /// location as the validator wrote it, for the first such finding. Otherwise every finding
    /// becomes a problem at the context of its node, in order, and the document is invalid
    /// exactly when one of them is an error.
    pub fn check(self, report: RawReport) -> (r: Result<Result<ValidDocument<F>, InvalidDocument<F>>, Error>)
        ensures
            r is Err <==> exists|i: int|
                0 <= i < report.findings@.len() && self.spec_entry_context(
                    #[trigger] report.findings@[i],
                ) is None,
            r matches Err(e) ==> exists|i: int|
                0 <= i < report.findings@.len() && self.spec_entry_context(report.findings@[i]) is None
                    && (forall|j: int| 0 <= j < i ==> self.spec_entry_context(#[trigger] report.findings@[j]) is Some)
                    && e@ == ErrorView::UnboundLocation(report.findings@[i].original_location@),
            r matches Ok(checked) ==> spec_problems(checked).len() == report.findings@.len(),
            r matches Ok(checked) ==> forall|i: int| 0 <= i < spec_problems(checked).len() ==> {
                &&& (#[trigger] spec_problems(checked)[i]).severity == report.findings@[i].severity
                &&& spec_problems(checked)[i].code@ == report.findings@[i].code@
                &&& spec_problems(checked)[i].text@ == report.findings@[i].text@
                &&& Some(spec_problems(checked)[i].context.view()) == self.spec_entry_context(
                    report.findings@[i],
                )
            },
            r matches Ok(Ok(v)) ==> v.spec_document() == self,
            r matches Ok(Err(x)) ==> x.spec_document() == self,
            r matches Ok(checked) ==> (checked is Err <==> exists|i: int|
                0 <= i < spec_problems(checked).len() && #[trigger] spec_problems(checked)[i].severity
                    == Severity::Error),
    {
        let mut problems: Vec<Problem> = Vec::new();
        let mut i: usize = 0;
        while i < report.findings.len()
            invariant
                i <= report.findings@.len(),
                problems@.len() == i,
                forall|j: int| 0 <= j < i ==> self.spec_entry_context(#[trigger] report.findings@[j]) is Some,
                forall|j: int| 0 <= j < i ==> {
                    &&& (#[trigger] problems@[j]).severity == report.findings@[j].severity
                    &&& problems@[j].code@ == report.findings@[j].code@
                    &&& problems@[j].text@ == report.findings@[j].text@
                    &&& Some(problems@[j].context.view()) == self.spec_entry_context(report.findings@[j])
                },
            decreases report.findings@.len() - i,
        {
            let entry = &report.findings[i];
            let bound = match &entry.normalized_location {
                Some(location) => self.resolve(location),
                None => None,
            };
            match bound {
                None => {
                    return Err(Error::UnboundLocation(owned(entry.original_location.as_str())));
                },
                Some(context) => {
                    problems.push(
                        Problem {
                            severity: entry.severity,
                            code: owned(entry.code.as_str()),
                            text: owned(entry.text.as_str()),
                            context,
                        },
                    );
                },
            }
            i = i + 1;
        }
        let ghost found = problems@;
        let outcome = Report { problems };
        let errors = outcome.has_errors();
        assert(outcome.problems@ == found);
        if errors {
            let rejected = InvalidDocument { document: self, report: outcome };
            assert(rejected.spec_report().problems@ == found);
            Ok(Err(rejected))
        } else {
            let accepted = ValidDocument { document: self, report: outcome };
            assert(accepted.spec_report().problems@ == found);
            Ok(Ok(accepted))
        }
    }

    /// Binds a normalized address to the node of this document it points at.
    pub fn resolve(&self, location: &Location) -> (r: Option<Context>)
        ensures
            match spec_resolve(
                spec_location(location.steps@),
                Seq::empty(),
                None,
                self.spec_abbreviations(),
                self.spec_dictionary(),
            ) {
                Some(c) => r matches Some(x) && x.view() == c,
                None => r is None,
            },
    {
        let ghost all = spec_location(location.steps@);
        let mut path: Path<F::Namespace> = Path { steps: Vec::new() };
        let mut bound: Option<Context> = None;
        let mut i: usize = 0;
        let mut done = false;
        proof {
            assert(all.skip(0) =~= all);
            assert(spec_steps(path.steps@) =~= Seq::empty());
        }
        while i < location.steps.len() && !done
            invariant
                i <= location.steps@.len(),
                all == spec_location(location.steps@),
                !done ==> spec_resolve(
                    all.skip(i as int),
                    spec_steps(path.steps@),
                    match bound {
                        Some(c) => Some(c.view()),
                        None => None,
                    },
                    self.spec_abbreviations(),
                    self.spec_dictionary(),
                ) == spec_resolve(all, Seq::empty(), None, self.spec_abbreviations(), self.spec_dictionary()),
                done ==> match bound {
                    Some(c) => Some(c.view()),
                    None => None,
                } == spec_resolve(all, Seq::empty(), None, self.spec_abbreviations(), self.spec_dictionary()),
            decreases location.steps@.len() - i, if done { 0int } else { 1int },
        {
            let step = &location.steps[i];
            proof {
                assert(all.skip(i as int)[0] == all[i as int]);
                assert(all.skip(i as int).drop_first() =~= all.skip(i + 1));
            }
            match self.step_namespace(&step.namespace) {
                None => {
                    done = true;
                },
                Some(namespace) => {
                    let ghost before = spec_steps(path.steps@);
                    path.steps.push(
                        Step { namespace, name: owned(step.name.as_str()), index: step.index },
                    );
                    proof {
                        assert(spec_steps(path.steps@) =~= before.push(
                            (namespace, step.name@, step.index as nat),
                        ));
                    }
                    match self.dictionary.get(&path) {
                        Some(context) => {
                            bound = Some(context);
                            i = i + 1;
                        },
                        None => {
                            done = true;
                        },
                    }
                },
            }
        }
        proof {
            if !done {
                assert(all.skip(i as int).len() == 0);
            }
        }
        bound
    }
}

impl<F: Format> From<Document<F>> for Invoice {
    /// Consumes the document and yields its invoice.
    fn from(document: Document<F>) -> (r: Invoice) {
        document.builder.invoice
    }
}

impl<F: Format> vstd::std_specs::convert::FromSpecImpl<Document<F>> for Invoice {
    open spec fn obeys_from_spec() -> bool {
        true
    }

    open spec fn from_spec(document: Document<F>) -> Invoice {
        document.spec_builder().invoice
    }
}

impl<F: Format> From<InvalidDocument<F>> for Document<F> {
    /// Recovers the checked document, dropping the report of the pass.
    fn from(checked: InvalidDocument<F>) -> (r: Document<F>) {
        checked.document
    }
}

impl<F: Format> vstd::std_specs::convert::FromSpecImpl<InvalidDocument<F>> for Document<F> {
    open spec fn obeys_from_spec() -> bool {
        true
    }

    open spec fn from_spec(checked: InvalidDocument<F>) -> Document<F> {
        checked.spec_document()
    }
}

impl<F: Format> From<InvalidDocument<F>> for Invoice {
    /// Recovers the business object, dropping the report of the pass.
    fn from(checked: InvalidDocument<F>) -> (r: Invoice) {
        checked.document.builder.invoice
    }
}

impl<F: Format> vstd::std_specs::convert::FromSpecImpl<InvalidDocument<F>> for Invoice {
    open spec fn obeys_from_spec() -> bool {
        true
    }

    open spec fn from_spec(checked: InvalidDocument<F>) -> Invoice {
        checked.spec_document().spec_builder().invoice
    }
}

impl<F: Format> From<ValidDocument<F>> for Document<F> {
    /// Recovers the checked document, dropping the report of the pass.
    fn from(checked: ValidDocument<F>) -> (r: Document<F>) {
        checked.document
    }
}

impl<F: Format> vstd::std_specs::convert::FromSpecImpl<ValidDocument<F>> for Document<F> {
    open spec fn obeys_from_spec() -> bool {
        true
    }

    open spec fn from_spec(checked: ValidDocument<F>) -> Document<F> {
        checked.spec_document()
    }
}

impl<F: Format> From<ValidDocument<F>> for Invoice {
    /// Recovers the business object, dropping the report of the pass.
    fn from(checked: ValidDocument<F>) -> (r: Invoice) {
        checked.document.builder.invoice
    }
}

impl<F: Format> vstd::std_specs::convert::FromSpecImpl<ValidDocument<F>> for Invoice {
    open spec fn obeys_from_spec() -> bool {
        true
    }

    open spec fn from_spec(checked: ValidDocument<F>) -> Invoice {
        checked.spec_document().spec_builder().invoice
    }
}

} // verus!
