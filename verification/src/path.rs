//! Record-form paths: the dialect-free, namespace-resolved address of one node.

use vstd::prelude::*;
use crate::namespace::Namespace;
use crate::text::{append_str, owned, push_decimal, spec_decimal, str_eq};

verus! {

/// One step of a record-form path:
/// a namespaced element with its positional index among the same-named siblings.
///
/// It renders as `Q{U}N[i]`, where `U` is the namespace abbreviation,
/// `N` is the local name and `i` the 1-based index.
/// The address is purely positional: a singleton element and the first node
/// of a repeatable group are both index `1`.
#[derive(Debug, Clone, PartialEq, Eq)]
pub struct Step<N: Namespace> {
    /// The element namespace.
    pub namespace: N,
    /// The element local name, copied verbatim from the location.
    pub name: String,
    /// The 1-based position among the same-named siblings.
    pub index: usize,
}

/// The value a step stands for: its namespace, its name and its index.
pub type StepView<N> = (N, Seq<char>, nat);

impl<N: Namespace> Step<N> {
    pub open spec fn view(&self) -> StepView<N> {
        (self.namespace, self.name@, self.index as nat)
    }

    /// An equal copy of the step.
    pub fn copy(&self) -> (r: Self)
        ensures
            r.view() == self.view(),
    {
        Step { namespace: self.namespace, name: owned(self.name.as_str()), index: self.index }
    }

    /// Whether two steps address the same element.
    pub fn same(&self, other: &Self) -> (b: bool)
        ensures
            b == (self.view() == other.view()),
    {
        self.namespace.same(other.namespace) && self.index == other.index && str_eq(
            self.name.as_str(),
            other.name.as_str(),
        )
    }

    /// The record form of the step, such as `Q{CBC}ID[1]`.
    pub fn to_string(&self) -> (s: String)
        ensures
            s@ == spec_render_step(self.view()),
    {
        let mut s = String::new();
        self.render_into(&mut s);
        assert(s@ =~= spec_render_step(self.view()));
        s
    }

    fn render_into(&self, s: &mut String)
        ensures
            final(s)@ == old(s)@ + spec_render_step(self.view()),
    {
        append_str(s, "Q{");
        append_str(s, self.namespace.render());
        append_str(s, "}");
        append_str(s, self.name.as_str());
        append_str(s, "[");
        push_decimal(s, self.index as u128);
        append_str(s, "]");
        proof {
            assert(final(s)@ =~= old(s)@ + spec_render_step(self.view()));
        }
    }
}

/// The record form of one step: `Q{U}N[i]`.
pub open spec fn spec_render_step<N: Namespace>(step: StepView<N>) -> Seq<char> {
    "Q{"@ + step.0.spec_render() + "}"@ + step.1 + "["@ + spec_decimal(step.2) + "]"@
}

/// The record form of a path: a leading slash before every step.
pub open spec fn spec_render_path<N: Namespace>(steps: Seq<StepView<N>>) -> Seq<char>
    decreases steps.len(),
{
    if steps.len() == 0 {
        Seq::empty()
    } else {
        spec_render_path(steps.drop_last()) + "/"@ + spec_render_step(steps.last())
    }
}

/// A record-form path: the dialect-free, namespace-resolved address of one node.
///
/// The path is binding-specific: a UBL path and a CII path never compare equal.
/// It is the dictionary key a report location resolves against,
/// rendered with a leading slash before every step,
/// such as `/Q{INV}Invoice[1]/Q{CAC}InvoiceLine[2]/Q{CBC}ID[1]`.
#[derive(Debug, Clone, PartialEq, Eq)]
pub struct Path<N: Namespace> {
    /// The ordered steps from the document root down to the addressed node.
    pub steps: Vec<Step<N>>,
}

/// The steps of a path, as values.
pub open spec fn spec_steps<N: Namespace>(steps: Seq<Step<N>>) -> Seq<StepView<N>> {
    steps.map_values(|s: Step<N>| s.view())
}

impl<N: Namespace> Path<N> {
    pub open spec fn view(&self) -> Seq<StepView<N>> {
        spec_steps(self.steps@)
    }

    /// An equal copy of the path.
    pub fn copy(&self) -> (r: Self)
        ensures
            r.view() == self.view(),
    {
        Path { steps: copy_steps(&self.steps) }
    }

    /// Whether two paths address the same node.
    pub fn same(&self, other: &Self) -> (b: bool)
        ensures
            b == (self.view() == other.view()),
    {
        if self.steps.len() != other.steps.len() {
            proof {
                assert(self.view().len() != other.view().len());
            }
            return false;
        }
        let mut i: usize = 0;
        while i < self.steps.len()
            invariant
                self.steps@.len() == other.steps@.len(),
                i <= self.steps@.len(),
                forall|j: int| 0 <= j < i ==> self.steps@[j].view() == other.steps@[j].view(),
            decreases self.steps@.len() - i,
        {
            if !self.steps[i].same(&other.steps[i]) {
                proof {
                    assert(self.view()[i as int] != other.view()[i as int]);
                }
                return false;
            }
            i = i + 1;
        }
        assert(self.view() =~= other.view());
        true
    }

    /// The record form of the path, such as `/Q{INV}Invoice[1]/Q{CBC}ID[1]`.
    pub fn to_string(&self) -> (s: String)
        ensures
            s@ == spec_render_path(self.view()),
    {
        let mut s = String::new();
        let mut i: usize = 0;
        while i < self.steps.len()
            invariant
                i <= self.steps@.len(),
                s@ == spec_render_path(self.view().take(i as int)),
            decreases self.steps@.len() - i,
        {
            append_str(&mut s, "/");
            self.steps[i].render_into(&mut s);
            proof {
                assert(self.view().take(i + 1).drop_last() =~= self.view().take(i as int));
            }
            i = i + 1;
        }
        assert(self.view().take(i as int) =~= self.view());
        s
    }
}

/// An equal copy of a step list.
pub fn copy_steps<N: Namespace>(steps: &Vec<Step<N>>) -> (r: Vec<Step<N>>)
    ensures
        spec_steps(r@) == spec_steps(steps@),
{
    let mut r: Vec<Step<N>> = Vec::new();
    let mut i: usize = 0;
    while i < steps.len()
        invariant
            i <= steps@.len(),
            r@.len() == i,
            forall|j: int| 0 <= j < i ==> (#[trigger] r@[j]).view() == steps@[j].view(),
        decreases steps@.len() - i,
    {
        r.push(steps[i].copy());
        i = i + 1;
    }
    assert(spec_steps(r@) =~= spec_steps(steps@));
    r
}

} // verus!
