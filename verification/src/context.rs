//! Context paths: pointers to one model node for a consumer to highlight.

use vstd::prelude::*;
use crate::text::{append_str, push_decimal, spec_decimal, str_eq};

verus! {

/// One step of a context path: a model field,
/// with the index of the repeatable-group instance it enters.
#[derive(Debug, Clone, Copy, PartialEq, Eq)]
pub struct Segment {
    /// The name of the model field.
    pub field: &'static str,
    /// The 1-based index of the entered repeatable-group instance,
    /// or `None` for a single field or group.
    pub index: Option<usize>,
}

/// The value a segment stands for: its field name and its instance index.
pub type SegmentView = (Seq<char>, Option<nat>);

impl Segment {
    pub open spec fn view(&self) -> SegmentView {
        (self.field@, match self.index {
            Some(i) => Some(i as nat),
            None => None,
        })
    }

    /// Whether two segments name the same field and instance.
    pub fn same(&self, other: &Self) -> (b: bool)
        ensures
            b == (self.view() == other.view()),
    {
        let same_index = match (self.index, other.index) {
            (Some(a), Some(b)) => a == b,
            (None, None) => true,
            _ => false,
        };
        same_index && str_eq(self.field, other.field)
    }
}

/// The rendering of one segment: the field, followed by `[i]` for an instance.
pub open spec fn spec_render_segment(s: SegmentView) -> Seq<char> {
    match s.1 {
        Some(i) => s.0 + "["@ + spec_decimal(i) + "]"@,
        None => s.0,
    }
}

/// The dot-separated rendering of a list of segments.
pub open spec fn spec_render_context(segments: Seq<SegmentView>) -> Seq<char>
    decreases segments.len(),
{
    if segments.len() == 0 {
        Seq::empty()
    } else if segments.len() == 1 {
        spec_render_segment(segments[0])
    } else {
        spec_render_context(segments.drop_last()) + "."@ + spec_render_segment(segments.last())
    }
}

/// The segments of a list, as values.
pub open spec fn spec_segments(segments: Seq<Segment>) -> Seq<SegmentView> {
    segments.map_values(|s: Segment| s.view())
}

/// A pointer to one model node for a consumer to highlight.
///
/// The target is a leaf field, a repeatable-group instance, or the document root.
/// Each segment carries the concrete index of the repeatable group it crosses.
/// An empty path is the document root: either a document-wide rule,
/// or a node with no assigned model term.
#[derive(Debug, Clone, PartialEq, Eq)]
pub struct Context {
    /// The ordered segments from the document root down to the target; empty for the root.
    pub segments: Vec<Segment>,
}

impl Context {
    pub open spec fn view(&self) -> Seq<SegmentView> {
        spec_segments(self.segments@)
    }

    /// The root context: no segment at all.
    pub fn root() -> (r: Context)
        ensures
            r.view() == Seq::<SegmentView>::empty(),
    {
        let r = Context { segments: Vec::new() };
        assert(r.view() =~= Seq::<SegmentView>::empty());
        r
    }

    /// An equal copy of the context.
    pub fn copy(&self) -> (r: Context)
        ensures
            r.view() == self.view(),
    {
        let mut segments: Vec<Segment> = Vec::new();
        let mut i: usize = 0;
        while i < self.segments.len()
            invariant
                i <= self.segments@.len(),
                segments@ == self.segments@.take(i as int),
            decreases self.segments@.len() - i,
        {
            segments.push(self.segments[i]);
            proof {
                assert(segments@ =~= self.segments@.take(i + 1));
            }
            i = i + 1;
        }
        assert(segments@ =~= self.segments@);
        Context { segments }
    }

    /// Whether two contexts point at the same node.
    pub fn same(&self, other: &Context) -> (b: bool)
        ensures
            b == (self.view() == other.view()),
    {
        if self.segments.len() != other.segments.len() {
            proof {
                assert(self.view().len() != other.view().len());
            }
            return false;
        }
        let mut i: usize = 0;
        while i < self.segments.len()
            invariant
                self.segments@.len() == other.segments@.len(),
                i <= self.segments@.len(),
                forall|j: int| 0 <= j < i ==> self.segments@[j].view() == other.segments@[j].view(),
            decreases self.segments@.len() - i,
        {
            if !self.segments[i].same(&other.segments[i]) {
                proof {
                    assert(self.view()[i as int] != other.view()[i as int]);
                }
                return false;
            }
            i = i + 1;
        }
        assert(self.view() =~= other.view());
        true
    }

    /// Renders the path as dot-separated segments, such as `lines[2].item.name`.
    /// The root renders as an empty string.
    pub fn to_string(&self) -> (s: String)
        ensures
            s@ == spec_render_context(self.view()),
    {
        let mut s = String::new();
        let mut i: usize = 0;
        while i < self.segments.len()
            invariant
                i <= self.segments@.len(),
                s@ == spec_render_context(self.view().take(i as int)),
            decreases self.segments@.len() - i,
        {
            if i > 0 {
                append_str(&mut s, ".");
            }
            let segment = self.segments[i];
            append_str(&mut s, segment.field);
            match segment.index {
                Some(index) => {
                    append_str(&mut s, "[");
                    push_decimal(&mut s, index as u128);
                    append_str(&mut s, "]");
                },
                None => {},
            }
            proof {
                let t = self.view().take(i + 1);
                assert(t.drop_last() =~= self.view().take(i as int));
                assert(t.last() == segment.view());
                if i == 0 {
                    assert(s@ =~= spec_render_segment(segment.view()));
                } else {
                    assert(s@ =~= spec_render_context(t.drop_last()) + "."@ + spec_render_segment(
                        segment.view(),
                    ));
                }
            }
            i = i + 1;
        }
        assert(self.view().take(i as int) =~= self.view());
        s
    }
}

} // verus!
