//! The dictionary that binds record-form paths to model contexts,
//! and the walk state that builds it from a sequence of node visits.

use vstd::prelude::*;
use crate::context::{Context, Segment, SegmentView, spec_segments};
use crate::namespace::Namespace;
use crate::path::{Path, Step, StepView, copy_steps, spec_steps};
use crate::table::{
    lemma_lookup_absent, lemma_lookup_present, lemma_lookup_push, lemma_lookup_update,
    spec_lookup, spec_unique_keys,
};
use crate::text::{owned, str_eq};

verus! {

/// The dictionary that binds the nodes of the XML to those of the model.
///
/// The key is the node's record-form path; the value is the context for a consumer to highlight.
pub struct Dictionary<N: Namespace> {
    entries: Vec<(Path<N>, Context)>,
}

impl<N: Namespace> Dictionary<N> {
    /// The entries of the dictionary, as values.
    pub closed spec fn spec_entries(&self) -> Seq<(Seq<StepView<N>>, Seq<SegmentView>)> {
        self.entries@.map_values(|e: (Path<N>, Context)| (e.0.view(), e.1.view()))
    }

    /// The context the dictionary binds to a path, if any.
    pub open spec fn lookup(&self, path: Seq<StepView<N>>) -> Option<Seq<SegmentView>> {
        spec_lookup(self.spec_entries(), path)
    }

    #[verifier::type_invariant]
    closed spec fn unique(&self) -> bool {
        spec_unique_keys(self.spec_entries())
    }

    /// An empty dictionary.
    pub fn new() -> (r: Self)
        ensures
            forall|p: Seq<StepView<N>>| r.lookup(p) is None,
    {
        let r = Dictionary { entries: Vec::new() };
        assert(r.spec_entries() =~= Seq::empty());
        r
    }

    // The index of the entry of `path`, if any.
    fn find(&self, path: &Path<N>) -> (r: Option<usize>)
        ensures
            r matches Some(i) ==> i < self.spec_entries().len() && self.spec_entries()[i as int].0
                == path.view() && self.lookup(path.view()) == Some(
                self.spec_entries()[i as int].1,
            ) && self.entries@[i as int].1.view() == self.spec_entries()[i as int].1,
            r is None ==> self.lookup(path.view()) is None && forall|j: int|
                0 <= j < self.spec_entries().len() ==> self.spec_entries()[j].0 != path.view(),
    {
        proof {
            use_type_invariant(self);
        }
        let mut i: usize = 0;
        while i < self.entries.len()
            invariant
                i <= self.entries@.len(),
                self.spec_entries().len() == self.entries@.len(),
                spec_unique_keys(self.spec_entries()),
                forall|j: int| 0 <= j < i ==> self.spec_entries()[j].0 != path.view(),
            decreases self.entries@.len() - i,
        {
            if self.entries[i].0.same(path) {
                proof {
                    lemma_lookup_present(self.spec_entries(), path.view(), i as int);
                }
                return Some(i);
            }
            i = i + 1;
        }
        proof {
            lemma_lookup_absent(self.spec_entries(), path.view());
        }
        None
    }

    /// Binds a path to a context, replacing the context it had.
    pub fn insert(&mut self, path: Path<N>, context: Context)
        ensures
            forall|p: Seq<StepView<N>>| #[trigger] final(self).lookup(p) == if p == path.view() {
                Some(context.view())
            } else {
                old(self).lookup(p)
            },
    {
        proof {
            use_type_invariant(&*self);
        }
        let ghost before = self.spec_entries();
        let found = self.find(&path);
        let mut entries: Vec<(Path<N>, Context)> = Vec::new();
        std::mem::swap(&mut entries, &mut self.entries);
        let ghost key = path.view();
        let ghost value = context.view();
        match found {
            Some(i) => {
                entries.set(i, (path, context));
                proof {
                    lemma_lookup_update(before, i as int, value, key);
                    assert(entries@.map_values(|e: (Path<N>, Context)| (e.0.view(), e.1.view()))
                        =~= before.update(i as int, (before[i as int].0, value)));
                    assert forall|p: Seq<StepView<N>>| #[trigger]
                        spec_lookup(before.update(i as int, (before[i as int].0, value)), p) == if p
                            == key {
                            Some(value)
                        } else {
                            spec_lookup(before, p)
                        } by {
                        lemma_lookup_update(before, i as int, value, p);
                    }
                }
            },
            None => {
                entries.push((path, context));
                proof {
                    lemma_lookup_push(before, key, value);
                    assert(entries@.map_values(|e: (Path<N>, Context)| (e.0.view(), e.1.view()))
                        =~= before.push((key, value)));
                }
            },
        }
        self.entries = entries;
    }

    /// The context bound to a path, if any.
    pub fn get(&self, path: &Path<N>) -> (r: Option<Context>)
        ensures
            r matches Some(c) ==> self.lookup(path.view()) == Some(c.view()),
            r is None ==> self.lookup(path.view()) is None,
    {
        match self.find(path) {
            Some(i) => Some(self.entries[i].1.copy()),
            None => None,
        }
    }
}

/// The sibling counts of one frame, keyed by namespace and name.
pub type FrameView<N> = Map<(N, Seq<char>), nat>;

/// The entries of one frame, keyed by namespace and name.
pub open spec fn spec_keyed<N>(frame: Seq<(N, String, usize)>) -> Seq<((N, Seq<char>), nat)> {
    frame.map_values(|e: (N, String, usize)| ((e.0, e.1@), e.2 as nat))
}

/// The sibling counts a frame holds.
pub open spec fn spec_frame<N>(frame: Seq<(N, String, usize)>) -> FrameView<N> {
    Map::new(
        |k: (N, Seq<char>)| spec_lookup(spec_keyed(frame), k) is Some,
        |k: (N, Seq<char>)| spec_lookup(spec_keyed(frame), k).unwrap(),
    )
}

/// The count of earlier siblings with a namespace and a name, in one frame.
pub open spec fn spec_count<N>(frame: FrameView<N>, namespace: N, name: Seq<char>) -> nat {
    if frame.contains_key((namespace, name)) {
        frame[(namespace, name)]
    } else {
        0
    }
}

/// The walk state that turns a sequence of node visits into a dictionary.
pub struct Trace<N: Namespace> {
    // One frame per open element, counting its same-named children to index them.
    frames: Vec<Vec<(N, String, usize)>>,
    // The record-form steps from the root down to the current node.
    path: Vec<Step<N>>,
    // The model-side segments from the root down to the current node.
    context: Vec<Segment>,
    // The accumulated path-to-context dictionary.
    dictionary: Dictionary<N>,
}

impl<N: Namespace> Trace<N> {
    /// The steps from the root down to the current node.
    pub closed spec fn spec_path(&self) -> Seq<StepView<N>> {
        spec_steps(self.path@)
    }

    /// The model segments from the root down to the current node.
    pub closed spec fn spec_context(&self) -> Seq<SegmentView> {
        spec_segments(self.context@)
    }

    /// The sibling counts of the open elements, outermost first.
    pub closed spec fn spec_frames(&self) -> Seq<FrameView<N>> {
        self.frames@.map_values(|f: Vec<(N, String, usize)>| spec_frame(f@))
    }

    /// The dictionary built so far.
    pub closed spec fn spec_dictionary(&self) -> Dictionary<N> {
        self.dictionary
    }

    /// The number of frames is one more than the depth of the path, and no frame repeats a key.
    pub closed spec fn wf(&self) -> bool {
        &&& self.frames@.len() == self.path@.len() + 1
        &&& forall|i: int| 0 <= i < self.frames@.len() ==> spec_unique_keys(
            #[trigger] spec_keyed(self.frames@[i]@),
        )
    }

    /// A trace at the document level: no node visited yet.
    pub fn new() -> (r: Self)
        ensures
            r.wf(),
            r.spec_path() == Seq::<StepView<N>>::empty(),
            r.spec_context() == Seq::<SegmentView>::empty(),
            r.spec_frames() == seq![Map::<(N, Seq<char>), nat>::empty()],
            forall|p: Seq<StepView<N>>| r.spec_dictionary().lookup(p) is None,
    {
        let r = Trace {
            frames: vec![Vec::new()],
            path: Vec::new(),
            context: Vec::new(),
            dictionary: Dictionary::new(),
        };
        proof {
            assert(r.spec_path() =~= Seq::<StepView<N>>::empty());
            assert(r.spec_context() =~= Seq::<SegmentView>::empty());
            assert(spec_keyed(r.frames@[0]@) =~= Seq::empty());
            assert(spec_frame(r.frames@[0]@) =~= Map::<(N, Seq<char>), nat>::empty());
            assert(r.spec_frames() =~= seq![Map::<(N, Seq<char>), nat>::empty()]);
        }
        r
    }

    /// The depth of the current node.
    pub fn depth(&self) -> (r: usize)
        ensures
            r == self.spec_path().len(),
    {
        self.path.len()
    }

    /// Descends into a child element, extending the record-form path with the element
    /// indexed among its same-named siblings.
    pub fn enter(&mut self, namespace: N, name: &str)
        requires
            old(self).wf(),
        ensures
            final(self).wf(),
            final(self).spec_path() == old(self).spec_path().push(
                (namespace, name@, spec_next_index(old(self).spec_frames().last(), namespace, name@)),
            ),
            final(self).spec_frames() == old(self).spec_frames().drop_last().push(
                spec_bump(old(self).spec_frames().last(), namespace, name@),
            ).push(Map::empty()),
            final(self).spec_context() == old(self).spec_context(),
            final(self).spec_dictionary() == old(self).spec_dictionary(),
    {
        let index = self.next_index(namespace, name);
        let ghost mid = self.spec_frames();
        self.path.push(Step { namespace, name: owned(name), index });
        self.frames.push(Vec::new());
        proof {
            assert(self.spec_path() =~= old(self).spec_path().push(
                (namespace, name@, index as nat),
            ));
            assert(spec_keyed(self.frames@.last()@) =~= Seq::empty());
            assert(spec_frame(self.frames@.last()@) =~= Map::<(N, Seq<char>), nat>::empty());
            assert(self.spec_frames() =~= mid.push(Map::empty()));
            assert forall|i: int| 0 <= i < self.frames@.len() implies spec_unique_keys(
                #[trigger] spec_keyed(self.frames@[i]@),
            ) by {
                if i < self.frames@.len() - 1 {
                    assert(self.frames@[i] == self.frames@.drop_last()[i]);
                }
            }
        }
    }

    /// Ascends out of the current element.
    pub fn leave(&mut self)
        requires
            old(self).wf(),
            old(self).spec_path().len() > 0,
        ensures
            final(self).wf(),
            final(self).spec_path() == old(self).spec_path().drop_last(),
            final(self).spec_frames() == old(self).spec_frames().drop_last(),
            final(self).spec_context() == old(self).spec_context(),
            final(self).spec_dictionary() == old(self).spec_dictionary(),
    {
        self.path.pop();
        self.frames.pop();
        proof {
            assert(self.spec_path() =~= old(self).spec_path().drop_last());
            assert(self.spec_frames() =~= old(self).spec_frames().drop_last());
            assert forall|i: int| 0 <= i < self.frames@.len() implies spec_unique_keys(
                #[trigger] spec_keyed(self.frames@[i]@),
            ) by {
                assert(self.frames@[i] == old(self).frames@[i]);
            }
        }
    }

    /// Extends the model context with a single field or group.
    pub fn push_field(&mut self, field: &'static str)
        requires
            old(self).wf(),
        ensures
            final(self).wf(),
            final(self).spec_context() == old(self).spec_context().push((field@, None::<nat>)),
            final(self).spec_path() == old(self).spec_path(),
            final(self).spec_frames() == old(self).spec_frames(),
            final(self).spec_dictionary() == old(self).spec_dictionary(),
    {
        self.context.push(Segment { field, index: None });
        assert(self.spec_context() =~= old(self).spec_context().push((field@, None::<nat>)));
    }

    /// Extends the model context with one instance of a repeatable group.
    pub fn push_instance(&mut self, field: &'static str, index: usize)
        requires
            old(self).wf(),
        ensures
            final(self).wf(),
            final(self).spec_context() == old(self).spec_context().push(
                (field@, Some(index as nat)),
            ),
            final(self).spec_path() == old(self).spec_path(),
            final(self).spec_frames() == old(self).spec_frames(),
            final(self).spec_dictionary() == old(self).spec_dictionary(),
    {
        self.context.push(Segment { field, index: Some(index) });
        assert(self.spec_context() =~= old(self).spec_context().push(
            (field@, Some(index as nat)),
        ));
    }

    /// Drops the innermost model segment, if any.
    pub fn pop_context(&mut self)
        requires
            old(self).wf(),
        ensures
            final(self).wf(),
            final(self).spec_context() == if old(self).spec_context().len() > 0 {
                old(self).spec_context().drop_last()
            } else {
                old(self).spec_context()
            },
            final(self).spec_path() == old(self).spec_path(),
            final(self).spec_frames() == old(self).spec_frames(),
            final(self).spec_dictionary() == old(self).spec_dictionary(),
    {
        self.context.pop();
        assert(self.spec_context() =~= if old(self).spec_context().len() > 0 {
            old(self).spec_context().drop_last()
        } else {
            old(self).spec_context()
        });
    }

    /// Records the current node against the model context built so far.
    pub fn record_context(&mut self)
        requires
            old(self).wf(),
        ensures
            final(self).wf(),
            forall|p: Seq<StepView<N>>| #[trigger] final(self).spec_dictionary().lookup(p) == if p
                == old(self).spec_path() {
                Some(old(self).spec_context())
            } else {
                old(self).spec_dictionary().lookup(p)
            },
            final(self).spec_path() == old(self).spec_path(),
            final(self).spec_context() == old(self).spec_context(),
            final(self).spec_frames() == old(self).spec_frames(),
    {
        let path = Path { steps: copy_steps(&self.path) };
        let context = Context { segments: copy_segments(&self.context) };
        self.dictionary.insert(path, context);
    }

    /// Records the current node against the root context (a term-less node).
    pub fn record_root(&mut self)
        requires
            old(self).wf(),
        ensures
            final(self).wf(),
            forall|p: Seq<StepView<N>>| #[trigger] final(self).spec_dictionary().lookup(p) == if p
                == old(self).spec_path() {
                Some(Seq::<SegmentView>::empty())
            } else {
                old(self).spec_dictionary().lookup(p)
            },
            final(self).spec_path() == old(self).spec_path(),
            final(self).spec_context() == old(self).spec_context(),
            final(self).spec_frames() == old(self).spec_frames(),
    {
        let path = Path { steps: copy_steps(&self.path) };
        self.dictionary.insert(path, Context::root());
    }

    /// Consumes the trace, yielding the dictionary it has built.
    pub fn into_dictionary(self) -> (r: Dictionary<N>)
        ensures
            r == self.spec_dictionary(),
    {
        self.dictionary
    }

    // The next index of a child named `name` in the current frame, counting it.
    fn next_index(&mut self, namespace: N, name: &str) -> (r: usize)
        requires
            old(self).wf(),
        ensures
            final(self).wf(),
            r as nat == spec_next_index(old(self).spec_frames().last(), namespace, name@),
            final(self).spec_frames() == old(self).spec_frames().drop_last().push(
                spec_bump(old(self).spec_frames().last(), namespace, name@),
            ),
            final(self).spec_path() == old(self).spec_path(),
            final(self).spec_context() == old(self).spec_context(),
            final(self).spec_dictionary() == old(self).spec_dictionary(),
    {
        let mut frame = self.frames.pop().unwrap();
        let ghost keyed = spec_keyed(frame@);
        let ghost key = (namespace, name@);
        proof {
            assert(old(self).frames@.last() == frame);
            assert(spec_unique_keys(spec_keyed(old(self).frames@[old(self).frames@.len() - 1]@)));
            assert(old(self).spec_frames().last() == spec_frame(frame@));
        }
        let mut i: usize = 0;
        let mut found: Option<usize> = None;
        while i < frame.len()
            invariant_except_break
                found is None,
            invariant
                i <= frame@.len(),
                keyed == spec_keyed(frame@),
                key == (namespace, name@),
                spec_unique_keys(keyed),
                forall|j: int| 0 <= j < i ==> keyed[j].0 != key,
            ensures
                found matches Some(k) ==> k < frame@.len() && keyed[k as int].0 == key,
                found is None ==> forall|j: int| 0 <= j < frame@.len() ==> keyed[j].0 != key,
            decreases frame@.len() - i,
        {
            assert(keyed[i as int] == ((frame@[i as int].0, frame@[i as int].1@), frame@[i as int].2 as nat));
            let same_namespace = frame[i].0.same(namespace);
            let same_name = str_eq(frame[i].1.as_str(), name);
            if same_namespace && same_name {
                assert(keyed[i as int].0 == key);
                found = Some(i);
                break;
            }
            i = i + 1;
        }
        let index: usize;
        match found {
            Some(k) => {
                let count = frame[k].2;
                index = if count < usize::MAX { count + 1 } else { count };
                let entry_namespace = frame[k].0;
                let entry_name = owned(frame[k].1.as_str());
                frame.set(k, (entry_namespace, entry_name, index));
                proof {
                    lemma_lookup_present(keyed, key, k as int);
                    lemma_lookup_update(keyed, k as int, index as nat, key);
                    let k2 = keyed.update(k as int, (keyed[k as int].0, index as nat));
                    assert(spec_keyed(frame@) =~= k2);
                    assert forall|q: (N, Seq<char>)| #[trigger] spec_lookup(k2, q) == if q == key {
                        Some(index as nat)
                    } else {
                        spec_lookup(keyed, q)
                    } by {
                        lemma_lookup_update(keyed, k as int, index as nat, q);
                    }
                    assert(spec_frame(frame@) =~= spec_bump(old(self).spec_frames().last(), namespace, name@));
                }
            },
            None => {
                index = 1;
                frame.push((namespace, owned(name), 1));
                proof {
                    lemma_lookup_absent(keyed, key);
                    lemma_lookup_push(keyed, key, 1nat);
                    assert(spec_keyed(frame@) =~= keyed.push((key, 1nat)));
                    assert(spec_frame(frame@) =~= spec_bump(old(self).spec_frames().last(), namespace, name@));
                }
            },
        }
        self.frames.push(frame);
        proof {
            assert(self.spec_frames() =~= old(self).spec_frames().drop_last().push(
                spec_frame(frame@),
            ));
            assert forall|j: int| 0 <= j < self.frames@.len() implies spec_unique_keys(
                #[trigger] spec_keyed(self.frames@[j]@),
            ) by {
                if j < self.frames@.len() - 1 {
                    assert(self.frames@[j] == old(self).frames@[j]);
                }
            }
        }
        index
    }
}

/// The index the next child with a namespace and a name receives in a frame.
pub open spec fn spec_next_index<N>(frame: FrameView<N>, namespace: N, name: Seq<char>) -> nat {
    let c = spec_count(frame, namespace, name);
    if c < usize::MAX {
        c + 1
    } else {
        c
    }
}

/// The frame after counting one more child with a namespace and a name.
pub open spec fn spec_bump<N>(frame: FrameView<N>, namespace: N, name: Seq<char>) -> FrameView<N> {
    frame.insert((namespace, name), spec_next_index(frame, namespace, name))
}

/// An equal copy of a segment list.
pub fn copy_segments(segments: &Vec<Segment>) -> (r: Vec<Segment>)
    ensures
        spec_segments(r@) == spec_segments(segments@),
{
    let mut r: Vec<Segment> = Vec::new();
    let mut i: usize = 0;
    while i < segments.len()
        invariant
            i <= segments@.len(),
            r@ == segments@.take(i as int),
        decreases segments@.len() - i,
    {
        r.push(segments[i]);
        assert(r@ =~= segments@.take(i + 1));
        i = i + 1;
    }
    assert(r@ =~= segments@);
    r
}

} // verus!
