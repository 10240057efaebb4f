//! The record-form namespace sets of the bindings, and the table that resolves
//! the abbreviated namespaces of a report location.

use vstd::prelude::*;
use crate::error::Error;
use crate::text::{owned, str_eq};
use crate::table::{
    lemma_lookup_absent, lemma_lookup_present, lemma_lookup_push, lemma_lookup_update, spec_lookup,
    spec_unique_keys,
};

verus! {

/// A set of record-form namespaces a binding writes.
///
/// Every member stands for one namespace URI and maps to it and back,
/// so a writer declares the namespaces of the document it emits,
/// and a parser resolves the namespace of an element into a record-form step.
/// Distinct members have distinct URIs, prefixes and abbreviations.
pub trait Namespace: Sized + Copy {
    /// The full namespace URI of the member.
    spec fn spec_uri(self) -> Seq<char>;

    /// The XML prefix a document binds to the member; empty for the default namespace.
    spec fn spec_prefix(self) -> Seq<char>;

    /// The abbreviation the rule sets of the validators write for the member.
    spec fn spec_abbreviation(self) -> Seq<char>;

    /// The short rendering of the member in a record-form path.
    spec fn spec_render(self) -> Seq<char>;

    /// Every member of the set, each once.
    spec fn spec_members() -> Seq<Self>;

    /// The full namespace URI the member stands for.
    fn uri(self) -> (r: &'static str)
        ensures
            r@ == self.spec_uri(),
    ;

    /// The XML prefix a document binds to the member when it declares the namespace.
    fn prefix(self) -> (r: &'static str)
        ensures
            r@ == self.spec_prefix(),
    ;

    /// The abbreviation the rule sets of the validators write into a location for the member.
    fn abbreviation(self) -> (r: &'static str)
        ensures
            r@ == self.spec_abbreviation(),
    ;

    /// The short rendering of the member in a record-form path.
    fn render(self) -> (r: &'static str)
        ensures
            r@ == self.spec_render(),
    ;

    /// Every member of the set, in declaration order.
    fn members() -> (r: Vec<Self>)
        ensures
            r@ == Self::spec_members(),
    ;

    /// Whether two members are the same.
    fn same(self, other: Self) -> (b: bool)
        ensures
            b == (self == other),
    ;

    /// The members are all listed once, and each of their names tells them apart.
    proof fn lemma_members()
        ensures
            forall|n: Self| #[trigger] Self::spec_members().contains(n),
            forall|i: int, j: int|
                0 <= i < j < Self::spec_members().len() ==> Self::spec_members()[i]
                    != Self::spec_members()[j],
            forall|a: Self, b: Self| a.spec_uri() == b.spec_uri() ==> a == b,
            forall|a: Self, b: Self| a.spec_prefix() == b.spec_prefix() ==> a == b,
            forall|a: Self, b: Self| a.spec_abbreviation() == b.spec_abbreviation() ==> a == b,
            forall|a: Self, b: Self| a.spec_prefix() == b.spec_abbreviation() ==> a == b,
    ;
}

/// The member whose URI is `uri`, if the set carries one.
pub open spec fn spec_from_uri<N: Namespace>(uri: Seq<char>) -> Option<N> {
    if exists|n: N| n.spec_uri() == uri {
        Some(choose|n: N| n.spec_uri() == uri)
    } else {
        None
    }
}

/// The member whose URI is `uri`, if the set carries it.
///
/// It is the inverse of `uri`: a parser resolves an element's namespace through it.
pub fn from_uri<N: Namespace>(uri: &str) -> (r: Option<N>)
    ensures
        r == spec_from_uri::<N>(uri@),
{
    proof {
        N::lemma_members();
    }
    let members = N::members();
    let mut i: usize = 0;
    while i < members.len()
        invariant
            members@ == N::spec_members(),
            i <= members@.len(),
            forall|j: int| 0 <= j < i ==> members@[j].spec_uri() != uri@,
        decreases members@.len() - i,
    {
        if str_eq(members[i].uri(), uri) {
            let n = members[i];
            proof {
                N::lemma_members();
                assert(n.spec_uri() == uri@);
                let c = choose|m: N| m.spec_uri() == uri@;
                assert(c.spec_uri() == n.spec_uri());
            }
            return Some(n);
        }
        i = i + 1;
    }
    proof {
        if exists|n: N| n.spec_uri() == uri@ {
            let n = choose|n: N| n.spec_uri() == uri@;
            assert(N::spec_members().contains(n));
            let k = choose|k: int| 0 <= k < N::spec_members().len() && N::spec_members()[k] == n;
            assert(members@[k].spec_uri() != uri@);
        }
    }
    None
}

/// The entries the rule sets bind: each member under its abbreviation, in member order.
pub open spec fn spec_default_entries<N: Namespace>() -> Seq<(Seq<char>, N)> {
    N::spec_members().map_values(|n: N| (n.spec_abbreviation(), n))
}

/// The entries after a declaration, or `None` when the abbreviation is bound elsewhere.
pub open spec fn spec_declare<N>(entries: Seq<(Seq<char>, N)>, abbreviation: Seq<char>, namespace: N) -> Option<Seq<(Seq<char>, N)>> {
    match spec_lookup(entries, abbreviation) {
        None => Some(entries.push((abbreviation, namespace))),
        Some(bound) => if bound == namespace {
            Some(entries)
        } else {
            None
        },
    }
}

/// Resolves an abbreviated namespace of a report location.
///
/// A validator may abbreviate the namespace of every step of a location,
/// with an abbreviation either of its rule set or of the checked document.
/// The table binds both, each abbreviation to one namespace.
pub struct Abbreviations<N: Namespace> {
    entries: Vec<(String, N)>,
}

impl<N: Namespace> Abbreviations<N> {
    /// The entries of the table, as character sequences.
    pub closed spec fn spec_entries(&self) -> Seq<(Seq<char>, N)> {
        self.entries@.map_values(|e: (String, N)| (e.0@, e.1))
    }

    /// The namespace the table binds to an abbreviation, if any.
    pub open spec fn lookup(&self, abbreviation: Seq<char>) -> Option<N> {
        spec_lookup(self.spec_entries(), abbreviation)
    }

    #[verifier::type_invariant]
    closed spec fn unique(&self) -> bool {
        spec_unique_keys(self.spec_entries())
    }

    /// An empty table.
    pub fn empty() -> (r: Self)
        ensures
            forall|k: Seq<char>| r.lookup(k) is None,
    {
        let r = Abbreviations { entries: Vec::new() };
        assert(r.spec_entries() =~= Seq::empty());
        r
    }

    // The index of the entry that binds `abbreviation`, if any.
    fn find(&self, abbreviation: &str) -> (r: Option<usize>)
        ensures
            r matches Some(i) ==> i < self.spec_entries().len() && self.spec_entries()[i as int].0
                == abbreviation@ && self.lookup(abbreviation@) == Some(
                self.spec_entries()[i as int].1,
            ),
            r is None ==> self.lookup(abbreviation@) is None && forall|j: int|
                0 <= j < self.spec_entries().len() ==> self.spec_entries()[j].0 != abbreviation@,
    {
        proof {
            use_type_invariant(self);
        }
        let mut i: usize = 0;
        while i < self.entries.len()
            invariant
                i <= self.entries@.len(),
                self.spec_entries().len() == self.entries@.len(),
                spec_unique_keys(self.spec_entries()),
                forall|j: int| 0 <= j < i ==> self.spec_entries()[j].0 != abbreviation@,
            decreases self.entries@.len() - i,
        {
            if str_eq(self.entries[i].0.as_str(), abbreviation) {
                proof {
                    lemma_lookup_present(self.spec_entries(), abbreviation@, i as int);
                }
                return Some(i);
            }
            i = i + 1;
        }
        proof {
            lemma_lookup_absent(self.spec_entries(), abbreviation@);
        }
        None
    }

    /// Adds an abbreviation the document binds.
    ///
    /// Rebinding one to the same namespace changes nothing.
    /// Binding it to another namespace yields `Error::AmbiguousAbbreviation`.
    pub fn declare(&mut self, abbreviation: &str, namespace: N) -> (r: Result<(), Error>)
        ensures
            old(self).lookup(abbreviation@) is None ==> final(self).spec_entries()
                == old(self).spec_entries().push((abbreviation@, namespace)),
            old(self).lookup(abbreviation@) is None ==> r is Ok && forall|k: Seq<char>|
                #[trigger] final(self).lookup(k) == if k == abbreviation@ {
                    Some(namespace)
                } else {
                    old(self).lookup(k)
                },
            old(self).lookup(abbreviation@) == Some(namespace) ==> r is Ok
                && final(self).spec_entries() == old(self).spec_entries(),
            old(self).lookup(abbreviation@) matches Some(other) && other != namespace ==> (r
                matches Err(Error::AmbiguousAbbreviation(m)) && m@ == abbreviation@)
                && final(self).spec_entries() == old(self).spec_entries(),
    {
        proof {
            use_type_invariant(&*self);
        }
        match self.find(abbreviation) {
            None => {
                let ghost before = self.spec_entries();
                let mut entries: Vec<(String, N)> = Vec::new();
                std::mem::swap(&mut entries, &mut self.entries);
                entries.push((owned(abbreviation), namespace));
                proof {
                    let s2 = entries@.map_values(|e: (String, N)| (e.0@, e.1));
                    assert(s2 =~= before.push((abbreviation@, namespace)));
                    assert forall|a: int, b: int| 0 <= a < b < s2.len() implies s2[a].0 != s2[b].0 by {
                        if b == s2.len() - 1 {
                            assert(s2[a] == before[a]);
                        } else {
                            assert(s2[a] == before[a] && s2[b] == before[b]);
                        }
                    }
                }
                self.entries = entries;
                proof {
                    assert(self.spec_entries() =~= before.push((abbreviation@, namespace)));
                    assert(self.spec_entries().drop_last() =~= before);
                    assert forall|k: Seq<char>| #[trigger]
                        self.lookup(k) == if k == abbreviation@ {
                            Some(namespace)
                        } else {
                            old(self).lookup(k)
                        } by {}
                }
                Ok(())
            },
            Some(i) => {
                if self.entries[i].1.same(namespace) {
                    Ok(())
                } else {
                    Err(Error::AmbiguousAbbreviation(owned(abbreviation)))
                }
            },
        }
    }

    /// The namespace an abbreviation stands for, or `None` when neither origin binds it.
    pub fn resolve(&self, abbreviation: &str) -> (r: Option<N>)
        ensures
            r == self.lookup(abbreviation@),
    {
        match self.find(abbreviation) {
            Some(i) => Some(self.entries[i].1),
            None => None,
        }
    }

    // Binds an abbreviation to a namespace, in place of any namespace it was bound to.
    fn bind(&mut self, abbreviation: &str, namespace: N)
        ensures
            forall|k: Seq<char>| #[trigger] final(self).lookup(k) == if k == abbreviation@ {
                Some(namespace)
            } else {
                old(self).lookup(k)
            },
    {
        proof {
            use_type_invariant(&*self);
        }
        let found = self.find(abbreviation);
        let ghost before = self.spec_entries();
        let mut entries: Vec<(String, N)> = Vec::new();
        std::mem::swap(&mut entries, &mut self.entries);
        assert(entries@.map_values(|e: (String, N)| (e.0@, e.1)) == before);
        match found {
            Some(i) => {
                entries.set(i, (owned(abbreviation), namespace));
                proof {
                    assert forall|k: Seq<char>| true implies #[trigger] spec_lookup(
                        before.update(i as int, (before[i as int].0, namespace)),
                        k,
                    ) == if k == abbreviation@ {
                        Some(namespace)
                    } else {
                        spec_lookup(before, k)
                    } by {
                        lemma_lookup_update(before, i as int, namespace, k);
                    }
                    lemma_lookup_update(before, i as int, namespace, abbreviation@);
                    assert(entries@.map_values(|e: (String, N)| (e.0@, e.1)) =~= before.update(
                        i as int,
                        (before[i as int].0, namespace),
                    ));
                }
            },
            None => {
                entries.push((owned(abbreviation), namespace));
                proof {
                    lemma_lookup_push(before, abbreviation@, namespace);
                    assert(entries@.map_values(|e: (String, N)| (e.0@, e.1)) =~= before.push(
                        (abbreviation@, namespace),
                    ));
                }
            },
        }
        self.entries = entries;
    }

    /// The table of a list of abbreviations and their namespaces; an abbreviation listed
    /// twice is bound to the namespace listed last.
    pub fn from_pairs(pairs: &Vec<(&str, N)>) -> (r: Self)
        ensures
            forall|k: Seq<char>| #[trigger] r.lookup(k) == spec_lookup(
                pairs@.map_values(|p: (&str, N)| (p.0@, p.1)),
                k,
            ),
    {
        let ghost all = pairs@.map_values(|p: (&str, N)| (p.0@, p.1));
        let mut table = Abbreviations::empty();
        let mut i: usize = 0;
        while i < pairs.len()
            invariant
                i <= pairs@.len(),
                all == pairs@.map_values(|p: (&str, N)| (p.0@, p.1)),
                forall|k: Seq<char>| #[trigger] table.lookup(k) == spec_lookup(all.take(i as int), k),
            decreases pairs@.len() - i,
        {
            let (abbreviation, namespace) = pairs[i];
            table.bind(abbreviation, namespace);
            proof {
                assert(all.take(i + 1).drop_last() =~= all.take(i as int));
                assert(all.take(i + 1).last() == (abbreviation@, namespace));
            }
            i = i + 1;
        }
        proof {
            assert(all.take(i as int) =~= all);
        }
        table
    }

    /// Builds the table a namespace set seeds with the abbreviations of the rule sets.
    pub fn default_abbreviations() -> (r: Self)
        ensures
            r.spec_entries() == spec_default_entries::<N>(),
            forall|n: N| #[trigger] r.lookup(n.spec_abbreviation()) == Some(n),
            forall|k: Seq<char>|
                (forall|n: N| n.spec_abbreviation() != k) ==> #[trigger] r.lookup(k) is None,
    {
        proof {
            N::lemma_members();
        }
        let members = N::members();
        let mut entries: Vec<(String, N)> = Vec::new();
        let mut i: usize = 0;
        while i < members.len()
            invariant
                members@ == N::spec_members(),
                i <= members@.len(),
                entries@.len() == i,
                forall|j: int|
                    0 <= j < i ==> (#[trigger] entries@[j]).0@ == members@[j].spec_abbreviation()
                        && entries@[j].1 == members@[j],
            decreases members@.len() - i,
        {
            let n = members[i];
            entries.push((owned(n.abbreviation()), n));
            i = i + 1;
        }
        let r = Abbreviations { entries };
        proof {
            let s = r.spec_entries();
            assert(s =~= spec_default_entries::<N>());
            assert forall|a: int, b: int| 0 <= a < b < s.len() implies s[a].0 != s[b].0 by {
                assert(s[a].0 == members@[a].spec_abbreviation());
                assert(s[b].0 == members@[b].spec_abbreviation());
            }
            assert forall|n: N| #[trigger] r.lookup(n.spec_abbreviation()) == Some(n) by {
                assert(N::spec_members().contains(n));
                let k = choose|k: int| 0 <= k < members@.len() && members@[k] == n;
                assert(s[k].0 == n.spec_abbreviation());
                lemma_lookup_present(s, n.spec_abbreviation(), k);
            }
            assert forall|k: Seq<char>|
                (forall|n: N| n.spec_abbreviation() != k) implies #[trigger] r.lookup(k) is None by {
                assert forall|j: int| 0 <= j < s.len() implies s[j].0 != k by {
                    assert(s[j].0 == members@[j].spec_abbreviation());
                }
                lemma_lookup_absent(s, k);
            }
        }
        r
    }
}

} // verus!
