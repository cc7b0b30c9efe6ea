//! A JSON object held as an ordered association list from key to the raw
//! JSON text of its value.
//!
//! The configuration engine reads and writes only the top-level sections it
//! understands; every other entry is carried through verbatim, so a merge can
//! never drop a hand-edited key it does not model.

use vstd::prelude::*;

use crate::jsontext::{obj_text, obj_text_exec, pairs_view};
use crate::text::{str_eq, string_of};

verus! {

/// The value text under key `k`, if present (first occurrence).
pub open spec fn lookup(es: Seq<(Seq<char>, Seq<char>)>, k: Seq<char>) -> Option<Seq<char>>
    decreases es.len(),
{
    if es.len() == 0 {
        None
    } else if es[0].0 == k {
        Some(es[0].1)
    } else {
        lookup(es.skip(1), k)
    }
}

/// Whether key `k` is present.
pub open spec fn has_key(es: Seq<(Seq<char>, Seq<char>)>, k: Seq<char>) -> bool {
    lookup(es, k) is Some
}

/// `es` with the value under `k` replaced in place, or appended when absent.
pub open spec fn upsert(
    es: Seq<(Seq<char>, Seq<char>)>,
    k: Seq<char>,
    v: Seq<char>,
) -> Seq<(Seq<char>, Seq<char>)>
    decreases es.len(),
{
    if es.len() == 0 {
        seq![(k, v)]
    } else if es[0].0 == k {
        seq![(k, v)] + es.skip(1)
    } else {
        seq![es[0]] + upsert(es.skip(1), k, v)
    }
}

/// `es` with the first entry under `k` removed.
pub open spec fn remove_key(
    es: Seq<(Seq<char>, Seq<char>)>,
    k: Seq<char>,
) -> Seq<(Seq<char>, Seq<char>)>
    decreases es.len(),
{
    if es.len() == 0 {
        es
    } else if es[0].0 == k {
        es.skip(1)
    } else {
        seq![es[0]] + remove_key(es.skip(1), k)
    }
}

/// No two entries share a key.
pub open spec fn unique_keys(es: Seq<(Seq<char>, Seq<char>)>) -> bool {
    forall|i: int, j: int| 0 <= i < j < es.len() ==> es[i].0 != es[j].0
}

/// An upsert changes exactly the looked-up key.
pub broadcast proof fn lemma_upsert_lookup(
    es: Seq<(Seq<char>, Seq<char>)>,
    k: Seq<char>,
    v: Seq<char>,
    k2: Seq<char>,
)
    ensures
        #[trigger] lookup(upsert(es, k, v), k2) == if k2 == k {
            Some(v)
        } else {
            lookup(es, k2)
        },
    decreases es.len(),
{
    if es.len() == 0 {
        let r = upsert(es, k, v);
        assert(r[0] == (k, v));
        assert(r.skip(1) =~= Seq::<(Seq<char>, Seq<char>)>::empty());
        assert(lookup(Seq::<(Seq<char>, Seq<char>)>::empty(), k2) is None);
        assert(lookup(r, k2) == if k2 == k { Some(v) } else { lookup(r.skip(1), k2) });
    } else if es[0].0 == k {
        let r = upsert(es, k, v);
        assert(r[0] == (k, v));
        assert(r.skip(1) =~= es.skip(1));
        assert(lookup(r, k2) == if k2 == k { Some(v) } else { lookup(es.skip(1), k2) });
        assert(lookup(es, k2) == if k2 == k { Some(es[0].1) } else { lookup(es.skip(1), k2) });
    } else {
        let r = upsert(es, k, v);
        assert(r[0] == es[0]);
        assert(r.skip(1) =~= upsert(es.skip(1), k, v));
        lemma_upsert_lookup(es.skip(1), k, v, k2);
    }
}

/// A key held by no entry looks up to nothing.
pub proof fn lemma_absent_lookup(es: Seq<(Seq<char>, Seq<char>)>, k: Seq<char>)
    requires
        forall|j: int| 0 <= j < es.len() ==> es[j].0 != k,
    ensures
        lookup(es, k) is None,
    decreases es.len(),
{
    if es.len() > 0 {
        lemma_absent_lookup(es.skip(1), k);
    }
}

/// A key first present at `i` looks up to that entry's value.
pub proof fn lemma_lookup_at(es: Seq<(Seq<char>, Seq<char>)>, k: Seq<char>, i: int)
    requires
        0 <= i < es.len(),
        es[i].0 == k,
        forall|j: int| 0 <= j < i ==> es[j].0 != k,
    ensures
        lookup(es, k) == Some(es[i].1),
    decreases i,
{
    if i > 0 {
        lemma_lookup_at(es.skip(1), k, i - 1);
    }
}

/// When the key first occurs at `i`, an upsert is a positional update.
pub proof fn lemma_upsert_at(
    es: Seq<(Seq<char>, Seq<char>)>,
    k: Seq<char>,
    v: Seq<char>,
    i: int,
)
    requires
        0 <= i < es.len(),
        es[i].0 == k,
        forall|j: int| 0 <= j < i ==> es[j].0 != k,
    ensures
        upsert(es, k, v) == es.update(i, (k, v)),
    decreases i,
{
    if i == 0 {
        assert(seq![(k, v)] + es.skip(1) =~= es.update(0, (k, v)));
    } else {
        lemma_upsert_at(es.skip(1), k, v, i - 1);
        assert(seq![es[0]] + es.skip(1).update(i - 1, (k, v)) =~= es.update(i, (k, v)));
    }
}

/// When the key is absent, an upsert is a push.
pub proof fn lemma_upsert_absent(es: Seq<(Seq<char>, Seq<char>)>, k: Seq<char>, v: Seq<char>)
    requires
        forall|j: int| 0 <= j < es.len() ==> es[j].0 != k,
    ensures
        upsert(es, k, v) == es.push((k, v)),
    decreases es.len(),
{
    if es.len() == 0 {
        assert(upsert(es, k, v) =~= es.push((k, v)));
    } else {
        lemma_upsert_absent(es.skip(1), k, v);
        assert(seq![es[0]] + es.skip(1).push((k, v)) =~= es.push((k, v)));
    }
}

/// When the key first occurs at `i`, removal is a positional removal.
pub proof fn lemma_remove_at(es: Seq<(Seq<char>, Seq<char>)>, k: Seq<char>, i: int)
    requires
        0 <= i < es.len(),
        es[i].0 == k,
        forall|j: int| 0 <= j < i ==> es[j].0 != k,
    ensures
        remove_key(es, k) == es.remove(i),
    decreases i,
{
    if i == 0 {
        assert(es.skip(1) =~= es.remove(0));
    } else {
        lemma_remove_at(es.skip(1), k, i - 1);
        assert(seq![es[0]] + es.skip(1).remove(i - 1) =~= es.remove(i));
    }
}

/// When the key is absent, removal changes nothing.
pub proof fn lemma_remove_absent(es: Seq<(Seq<char>, Seq<char>)>, k: Seq<char>)
    requires
        forall|j: int| 0 <= j < es.len() ==> es[j].0 != k,
    ensures
        remove_key(es, k) == es,
    decreases es.len(),
{
    if es.len() == 0 {
    } else {
        lemma_remove_absent(es.skip(1), k);
        assert(seq![es[0]] + es.skip(1) =~= es);
    }
}

/// An upsert keeps the keys distinct.
pub proof fn lemma_upsert_unique(es: Seq<(Seq<char>, Seq<char>)>, k: Seq<char>, v: Seq<char>)
    requires
        unique_keys(es),
    ensures
        unique_keys(upsert(es, k, v)),
{
    if exists|i: int| 0 <= i < es.len() && es[i].0 == k {
        let i = choose|i: int| 0 <= i < es.len() && es[i].0 == k;
        assert forall|j: int| 0 <= j < i implies es[j].0 != k by {
            assert(es[j].0 != es[i].0);
        }
        lemma_upsert_at(es, k, v, i);
        let r = es.update(i, (k, v));
        assert forall|a: int, b: int| 0 <= a < b < r.len() implies r[a].0 != r[b].0 by {
            if a != i && b != i {
                assert(r[a] == es[a] && r[b] == es[b]);
            } else if a == i {
                assert(r[a].0 == k && r[b] == es[b] && es[b].0 != es[i].0);
            } else {
                assert(r[b].0 == k && r[a] == es[a] && es[a].0 != es[i].0);
            }
        }
    } else {
        lemma_upsert_absent(es, k, v);
        let r = es.push((k, v));
        assert forall|a: int, b: int| 0 <= a < b < r.len() implies r[a].0 != r[b].0 by {
            if b < es.len() {
                assert(r[a] == es[a] && r[b] == es[b]);
            } else {
                assert(r[b].0 == k && r[a] == es[a]);
            }
        }
    }
}

/// A later upsert under the same key overrides an earlier one.
pub proof fn lemma_upsert_override(
    es: Seq<(Seq<char>, Seq<char>)>,
    k: Seq<char>,
    v1: Seq<char>,
    v2: Seq<char>,
)
    ensures
        upsert(upsert(es, k, v1), k, v2) == upsert(es, k, v2),
    decreases es.len(),
{
    let u1 = upsert(es, k, v1);
    if es.len() == 0 {
        assert(u1 =~= seq![(k, v1)]);
        assert(u1[0].0 == k);
        assert(u1.skip(1) =~= Seq::<(Seq<char>, Seq<char>)>::empty());
        assert(upsert(u1, k, v2) =~= seq![(k, v2)]);
        assert(upsert(es, k, v2) =~= seq![(k, v2)]);
    } else if es[0].0 == k {
        assert(u1[0] == (k, v1));
        assert(u1.skip(1) =~= es.skip(1));
        assert(upsert(u1, k, v2) == seq![(k, v2)] + u1.skip(1));
    } else {
        assert(u1[0] == es[0]);
        assert(u1.skip(1) =~= upsert(es.skip(1), k, v1));
        lemma_upsert_override(es.skip(1), k, v1, v2);
        assert(upsert(u1, k, v2) == seq![es[0]] + upsert(u1.skip(1), k, v2));
        assert(upsert(es, k, v2) == seq![es[0]] + upsert(es.skip(1), k, v2));
    }
}

/// A JSON object as an ordered list of `(key, raw value text)` entries.
pub struct JsonObj {
    pub entries: Vec<(String, String)>,
}

impl JsonObj {
    /// The entries, at the level of character sequences.
    pub open spec fn view_entries(&self) -> Seq<(Seq<char>, Seq<char>)> {
        pairs_view(self.entries@)
    }

    /// Well-formed: no two entries share a key.
    pub open spec fn wf(&self) -> bool {
        unique_keys(self.view_entries())
    }

    /// An empty object.
    pub fn new() -> (r: JsonObj)
        ensures
            r.wf(),
            r.view_entries() =~= Seq::<(Seq<char>, Seq<char>)>::empty(),
    {
        JsonObj { entries: Vec::new() }
    }

    /// Wraps entries that are already known to have unique keys.
    pub fn from_entries(entries: Vec<(String, String)>) -> (r: JsonObj)
        requires
            unique_keys(pairs_view(entries@)),
        ensures
            r.wf(),
            r.view_entries() == pairs_view(entries@),
    {
        JsonObj { entries }
    }

    /// The index of the first entry under `k`.
    pub fn find(&self, k: &str) -> (r: Option<usize>)
        ensures
            match r {
                Some(i) => {
                    &&& 0 <= i < self.view_entries().len()
                    &&& self.view_entries()[i as int].0 == k@
                    &&& forall|j: int| 0 <= j < i ==> self.view_entries()[j].0 != k@
                },
                None => forall|j: int|
                    0 <= j < self.view_entries().len() ==> self.view_entries()[j].0 != k@,
            },
    {
        let mut i: usize = 0;
        while i < self.entries.len()
            invariant
                0 <= i <= self.entries@.len(),
                forall|j: int| 0 <= j < i ==> self.view_entries()[j].0 != k@,
            decreases self.entries@.len() - i,
        {
            if str_eq(self.entries[i].0.as_str(), k) {
                assert(self.view_entries()[i as int].0 == k@);
                return Some(i);
            }
            assert(self.view_entries()[i as int].0 != k@);
            i += 1;
        }
        None
    }

    /// Whether the object holds key `k`.
    pub fn contains_key(&self, k: &str) -> (r: bool)
        ensures
            r == has_key(self.view_entries(), k@),
    {
        match self.find(k) {
            Some(i) => {
                proof {
                    lemma_lookup_at(self.view_entries(), k@, i as int);
                }
                true
            },
            None => {
                proof {
                    lemma_absent_lookup(self.view_entries(), k@);
                }
                false
            },
        }
    }

    /// The value text under `k`, if any.
    pub fn get(&self, k: &str) -> (r: Option<String>)
        ensures
            match r {
                Some(v) => lookup(self.view_entries(), k@) == Some(v@),
                None => lookup(self.view_entries(), k@) is None,
            },
    {
        match self.find(k) {
            Some(i) => {
                proof {
                    lemma_lookup_at(self.view_entries(), k@, i as int);
                }
                Some(self.entries[i].1.clone())
            },
            None => {
                proof {
                    lemma_absent_lookup(self.view_entries(), k@);
                }
                None
            },
        }
    }

    /// Inserts or overwrites the entry under `k`.
    pub fn set(&mut self, k: &str, v: String)
        requires
            old(self).wf(),
        ensures
            final(self).wf(),
            final(self).view_entries() == upsert(old(self).view_entries(), k@, v@),
    {
        let ghost es = self.view_entries();
        match self.find(k) {
            Some(i) => {
                let pair = (String::from_str(k), v);
                self.entries.set(i, pair);
                proof {
                    lemma_upsert_at(es, k@, v@, i as int);
                    assert(self.view_entries() =~= es.update(i as int, (k@, v@)));
                    assert forall|a: int, b: int|
                        0 <= a < b < self.view_entries().len() implies self.view_entries()[a].0
                        != self.view_entries()[b].0 by {
                        assert(es[a].0 == self.view_entries()[a].0 || a == i);
                        assert(es[b].0 == self.view_entries()[b].0 || b == i);
                    }
                }
            },
            None => {
                let pair = (String::from_str(k), v);
                self.entries.push(pair);
                proof {
                    lemma_upsert_absent(es, k@, v@);
                    assert(self.view_entries() =~= es.push((k@, v@)));
                    assert forall|a: int, b: int|
                        0 <= a < b < self.view_entries().len() implies self.view_entries()[a].0
                        != self.view_entries()[b].0 by {}
                }
            },
        }
    }

    /// Removes the entry under `k`; reports whether one was there.
    pub fn remove(&mut self, k: &str) -> (found: bool)
        requires
            old(self).wf(),
        ensures
            final(self).wf(),
            found == has_key(old(self).view_entries(), k@),
            final(self).view_entries() == remove_key(old(self).view_entries(), k@),
    {
        let ghost es = self.view_entries();
        match self.find(k) {
            Some(i) => {
                let _ = self.entries.remove(i);
                proof {
                    lemma_lookup_at(es, k@, i as int);
                    lemma_remove_at(es, k@, i as int);
                    assert(self.view_entries() =~= es.remove(i as int));
                    assert forall|a: int, b: int|
                        0 <= a < b < self.view_entries().len() implies self.view_entries()[a].0
                        != self.view_entries()[b].0 by {
                        let r = es.remove(i as int);
                        assert(r[a] == if a < i { es[a] } else { es[a + 1] });
                        assert(r[b] == if b < i { es[b] } else { es[b + 1] });
                    }
                }
                true
            },
            None => {
                proof {
                    lemma_absent_lookup(es, k@);
                    lemma_remove_absent(es, k@);
                }
                false
            },
        }
    }

    /// The keys, in entry order.
    pub fn keys(&self) -> (r: Vec<String>)
        ensures
            r@.len() == self.view_entries().len(),
            forall|i: int| 0 <= i < r@.len() ==> r@[i]@ == self.view_entries()[i].0,
    {
        let mut out: Vec<String> = Vec::new();
        let mut i: usize = 0;
        while i < self.entries.len()
            invariant
                0 <= i <= self.entries@.len(),
                out@.len() == i,
                forall|j: int| 0 <= j < i ==> out@[j]@ == self.view_entries()[j].0,
            decreases self.entries@.len() - i,
        {
            out.push(self.entries[i].0.clone());
            i += 1;
        }
        out
    }

    /// The object serialized as JSON text.
    pub fn to_text(&self) -> (r: String)
        ensures
            r@ == obj_text(self.view_entries()),
    {
        let chars = obj_text_exec(&self.entries);
        string_of(&chars)
    }
}

} // verus!
