//! String-keyed maps with sorted keys and last-write-wins insertion.
//!
//! Definitions, security definitions and the response table of a descriptor
//! all share this shape: entries are kept sorted by key for deterministic
//! iteration, re-inserting a key overwrites its value, and insertion of an
//! entry that is already present leaves the map unchanged.

use crate::order::{lemma_lex_connected, lemma_lex_irreflexive, lemma_lex_transitive, lex_lt,
    str_lt};
use vstd::prelude::*;

verus! {

/// Applies a sequence of key/value entries to a map in order, each entry
/// overwriting the key it names.  This is the meaning of every bulk merge
/// in this crate: later entries win.
pub open spec fn merge_entries<W>(m: Map<Seq<char>, W>, es: Seq<(Seq<char>, W)>) -> Map<
    Seq<char>,
    W,
>
    decreases es.len(),
{
    if es.len() == 0 {
        m
    } else {
        merge_entries(m, es.drop_last()).insert(es.last().0, es.last().1)
    }
}

/// Merging no entries changes nothing.
pub broadcast proof fn lemma_merge_entries_empty<W>(m: Map<Seq<char>, W>)
    ensures
        #[trigger] merge_entries(m, Seq::<(Seq<char>, W)>::empty()) == m,
{
}

/// Merging one entry is one insertion.
pub proof fn lemma_merge_entries_singleton<W>(m: Map<Seq<char>, W>, e: (Seq<char>, W))
    ensures
        merge_entries(m, seq![e]) == m.insert(e.0, e.1),
{
    assert(seq![e].drop_last() =~= Seq::<(Seq<char>, W)>::empty());
    assert(merge_entries(m, Seq::<(Seq<char>, W)>::empty()) == m);
}

/// Appending no elements changes a sequence nothing.
pub broadcast proof fn lemma_seq_add_empty<A>(s: Seq<A>)
    ensures
        #[trigger] (s + Seq::<A>::empty()) == s,
{
    assert(s + Seq::<A>::empty() =~= s);
}

/// Some entry of `es` has key `k`.
pub open spec fn has_key<W>(es: Seq<(Seq<char>, W)>, k: Seq<char>) -> bool {
    exists|i: int| 0 <= i < es.len() && es[i].0 == k
}

/// The value of the last entry of `es` whose key is `k`.
pub open spec fn last_value<W>(es: Seq<(Seq<char>, W)>, k: Seq<char>) -> W
    recommends
        has_key(es, k),
    decreases es.len(),
{
    if es.len() == 0 {
        arbitrary()
    } else if es.last().0 == k {
        es.last().1
    } else {
        last_value(es.drop_last(), k)
    }
}

/// No two entries of `es` share a key.
pub open spec fn unique_keys<W>(es: Seq<(Seq<char>, W)>) -> bool {
    forall|i: int, j: int| 0 <= i < j < es.len() ==> es[i].0 != es[j].0
}

/// How a merged map reads at each key: keys named by the entries carry the
/// last value written for them, all other keys are untouched.
pub proof fn lemma_merge_entries_at<W>(m: Map<Seq<char>, W>, es: Seq<(Seq<char>, W)>, k: Seq<char>)
    ensures
        merge_entries(m, es).contains_key(k) <==> (m.contains_key(k) || has_key(es, k)),
        has_key(es, k) ==> merge_entries(m, es)[k] == last_value(es, k),
        !has_key(es, k) && m.contains_key(k) ==> merge_entries(m, es)[k] == m[k],
    decreases es.len(),
{
    if es.len() > 0 {
        lemma_merge_entries_at(m, es.drop_last(), k);
        if es.last().0 == k {
            assert(es[es.len() - 1].0 == k);
        } else {
            assert(has_key(es, k) <==> has_key(es.drop_last(), k)) by {
                if has_key(es, k) {
                    let i = choose|i: int| 0 <= i < es.len() && es[i].0 == k;
                    assert(es.drop_last()[i] == es[i]);
                }
                if has_key(es.drop_last(), k) {
                    let i = choose|i: int|
                        0 <= i < es.drop_last().len() && es.drop_last()[i].0 == k;
                    assert(es[i].0 == k);
                }
            }
        }
    }
}

/// Merging a concatenation merges the two parts in turn.
pub proof fn lemma_merge_entries_app<W>(
    m: Map<Seq<char>, W>,
    a: Seq<(Seq<char>, W)>,
    b: Seq<(Seq<char>, W)>,
)
    ensures
        merge_entries(m, a + b) == merge_entries(merge_entries(m, a), b),
    decreases b.len(),
{
    if b.len() == 0 {
        assert(a + b =~= a);
    } else {
        lemma_merge_entries_app(m, a, b.drop_last());
        assert((a + b).drop_last() =~= a + b.drop_last());
        assert((a + b).last() == b.last());
    }
}

/// Merging the same entries a second time changes nothing.
pub proof fn lemma_merge_entries_idempotent<W>(m: Map<Seq<char>, W>, es: Seq<(Seq<char>, W)>)
    ensures
        merge_entries(merge_entries(m, es), es) == merge_entries(m, es),
{
    let m1 = merge_entries(m, es);
    let m2 = merge_entries(m1, es);
    assert forall|k: Seq<char>| #[trigger] m2.contains_key(k) <==> m1.contains_key(k) by {
        lemma_merge_entries_at(m, es, k);
        lemma_merge_entries_at(m1, es, k);
    }
    assert forall|k: Seq<char>| m1.contains_key(k) implies #[trigger] m2[k] == m1[k] by {
        lemma_merge_entries_at(m, es, k);
        lemma_merge_entries_at(m1, es, k);
    }
    assert(m2 =~= m1);
}

/// Merges over disjoint key sets commute, so independent compositions may
/// merge into a shared map in either order.
pub proof fn lemma_merge_entries_commute<W>(
    m: Map<Seq<char>, W>,
    a: Seq<(Seq<char>, W)>,
    b: Seq<(Seq<char>, W)>,
)
    requires
        forall|k: Seq<char>| !(has_key(a, k) && has_key(b, k)),
    ensures
        merge_entries(merge_entries(m, a), b) == merge_entries(merge_entries(m, b), a),
{
    let lhs = merge_entries(merge_entries(m, a), b);
    let rhs = merge_entries(merge_entries(m, b), a);
    assert forall|k: Seq<char>| #[trigger] lhs.contains_key(k) <==> rhs.contains_key(k) by {
        lemma_merge_entries_at(m, a, k);
        lemma_merge_entries_at(m, b, k);
        lemma_merge_entries_at(merge_entries(m, a), b, k);
        lemma_merge_entries_at(merge_entries(m, b), a, k);
    }
    assert forall|k: Seq<char>| lhs.contains_key(k) implies #[trigger] lhs[k] == rhs[k] by {
        lemma_merge_entries_at(m, a, k);
        lemma_merge_entries_at(m, b, k);
        lemma_merge_entries_at(merge_entries(m, a), b, k);
        lemma_merge_entries_at(merge_entries(m, b), a, k);
        assert(!(has_key(a, k) && has_key(b, k)));
    }
    assert(lhs =~= rhs);
}

/// In a merge of entries with pairwise distinct keys, each entry is read
/// back unchanged.
pub proof fn lemma_merge_unique_at<W>(es: Seq<(Seq<char>, W)>, i: int)
    requires
        unique_keys(es),
        0 <= i < es.len(),
    ensures
        merge_entries(Map::<Seq<char>, W>::empty(), es).contains_key(es[i].0),
        merge_entries(Map::<Seq<char>, W>::empty(), es)[es[i].0] == es[i].1,
    decreases es.len(),
{
    if i == es.len() - 1 {
    } else {
        lemma_merge_unique_at(es.drop_last(), i);
        assert(es.drop_last()[i] == es[i]);
    }
}

/// A map from strings to values, kept sorted by key.
pub struct StringMap<V> {
    pub entries: Vec<(String, V)>,
}

impl<V: View> StringMap<V> {
    /// The keys in storage order.
    pub open spec fn key_seq(self) -> Seq<Seq<char>> {
        self.entries@.map_values(|e: (String, V)| e.0@)
    }

    /// The entries with keys and values taken to their views.
    pub open spec fn entry_views(self) -> Seq<(Seq<char>, V::V)> {
        self.entries@.map_values(|e: (String, V)| (e.0@, e.1@))
    }

    /// Well-formed: keys strictly sorted, hence pairwise distinct.
    pub open spec fn wf(self) -> bool {
        forall|i: int, j: int|
            0 <= i < j < self.entries@.len() ==> lex_lt(
                self.entries@[i].0@,
                self.entries@[j].0@,
            )
    }

    /// Sorted keys are pairwise distinct.
    pub proof fn lemma_wf_unique(self)
        requires
            self.wf(),
        ensures
            unique_keys(self.entry_views()),
    {
        assert forall|i: int, j: int|
            0 <= i < j < self.entry_views().len() implies self.entry_views()[i].0
            != self.entry_views()[j].0 by {
            lemma_lex_irreflexive(self.entries@[i].0@);
        }
    }

    /// The empty map.
    pub fn new() -> (r: StringMap<V>)
        ensures
            r.wf(),
            r@ == Map::<Seq<char>, V::V>::empty(),
            r.key_seq() == Seq::<Seq<char>>::empty(),
    {
        let r = StringMap { entries: Vec::new() };
        proof {
            assert(r.entry_views() =~= Seq::<(Seq<char>, V::V)>::empty());
            assert(r.key_seq() =~= Seq::<Seq<char>>::empty());
        }
        r
    }

    /// Number of entries.
    pub fn len(&self) -> (r: usize)
        ensures
            r == self.key_seq().len(),
    {
        self.entries.len()
    }

    /// Looks a key up.
    pub fn get(&self, k: &str) -> (r: Option<&V>)
        requires
            self.wf(),
        ensures
            match r {
                Option::Some(v) => self@.contains_key(k@) && v@ == self@[k@],
                Option::None => !self@.contains_key(k@),
            },
    {
        proof {
            self.lemma_wf_unique();
        }
        let n = self.entries.len();
        let mut i: usize = 0;
        while i < n
            invariant
                self.wf(),
                unique_keys(self.entry_views()),
                i <= n,
                n == self.entries@.len(),
                forall|j: int| 0 <= j < i ==> self.entries@[j].0@ != k@,
            decreases n - i,
        {
            let ek = self.entries[i].0.as_str();
            let lt_down = str_lt(ek, k);
            let lt_up = str_lt(k, ek);
            if !lt_down && !lt_up {
                proof {
                    lemma_lex_connected(self.entries@[i as int].0@, k@);
                    lemma_merge_unique_at(self.entry_views(), i as int);
                }
                return Option::Some(&self.entries[i].1);
            }
            proof {
                if self.entries@[i as int].0@ == k@ {
                    lemma_lex_irreflexive(k@);
                }
            }
            i = i + 1;
        }
        proof {
            lemma_merge_entries_at(
                Map::<Seq<char>, V::V>::empty(),
                self.entry_views(),
                k@,
            );
            assert(!has_key(self.entry_views(), k@));
        }
        Option::None
    }

    /// Whether a key is present.
    pub fn contains_key(&self, k: &str) -> (r: bool)
        requires
            self.wf(),
        ensures
            r == self@.contains_key(k@),
    {
        match self.get(k) {
            Option::Some(_) => true,
            Option::None => false,
        }
    }

    /// Inserts an entry: a key already present has its value overwritten,
    /// a new key is spliced in at its sorted position.
    pub fn insert(&mut self, k: String, v: V)
        requires
            old(self).wf(),
        ensures
            final(self).wf(),
            final(self)@ == old(self)@.insert(k@, v@),
    {
        proof {
            self.lemma_wf_unique();
        }
        let n = self.entries.len();
        let mut p: usize = 0;
        while p < n && str_lt(self.entries[p].0.as_str(), k.as_str())
            invariant
                self.wf(),
                p <= n,
                n == self.entries@.len(),
                forall|j: int| 0 <= j < p ==> lex_lt(self.entries@[j].0@, k@),
            decreases n - p,
        {
            p = p + 1;
        }
        let ghost old_entries = self.entries@;
        if p < n && !str_lt(k.as_str(), self.entries[p].0.as_str()) {
            proof {
                lemma_lex_connected(self.entries@[p as int].0@, k@);
                assert(self.entries@[p as int].0@ == k@);
            }
            self.entries.remove(p);
            self.entries.insert(p, (k, v));
            proof {
                self.lemma_insert_replace_ok(old_entries, p as int, k@, v@);
            }
        } else {
            proof {
                if p < n {
                    assert(lex_lt(k@, self.entries@[p as int].0@));
                }
            }
            self.entries.insert(p, (k, v));
            proof {
                self.lemma_insert_fresh_ok(old_entries, p as int, k@, v@);
            }
        }
    }

    /// After replacing the entry at `p`, the map is still sorted and reads
    /// as the old map with the key overwritten.
    proof fn lemma_insert_replace_ok(
        self,
        old_entries: Seq<(String, V)>,
        p: int,
        k: Seq<char>,
        v: V::V,
    )
        requires
            0 <= p < old_entries.len(),
            old_entries[p].0@ == k,
            self.entries@ =~= old_entries.update(p, self.entries@[p]),
            self.entries@.len() == old_entries.len(),
            self.entries@[p].0@ == k,
            self.entries@[p].1@ == v,
            forall|i: int, j: int|
                0 <= i < j < old_entries.len() ==> lex_lt(old_entries[i].0@, old_entries[j].0@),
        ensures
            self.wf(),
            merge_entries(Map::<Seq<char>, V::V>::empty(), self.entry_views())
                =~= merge_entries(
                Map::<Seq<char>, V::V>::empty(),
                old_entries.map_values(|e: (String, V)| (e.0@, e.1@)),
            ).insert(k, v),
    {
        let old_views = old_entries.map_values(|e: (String, V)| (e.0@, e.1@));
        let new_views = self.entry_views();
        assert forall|i: int, j: int|
            0 <= i < j < self.entries@.len() implies lex_lt(
            self.entries@[i].0@,
            self.entries@[j].0@,
        ) by {
            assert(self.entries@[i].0@ == old_entries[i].0@);
            assert(self.entries@[j].0@ == old_entries[j].0@);
        }
        assert(unique_keys(old_views)) by {
            assert forall|i: int, j: int|
                0 <= i < j < old_views.len() implies old_views[i].0 != old_views[j].0 by {
                lemma_lex_irreflexive(old_entries[i].0@);
            }
        }
        self.lemma_wf_unique();
        let m_old = merge_entries(Map::<Seq<char>, V::V>::empty(), old_views);
        let m_new = merge_entries(Map::<Seq<char>, V::V>::empty(), new_views);
        assert forall|q: Seq<char>| #[trigger] m_new.contains_key(q) <==> m_old.insert(
            k,
            v,
        ).contains_key(q) by {
            lemma_merge_entries_at(Map::<Seq<char>, V::V>::empty(), old_views, q);
            lemma_merge_entries_at(Map::<Seq<char>, V::V>::empty(), new_views, q);
            if q == k {
                assert(new_views[p].0 == q);
                assert(has_key(new_views, q));
            }
            if has_key(old_views, q) {
                let i = choose|i: int| 0 <= i < old_views.len() && old_views[i].0 == q;
                if i == p {
                    assert(q == k);
                } else {
                    assert(new_views[i].0 == q);
                }
            }
            if has_key(new_views, q) {
                let i = choose|i: int| 0 <= i < new_views.len() && new_views[i].0 == q;
                assert(old_views[i].0 == q || q == k);
            }
        }
        assert forall|q: Seq<char>| m_new.contains_key(q) implies #[trigger] m_new[q] == m_old.insert(
            k,
            v,
        )[q] by {
            lemma_merge_entries_at(Map::<Seq<char>, V::V>::empty(), new_views, q);
            if q == k {
                lemma_merge_unique_at(new_views, p);
            } else {
                let i = choose|i: int| 0 <= i < new_views.len() && new_views[i].0 == q;
                assert(old_views[i].0 == q);
                lemma_merge_unique_at(new_views, i);
                lemma_merge_unique_at(old_views, i);
            }
        }
    }

    /// After splicing a fresh key in at `p`, the map is still sorted and
    /// reads as the old map with the key added.
    proof fn lemma_insert_fresh_ok(
        self,
        old_entries: Seq<(String, V)>,
        p: int,
        k: Seq<char>,
        v: V::V,
    )
        requires
            0 <= p <= old_entries.len(),
            self.entries@ =~= old_entries.insert(p, self.entries@[p]),
            self.entries@.len() == old_entries.len() + 1,
            self.entries@[p].0@ == k,
            self.entries@[p].1@ == v,
            forall|j: int| 0 <= j < p ==> lex_lt(old_entries[j].0@, k),
            p < old_entries.len() ==> lex_lt(k, old_entries[p].0@),
            forall|i: int, j: int|
                0 <= i < j < old_entries.len() ==> lex_lt(old_entries[i].0@, old_entries[j].0@),
        ensures
            self.wf(),
            merge_entries(Map::<Seq<char>, V::V>::empty(), self.entry_views())
                =~= merge_entries(
                Map::<Seq<char>, V::V>::empty(),
                old_entries.map_values(|e: (String, V)| (e.0@, e.1@)),
            ).insert(k, v),
    {
        let old_views = old_entries.map_values(|e: (String, V)| (e.0@, e.1@));
        let new_views = self.entry_views();
        assert forall|i: int, j: int|
            0 <= i < j < self.entries@.len() implies lex_lt(
            self.entries@[i].0@,
            self.entries@[j].0@,
        ) by {
            if i < p && j == p {
                assert(self.entries@[i].0@ == old_entries[i].0@);
            } else if i == p && j > p {
                assert(self.entries@[j].0@ == old_entries[j - 1].0@);
                if j - 1 > p {
                    lemma_lex_transitive(k, old_entries[p].0@, old_entries[j - 1].0@);
                }
            } else if i < p && j > p {
                assert(self.entries@[i].0@ == old_entries[i].0@);
                assert(self.entries@[j].0@ == old_entries[j - 1].0@);
                assert(i < j - 1);
            } else if i < p && j < p {
                assert(self.entries@[i].0@ == old_entries[i].0@);
                assert(self.entries@[j].0@ == old_entries[j].0@);
            } else {
                assert(p < i < j);
                assert(self.entries@[i].0@ == old_entries[i - 1].0@);
                assert(self.entries@[j].0@ == old_entries[j - 1].0@);
            }
        }
        assert(unique_keys(old_views)) by {
            assert forall|i: int, j: int|
                0 <= i < j < old_views.len() implies old_views[i].0 != old_views[j].0 by {
                lemma_lex_irreflexive(old_entries[i].0@);
            }
        }
        self.lemma_wf_unique();
        assert(!has_key(old_views, k)) by {
            if has_key(old_views, k) {
                let i = choose|i: int| 0 <= i < old_views.len() && old_views[i].0 == k;
                if i < p {
                    lemma_lex_irreflexive(k);
                } else {
                    assert(p < old_entries.len());
                    if i == p {
                        lemma_lex_irreflexive(k);
                    } else {
                        lemma_lex_transitive(k, old_entries[p].0@, old_entries[i].0@);
                        lemma_lex_irreflexive(k);
                    }
                }
            }
        }
        let m_old = merge_entries(Map::<Seq<char>, V::V>::empty(), old_views);
        let m_new = merge_entries(Map::<Seq<char>, V::V>::empty(), new_views);
        assert forall|q: Seq<char>| #[trigger] m_new.contains_key(q) <==> m_old.insert(
            k,
            v,
        ).contains_key(q) by {
            lemma_merge_entries_at(Map::<Seq<char>, V::V>::empty(), old_views, q);
            lemma_merge_entries_at(Map::<Seq<char>, V::V>::empty(), new_views, q);
            if q == k {
                assert(new_views[p].0 == q);
                assert(has_key(new_views, q));
            }
            if has_key(old_views, q) {
                let i = choose|i: int| 0 <= i < old_views.len() && old_views[i].0 == q;
                if i < p {
                    assert(new_views[i].0 == q);
                } else {
                    assert(new_views[i + 1].0 == q);
                }
                assert(has_key(new_views, q));
            }
            if has_key(new_views, q) && q != k {
                let i = choose|i: int| 0 <= i < new_views.len() && new_views[i].0 == q;
                if i < p {
                    assert(old_views[i].0 == q);
                } else {
                    assert(i != p);
                    assert(old_views[i - 1].0 == q);
                }
            }
        }
        assert forall|q: Seq<char>| m_new.contains_key(q) implies #[trigger] m_new[q] == m_old.insert(
            k,
            v,
        )[q] by {
            lemma_merge_entries_at(Map::<Seq<char>, V::V>::empty(), new_views, q);
            if q == k {
                lemma_merge_unique_at(new_views, p);
            } else {
                let i = choose|i: int| 0 <= i < new_views.len() && new_views[i].0 == q;
                assert(i != p);
                lemma_merge_unique_at(new_views, i);
                if i < p {
                    assert(old_views[i] == new_views[i]);
                    lemma_merge_unique_at(old_views, i);
                } else {
                    assert(old_views[i - 1] == new_views[i]);
                    lemma_merge_unique_at(old_views, i - 1);
                }
            }
        }
    }

    /// The keys, in their storage order: sorted whenever the map is
    /// well-formed, which makes iteration deterministic.
    pub fn keys(&self) -> (r: Vec<String>)
        ensures
            r@.map_values(|s: String| s@) == self.key_seq(),
            self.wf() ==> forall|i: int, j: int|
                0 <= i < j < r@.len() ==> lex_lt(r@[i]@, r@[j]@),
    {
        let mut r: Vec<String> = Vec::new();
        let n = self.entries.len();
        let mut i: usize = 0;
        while i < n
            invariant
                i <= n,
                n == self.entries@.len(),
                r@.len() == i as int,
                forall|j: int| 0 <= j < i ==> r@[j]@ == self.entries@[j].0@,
            decreases n - i,
        {
            r.push(self.entries[i].0.clone());
            i = i + 1;
        }
        proof {
            assert(r@.map_values(|s: String| s@) =~= self.key_seq());
        }
        r
    }
}

impl<V: View> View for StringMap<V> {
    type V = Map<Seq<char>, V::V>;

    open spec fn view(&self) -> Map<Seq<char>, V::V> {
        merge_entries(Map::<Seq<char>, V::V>::empty(), self.entry_views())
    }
}

} // verus!
