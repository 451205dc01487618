//! Categories of a snapshot: a table from field names to plain values, with
//! a mathematical `Map` view.  The two merge policies of the aggregator —
//! union-overwrite and keyed partition — are built from the operations here.

use vstd::prelude::*;

verus! {

/// A plain field value of a snapshot: numeric or string.
#[derive(Debug, PartialEq)]
pub enum FieldValue {
    Unsigned(u64),
    Text(String),
}

/// Mathematical image of a field value.
pub ghost enum ValueView {
    Unsigned(u64),
    Text(Seq<char>),
}

impl View for FieldValue {
    type V = ValueView;

    open spec fn view(&self) -> ValueView {
        match self {
            FieldValue::Unsigned(n) => ValueView::Unsigned(*n),
            FieldValue::Text(s) => ValueView::Text(s@),
        }
    }
}

/// The map described by an entry list; a later entry overrides an earlier
/// one with the same key.
pub open spec fn entry_map<V: View>(s: Seq<(String, V)>) -> Map<Seq<char>, <V as View>::V>
    decreases s.len(),
{
    if s.len() == 0 {
        Map::empty()
    } else {
        entry_map(s.drop_last()).insert(s.last().0@, s.last().1@)
    }
}

/// A table from field names to values, used both for the flat categories of
/// a snapshot and — with tables as values — for keyed-partition categories.
pub struct AssocTable<V> {
    entries: Vec<(String, V)>,
}

/// A flat category: field name to plain value.
pub type FieldTable = AssocTable<FieldValue>;

/// A keyed-partition category: identifier to whole fragment.
pub type KeyedTable = AssocTable<AssocTable<FieldValue>>;

impl<V: View> View for AssocTable<V> {
    type V = Map<Seq<char>, <V as View>::V>;

    closed spec fn view(&self) -> Map<Seq<char>, <V as View>::V> {
        entry_map(self.entries@)
    }
}

pub proof fn lemma_entry_map_len<V: View>(s: Seq<(String, V)>)
    requires
        forall|i: int, j: int| 0 <= i < j < s.len() ==> s[i].0@ != s[j].0@,
    ensures
        entry_map(s).dom().finite(),
        entry_map(s).len() == s.len(),
    decreases s.len(),
{
    if s.len() > 0 {
        lemma_entry_map_len(s.drop_last());
        lemma_entry_map_contains(s.drop_last(), s.last().0@);
        assert(forall|i: int| 0 <= i < s.len() - 1 ==> s.drop_last()[i].0@ != s.last().0@);
        assert(!entry_map(s.drop_last()).contains_key(s.last().0@));
    }
}

pub proof fn lemma_entry_map_contains<V: View>(s: Seq<(String, V)>, k: Seq<char>)
    ensures
        entry_map(s).contains_key(k) <==> exists|i: int| 0 <= i < s.len() && s[i].0@ == k,
    decreases s.len(),
{
    if s.len() > 0 {
        lemma_entry_map_contains(s.drop_last(), k);
        if entry_map(s).contains_key(k) && s.last().0@ != k {
            let i = choose|i: int| 0 <= i < s.len() - 1 && s.drop_last()[i].0@ == k;
            assert(s[i].0@ == k);
        }
        if exists|i: int| 0 <= i < s.len() && s[i].0@ == k {
            let i = choose|i: int| 0 <= i < s.len() && s[i].0@ == k;
            if i < s.len() - 1 {
                assert(s.drop_last()[i].0@ == k);
            }
        }
    }
}

pub proof fn lemma_entry_map_get<V: View>(s: Seq<(String, V)>, i: int)
    requires
        0 <= i < s.len(),
        forall|j: int| i < j < s.len() ==> s[j].0@ != s[i].0@,
    ensures
        entry_map(s).contains_key(s[i].0@),
        entry_map(s)[s[i].0@] == s[i].1@,
    decreases s.len(),
{
    if i < s.len() - 1 {
        assert(s.drop_last()[i] == s[i]);
        lemma_entry_map_get(s.drop_last(), i);
    }
}

pub proof fn lemma_entry_map_remove<V: View>(s: Seq<(String, V)>, i: int)
    requires
        0 <= i < s.len(),
        forall|j: int| 0 <= j < s.len() && j != i ==> s[j].0@ != s[i].0@,
    ensures
        entry_map(s.remove(i)) == entry_map(s).remove(s[i].0@),
    decreases s.len(),
{
    let k = s[i].0@;
    if i == s.len() - 1 {
        assert(s.remove(i) =~= s.drop_last());
        lemma_entry_map_contains(s.drop_last(), k);
        assert(entry_map(s.drop_last()).remove(k) =~= entry_map(s.drop_last()));
        assert(entry_map(s).remove(k) =~= entry_map(s.drop_last()).insert(k, s.last().1@).remove(
            k,
        ));
        assert(entry_map(s.drop_last()).insert(k, s.last().1@).remove(k) =~= entry_map(
            s.drop_last(),
        ).remove(k));
    } else {
        assert(s.remove(i).drop_last() =~= s.drop_last().remove(i));
        assert(s.remove(i).last() == s.last());
        assert(forall|j: int|
            0 <= j < s.drop_last().len() && j != i ==> s.drop_last()[j].0@ != s.drop_last()[i].0@);
        lemma_entry_map_remove(s.drop_last(), i);
        assert(entry_map(s.remove(i)) == entry_map(s.drop_last()).remove(k).insert(
            s.last().0@,
            s.last().1@,
        ));
        assert(entry_map(s.drop_last()).remove(k).insert(s.last().0@, s.last().1@) =~= entry_map(
            s.drop_last(),
        ).insert(s.last().0@, s.last().1@).remove(k));
    }
}

impl<V: View> AssocTable<V> {
    /// Keys are pairwise distinct, so the entry list carries exactly the map.
    pub closed spec fn wf(&self) -> bool {
        forall|i: int, j: int|
            0 <= i < j < self.entries@.len() ==> self.entries@[i].0@ != self.entries@[j].0@
    }

    pub fn new() -> (r: AssocTable<V>)
        ensures
            r.wf(),
            r@ == Map::<Seq<char>, <V as View>::V>::empty(),
    {
        AssocTable { entries: Vec::new() }
    }

    pub fn entry_count(&self) -> (r: usize)
        requires
            self.wf(),
        ensures
            r == self@.len(),
            self@.dom().finite(),
    {
        proof {
            lemma_entry_map_len(self.entries@);
        }
        self.entries.len()
    }

    /// The value stored under `key`, if any.
    pub fn get<'a>(&'a self, key: &str) -> (r: Option<&'a V>)
        requires
            self.wf(),
        ensures
            match r {
                Some(v) => self@.contains_key(key@) && v@ == self@[key@],
                None => !self@.contains_key(key@),
            },
    {
        let k: String = key.to_owned();
        let n = self.entries.len();
        let mut i: usize = 0;
        while i < n
            invariant
                i <= n,
                n == self.entries@.len(),
                k@ == key@,
                self.wf(),
                forall|j: int| 0 <= j < i ==> self.entries@[j].0@ != key@,
            decreases n - i,
        {
            let e = &self.entries[i];
            if e.0 == k {
                proof {
                    lemma_entry_map_get(self.entries@, i as int);
                }
                return Some(&e.1);
            }
            i += 1;
        }
        proof {
            lemma_entry_map_contains(self.entries@, key@);
        }
        None
    }

    /// Stores `val` under `key`, replacing any earlier value.
    pub fn insert(&mut self, key: String, val: V)
        requires
            old(self).wf(),
        ensures
            final(self).wf(),
            final(self)@ == old(self)@.insert(key@, val@),
    {
        let n = self.entries.len();
        let mut i: usize = 0;
        while i < n
            invariant
                i <= n,
                n == self.entries@.len(),
                self.wf(),
                self.entries@ == old(self).entries@,
                forall|j: int| 0 <= j < i ==> self.entries@[j].0@ != key@,
            decreases n - i,
        {
            if self.entries[i].0 == key {
                proof {
                    lemma_entry_map_remove(self.entries@, i as int);
                }
                let ghost removed = self.entries@.remove(i as int);
                self.entries.remove(i);
                self.entries.push((key, val));
                proof {
                    assert(self.entries@.drop_last() =~= removed);
                    assert(entry_map(self.entries@) =~= entry_map(removed).insert(key@, val@));
                    assert(old(self)@.remove(key@).insert(key@, val@) =~= old(self)@.insert(
                        key@,
                        val@,
                    ));
                    assert forall|a: int, b: int|
                        0 <= a < b < self.entries@.len() implies self.entries@[a].0@
                        != self.entries@[b].0@ by {
                        if b < self.entries@.len() - 1 {
                            assert(self.entries@[a] == removed[a]);
                        }
                    }
                }
                return ;
            }
            i += 1;
        }
        self.entries.push((key, val));
        proof {
            assert(self.entries@.drop_last() =~= old(self).entries@);
            assert forall|a: int, b: int|
                0 <= a < b < self.entries@.len() implies self.entries@[a].0@
                != self.entries@[b].0@ by {
                if b == self.entries@.len() - 1 {
                    assert(self.entries@[a].0@ != key@);
                }
            }
        }
    }

    /// Union-overwrite: every entry of `other` is added to this table, and a
    /// key already present is replaced by the incoming value; keys absent
    /// from `other` are left untouched.
    pub fn merge_from(&mut self, other: AssocTable<V>)
        requires
            old(self).wf(),
        ensures
            final(self).wf(),
            final(self)@ == old(self)@.union_prefer_right(other@),
    {
        let mut rest = other;
        let ghost orig = rest.entries@;
        let ghost k: int = 0;
        proof {
            assert(orig.take(0) =~= Seq::<(String, V)>::empty());
            assert(old(self)@.union_prefer_right(entry_map(orig.take(0))) =~= old(self)@);
        }
        while rest.entries.len() > 0
            invariant
                0 <= k <= orig.len(),
                rest.entries@ == orig.skip(k),
                self.wf(),
                self@ == old(self)@.union_prefer_right(entry_map(orig.take(k))),
            decreases orig.len() - k,
    {
            let e = rest.entries.remove(0);
            proof {
                assert(orig.skip(k)[0] == orig[k]);
                assert(orig.skip(k).remove(0) =~= orig.skip(k + 1));
            }
            self.insert(e.0, e.1);
            proof {
                assert(orig.take(k + 1).drop_last() =~= orig.take(k));
                assert(entry_map(orig.take(k + 1)) == entry_map(orig.take(k)).insert(
                    orig[k].0@,
                    orig[k].1@,
                ));
                assert(old(self)@.union_prefer_right(entry_map(orig.take(k))).insert(
                    orig[k].0@,
                    orig[k].1@,
                ) =~= old(self)@.union_prefer_right(entry_map(orig.take(k + 1))));
            }
            proof {
                k = k + 1;
            }
        }
        proof {
            assert(orig.take(k) =~= orig);
        }
    }
}

/// How a numeric reading is taken from a field value: a number as it
/// stands, a string by its plain decimal digits, anything else not at all.
pub open spec fn spec_u64_of(v: ValueView) -> Option<u64> {
    match v {
        ValueView::Unsigned(n) => Some(n),
        ValueView::Text(s) => if s.len() > 0 && crate::text::spec_all_digits(s)
            && crate::text::spec_dec_val(s) <= u64::MAX {
            Some(crate::text::spec_dec_val(s) as u64)
        } else {
            None
        },
    }
}

/// Where a keyed-partition fragment is placed: under the decimal rendering
/// of its numeric `id` field.  A fragment without one cannot be placed and
/// is silently dropped.
pub open spec fn spec_keyed_entry(m: Map<Seq<char>, ValueView>) -> Option<
    (Seq<char>, Map<Seq<char>, ValueView>),
> {
    if m.contains_key("id"@) && m["id"@] is Unsigned {
        Some((crate::text::spec_dec_str(m["id"@]->Unsigned_0 as nat), m))
    } else {
        None
    }
}

/// The category map of an optional table; an absent table holds nothing.
pub open spec fn opt_table_map(o: Option<AssocTable<FieldValue>>) -> Map<Seq<char>, ValueView> {
    match o {
        Some(t) => t@,
        None => Map::empty(),
    }
}

/// Merge identity: merging an empty fragment never changes an existing
/// category, whichever policy the category uses.
pub proof fn lemma_merge_empty_identity<K, W>(m: Map<K, W>)
    ensures
        m.union_prefer_right(Map::empty()) == m,
{
    assert(m.union_prefer_right(Map::empty()) =~= m);
}

} // verus!
