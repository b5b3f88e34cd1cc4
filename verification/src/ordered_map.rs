//! A map from severity symbols to configurations that keeps its entries
//! in insertion order: a new key goes last, an existing key keeps its
//! place.
use vstd::prelude::*;
use crate::symbol::Symbol;
use crate::symbol_map::{entries_get, entries_remove, lemma_get_skip, lemma_remove_skip};
use crate::{SLAConfig, SLAConfigEntry};

verus! {

/// Sets the value of `k`: replaces the first entry with key `k`, or
/// appends a new entry when there is none.
pub open spec fn entries_upsert(s: Seq<SLAConfigEntry>, k: Symbol, v: SLAConfig) -> Seq<SLAConfigEntry>
    decreases s.len(),
{
    if s.len() == 0 {
        seq![SLAConfigEntry { severity: k, config: v }]
    } else if s[0].severity == k {
        s.update(0, SLAConfigEntry { severity: k, config: v })
    } else {
        seq![s[0]] + entries_upsert(s.drop_first(), k, v)
    }
}

/// No key occurs twice.
pub open spec fn entries_unique(s: Seq<SLAConfigEntry>) -> bool {
    forall|i: int, j: int| 0 <= i < j < s.len() ==> (#[trigger] s[i]).severity != (#[trigger] s[j]).severity
}

/// Setting `k` keeps every entry before the first one with key `k`.
proof fn lemma_upsert_skip(s: Seq<SLAConfigEntry>, k: Symbol, v: SLAConfig, i: int)
    requires
        0 <= i <= s.len(),
        forall|j: int| 0 <= j < i ==> (#[trigger] s[j]).severity != k,
    ensures
        entries_upsert(s, k, v) == s.take(i) + entries_upsert(s.skip(i), k, v),
    decreases i,
{
    if i > 0 {
        lemma_upsert_skip(s.drop_first(), k, v, i - 1);
        assert(s.drop_first().skip(i - 1) =~= s.skip(i));
        assert(s.take(i) =~= seq![s[0]] + s.drop_first().take(i - 1));
    } else {
        assert(s.skip(0) =~= s);
        assert(s.take(0) =~= Seq::<SLAConfigEntry>::empty());
    }
}

/// Without an entry for `k`, setting `k` appends it.
pub proof fn lemma_upsert_absent(s: Seq<SLAConfigEntry>, k: Symbol, v: SLAConfig)
    requires
        entries_get(s, k) is None,
    ensures
        entries_upsert(s, k, v) == s.push(SLAConfigEntry { severity: k, config: v }),
    decreases s.len(),
{
    if s.len() > 0 {
        lemma_upsert_absent(s.drop_first(), k, v);
        assert(seq![s[0]] + s.drop_first().push(SLAConfigEntry { severity: k, config: v }) =~= s.push(
            SLAConfigEntry { severity: k, config: v },
        ));
    } else {
        assert(seq![SLAConfigEntry { severity: k, config: v }] =~= s.push(SLAConfigEntry { severity: k, config: v }));
    }
}

/// Removing a key that was appended to a map without it restores the map.
pub proof fn lemma_remove_appended(s: Seq<SLAConfigEntry>, k: Symbol, v: SLAConfig)
    requires
        entries_get(s, k) is None,
    ensures
        entries_remove(s.push(SLAConfigEntry { severity: k, config: v }), k) == s,
    decreases s.len(),
{
    let t = s.push(SLAConfigEntry { severity: k, config: v });
    if s.len() > 0 {
        lemma_remove_appended(s.drop_first(), k, v);
        assert(t[0] == s[0]);
        assert(t.drop_first() =~= s.drop_first().push(SLAConfigEntry { severity: k, config: v }));
        assert(seq![s[0]] + s.drop_first() =~= s);
    } else {
        assert(t.drop_first() =~= s);
    }
}

/// After setting `k` to `v` the map yields `v` for `k` and its old value
/// for every other key; unique keys stay unique.
pub proof fn lemma_upsert_get(s: Seq<SLAConfigEntry>, k: Symbol, v: SLAConfig, other: Symbol)
    ensures
        entries_get(entries_upsert(s, k, v), k) == Some(v),
        other != k ==> entries_get(entries_upsert(s, k, v), other) == entries_get(s, other),
        entries_unique(s) ==> entries_unique(entries_upsert(s, k, v)),
    decreases s.len(),
{
    let t = entries_upsert(s, k, v);
    if s.len() == 0 {
        assert(t[0].severity == k);
        assert(t.drop_first() =~= Seq::<SLAConfigEntry>::empty());
    } else if s[0].severity == k {
        assert(t[0].severity == k);
        assert(t.drop_first() =~= s.drop_first());
        if other != k {
            assert(entries_get(t, other) == entries_get(t.drop_first(), other));
            assert(entries_get(s, other) == entries_get(s.drop_first(), other));
        }
        if entries_unique(s) {
            assert forall|i: int, j: int| 0 <= i < j < t.len() implies (#[trigger] t[i]).severity
                != (#[trigger] t[j]).severity by {
                assert(s[i].severity == t[i].severity);
                assert(s[j].severity == t[j].severity);
            }
        }
    } else {
        lemma_upsert_get(s.drop_first(), k, v, other);
        lemma_upsert_get(s.drop_first(), k, v, s[0].severity);
        assert(t[0] == s[0]);
        assert(t.drop_first() =~= entries_upsert(s.drop_first(), k, v));
        if other != k && s[0].severity != other {
            assert(entries_get(t, other) == entries_get(t.drop_first(), other));
            assert(entries_get(s, other) == entries_get(s.drop_first(), other));
        }
        if entries_unique(s) {
            let r = s.drop_first();
            assert(entries_unique(r)) by {
                assert forall|i: int, j: int| 0 <= i < j < r.len() implies (#[trigger] r[i]).severity
                    != (#[trigger] r[j]).severity by {
                    assert(r[i] == s[i + 1]);
                    assert(r[j] == s[j + 1]);
                }
            }
            assert forall|j: int| 0 < j < t.len() implies (#[trigger] t[j]).severity != t[0].severity by {
                let u = entries_upsert(r, k, v);
                assert(t[j] == u[j - 1]);
                if u[j - 1].severity == s[0].severity {
                    lemma_present_get(u, j - 1);
                    lemma_absent_get(r, s[0].severity);
                    assert(entries_get(u, s[0].severity) == entries_get(r, s[0].severity));
                }
            }
            assert forall|i: int, j: int| 0 <= i < j < t.len() implies (#[trigger] t[i]).severity
                != (#[trigger] t[j]).severity by {
                if i > 0 {
                    assert(t[i] == t.drop_first()[i - 1]);
                    assert(t[j] == t.drop_first()[j - 1]);
                }
            }
        }
    }
}

/// A key that occurs in a map has a value in it.
proof fn lemma_present_get(s: Seq<SLAConfigEntry>, i: int)
    requires
        0 <= i < s.len(),
    ensures
        entries_get(s, s[i].severity) is Some,
    decreases i,
{
    if i > 0 && s[0].severity != s[i].severity {
        assert(s.drop_first()[i - 1] == s[i]);
        lemma_present_get(s.drop_first(), i - 1);
    }
}

/// A key that occurs in none of the entries has no value.
proof fn lemma_absent_get(s: Seq<SLAConfigEntry>, k: Symbol)
    requires
        forall|j: int| 0 <= j < s.len() ==> (#[trigger] s[j]).severity != k,
    ensures
        entries_get(s, k) is None,
{
    lemma_get_skip(s, k, s.len() as int);
    assert(s.skip(s.len() as int) =~= Seq::<SLAConfigEntry>::empty());
}

/// After removing `k` the map yields its old value for every other key; in
/// a map with unique keys it yields nothing for `k`, and keys stay unique.
pub proof fn lemma_remove_get(s: Seq<SLAConfigEntry>, k: Symbol, other: Symbol)
    ensures
        other != k ==> entries_get(entries_remove(s, k), other) == entries_get(s, other),
        entries_unique(s) ==> entries_get(entries_remove(s, k), k) is None,
        entries_unique(s) ==> entries_unique(entries_remove(s, k)),
    decreases s.len(),
{
    let t = entries_remove(s, k);
    if s.len() > 0 {
        let r = s.drop_first();
        if entries_unique(s) {
            assert forall|i: int, j: int| 0 <= i < j < r.len() implies (#[trigger] r[i]).severity
                != (#[trigger] r[j]).severity by {
                assert(r[i] == s[i + 1]);
                assert(r[j] == s[j + 1]);
            }
        }
        lemma_remove_get(r, k, other);
        lemma_remove_get(r, k, s[0].severity);
        if s[0].severity == k {
            if entries_unique(s) {
                assert forall|j: int| 0 <= j < r.len() implies (#[trigger] r[j]).severity != k by {
                    assert(r[j] == s[j + 1]);
                }
                lemma_absent_get(r, k);
            }
        } else {
            assert(t[0] == s[0]);
            assert(t.drop_first() =~= entries_remove(r, k));
            if entries_unique(s) {
                let u = entries_remove(r, k);
                assert forall|j: int| 0 < j < t.len() implies (#[trigger] t[j]).severity != t[0].severity by {
                    assert(t[j] == u[j - 1]);
                    if u[j - 1].severity == s[0].severity {
                        lemma_present_get(u, j - 1);
                        assert forall|m: int| 0 <= m < r.len() implies (#[trigger] r[m]).severity != s[0].severity by {
                            assert(r[m] == s[m + 1]);
                        }
                        lemma_absent_get(r, s[0].severity);
                    }
                }
                assert forall|i: int, j: int| 0 <= i < j < t.len() implies (#[trigger] t[i]).severity
                    != (#[trigger] t[j]).severity by {
                    if i > 0 {
                        assert(t[i] == t.drop_first()[i - 1]);
                        assert(t[j] == t.drop_first()[j - 1]);
                    }
                }
            }
        }
    }
}

/// A map from symbols to configurations in insertion order, with no key
/// twice.
pub struct OrderedConfigMap {
    entries: Vec<SLAConfigEntry>,
}

impl View for OrderedConfigMap {
    type V = Seq<SLAConfigEntry>;

    closed spec fn view(&self) -> Seq<SLAConfigEntry> {
        self.entries@
    }
}

impl OrderedConfigMap {
    #[verifier::type_invariant]
    spec fn keys_unique(self) -> bool {
        entries_unique(self.entries@)
    }

    /// The empty map.
    pub fn new() -> (m: OrderedConfigMap)
        ensures
            m@ == Seq::<SLAConfigEntry>::empty(),
    {
        OrderedConfigMap { entries: Vec::new() }
    }

    /// The value stored for `k`.
    pub fn get(&self, k: &Symbol) -> (r: Option<SLAConfig>)
        ensures
            r == entries_get(self@, *k),
    {
        let mut i: usize = 0;
        while i < self.entries.len()
            invariant
                i <= self.entries@.len(),
                forall|j: int| 0 <= j < i ==> (#[trigger] self.entries@[j]).severity != *k,
            decreases self.entries@.len() - i,
        {
            if self.entries[i].severity == *k {
                proof {
                    lemma_get_skip(self.entries@, *k, i as int);
                }
                return Some(self.entries[i].config);
            }
            i += 1;
        }
        proof {
            lemma_get_skip(self.entries@, *k, i as int);
        }
        None
    }

    /// Sets the value of `k`: in place when `k` has one, last otherwise.
    /// Afterwards `k` yields `v` and every other key its old value.
    pub fn set(&mut self, k: Symbol, v: SLAConfig)
        ensures
            final(self)@ == entries_upsert(old(self)@, k, v),
            entries_get(final(self)@, k) == Some(v),
            forall|other: Symbol| other != k ==> #[trigger] entries_get(final(self)@, other) == entries_get(old(self)@, other),
    {
        proof {
            use_type_invariant(&*self);
        }
        let mut entries: Vec<SLAConfigEntry> = Vec::new();
        std::mem::swap(&mut entries, &mut self.entries);
        let ghost s = entries@;
        let e = SLAConfigEntry { severity: k, config: v };
        let mut i: usize = 0;
        let mut found = false;
        while i < entries.len()
            invariant_except_break
                s == entries@,
                i <= s.len(),
                !found,
                forall|j: int| 0 <= j < i ==> (#[trigger] s[j]).severity != k,
            ensures
                s == entries@,
                i <= s.len(),
                forall|j: int| 0 <= j < i ==> (#[trigger] s[j]).severity != k,
                found ==> i < s.len() && s[i as int].severity == k,
                !found ==> i == s.len(),
            decreases s.len() - i,
        {
            if entries[i].severity == k {
                found = true;
                break;
            }
            i += 1;
        }
        proof {
            lemma_upsert_skip(s, k, v, i as int);
            lemma_upsert_get(s, k, v, k);
            assert forall|other: Symbol| other != k implies #[trigger] entries_get(entries_upsert(s, k, v), other)
                == entries_get(s, other) by {
                lemma_upsert_get(s, k, v, other);
            }
        }
        if found {
            proof {
                assert(s.skip(i as int)[0] == s[i as int]);
                assert(s.skip(i as int).update(0, e) =~= seq![e] + s.skip(i + 1));
                assert(s.update(i as int, e) =~= s.take(i as int) + (seq![e] + s.skip(i + 1)));
            }
            entries.set(i, e);
        } else {
            proof {
                assert(s.take(i as int) =~= s);
                assert(s.push(e) =~= s.take(i as int) + seq![e]);
            }
            entries.push(e);
        }
        self.entries = entries;
    }

    /// Removes the entry of `k`, if any.  Afterwards `k` yields nothing and
    /// every other key its old value.
    pub fn remove(&mut self, k: &Symbol)
        ensures
            final(self)@ == entries_remove(old(self)@, *k),
            entries_get(final(self)@, *k) is None,
            forall|other: Symbol| other != *k ==> #[trigger] entries_get(final(self)@, other) == entries_get(old(self)@, other),
    {
        proof {
            use_type_invariant(&*self);
        }
        let mut entries: Vec<SLAConfigEntry> = Vec::new();
        std::mem::swap(&mut entries, &mut self.entries);
        let ghost s = entries@;
        proof {
            lemma_remove_get(s, *k, *k);
            assert forall|other: Symbol| other != *k implies #[trigger] entries_get(entries_remove(s, *k), other)
                == entries_get(s, other) by {
                lemma_remove_get(s, *k, other);
            }
        }
        let mut i: usize = 0;
        while i < entries.len()
            invariant
                s == entries@,
                s == old(self)@,
                entries_unique(entries_remove(s, *k)),
                entries_get(entries_remove(s, *k), *k) is None,
                forall|other: Symbol| other != *k ==> #[trigger] entries_get(entries_remove(s, *k), other)
                    == entries_get(s, other),
                i <= s.len(),
                forall|j: int| 0 <= j < i ==> (#[trigger] s[j]).severity != *k,
            decreases s.len() - i,
        {
            if entries[i].severity == *k {
                proof {
                    lemma_remove_skip(s, *k, i as int);
                    assert(s.skip(i as int)[0] == s[i as int]);
                    assert(entries_remove(s.skip(i as int), *k) == s.skip(i as int).drop_first());
                    assert(s.remove(i as int) =~= s.take(i as int) + s.skip(i as int).drop_first());
                }
                entries.remove(i);
                self.entries = entries;
                return;
            }
            i += 1;
        }
        proof {
            lemma_remove_skip(s, *k, i as int);
            assert(s.take(i as int) =~= s);
            assert(s.take(i as int) + s.skip(i as int) =~= s);
        }
        self.entries = entries;
    }

    /// The entries, in insertion order.
    pub fn entries(&self) -> (r: Vec<SLAConfigEntry>)
        ensures
            r@ == self@,
    {
        let mut r: Vec<SLAConfigEntry> = Vec::new();
        let mut i: usize = 0;
        while i < self.entries.len()
            invariant
                i <= self.entries@.len(),
                r@ == self.entries@.take(i as int),
            decreases self.entries@.len() - i,
        {
            r.push(self.entries[i]);
            i += 1;
            assert(r@ =~= self.entries@.take(i as int));
        }
        assert(self.entries@.take(i as int) =~= self.entries@);
        r
    }
}

} // verus!
