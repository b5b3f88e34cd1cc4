//! A map from severity symbols to configurations, kept in ascending
//! symbol order.
use vstd::prelude::*;
use crate::symbol::Symbol;
use crate::{SLAConfig, SLAConfigEntry};

verus! {

/// The value stored for `k`: that of the first entry with key `k`.
pub open spec fn entries_get(s: Seq<SLAConfigEntry>, k: Symbol) -> Option<SLAConfig>
    decreases s.len(),
{
    if s.len() == 0 {
        None
    } else if s[0].severity == k {
        Some(s[0].config)
    } else {
        entries_get(s.drop_first(), k)
    }
}

/// Sets the value of `k`: replaces the first entry with key `k`, or inserts
/// a new entry before the first entry whose key is greater than `k`.
pub open spec fn entries_set(s: Seq<SLAConfigEntry>, k: Symbol, v: SLAConfig) -> Seq<SLAConfigEntry>
    decreases s.len(),
{
    if s.len() == 0 {
        seq![SLAConfigEntry { severity: k, config: v }]
    } else if s[0].severity == k {
        s.update(0, SLAConfigEntry { severity: k, config: v })
    } else if k.spec_lt(s[0].severity) {
        seq![SLAConfigEntry { severity: k, config: v }] + s
    } else {
        seq![s[0]] + entries_set(s.drop_first(), k, v)
    }
}

/// Removes the first entry with key `k`.
pub open spec fn entries_remove(s: Seq<SLAConfigEntry>, k: Symbol) -> Seq<SLAConfigEntry>
    decreases s.len(),
{
    if s.len() == 0 {
        s
    } else if s[0].severity == k {
        s.drop_first()
    } else {
        seq![s[0]] + entries_remove(s.drop_first(), k)
    }
}

/// Keys strictly ascending.
pub open spec fn entries_sorted(s: Seq<SLAConfigEntry>) -> bool {
    forall|i: int, j: int| 0 <= i < j < s.len() ==> (#[trigger] s[i]).severity.spec_lt((#[trigger] s[j]).severity)
}

/// Skipping the entries before `i`, none of which has key `k`, keeps the lookup.
pub(crate) proof fn lemma_get_skip(s: Seq<SLAConfigEntry>, k: Symbol, i: int)
    requires
        0 <= i <= s.len(),
        forall|j: int| 0 <= j < i ==> (#[trigger] s[j]).severity != k,
    ensures
        entries_get(s, k) == entries_get(s.skip(i), k),
    decreases i,
{
    if i > 0 {
        lemma_get_skip(s.drop_first(), k, i - 1);
        assert(s.drop_first().skip(i - 1) =~= s.skip(i));
    } else {
        assert(s.skip(0) =~= s);
    }
}

/// Setting `k` keeps every entry before the first one that is `k` or above it.
proof fn lemma_set_skip(s: Seq<SLAConfigEntry>, k: Symbol, v: SLAConfig, i: int)
    requires
        0 <= i <= s.len(),
        forall|j: int| 0 <= j < i ==> (#[trigger] s[j]).severity != k && !k.spec_lt(s[j].severity),
    ensures
        entries_set(s, k, v) == s.take(i) + entries_set(s.skip(i), k, v),
    decreases i,
{
    if i > 0 {
        lemma_set_skip(s.drop_first(), k, v, i - 1);
        assert(s.drop_first().skip(i - 1) =~= s.skip(i));
        assert(s.take(i) =~= seq![s[0]] + s.drop_first().take(i - 1));
    } else {
        assert(s.skip(0) =~= s);
        assert(s.take(0) =~= Seq::<SLAConfigEntry>::empty());
    }
}

/// Removing `k` keeps every entry before the first one with key `k`.
pub(crate) proof fn lemma_remove_skip(s: Seq<SLAConfigEntry>, k: Symbol, i: int)
    requires
        0 <= i <= s.len(),
        forall|j: int| 0 <= j < i ==> (#[trigger] s[j]).severity != k,
    ensures
        entries_remove(s, k) == s.take(i) + entries_remove(s.skip(i), k),
    decreases i,
{
    if i > 0 {
        lemma_remove_skip(s.drop_first(), k, i - 1);
        assert(s.drop_first().skip(i - 1) =~= s.skip(i));
        assert(s.take(i) =~= seq![s[0]] + s.drop_first().take(i - 1));
    } else {
        assert(s.skip(0) =~= s);
        assert(s.take(0) =~= Seq::<SLAConfigEntry>::empty());
    }
}

/// Every key of a map stays above `b` after setting a key above `b`.
proof fn lemma_set_above(s: Seq<SLAConfigEntry>, k: Symbol, v: SLAConfig, b: Symbol)
    requires
        forall|j: int| 0 <= j < s.len() ==> b.spec_lt(#[trigger] s[j].severity),
        b.spec_lt(k),
    ensures
        forall|j: int| 0 <= j < entries_set(s, k, v).len() ==> b.spec_lt(#[trigger] entries_set(s, k, v)[j].severity),
    decreases s.len(),
{
    let t = entries_set(s, k, v);
    if s.len() > 0 && s[0].severity != k && !k.spec_lt(s[0].severity) {
        let r = s.drop_first();
        assert forall|j: int| 0 <= j < r.len() implies b.spec_lt(#[trigger] r[j].severity) by {
            assert(r[j] == s[j + 1]);
        }
        lemma_set_above(r, k, v, b);
        assert forall|j: int| 0 <= j < t.len() implies b.spec_lt(#[trigger] t[j].severity) by {
            if j > 0 {
                assert(t[j] == entries_set(r, k, v)[j - 1]);
            }
        }
    } else if s.len() > 0 && k.spec_lt(s[0].severity) && s[0].severity != k {
        assert forall|j: int| 0 <= j < t.len() implies b.spec_lt(#[trigger] t[j].severity) by {
            if j > 0 {
                assert(t[j] == s[j - 1]);
            }
        }
    }
}

/// Every key of a map stays above `b` after removing a key.
proof fn lemma_remove_above(s: Seq<SLAConfigEntry>, k: Symbol, b: Symbol)
    requires
        forall|j: int| 0 <= j < s.len() ==> b.spec_lt(#[trigger] s[j].severity),
    ensures
        forall|j: int| 0 <= j < entries_remove(s, k).len() ==> b.spec_lt(#[trigger] entries_remove(s, k)[j].severity),
    decreases s.len(),
{
    if s.len() > 0 {
        let r = s.drop_first();
        assert forall|j: int| 0 <= j < r.len() implies b.spec_lt(#[trigger] r[j].severity) by {
            assert(r[j] == s[j + 1]);
        }
        if s[0].severity != k {
            lemma_remove_above(r, k, b);
            let t = entries_remove(s, k);
            assert forall|j: int| 0 <= j < t.len() implies b.spec_lt(#[trigger] t[j].severity) by {
                if j > 0 {
                    assert(t[j] == entries_remove(r, k)[j - 1]);
                }
            }
        }
    }
}

/// The tail of a map with ascending keys has ascending keys, all above the head.
proof fn lemma_sorted_tail(s: Seq<SLAConfigEntry>)
    requires
        entries_sorted(s),
        s.len() > 0,
    ensures
        entries_sorted(s.drop_first()),
        forall|j: int| 0 <= j < s.drop_first().len() ==> s[0].severity.spec_lt(#[trigger] s.drop_first()[j].severity),
{
    let r = s.drop_first();
    assert forall|i: int, j: int| 0 <= i < j < r.len() implies (#[trigger] r[i]).severity.spec_lt(
        (#[trigger] r[j]).severity,
    ) by {
        assert(r[i] == s[i + 1]);
        assert(r[j] == s[j + 1]);
    }
    assert forall|j: int| 0 <= j < r.len() implies s[0].severity.spec_lt(#[trigger] r[j].severity) by {
        assert(r[j] == s[j + 1]);
    }
}

/// A map whose head is below every later key, and whose later keys
/// ascend, has ascending keys.
proof fn lemma_sorted_cons(e: SLAConfigEntry, r: Seq<SLAConfigEntry>)
    requires
        entries_sorted(r),
        forall|j: int| 0 <= j < r.len() ==> e.severity.spec_lt(#[trigger] r[j].severity),
    ensures
        entries_sorted(seq![e] + r),
{
    let t = seq![e] + r;
    assert forall|i: int, j: int| 0 <= i < j < t.len() implies (#[trigger] t[i]).severity.spec_lt(
        (#[trigger] t[j]).severity,
    ) by {
        assert(t[j] == r[j - 1]);
        if i > 0 {
            assert(t[i] == r[i - 1]);
        }
    }
}

/// Setting a key keeps keys ascending.
pub(crate) proof fn lemma_set_sorted(s: Seq<SLAConfigEntry>, k: Symbol, v: SLAConfig)
    requires
        entries_sorted(s),
    ensures
        entries_sorted(entries_set(s, k, v)),
    decreases s.len(),
{
    let e = SLAConfigEntry { severity: k, config: v };
    if s.len() == 0 {
    } else if s[0].severity == k {
        let t = entries_set(s, k, v);
        assert forall|i: int, j: int| 0 <= i < j < t.len() implies (#[trigger] t[i]).severity.spec_lt(
            (#[trigger] t[j]).severity,
        ) by {
            assert(t[i].severity == s[i].severity);
            assert(t[j].severity == s[j].severity);
        }
    } else if k.spec_lt(s[0].severity) {
        assert forall|j: int| 0 <= j < s.len() implies k.spec_lt(#[trigger] s[j].severity) by {
            if j > 0 {
                assert(s[0].severity.spec_lt(s[j].severity));
            }
        }
        lemma_sorted_cons(e, s);
    } else {
        lemma_sorted_tail(s);
        let r = s.drop_first();
        lemma_set_sorted(r, k, v);
        lemma_set_above(r, k, v, s[0].severity);
        lemma_sorted_cons(s[0], entries_set(r, k, v));
    }
}

/// Removing a key keeps keys ascending.
pub(crate) proof fn lemma_remove_sorted(s: Seq<SLAConfigEntry>, k: Symbol)
    requires
        entries_sorted(s),
    ensures
        entries_sorted(entries_remove(s, k)),
    decreases s.len(),
{
    if s.len() > 0 {
        lemma_sorted_tail(s);
        let r = s.drop_first();
        if s[0].severity != k {
            lemma_remove_sorted(r, k);
            lemma_remove_above(r, k, s[0].severity);
            lemma_sorted_cons(s[0], entries_remove(r, k));
        }
    }
}

/// A map from symbols to configurations, its entries in ascending key
/// order.
pub struct SymbolMap {
    entries: Vec<SLAConfigEntry>,
}

impl View for SymbolMap {
    type V = Seq<SLAConfigEntry>;

    closed spec fn view(&self) -> Seq<SLAConfigEntry> {
        self.entries@
    }
}

impl SymbolMap {
    #[verifier::type_invariant]
    spec fn keys_ascending(self) -> bool {
        entries_sorted(self.entries@)
    }

    /// The empty map.
    pub fn new() -> (m: SymbolMap)
        ensures
            m@ == Seq::<SLAConfigEntry>::empty(),
    {
        SymbolMap { entries: Vec::new() }
    }

    /// Number of entries.
    pub fn len(&self) -> (n: u32)
        requires
            self@.len() <= u32::MAX,
        ensures
            n == self@.len(),
    {
        self.entries.len() as u32
    }

    /// The value stored for `k`.
    pub fn get(&self, k: &Symbol) -> (r: Option<SLAConfig>)
        ensures
            r == entries_get(self@, *k),
    {
        let mut i: usize = 0;
        while i < self.entries.len()
            invariant
                i <= self.entries@.len(),
                forall|j: int| 0 <= j < i ==> (#[trigger] self.entries@[j]).severity != *k,
            decreases self.entries@.len() - i,
        {
            if self.entries[i].severity == *k {
                proof {
                    lemma_get_skip(self.entries@, *k, i as int);
                }
                return Some(self.entries[i].config);
            }
            i += 1;
        }
        proof {
            lemma_get_skip(self.entries@, *k, i as int);
        }
        None
    }

    /// Whether `k` has a value.
    pub fn contains_key(&self, k: &Symbol) -> (r: bool)
        ensures
            r == entries_get(self@, *k).is_some(),
    {
        self.get(k).is_some()
    }

    /// Sets the value of `k`.  Afterwards `k` yields `v` and every other
    /// key its old value.
    pub fn set(&mut self, k: Symbol, v: SLAConfig)
        ensures
            final(self)@ == entries_set(old(self)@, k, v),
            entries_get(final(self)@, k) == Some(v),
            forall|other: Symbol| other != k ==> #[trigger] entries_get(final(self)@, other) == entries_get(old(self)@, other),
    {
        proof {
            use_type_invariant(&*self);
        }
        let mut entries: Vec<SLAConfigEntry> = Vec::new();
        std::mem::swap(&mut entries, &mut self.entries);
        let ghost s = entries@;
        proof {
            lemma_set_sorted(s, k, v);
            crate::laws::law_map_set_get(s, k, v, k);
            assert forall|other: Symbol| other != k implies #[trigger] entries_get(entries_set(s, k, v), other)
                == entries_get(s, other) by {
                crate::laws::law_map_set_get(s, k, v, other);
            }
        }
        let e = SLAConfigEntry { severity: k, config: v };
        let mut i: usize = 0;
        let mut placed = false;
        while i < entries.len()
            invariant_except_break
                s == entries@,
                e == (SLAConfigEntry { severity: k, config: v }),
                !placed,
                i <= s.len(),
                forall|j: int| 0 <= j < i ==> (#[trigger] s[j]).severity != k && !k.spec_lt(s[j].severity),
            ensures
                i <= s.len(),
                forall|j: int| 0 <= j < i ==> (#[trigger] s[j]).severity != k && !k.spec_lt(s[j].severity),
                placed ==> entries@ == entries_set(s, k, v),
                !placed ==> i == s.len() && entries@ == s,
            decreases s.len() - i,
        {
            let cur = entries[i].severity;
            if cur == k {
                proof {
                    lemma_set_skip(s, k, v, i as int);
                    assert(s.skip(i as int)[0] == s[i as int]);
                    assert(entries_set(s.skip(i as int), k, v) == s.skip(i as int).update(0, e));
                    assert(s.skip(i as int).update(0, e) =~= seq![e] + s.skip(i + 1));
                    assert(s.update(i as int, e) =~= s.take(i as int) + (seq![e] + s.skip(i + 1)));
                }
                entries.set(i, e);
                placed = true;
                break;
            }
            if k.less_than(&cur) {
                proof {
                    lemma_set_skip(s, k, v, i as int);
                    assert(s.skip(i as int)[0] == s[i as int]);
                    assert(entries_set(s.skip(i as int), k, v) == seq![e] + s.skip(i as int));
                    assert(s.insert(i as int, e) =~= s.take(i as int) + (seq![e] + s.skip(i as int)));
                }
                entries.insert(i, e);
                placed = true;
                break;
            }
            i += 1;
        }
        if !placed {
            proof {
                lemma_set_skip(s, k, v, i as int);
                assert(s.take(i as int) =~= s);
                assert(s.push(e) =~= s.take(i as int) + seq![e]);
            }
            entries.push(e);
        }
        self.entries = entries;
    }

    /// Removes the entry of `k`, if any.  Afterwards `k` yields nothing and
    /// every other key its old value.
    pub fn remove(&mut self, k: &Symbol)
        ensures
            final(self)@ == entries_remove(old(self)@, *k),
            entries_get(final(self)@, *k) is None,
            forall|other: Symbol| other != *k ==> #[trigger] entries_get(final(self)@, other) == entries_get(old(self)@, other),
    {
        proof {
            use_type_invariant(&*self);
        }
        let mut entries: Vec<SLAConfigEntry> = Vec::new();
        std::mem::swap(&mut entries, &mut self.entries);
        let ghost s = entries@;
        proof {
            lemma_remove_sorted(s, *k);
            crate::laws::law_map_remove_get(s, *k, *k);
            assert forall|other: Symbol| other != *k implies #[trigger] entries_get(entries_remove(s, *k), other)
                == entries_get(s, other) by {
                crate::laws::law_map_remove_get(s, *k, other);
            }
        }
        let mut i: usize = 0;
        let mut removed = false;
        while i < entries.len()
            invariant_except_break
                s == entries@,
                !removed,
                i <= s.len(),
                forall|j: int| 0 <= j < i ==> (#[trigger] s[j]).severity != *k,
            ensures
                i <= s.len(),
                forall|j: int| 0 <= j < i ==> (#[trigger] s[j]).severity != *k,
                removed ==> entries@ == entries_remove(s, *k),
                !removed ==> i == s.len() && entries@ == s,
            decreases s.len() - i,
        {
            if entries[i].severity == *k {
                proof {
                    lemma_remove_skip(s, *k, i as int);
                    assert(s.skip(i as int)[0] == s[i as int]);
                    assert(entries_remove(s.skip(i as int), *k) == s.skip(i as int).drop_first());
                    assert(s.remove(i as int) =~= s.take(i as int) + s.skip(i as int).drop_first());
                }
                entries.remove(i);
                removed = true;
                break;
            }
            i += 1;
        }
        if !removed {
            proof {
                lemma_remove_skip(s, *k, i as int);
                assert(s.take(i as int) =~= s);
                assert(s.take(i as int) + s.skip(i as int) =~= s);
            }
        }
        self.entries = entries;
    }

    /// The entries, in map order.
    pub fn entries(&self) -> (r: Vec<SLAConfigEntry>)
        ensures
            r@ == self@,
    {
        let mut r: Vec<SLAConfigEntry> = Vec::new();
        let mut i: usize = 0;
        while i < self.entries.len()
            invariant
                i <= self.entries@.len(),
                r@ == self.entries@.take(i as int),
            decreases self.entries@.len() - i,
        {
            r.push(self.entries[i]);
            i += 1;
            assert(r@ =~= self.entries@.take(i as int));
        }
        assert(self.entries@.take(i as int) =~= self.entries@);
        r
    }

    /// A copy of the map.
    pub fn copy(&self) -> (r: SymbolMap)
        ensures
            r@ == self@,
    {
        proof {
            use_type_invariant(self);
        }
        SymbolMap { entries: self.entries() }
    }
}

} // verus!
