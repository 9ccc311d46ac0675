//! Maps from strings to values, kept in the order of their keys.

use vstd::prelude::*;
use crate::text;

verus! {

/// Lexicographic order on characters: the order of `str`.
pub open spec fn before(a: Seq<char>, b: Seq<char>) -> bool
    decreases b.len(),
{
    if b.len() == 0 {
        false
    } else if a.len() == 0 {
        true
    } else if a[0] == b[0] {
        before(a.drop_first(), b.drop_first())
    } else {
        a[0] < b[0]
    }
}

pub proof fn before_irreflexive(a: Seq<char>)
    ensures
        !before(a, a),
    decreases a.len(),
{
    if a.len() > 0 {
        before_irreflexive(a.drop_first());
    }
}

pub proof fn before_transitive(a: Seq<char>, b: Seq<char>, c: Seq<char>)
    requires
        before(a, b),
        before(b, c),
    ensures
        before(a, c),
    decreases c.len(),
{
    if a.len() > 0 && a[0] == b[0] && b[0] == c[0] {
        before_transitive(a.drop_first(), b.drop_first(), c.drop_first());
    }
}

pub proof fn before_total(a: Seq<char>, b: Seq<char>)
    ensures
        before(a, b) || before(b, a) || a == b,
    decreases a.len(),
{
    if a.len() > 0 && b.len() > 0 && a[0] == b[0] {
        before_total(a.drop_first(), b.drop_first());
        if a.drop_first() == b.drop_first() {
            assert(a =~= seq![a[0]] + a.drop_first());
            assert(b =~= seq![b[0]] + b.drop_first());
        }
    } else if a.len() == 0 && b.len() == 0 {
        assert(a =~= b);
    }
}

/// Whether `a` comes before `b`.
pub fn precedes(a: &str, b: &str) -> (r: bool)
    ensures
        r == before(a@, b@),
{
    let x: Vec<char> = text::to_chars(a);
    let y: Vec<char> = text::to_chars(b);
    let mut i: usize = 0;
    proof {
        assert(x@.skip(0) =~= x@);
        assert(y@.skip(0) =~= y@);
    }
    loop
        invariant
            i <= x@.len(),
            i <= y@.len(),
            x@ == a@,
            y@ == b@,
            before(x@.skip(i as int), y@.skip(i as int)) == before(a@, b@),
        decreases x@.len() - i,
    {
        if i == y.len() {
            return false;
        }
        if i == x.len() {
            return true;
        }
        if x[i] != y[i] {
            return x[i] < y[i];
        }
        proof {
            assert(x@.skip(i as int).drop_first() =~= x@.skip(i + 1));
            assert(y@.skip(i as int).drop_first() =~= y@.skip(i + 1));
        }
        i = i + 1;
    }
}

/// What the entries hold under the key `k`.
pub open spec fn lookup<V>(s: Seq<(Seq<char>, V)>, k: Seq<char>) -> Option<V>
    decreases s.len(),
{
    if s.len() == 0 {
        None
    } else if s[0].0 == k {
        Some(s[0].1)
    } else {
        lookup(s.drop_first(), k)
    }
}

/// The entries after `v` is put under the key `k`: the value of `k` is replaced, or a
/// new entry stands before the first greater key.
pub open spec fn put<V>(s: Seq<(Seq<char>, V)>, k: Seq<char>, v: V) -> Seq<(Seq<char>, V)>
    decreases s.len(),
{
    if s.len() == 0 {
        seq![(k, v)]
    } else if s[0].0 == k {
        seq![(k, v)] + s.drop_first()
    } else if before(k, s[0].0) {
        seq![(k, v)] + s
    } else {
        seq![s[0]] + put(s.drop_first(), k, v)
    }
}

/// The entries without the key `k`.
pub open spec fn without<V>(s: Seq<(Seq<char>, V)>, k: Seq<char>) -> Seq<(Seq<char>, V)>
    decreases s.len(),
{
    if s.len() == 0 {
        s
    } else if s[0].0 == k {
        s.drop_first()
    } else {
        seq![s[0]] + without(s.drop_first(), k)
    }
}

/// Whether the keys stand in strictly increasing order.
pub open spec fn sorted<V>(s: Seq<(Seq<char>, V)>) -> bool {
    forall|i: int, j: int| 0 <= i < j < s.len() ==> before(#[trigger] s[i].0, #[trigger] s[j].0)
}

/// The keys in order.
pub open spec fn keys<V>(s: Seq<(Seq<char>, V)>) -> Seq<Seq<char>> {
    Seq::new(s.len(), |i: int| s[i].0)
}

/// After `put`, the key holds the value and every other key what it held.
pub proof fn lookup_put<V>(s: Seq<(Seq<char>, V)>, k: Seq<char>, v: V, x: Seq<char>)
    ensures
        lookup(put(s, k, v), x) == (if x == k {
            Some(v)
        } else {
            lookup(s, x)
        }),
    decreases s.len(),
{
    reveal_with_fuel(lookup, 2);
    let p = put(s, k, v);
    if s.len() == 0 {
        assert(p.drop_first() =~= Seq::empty());
    } else if s[0].0 == k {
        assert(p.drop_first() =~= s.drop_first());
    } else if before(k, s[0].0) {
        assert(p.drop_first() =~= s);
    } else {
        assert(p.drop_first() =~= put(s.drop_first(), k, v));
        lookup_put(s.drop_first(), k, v, x);
    }
}

/// `put` adds one entry at most, and its entries come from `s` or are the new one.
pub proof fn put_entries<V>(s: Seq<(Seq<char>, V)>, k: Seq<char>, v: V)
    ensures
        s.len() <= put(s, k, v).len() <= s.len() + 1,
        put(s, k, v).len() > 0,
        forall|i: int|
            0 <= i < put(s, k, v).len() ==> (#[trigger] put(s, k, v)[i]).0 == k || exists|j: int|
                0 <= j < s.len() && s[j] == put(s, k, v)[i],
    decreases s.len(),
{
    let p = put(s, k, v);
    if s.len() > 0 && s[0].0 != k && !before(k, s[0].0) {
        let t = s.drop_first();
        put_entries(t, k, v);
        assert forall|i: int| 0 <= i < p.len() implies (#[trigger] p[i]).0 == k || exists|j: int|
            0 <= j < s.len() && s[j] == p[i] by {
            if i == 0 {
                assert(s[0] == p[0]);
            } else {
                let q = put(t, k, v);
                assert(p[i] == q[i - 1]);
                if q[i - 1].0 != k {
                    let j = choose|j: int| 0 <= j < t.len() && t[j] == q[i - 1];
                    assert(s[j + 1] == p[i]);
                }
            }
        }
    } else if s.len() > 0 && s[0].0 == k {
        assert forall|i: int| 0 <= i < p.len() implies (#[trigger] p[i]).0 == k || exists|j: int|
            0 <= j < s.len() && s[j] == p[i] by {
            if i > 0 {
                assert(s[i] == p[i]);
            }
        }
    } else if s.len() > 0 {
        assert forall|i: int| 0 <= i < p.len() implies (#[trigger] p[i]).0 == k || exists|j: int|
            0 <= j < s.len() && s[j] == p[i] by {
            if i > 0 {
                assert(s[i - 1] == p[i]);
            }
        }
    }
}

/// `put` keeps the keys in order.
pub proof fn put_sorted<V>(s: Seq<(Seq<char>, V)>, k: Seq<char>, v: V)
    requires
        sorted(s),
    ensures
        sorted(put(s, k, v)),
    decreases s.len(),
{
    let p = put(s, k, v);
    if s.len() == 0 {
    } else if s[0].0 == k {
        assert forall|i: int, j: int| 0 <= i < j < p.len() implies before(
            #[trigger] p[i].0,
            #[trigger] p[j].0,
        ) by {
            assert(p[j] == s[j]);
            assert(p[i].0 == s[i].0);
        }
    } else if before(k, s[0].0) {
        assert forall|i: int, j: int| 0 <= i < j < p.len() implies before(
            #[trigger] p[i].0,
            #[trigger] p[j].0,
        ) by {
            assert(p[j] == s[j - 1]);
            if i == 0 {
                if j > 1 {
                    before_transitive(k, s[0].0, s[j - 1].0);
                }
            } else {
                assert(p[i] == s[i - 1]);
            }
        }
    } else {
        let t = s.drop_first();
        assert(sorted(t)) by {
            assert forall|i: int, j: int| 0 <= i < j < t.len() implies before(
                #[trigger] t[i].0,
                #[trigger] t[j].0,
            ) by {
                assert(t[i] == s[i + 1] && t[j] == s[j + 1]);
            }
        }
        put_sorted(t, k, v);
        put_entries(t, k, v);
        before_total(k, s[0].0);
        let q = put(t, k, v);
        assert forall|i: int, j: int| 0 <= i < j < p.len() implies before(
            #[trigger] p[i].0,
            #[trigger] p[j].0,
        ) by {
            assert(p[j] == q[j - 1]);
            if i == 0 {
                if q[j - 1].0 != k {
                    let m = choose|m: int| 0 <= m < t.len() && t[m] == q[j - 1];
                    assert(t[m] == s[m + 1]);
                }
            } else {
                assert(p[i] == q[i - 1]);
            }
        }
    }
}

/// A key above all others goes to the end.
pub proof fn put_at_end<V>(s: Seq<(Seq<char>, V)>, k: Seq<char>, v: V)
    requires
        forall|i: int| 0 <= i < s.len() ==> before((#[trigger] s[i]).0, k),
    ensures
        put(s, k, v) == s.push((k, v)),
    decreases s.len(),
{
    if s.len() > 0 {
        let t = s.drop_first();
        assert forall|i: int| 0 <= i < t.len() implies before((#[trigger] t[i]).0, k) by {
            assert(t[i] == s[i + 1]);
        }
        put_at_end(t, k, v);
        assert(before(s[0].0, k));
        before_irreflexive(k);
        if before(k, s[0].0) {
            before_transitive(k, s[0].0, k);
        }
        assert(seq![s[0]] + t.push((k, v)) =~= s.push((k, v)));
    } else {
        assert(seq![(k, v)] =~= s.push((k, v)));
    }
}

/// A key that stands nowhere has no value; one that stands somewhere has one.
pub proof fn lookup_some<V>(s: Seq<(Seq<char>, V)>, k: Seq<char>)
    ensures
        lookup(s, k) is Some <==> exists|i: int| 0 <= i < s.len() && (#[trigger] s[i]).0 == k,
    decreases s.len(),
{
    if s.len() > 0 && s[0].0 != k {
        let t = s.drop_first();
        lookup_some(t, k);
        if exists|i: int| 0 <= i < t.len() && (#[trigger] t[i]).0 == k {
            let i = choose|i: int| 0 <= i < t.len() && (#[trigger] t[i]).0 == k;
            assert(s[i + 1] == t[i]);
        }
        if exists|i: int| 0 <= i < s.len() && (#[trigger] s[i]).0 == k {
            let i = choose|i: int| 0 <= i < s.len() && (#[trigger] s[i]).0 == k;
            assert(t[i - 1] == s[i]);
        }
    } else if s.len() > 0 {
        assert(s[0].0 == k);
    }
}

/// In a sorted map the value under a key that stands at `i` is the one at `i`.
pub proof fn lookup_at<V>(s: Seq<(Seq<char>, V)>, i: int)
    requires
        sorted(s),
        0 <= i < s.len(),
    ensures
        lookup(s, s[i].0) == Some(s[i].1),
    decreases s.len(),
{
    if i > 0 {
        let t = s.drop_first();
        assert(sorted(t)) by {
            assert forall|a: int, b: int| 0 <= a < b < t.len() implies before(
                #[trigger] t[a].0,
                #[trigger] t[b].0,
            ) by {
                assert(t[a] == s[a + 1] && t[b] == s[b + 1]);
            }
        }
        assert(before(s[0].0, s[i].0));
        before_irreflexive(s[0].0);
        assert(t[i - 1] == s[i]);
        lookup_at(t, i - 1);
    }
}

/// Entries of entries: the inner maps by what they hold.
pub open spec fn nested<V>(s: Seq<(Seq<char>, StrMap<V>)>) -> Seq<(
    Seq<char>,
    Seq<(Seq<char>, V)>,
)> {
    Seq::new(s.len(), |i: int| (s[i].0, s[i].1@))
}

/// What nested entries hold under a pair of keys.
pub open spec fn lookup2<V>(
    s: Seq<(Seq<char>, Seq<(Seq<char>, V)>)>,
    k: Seq<char>,
    x: Seq<char>,
) -> Option<V> {
    match lookup(s, k) {
        Some(m) => lookup(m, x),
        None => None,
    }
}

pub proof fn nested_lookup<V>(s: Seq<(Seq<char>, StrMap<V>)>, k: Seq<char>)
    ensures
        lookup(nested(s), k) == (match lookup(s, k) {
            Some(m) => Some(m@),
            None => None,
        }),
    decreases s.len(),
{
    if s.len() > 0 {
        assert(nested(s).drop_first() =~= nested(s.drop_first()));
        nested_lookup(s.drop_first(), k);
    }
}

pub proof fn nested_put<V>(s: Seq<(Seq<char>, StrMap<V>)>, k: Seq<char>, m: StrMap<V>)
    ensures
        nested(put(s, k, m)) == put(nested(s), k, m@),
    decreases s.len(),
{
    if s.len() > 0 {
        assert(nested(s).drop_first() =~= nested(s.drop_first()));
        nested_put(s.drop_first(), k, m);
    }
    assert(nested(put(s, k, m)) =~= put(nested(s), k, m@));
}

/// After `without`, the key holds nothing and every other key what it held.
pub proof fn lookup_without<V>(s: Seq<(Seq<char>, V)>, k: Seq<char>, x: Seq<char>)
    requires
        sorted(s),
    ensures
        lookup(without(s, k), x) == (if x == k {
            None
        } else {
            lookup(s, x)
        }),
    decreases s.len(),
{
    reveal_with_fuel(lookup, 2);
    if s.len() > 0 {
        let t = s.drop_first();
        tail_sorted(s);
        if s[0].0 == k {
            if x == k {
                lookup_some(t, k);
                if exists|i: int| 0 <= i < t.len() && (#[trigger] t[i]).0 == k {
                    let i = choose|i: int| 0 <= i < t.len() && (#[trigger] t[i]).0 == k;
                    assert(s[i + 1] == t[i]);
                    before_irreflexive(k);
                }
            }
        } else {
            assert(without(s, k).drop_first() =~= without(t, k));
            lookup_without(t, k, x);
        }
    }
}

/// What follows the first entry is in order too.
pub proof fn tail_sorted<V>(s: Seq<(Seq<char>, V)>)
    requires
        sorted(s),
        s.len() > 0,
    ensures
        sorted(s.drop_first()),
{
    let t = s.drop_first();
    assert forall|i: int, j: int| 0 <= i < j < t.len() implies before(
        #[trigger] t[i].0,
        #[trigger] t[j].0,
    ) by {
        assert(t[i] == s[i + 1] && t[j] == s[j + 1]);
    }
}

/// `without` keeps the keys in order, and takes no entry but that of the key.
pub proof fn without_sorted<V>(s: Seq<(Seq<char>, V)>, k: Seq<char>)
    requires
        sorted(s),
    ensures
        sorted(without(s, k)),
        forall|i: int|
            0 <= i < without(s, k).len() ==> exists|j: int|
                0 <= j < s.len() && #[trigger] s[j] == #[trigger] without(s, k)[i],
    decreases s.len(),
{
    let w = without(s, k);
    if s.len() > 0 {
        let t = s.drop_first();
        tail_sorted(s);
        if s[0].0 == k {
            assert forall|i: int| 0 <= i < w.len() implies exists|j: int|
                0 <= j < s.len() && #[trigger] s[j] == #[trigger] w[i] by {
                assert(s[i + 1] == w[i]);
            }
        } else {
            without_sorted(t, k);
            let v = without(t, k);
            assert forall|i: int, j: int| 0 <= i < j < w.len() implies before(
                #[trigger] w[i].0,
                #[trigger] w[j].0,
            ) by {
                assert(w[j] == v[j - 1]);
                if i == 0 {
                    let m = choose|m: int| 0 <= m < t.len() && t[m] == v[j - 1];
                    assert(t[m] == s[m + 1]);
                } else {
                    assert(w[i] == v[i - 1]);
                }
            }
            assert forall|i: int| 0 <= i < w.len() implies exists|j: int|
                0 <= j < s.len() && #[trigger] s[j] == #[trigger] w[i] by {
                if i == 0 {
                    assert(s[0] == w[0]);
                } else {
                    assert(w[i] == v[i - 1]);
                    let m = choose|m: int| 0 <= m < t.len() && t[m] == v[i - 1];
                    assert(t[m] == s[m + 1]);
                }
            }
        }
    }
}

/// A map from strings, in the order of its keys.
#[derive(Clone, Debug)]
pub struct StrMap<V> {
    entries: Vec<(String, V)>,
}

impl<V> View for StrMap<V> {
    type V = Seq<(Seq<char>, V)>;

    closed spec fn view(&self) -> Seq<(Seq<char>, V)> {
        Seq::new(self.entries@.len(), |i: int| (self.entries@[i].0@, self.entries@[i].1))
    }
}

impl<V> StrMap<V> {
    pub fn new() -> (r: Self)
        ensures
            r@ == Seq::<(Seq<char>, V)>::empty(),
    {
        let r: Self = StrMap { entries: Vec::new() };
        proof {
            assert(r@ =~= Seq::<(Seq<char>, V)>::empty());
        }
        r
    }

    pub fn len(&self) -> (r: usize)
        ensures
            r == self@.len(),
    {
        self.entries.len()
    }

    pub fn key(&self, i: usize) -> (r: &String)
        requires
            i < self@.len(),
        ensures
            r@ == self@[i as int].0,
    {
        &self.entries[i].0
    }

    pub fn value(&self, i: usize) -> (r: &V)
        requires
            i < self@.len(),
        ensures
            *r == self@[i as int].1,
    {
        &self.entries[i].1
    }

    pub fn get(&self, k: &str) -> (r: Option<&V>)
        ensures
            match r {
                Some(v) => lookup(self@, k@) == Some(*v),
                None => lookup(self@, k@) is None,
            },
    {
        let mut i: usize = 0;
        proof {
            assert(self@.skip(0) =~= self@);
        }
        while i < self.entries.len()
            invariant
                i <= self.entries@.len() == self@.len(),
                lookup(self@.skip(i as int), k@) == lookup(self@, k@),
            decreases self.entries@.len() - i,
        {
            proof {
                assert(self@.skip(i as int).drop_first() =~= self@.skip(i + 1));
            }
            if text::same(self.entries[i].0.as_str(), k) {
                return Some(&self.entries[i].1);
            }
            i = i + 1;
        }
        None
    }

    pub fn contains_key(&self, k: &str) -> (r: bool)
        ensures
            r == (lookup(self@, k@) is Some),
    {
        self.get(k).is_some()
    }

    pub fn insert(&mut self, k: String, v: V)
        ensures
            final(self)@ == put(old(self)@, k@, v),
    {
        let ghost s = self@;
        let mut i: usize = 0;
        proof {
            assert(s.skip(0) =~= s);
            assert(s.take(0) + put(s, k@, v) =~= put(s, k@, v));
        }
        while i < self.entries.len()
            invariant
                i <= self.entries@.len() == s.len(),
                s == old(self)@,
                self@ == s,
                s.take(i as int) + put(s.skip(i as int), k@, v) == put(s, k@, v),
            decreases s.len() - i,
        {
            let ghost t = s.skip(i as int);
            proof {
                assert(t.drop_first() =~= s.skip(i + 1));
            }
            if text::same(self.entries[i].0.as_str(), k.as_str()) {
                self.entries.set(i, (k, v));
                proof {
                    assert(self@ =~= s.take(i as int) + (seq![(k@, v)] + s.skip(i + 1)));
                }
                return ;
            }
            if precedes(k.as_str(), self.entries[i].0.as_str()) {
                self.entries.insert(i, (k, v));
                proof {
                    assert(self@ =~= s.take(i as int) + (seq![(k@, v)] + t));
                }
                return ;
            }
            proof {
                assert(s.take(i as int) + (seq![t[0]] + put(s.skip(i + 1), k@, v)) =~= s.take(i + 1)
                    + put(s.skip(i + 1), k@, v));
            }
            i = i + 1;
        }
        self.entries.push((k, v));
        proof {
            assert(s.skip(i as int) =~= Seq::empty());
            assert(self@ =~= s.take(i as int) + seq![(k@, v)]);
        }
    }

    /// Replaces the value of the entry at `i`.
    pub fn set_value(&mut self, i: usize, v: V)
        requires
            i < old(self)@.len(),
        ensures
            final(self)@ == old(self)@.update(i as int, (old(self)@[i as int].0, v)),
    {
        let ghost s = self@;
        let k: String = self.entries[i].0.clone();
        self.entries.set(i, (k, v));
        proof {
            assert(self@ =~= s.update(i as int, (s[i as int].0, v)));
        }
    }

    /// Takes the key `k` out; tells whether it was there.
    pub fn remove(&mut self, k: &str) -> (r: bool)
        ensures
            final(self)@ == without(old(self)@, k@),
            r == (lookup(old(self)@, k@) is Some),
    {
        let ghost s = self@;
        let mut i: usize = 0;
        proof {
            assert(s.skip(0) =~= s);
            assert(s.take(0) + without(s, k@) =~= without(s, k@));
        }
        while i < self.entries.len()
            invariant
                i <= self.entries@.len() == s.len(),
                s == old(self)@,
                self@ == s,
                s.take(i as int) + without(s.skip(i as int), k@) == without(s, k@),
                lookup(s.skip(i as int), k@) == lookup(s, k@),
            decreases s.len() - i,
        {
            let ghost t = s.skip(i as int);
            proof {
                assert(t.drop_first() =~= s.skip(i + 1));
            }
            if text::same(self.entries[i].0.as_str(), k) {
                let _gone: (String, V) = self.entries.remove(i);
                proof {
                    assert(self@ =~= s.take(i as int) + s.skip(i + 1));
                }
                return true;
            }
            proof {
                assert(s.take(i as int) + (seq![t[0]] + without(s.skip(i + 1), k@)) =~= s.take(i + 1)
                    + without(s.skip(i + 1), k@));
            }
            i = i + 1;
        }
        proof {
            assert(s.skip(i as int) =~= Seq::empty());
            assert(s.take(i as int) + Seq::<(Seq<char>, V)>::empty() =~= s);
        }
        false
    }
}


/// `x` put into the sorted `s`, after what does not exceed it.
pub open spec fn sorted_in(s: Seq<Seq<char>>, x: Seq<char>) -> Seq<Seq<char>>
    decreases s.len(),
{
    if s.len() == 0 {
        seq![x]
    } else if before(x, s.last()) {
        sorted_in(s.drop_last(), x).push(s.last())
    } else {
        s.push(x)
    }
}

/// The strings in order: `sort`.
pub open spec fn in_order(s: Seq<Seq<char>>) -> Seq<Seq<char>>
    decreases s.len(),
{
    if s.len() == 0 {
        Seq::empty()
    } else {
        sorted_in(in_order(s.drop_last()), s.last())
    }
}

/// Whether no string comes after a later one.
pub open spec fn ascending(s: Seq<Seq<char>>) -> bool {
    forall|i: int, j: int| 0 <= i < j < s.len() ==> !before(#[trigger] s[j], #[trigger] s[i])
}

proof fn sorted_in_ascending(s: Seq<Seq<char>>, x: Seq<char>)
    requires
        ascending(s),
    ensures
        ascending(sorted_in(s, x)),
        sorted_in(s, x).to_multiset() =~= s.to_multiset().insert(x),
        sorted_in(s, x).len() == s.len() + 1,
    decreases s.len(),
{
    broadcast use vstd::seq_lib::group_to_multiset_ensures;

    let r = sorted_in(s, x);
    if s.len() == 0 {
        assert(r =~= s.push(x));
    } else if before(x, s.last()) {
        let t = s.drop_last();
        assert(ascending(t)) by {
            assert forall|i: int, j: int| 0 <= i < j < t.len() implies !before(
                #[trigger] t[j],
                #[trigger] t[i],
            ) by {
                assert(t[i] == s[i] && t[j] == s[j]);
            }
        }
        sorted_in_ascending(t, x);
        let q = sorted_in(t, x);
        assert(t.push(s.last()) =~= s);
        assert forall|i: int, j: int| 0 <= i < j < r.len() implies !before(
            #[trigger] r[j],
            #[trigger] r[i],
        ) by {
            if j == r.len() - 1 {
                assert(q.contains(q[i]));
                assert(q.to_multiset().count(q[i]) > 0);
                assert(q[i] == r[i]);
                if q[i] == x {
                    if before(s.last(), x) {
                        before_transitive(x, s.last(), x);
                        before_irreflexive(x);
                    }
                } else {
                    assert(t.to_multiset().count(q[i]) > 0);
                    assert(t.contains(q[i]));
                    let m = choose|m: int| 0 <= m < t.len() && t[m] == q[i];
                    assert(s[m] == q[i]);
                    assert(!before(s[s.len() - 1], s[m]));
                }
            } else {
                assert(r[i] == q[i] && r[j] == q[j]);
            }
        }
    } else {
        assert forall|i: int, j: int| 0 <= i < j < r.len() implies !before(
            #[trigger] r[j],
            #[trigger] r[i],
        ) by {
            if j == r.len() - 1 {
                if i < s.len() - 1 && before(x, s[i]) {
                    before_total(s[i], s.last());
                    if before(s.last(), s[i]) {
                        assert(!before(s[s.len() - 1], s[i]));
                    } else if s[i] != s.last() {
                        before_transitive(x, s[i], s.last());
                    }
                }
            } else {
                assert(r[i] == s[i] && r[j] == s[j]);
            }
        }
    }
}

/// Sorting orders the strings and keeps each of them.
pub proof fn in_order_sorts(s: Seq<Seq<char>>)
    ensures
        ascending(in_order(s)),
        in_order(s).to_multiset() =~= s.to_multiset(),
        in_order(s).len() == s.len(),
    decreases s.len(),
{
    broadcast use vstd::seq_lib::group_to_multiset_ensures;

    if s.len() > 0 {
        in_order_sorts(s.drop_last());
        sorted_in_ascending(in_order(s.drop_last()), s.last());
        assert(s.drop_last().push(s.last()) =~= s);
    } else {
        assert(s =~= Seq::empty());
    }
}

/// A sorted copy holds the same strings.
pub proof fn in_order_contains(s: Seq<Seq<char>>, x: Seq<char>)
    ensures
        in_order(s).contains(x) <==> s.contains(x),
{
    broadcast use vstd::seq_lib::group_to_multiset_ensures;

    in_order_sorts(s);
    assert(in_order(s).contains(x) <==> in_order(s).to_multiset().count(x) > 0);
    assert(s.contains(x) <==> s.to_multiset().count(x) > 0);
}

/// A sorted copy of the strings.
pub fn sort_strings(v: &Vec<String>) -> (r: Vec<String>)
    ensures
        text::views(r@) == in_order(text::views(v@)),
        r@.len() == v@.len(),
{
    let ghost s = text::views(v@);
    let mut out: Vec<String> = Vec::new();
    let mut i: usize = 0;
    proof {
        assert(s.take(0) =~= Seq::empty());
        assert(text::views(out@) =~= Seq::empty());
    }
    while i < v.len()
        invariant
            i <= v@.len(),
            s == text::views(v@),
            out@.len() == i,
            text::views(out@) == in_order(s.take(i as int)),
        decreases v@.len() - i,
    {
        let ghost before_out = text::views(out@);
        let ghost x = v@[i as int]@;
        let mut k: usize = out.len();
        proof {
            assert(before_out.take(k as int) =~= before_out);
            assert(sorted_in(before_out, x) =~= sorted_in(before_out.take(k as int), x)
                + before_out.skip(k as int));
        }
        while k > 0 && precedes(v[i].as_str(), out[k - 1].as_str())
            invariant
                i < v@.len(),
                k <= out@.len() == i,
                x == v@[i as int]@,
                before_out == text::views(out@),
                sorted_in(before_out, x) == sorted_in(before_out.take(k as int), x)
                    + before_out.skip(k as int),
            decreases k,
        {
            proof {
                let t = before_out.take(k as int);
                assert(t.drop_last() =~= before_out.take(k - 1));
                assert(t.last() == out@[k - 1]@);
                assert(sorted_in(before_out.take(k - 1), x).push(t.last()) + before_out.skip(
                    k as int,
                ) =~= sorted_in(before_out.take(k - 1), x) + before_out.skip(k - 1));
            }
            k = k - 1;
        }
        proof {
            let t = before_out.take(k as int);
            if k > 0 {
                assert(t.last() == out@[k - 1]@);
            }
            assert(sorted_in(t, x) =~= t.push(x));
            assert(s.take(i + 1).drop_last() =~= s.take(i as int));
            assert(s.take(i + 1).last() == x);
        }
        out.insert(k, v[i].clone());
        proof {
            assert(text::views(out@) =~= before_out.take(k as int).push(x) + before_out.skip(
                k as int,
            ));
        }
        i = i + 1;
    }
    proof {
        assert(s.take(i as int) =~= s);
    }
    out
}

impl<V> StrMap<StrMap<V>> {
    /// Puts `v` under `x` in the inner map of `k`, which is made where there is none.
    pub fn insert_inner(&mut self, k: &str, x: &str, v: V)
        requires
            sorted(old(self)@),
        ensures
            sorted(final(self)@),
            nested(final(self)@) == put2(nested(old(self)@), k@, x@, v),
    {
        let ghost s = self@;
        let mut i: usize = 0;
        proof {
            assert(nested(s).skip(0) =~= nested(s));
        }
        while i < self.entries.len()
            invariant
                i <= self.entries@.len() == s.len(),
                s == old(self)@,
                self@ == s,
                sorted(s),
                lookup(nested(s).skip(i as int), k@) == lookup(nested(s), k@),
                forall|j: int| 0 <= j < i ==> s[j].0 != k@,
            decreases s.len() - i,
        {
            proof {
                assert(nested(s).skip(i as int).drop_first() =~= nested(s).skip(i + 1));
            }
            if text::same(self.entries[i].0.as_str(), k) {
                let mut inner: StrMap<V> = StrMap::new();
                std::mem::swap(&mut inner, &mut self.entries[i].1);
                inner.insert(x.to_owned(), v);
                proof {
                    assert(nested(s)[i as int].0 == k@);
                }
                self.entries[i].1 = inner;
                proof {
                    assert forall|j: int| 0 <= j < i implies (#[trigger] nested(s)[j]).0 != k@
                        && !before(k@, nested(s)[j].0) by {
                        assert(before(s[j].0, s[i as int].0));
                        if before(k@, s[j].0) {
                            before_transitive(k@, s[j].0, k@);
                        }
                        before_irreflexive(k@);
                    }
                    put_replaces(nested(s), k@, i as int, inner@);
                    assert(nested(self@) =~= nested(s).update(i as int, (k@, inner@)));
                    assert forall|a: int, b: int| 0 <= a < b < self@.len() implies before(
                        #[trigger] self@[a].0,
                        #[trigger] self@[b].0,
                    ) by {
                        assert(self@[a].0 == s[a].0 && self@[b].0 == s[b].0);
                    }
                }
                return ;
            }
            i = i + 1;
        }
        let mut inner: StrMap<V> = StrMap::new();
        inner.insert(x.to_owned(), v);
        proof {
            nested_put(s, k@, inner);
            put_sorted(s, k@, inner);
        }
        self.insert(k.to_owned(), inner);
    }
}

/// Nested entries after `v` went under `x` in the inner map of `k`.
pub open spec fn put2<V>(
    s: Seq<(Seq<char>, Seq<(Seq<char>, V)>)>,
    k: Seq<char>,
    x: Seq<char>,
    v: V,
) -> Seq<(Seq<char>, Seq<(Seq<char>, V)>)> {
    let inner = match lookup(s, k) {
        Some(m) => m,
        None => Seq::empty(),
    };
    put(s, k, put(inner, x, v))
}

/// A key that is there is replaced in its place.
proof fn put_replaces<V>(s: Seq<(Seq<char>, V)>, k: Seq<char>, i: int, v: V)
    requires
        0 <= i < s.len(),
        s[i].0 == k,
        forall|j: int| 0 <= j < i ==> (#[trigger] s[j]).0 != k && !before(k, s[j].0),
    ensures
        put(s, k, v) == s.update(i, (k, v)),
    decreases s.len(),
{
    if i == 0 {
        assert(seq![(k, v)] + s.drop_first() =~= s.update(0, (k, v)));
    } else {
        let t = s.drop_first();
        assert forall|j: int| 0 <= j < i - 1 implies (#[trigger] t[j]).0 != k && !before(
            k,
            t[j].0,
        ) by {
            assert(t[j] == s[j + 1]);
        }
        put_replaces(t, k, i - 1, v);
        assert(seq![s[0]] + t.update(i - 1, (k, v)) =~= s.update(i, (k, v)));
    }
}

} // verus!
