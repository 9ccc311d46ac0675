//! The revoked tokens, and when each is forgotten.

use vstd::prelude::*;
use crate::flux::auth;
use crate::flux::auth::{Claims, RevocationCheck};
use crate::keyed;
use crate::keyed::StrMap;

verus! {

/// A revoked token. Past `expires_at` the token fails by itself; without it the entry is
/// kept until it is taken back.
#[derive(Clone, Debug, PartialEq, Eq)]
pub struct RevocationEntry {
    pub jti: String,
    pub expires_at: Option<u64>,
}

/// The entries by what they say.
pub open spec fn entry_views(s: Seq<RevocationEntry>) -> Seq<(Seq<char>, Option<u64>)> {
    Seq::new(s.len(), |i: int| (s[i].jti@, s[i].expires_at))
}

/// Whether an entry still matters at `now`.
pub open spec fn live(expires_at: Option<u64>, now: u64) -> bool {
    expires_at matches Some(exp) ==> exp > now
}

fn is_live(expires_at: Option<u64>, now: u64) -> (r: bool)
    ensures
        r == live(expires_at, now),
{
    match expires_at {
        Some(exp) => exp > now,
        None => true,
    }
}

/// The entries that still matter.
pub open spec fn kept(s: Seq<(Seq<char>, Option<u64>)>, now: u64) -> Seq<(Seq<char>, Option<u64>)>
    decreases s.len(),
{
    if s.len() == 0 {
        Seq::empty()
    } else if live(s.last().1, now) {
        kept(s.drop_last(), now).push(s.last())
    } else {
        kept(s.drop_last(), now)
    }
}

/// The denylist that a file with these entries holds at `now`.
pub open spec fn loaded(s: Seq<(Seq<char>, Option<u64>)>, now: u64) -> Seq<
    (Seq<char>, Option<u64>),
>
    decreases s.len(),
{
    if s.len() == 0 {
        Seq::empty()
    } else if live(s.last().1, now) {
        keyed::put(loaded(s.drop_last(), now), s.last().0, s.last().1)
    } else {
        loaded(s.drop_last(), now)
    }
}

/// The denylist of tokens, in the order of their ids.
#[derive(Clone, Debug)]
pub struct RevocationStore {
    inner: StrMap<Option<u64>>,
}

impl View for RevocationStore {
    type V = Seq<(Seq<char>, Option<u64>)>;

    closed spec fn view(&self) -> Seq<(Seq<char>, Option<u64>)> {
        self.inner@
    }
}

impl RevocationStore {
    /// The ids stand in order, none twice.
    pub open spec fn wf(&self) -> bool {
        keyed::sorted(self@)
    }

    /// The denylist of a file: nothing where there was no file, or none that could be read.
    /// What no longer matters at `now` is left out.
    pub fn load(entries: &Option<Vec<RevocationEntry>>, now: u64) -> (r: Self)
        ensures
            r.wf(),
            r@ == (match *entries {
                Some(v) => loaded(entry_views(v@), now),
                None => Seq::empty(),
            }),
    {
        let mut inner: StrMap<Option<u64>> = StrMap::new();
        if let Some(v) = entries {
            let ghost vs = entry_views(v@);
            let mut i: usize = 0;
            proof {
                assert(vs.take(0) =~= Seq::empty());
            }
            while i < v.len()
                invariant
                    i <= v@.len(),
                    vs == entry_views(v@),
                    keyed::sorted(inner@),
                    inner@ == loaded(vs.take(i as int), now),
                decreases v@.len() - i,
            {
                proof {
                    assert(vs.take(i + 1).drop_last() =~= vs.take(i as int));
                    assert(vs.take(i + 1).last() == vs[i as int]);
                }
                if is_live(v[i].expires_at, now) {
                    proof {
                        keyed::put_sorted(inner@, v@[i as int].jti@, v@[i as int].expires_at);
                    }
                    inner.insert(v[i].jti.clone(), v[i].expires_at);
                }
                i = i + 1;
            }
            proof {
                assert(vs.take(i as int) =~= vs);
            }
        }
        RevocationStore { inner }
    }

    /// A denylist without a file.
    pub fn in_memory() -> (r: Self)
        ensures
            r.wf(),
            r@.len() == 0,
    {
        RevocationStore { inner: StrMap::new() }
    }

    /// Puts a token on the denylist.
    pub fn revoke(&mut self, jti: String, expires_at: Option<u64>)
        requires
            old(self).wf(),
        ensures
            final(self).wf(),
            final(self)@ == keyed::put(old(self)@, jti@, expires_at),
    {
        proof {
            keyed::put_sorted(self@, jti@, expires_at);
        }
        self.inner.insert(jti, expires_at);
    }

    /// Takes a token off the denylist; tells whether it was there.
    pub fn unrevoke(&mut self, jti: &str) -> (r: bool)
        requires
            old(self).wf(),
        ensures
            final(self).wf(),
            final(self)@ == keyed::without(old(self)@, jti@),
            r == (keyed::lookup(old(self)@, jti@) is Some),
    {
        proof {
            keyed::without_sorted(self@, jti@);
        }
        self.inner.remove(jti)
    }

    /// The entries, in the order of their ids.
    pub fn list(&self) -> (r: Vec<RevocationEntry>)
        ensures
            entry_views(r@) == self@,
    {
        let mut out: Vec<RevocationEntry> = Vec::new();
        let mut i: usize = 0;
        while i < self.inner.len()
            invariant
                i <= self@.len(),
                out@.len() == i,
                forall|j: int| 0 <= j < i ==> ((#[trigger] out@[j]).jti@, out@[j].expires_at)
                    == self@[j],
            decreases self@.len() - i,
        {
            out.push(
                RevocationEntry {
                    jti: self.inner.key(i).clone(),
                    expires_at: *self.inner.value(i),
                },
            );
            i = i + 1;
        }
        proof {
            assert(entry_views(out@) =~= self@);
        }
        out
    }

    /// Forgets the entries that no longer matter at `now`; tells how many.
    pub fn prune(&mut self, now: u64) -> (r: usize)
        requires
            old(self).wf(),
        ensures
            final(self).wf(),
            final(self)@ == kept(old(self)@, now),
            r == old(self)@.len() - final(self)@.len(),
    {
        let ghost s = self@;
        let mut left: StrMap<Option<u64>> = StrMap::new();
        let mut i: usize = 0;
        proof {
            assert(s.take(0) =~= Seq::empty());
        }
        while i < self.inner.len()
            invariant
                i <= s.len(),
                s == self@,
                self@ == old(self)@,
                keyed::sorted(s),
                left@ == kept(s.take(i as int), now),
            decreases s.len() - i,
        {
            proof {
                assert(s.take(i + 1).drop_last() =~= s.take(i as int));
                kept_entries(s.take(i as int), now);
                assert forall|j: int| 0 <= j < left@.len() implies keyed::before(
                    (#[trigger] left@[j]).0,
                    s[i as int].0,
                ) by {
                    let m = choose|m: int|
                        0 <= m < s.take(i as int).len() && s.take(i as int)[m] == left@[j];
                    assert(s.take(i as int)[m] == s[m]);
                }
                keyed::put_at_end(left@, s[i as int].0, s[i as int].1);
            }
            let expires_at: Option<u64> = *self.inner.value(i);
            if is_live(expires_at, now) {
                left.insert(self.inner.key(i).clone(), expires_at);
            }
            i = i + 1;
        }
        proof {
            assert(s.take(i as int) =~= s);
            kept_entries(s, now);
            kept_sorted(s, now);
        }
        let gone: usize = self.inner.len() - left.len();
        self.inner = left;
        gone
    }
}

impl RevocationCheck for RevocationStore {
    open spec fn revoked(&self, jti: Seq<char>) -> bool {
        keyed::lookup(self@, jti) is Some
    }

    fn is_revoked(&self, jti: &str) -> (r: bool) {
        self.inner.contains_key(jti)
    }
}

proof fn kept_entries(s: Seq<(Seq<char>, Option<u64>)>, now: u64)
    ensures
        kept(s, now).len() <= s.len(),
        forall|i: int|
            0 <= i < kept(s, now).len() ==> live((#[trigger] kept(s, now)[i]).1, now) && exists|
                j: int,
            |
                0 <= j < s.len() && s[j] == kept(s, now)[i],
    decreases s.len(),
{
    if s.len() > 0 {
        let t = s.drop_last();
        kept_entries(t, now);
        assert forall|i: int| 0 <= i < kept(s, now).len() implies live(
            (#[trigger] kept(s, now)[i]).1,
            now,
        ) && exists|j: int| 0 <= j < s.len() && s[j] == kept(s, now)[i] by {
            if i < kept(t, now).len() {
                assert(kept(s, now)[i] == kept(t, now)[i]);
                let j = choose|j: int| 0 <= j < t.len() && t[j] == kept(t, now)[i];
                assert(s[j] == kept(s, now)[i]);
            } else {
                assert(s[s.len() - 1] == kept(s, now)[i]);
            }
        }
    }
}

proof fn kept_sorted(s: Seq<(Seq<char>, Option<u64>)>, now: u64)
    requires
        keyed::sorted(s),
    ensures
        keyed::sorted(kept(s, now)),
    decreases s.len(),
{
    if s.len() > 0 {
        let t = s.drop_last();
        assert(keyed::sorted(t));
        kept_sorted(t, now);
        kept_entries(t, now);
        let k = kept(s, now);
        assert forall|i: int, j: int| 0 <= i < j < k.len() implies keyed::before(
            #[trigger] k[i].0,
            #[trigger] k[j].0,
        ) by {
            let m = choose|m: int| 0 <= m < t.len() && t[m] == kept(t, now)[i];
            assert(k[i] == kept(t, now)[i]);
            if j < kept(t, now).len() {
                assert(k[j] == kept(t, now)[j]);
            } else {
                assert(k[j] == s.last());
                assert(s[m] == t[m]);
            }
        }
    }
}

/// A token that is put on the denylist is revoked; all others are as they were.
pub proof fn revoking_revokes(s: Seq<(Seq<char>, Option<u64>)>, jti: Seq<char>, exp: Option<u64>)
    ensures
        keyed::lookup(keyed::put(s, jti, exp), jti) == Some(exp),
        forall|x: Seq<char>|
            x != jti ==> #[trigger] keyed::lookup(keyed::put(s, jti, exp), x) == keyed::lookup(
                s,
                x,
            ),
{
    assert forall|x: Seq<char>| #[trigger]
        keyed::lookup(keyed::put(s, jti, exp), x) == (if x == jti {
            Some(exp)
        } else {
            keyed::lookup(s, x)
        }) by {
        keyed::lookup_put(s, jti, exp, x);
    }
}

/// A token on the denylist is refused, whatever else it claims.
pub proof fn revoked_tokens_are_refused(c: Claims, store: RevocationStore, now: u64, max: u64)
    requires
        c.jti matches Some(jti) && keyed::lookup(store@, jti@) is Some,
    ensures
        auth::claims_error(c, store, now, max) is Some,
{
}

/// A token that is taken off the denylist is not revoked; all others are as they were.
pub proof fn unrevoking_undoes(s: Seq<(Seq<char>, Option<u64>)>, jti: Seq<char>)
    requires
        keyed::sorted(s),
    ensures
        keyed::lookup(keyed::without(s, jti), jti) is None,
        forall|x: Seq<char>|
            x != jti ==> #[trigger] keyed::lookup(keyed::without(s, jti), x) == keyed::lookup(s, x),
{
    assert forall|x: Seq<char>| #[trigger]
        keyed::lookup(keyed::without(s, jti), x) == (if x == jti {
            None
        } else {
            keyed::lookup(s, x)
        }) by {
        keyed::lookup_without(s, jti, x);
    }
}

/// What is forgotten at `now` is what no longer matters then, and nothing else.
pub proof fn pruning_forgets_the_expired(s: Seq<(Seq<char>, Option<u64>)>, now: u64, x: Seq<char>)
    requires
        keyed::sorted(s),
    ensures
        keyed::lookup(kept(s, now), x) == (match keyed::lookup(s, x) {
            Some(exp) => if live(exp, now) {
                Some(exp)
            } else {
                None
            },
            None => None,
        }),
{
    kept_sorted(s, now);
    kept_entries(s, now);
    keyed::lookup_some(s, x);
    keyed::lookup_some(kept(s, now), x);
    if keyed::lookup(kept(s, now), x) is Some {
        let i = choose|i: int|
            0 <= i < kept(s, now).len() && (#[trigger] kept(s, now)[i]).0 == x;
        let j = choose|j: int| 0 <= j < s.len() && s[j] == kept(s, now)[i];
        keyed::lookup_at(kept(s, now), i);
        keyed::lookup_at(s, j);
    }
    if exists|i: int| 0 <= i < s.len() && (#[trigger] s[i]).0 == x {
        let i = choose|i: int| 0 <= i < s.len() && (#[trigger] s[i]).0 == x;
        keyed::lookup_at(s, i);
        if live(s[i].1, now) {
            kept_holds(s, now, i);
        }
    }
}

proof fn kept_holds(s: Seq<(Seq<char>, Option<u64>)>, now: u64, i: int)
    requires
        0 <= i < s.len(),
        live(s[i].1, now),
    ensures
        exists|j: int| 0 <= j < kept(s, now).len() && #[trigger] kept(s, now)[j] == s[i],
    decreases s.len(),
{
    let t = s.drop_last();
    if i == s.len() - 1 {
        assert(kept(s, now)[kept(t, now).len() as int] == s[i]);
    } else {
        kept_holds(t, now, i);
        let j = choose|j: int| 0 <= j < kept(t, now).len() && #[trigger] kept(t, now)[j] == t[i];
        assert(kept(s, now)[j] == s[i]);
    }
}

/// The denylist survives a restart: what is read back from its own list is the denylist
/// without what no longer matters.
pub proof fn denylist_survives_reload(s: Seq<(Seq<char>, Option<u64>)>, now: u64)
    requires
        keyed::sorted(s),
    ensures
        loaded(s, now) == kept(s, now),
    decreases s.len(),
{
    if s.len() > 0 {
        let t = s.drop_last();
        assert(keyed::sorted(t));
        denylist_survives_reload(t, now);
        kept_entries(t, now);
        if live(s.last().1, now) {
            let k = kept(t, now);
            assert forall|i: int| 0 <= i < k.len() implies keyed::before(
                (#[trigger] k[i]).0,
                s.last().0,
            ) by {
                let m = choose|m: int| 0 <= m < t.len() && t[m] == k[i];
                assert(s[m] == t[m]);
            }
            keyed::put_at_end(k, s.last().0, s.last().1);
            assert(k.push((s.last().0, s.last().1)) =~= k.push(s.last()));
        }
    }
}

} // verus!
