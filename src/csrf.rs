//! Single-use, time-bounded CSRF states of the authorization flow.
use vstd::prelude::*;
use crate::text::str_eq;

verus! {

/// How long an issued state stays valid, in seconds.
pub const CSRF_STATE_TTL_SECS: u64 = 600;

/// Whether a state issued at `issued` may still be used at `now`.
pub open spec fn state_fresh(issued: u64, now: u64) -> bool {
    now <= issued + CSRF_STATE_TTL_SECS
}

/// The entries whose state is not `key`.
pub open spec fn without(s: Seq<(Seq<char>, u64)>, key: Seq<char>) -> Seq<(Seq<char>, u64)>
    decreases s.len(),
{
    if s.len() == 0 {
        s
    } else if s.last().0 == key {
        without(s.drop_last(), key)
    } else {
        without(s.drop_last(), key).push(s.last())
    }
}

/// The entries that are still fresh at `now`.
pub open spec fn fresh_only(s: Seq<(Seq<char>, u64)>, now: u64) -> Seq<(Seq<char>, u64)>
    decreases s.len(),
{
    if s.len() == 0 {
        s
    } else if state_fresh(s.last().1, now) {
        fresh_only(s.drop_last(), now).push(s.last())
    } else {
        fresh_only(s.drop_last(), now)
    }
}

/// Whether some entry holds state `key` and is fresh at `now`.
pub open spec fn holds_fresh(s: Seq<(Seq<char>, u64)>, key: Seq<char>, now: u64) -> bool {
    exists|i: int| 0 <= i < s.len() && s[i].0 == key && state_fresh(#[trigger] s[i].1, now)
}

/// No entry of `without(s, key)` holds `key`.
proof fn lemma_without_drops_key(s: Seq<(Seq<char>, u64)>, key: Seq<char>)
    ensures
        forall|i: int| 0 <= i < without(s, key).len() ==> (#[trigger] without(s, key)[i]).0 != key,
    decreases s.len(),
{
    if s.len() > 0 {
        lemma_without_drops_key(s.drop_last(), key);
        let w = without(s.drop_last(), key);
        if s.last().0 != key {
            assert forall|i: int| 0 <= i < w.push(s.last()).len() implies (#[trigger] w.push(
                s.last(),
            )[i]).0 != key by {
                if i < w.len() {
                    assert(w.push(s.last())[i] == w[i]);
                }
            }
        }
    }
}

/// A state can be used once only: after it has been consumed, no later
/// check accepts it, whatever the time.
pub proof fn lemma_state_single_use(s: Seq<(Seq<char>, u64)>, key: Seq<char>, now: u64)
    ensures
        !holds_fresh(without(s, key), key, now),
{
    lemma_without_drops_key(s, key);
}

/// A state just issued is accepted by a check made before it goes stale.
pub proof fn lemma_issued_state_accepted(s: Seq<(Seq<char>, u64)>, state: Seq<char>, issued: u64, now: u64)
    requires
        state_fresh(issued, now),
    ensures
        holds_fresh(fresh_only(s, issued).push((state, issued)), state, now),
{
    let t = fresh_only(s, issued).push((state, issued));
    let i = t.len() - 1;
    assert(t[i] == (state, issued));
    assert(0 <= i < t.len() && t[i].0 == state && state_fresh(t[i].1, now));
}

/// The states handed out and not yet used, with the time each was issued.
pub struct CsrfStore {
    entries: Vec<(String, u64)>,
}

impl View for CsrfStore {
    type V = Seq<(Seq<char>, u64)>;

    closed spec fn view(&self) -> Seq<(Seq<char>, u64)> {
        Seq::new(self.entries@.len(), |i: int| (self.entries@[i].0@, self.entries@[i].1))
    }
}

impl CsrfStore {
    pub fn new() -> (r: Self)
        ensures
            r@ == Seq::<(Seq<char>, u64)>::empty(),
    {
        let r = CsrfStore { entries: Vec::new() };
        assert(r@ =~= Seq::<(Seq<char>, u64)>::empty());
        r
    }

    /// Records a newly issued state, dropping the states that are no longer
    /// fresh so that the store does not grow without bound.
    pub fn issue(&mut self, state: String, now: u64)
        ensures
            final(self)@ == fresh_only(old(self)@, now).push((state@, now)),
    {
        let ghost old_view = self@;
        let mut kept: Vec<(String, u64)> = Vec::new();
        let mut i: usize = 0;
        while i < self.entries.len()
            invariant
                0 <= i <= self.entries.len(),
                old_view == self@,
                Seq::new(kept@.len(), |k: int| (kept@[k].0@, kept@[k].1)) == fresh_only(
                    self@.subrange(0, i as int),
                    now,
                ),
            decreases self.entries.len() - i,
        {
            let ghost before = self@.subrange(0, i as int);
            assert(self@.subrange(0, i + 1).drop_last() =~= before);
            let ghost kv = Seq::new(kept@.len(), |k: int| (kept@[k].0@, kept@[k].1));
            if now as u128 <= self.entries[i].1 as u128 + CSRF_STATE_TTL_SECS as u128 {
                let e = (self.entries[i].0.clone(), self.entries[i].1);
                kept.push(e);
                assert(Seq::new(kept@.len(), |k: int| (kept@[k].0@, kept@[k].1)) =~= kv.push(
                    self@[i as int],
                ));
            }
            i += 1;
        }
        assert(self@.subrange(0, self.entries.len() as int) =~= self@);
        let ghost kv = Seq::new(kept@.len(), |k: int| (kept@[k].0@, kept@[k].1));
        kept.push((state, now));
        self.entries = kept;
        assert(self@ =~= kv.push((state@, now)));
    }

    /// Uses up state `state`: it is removed from the store, and the result
    /// says whether it had been issued and was still fresh at `now`.
    pub fn consume(&mut self, state: &str, now: u64) -> (r: bool)
        ensures
            r == holds_fresh(old(self)@, state@, now),
            final(self)@ == without(old(self)@, state@),
    {
        let ghost old_view = self@;
        let mut kept: Vec<(String, u64)> = Vec::new();
        let mut found = false;
        let mut i: usize = 0;
        while i < self.entries.len()
            invariant
                0 <= i <= self.entries.len(),
                old_view == self@,
                Seq::new(kept@.len(), |k: int| (kept@[k].0@, kept@[k].1)) == without(
                    self@.subrange(0, i as int),
                    state@,
                ),
                found == holds_fresh(self@.subrange(0, i as int), state@, now),
            decreases self.entries.len() - i,
        {
            let ghost before = self@.subrange(0, i as int);
            let ghost after = self@.subrange(0, i + 1);
            assert(after.drop_last() =~= before);
            assert(after.last() == self@[i as int]);
            let ghost kv = Seq::new(kept@.len(), |k: int| (kept@[k].0@, kept@[k].1));
            let same = str_eq(self.entries[i].0.as_str(), state);
            let fresh = now as u128 <= self.entries[i].1 as u128 + CSRF_STATE_TTL_SECS as u128;
            if same {
                if fresh {
                    assert(after[i as int].0 == state@ && state_fresh(after[i as int].1, now));
                }
                found = found || fresh;
            } else {
                let e = (self.entries[i].0.clone(), self.entries[i].1);
                kept.push(e);
                assert(Seq::new(kept@.len(), |k: int| (kept@[k].0@, kept@[k].1)) =~= kv.push(
                    self@[i as int],
                ));
            }
            assert(holds_fresh(after, state@, now) == (holds_fresh(before, state@, now) || (same
                && fresh))) by {
                if holds_fresh(after, state@, now) {
                    let j = choose|j: int|
                        0 <= j < after.len() && after[j].0 == state@ && state_fresh(
                            #[trigger] after[j].1,
                            now,
                        );
                    if j < i {
                        assert(before[j] == after[j]);
                    }
                }
                if holds_fresh(before, state@, now) {
                    let j = choose|j: int|
                        0 <= j < before.len() && before[j].0 == state@ && state_fresh(
                            #[trigger] before[j].1,
                            now,
                        );
                    assert(after[j] == before[j]);
                }
            }
            i += 1;
        }
        assert(self@.subrange(0, self.entries.len() as int) =~= self@);
        self.entries = kept;
        found
    }
}

} // verus!
