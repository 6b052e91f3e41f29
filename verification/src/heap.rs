//! Min-heap of sleep deadlines.
//!
//! Each entry owns the reply capability of one suspended sleeper, modelled
//! here as the plain slot number of the capability-space slot that holds it.
//! The heap is kept as a vector sorted by deadline, ascending, with entries of
//! equal deadline in insertion order, so the earliest deadline stands at the
//! front and delivery among equal deadlines is first-in first-out.

use vstd::prelude::*;

verus! {

/// One suspended sleeper: the wall-clock deadline in nanoseconds and the
/// capability-space slot holding its reply capability. The entry owns the
/// slot; it is moved in at `push` and moved out at `pop_expired`.
pub struct TimerEvent {
    pub deadline_ns: u64,
    pub reply_cap: u64,
}

/// True when `s` is sorted by deadline, ascending.
pub open spec fn sorted_by_deadline(s: Seq<TimerEvent>) -> bool {
    forall|i: int, j: int|
        0 <= i <= j < s.len() ==> #[trigger] s[i].deadline_ns <= #[trigger] s[j].deadline_ns
}

/// The index at which an entry with deadline `d` is inserted: after every
/// entry whose deadline is less than or equal to `d`, so that entries with
/// equal deadlines keep their insertion order.
pub open spec fn stable_insert_pos(s: Seq<TimerEvent>, d: u64) -> int
    decreases s.len(),
{
    if s.len() == 0 {
        0
    } else if s[0].deadline_ns > d {
        0
    } else {
        1 + stable_insert_pos(s.drop_first(), d)
    }
}

/// In a sorted sequence, `stable_insert_pos` is the index found by scanning
/// past every entry whose deadline is at most `d`.
pub proof fn lemma_stable_insert_pos_is_scan(s: Seq<TimerEvent>, d: u64, i: int)
    requires
        0 <= i <= s.len(),
        forall|j: int| 0 <= j < i ==> #[trigger] s[j].deadline_ns <= d,
        i == s.len() || s[i].deadline_ns > d,
    ensures
        stable_insert_pos(s, d) == i,
    decreases i,
{
    if s.len() == 0 {
    } else if s[0].deadline_ns > d {
        assert(i == 0) by {
            if i > 0 {
                assert(s[0].deadline_ns <= d);
            }
        }
    } else {
        assert(i >= 1) by {
            if i == 0 {
                assert(s[i].deadline_ns > d);
            }
        }
        let s2 = s.drop_first();
        assert forall|j: int| 0 <= j < i - 1 implies #[trigger] s2[j].deadline_ns <= d by {
            assert(s[j + 1].deadline_ns <= d);
        }
        lemma_stable_insert_pos_is_scan(s2, d, i - 1);
    }
}

/// The deadline heap. Owns the reply capabilities of all pending sleepers.
pub struct TimerHeap {
    entries: Vec<TimerEvent>,
}

impl View for TimerHeap {
    type V = Seq<TimerEvent>;

    closed spec fn view(&self) -> Seq<TimerEvent> {
        self.entries@
    }
}

impl TimerHeap {
    /// The heap's representation invariant: entries sorted by deadline.
    pub open spec fn well_formed(&self) -> bool {
        sorted_by_deadline(self@)
    }

    pub fn new() -> (r: Self)
        ensures
            r@ == Seq::<TimerEvent>::empty(),
            r.well_formed(),
    {
        TimerHeap { entries: Vec::new() }
    }

    /// Enqueue a deadline, taking ownership of the reply-capability slot.
    pub fn push(&mut self, deadline_ns: u64, reply_cap: u64)
        requires
            old(self).well_formed(),
        ensures
            final(self).well_formed(),
            0 <= stable_insert_pos(old(self)@, deadline_ns) <= old(self)@.len(),
            final(self)@ == old(self)@.insert(
                stable_insert_pos(old(self)@, deadline_ns),
                TimerEvent { deadline_ns, reply_cap },
            ),
            final(self)@.len() == old(self)@.len() + 1,
    {
        let n = self.entries.len();
        let mut i: usize = 0;
        while i < n && self.entries[i].deadline_ns <= deadline_ns
            invariant
                0 <= i <= n,
                n == self.entries.len(),
                forall|j: int| 0 <= j < i ==> #[trigger] self.entries@[j].deadline_ns <= deadline_ns,
            decreases n - i,
        {
            i = i + 1;
        }
        proof {
            lemma_stable_insert_pos_is_scan(self.entries@, deadline_ns, i as int);
        }
        let ghost s_old = self.entries@;
        let ghost k = i as int;
        self.entries.insert(i, TimerEvent { deadline_ns, reply_cap });
        proof {
            let s_new = self.entries@;
            assert forall|p: int, q: int|
                0 <= p <= q < s_new.len() implies #[trigger] s_new[p].deadline_ns
                <= #[trigger] s_new[q].deadline_ns by {
                if p < k && q < k {
                    assert(s_new[p] == s_old[p]);
                    assert(s_new[q] == s_old[q]);
                } else if p < k && q == k {
                    assert(s_new[p] == s_old[p]);
                } else if p < k && q > k {
                    assert(s_new[p] == s_old[p]);
                    assert(s_new[q] == s_old[q - 1]);
                    assert(s_old[p].deadline_ns <= s_old[q - 1].deadline_ns);
                } else if p == k && q > k {
                    assert(s_new[q] == s_old[q - 1]);
                    assert(s_old[q - 1].deadline_ns > deadline_ns);
                } else if p > k && q > k {
                    assert(s_new[p] == s_old[p - 1]);
                    assert(s_new[q] == s_old[q - 1]);
                }
            }
        }
    }

    /// The earliest pending deadline, if any.
    pub fn peek_deadline(&self) -> (r: Option<u64>)
        requires
            self.well_formed(),
        ensures
            match r {
                Some(d) => {
                    &&& self@.len() > 0
                    &&& d == self@[0].deadline_ns
                    &&& forall|j: int| 0 <= j < self@.len() ==> d <= #[trigger] self@[j].deadline_ns
                },
                None => self@.len() == 0,
            },
    {
        if self.entries.len() == 0 {
            None
        } else {
            Some(self.entries[0].deadline_ns)
        }
    }

    /// Remove and return the earliest entry's reply capability, if and only if
    /// its deadline has passed: the returned entry has the minimum deadline of
    /// the whole heap and that deadline is at most `now_ns`.
    pub fn pop_expired(&mut self, now_ns: u64) -> (r: Option<u64>)
        requires
            old(self).well_formed(),
        ensures
            final(self).well_formed(),
            match r {
                Some(cap) => {
                    &&& old(self)@.len() > 0
                    &&& cap == old(self)@[0].reply_cap
                    &&& old(self)@[0].deadline_ns <= now_ns
                    &&& forall|j: int|
                        0 <= j < old(self)@.len() ==> old(self)@[0].deadline_ns
                            <= #[trigger] old(self)@[j].deadline_ns
                    &&& final(self)@ == old(self)@.drop_first()
                },
                None => {
                    &&& final(self)@ == old(self)@
                    &&& old(self)@.len() > 0 ==> old(self)@[0].deadline_ns > now_ns
                },
            },
    {
        if self.entries.len() > 0 && self.entries[0].deadline_ns <= now_ns {
            let ev = self.entries.remove(0);
            proof {
                assert(self.entries@ =~= old(self)@.drop_first());
            }
            Some(ev.reply_cap)
        } else {
            None
        }
    }

    pub fn is_empty(&self) -> (r: bool)
        ensures
            r == (self@.len() == 0),
    {
        self.entries.len() == 0
    }
}

} // verus!
