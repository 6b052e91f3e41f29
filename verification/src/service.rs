//! The service state and its core operations.
//!
//! `MarchService` carries the time base (`initial_ns`, `initial_ticks`,
//! `freq`, `drift_ppb`), the deadline heap, the timer-source registry and the
//! reference selection. The raw hardware tick counter, the kernel alarm and
//! the device brokers live outside the library: each operation takes the tick
//! sample or the discovery results as arguments and returns what the caller
//! must carry back out (a reply capability to invoke, an alarm tick count to
//! arm, a reference whose driver must be read).

use vstd::arithmetic::div_mod::{
    lemma_fundamental_div_mod, lemma_mod_bound, lemma_small_mod,
};
use vstd::arithmetic::mul::lemma_mul_upper_bound;
use vstd::prelude::*;

use crate::heap::{TimerEvent, TimerHeap};

verus! {

/// Nominal frequency assumed when the kernel cannot report its own.
pub const DEFAULT_FREQ_HZ: u64 = 10_000_000;

/// One discovered hardware timer: its stable name from the device broker, its
/// advertised frequency in Hz, and the slot of the driver endpoint bound for
/// it. Entries are append-only within a run.
pub struct TimerSource {
    pub name: String,
    pub freq: u64,
    pub client: u64,
}

/// The time service state.
pub struct MarchService {
    /// Wall-clock nanoseconds corresponding to `initial_ticks`.
    pub initial_ns: u64,
    /// Raw tick-counter value sampled when `initial_ns` was set.
    pub initial_ticks: u64,
    /// Reference-timer frequency in Hz; always positive.
    pub freq: u64,
    /// Signed rate adjustment in parts per billion; 0 means none.
    pub drift_ppb: i64,
    /// Dispatcher loop flag.
    pub running: bool,
    /// Service endpoint capability slot.
    pub endpoint: u64,
    /// Shared reply-capability slot for synchronous replies.
    pub reply: u64,
    /// Receive-window slot for incoming transferred capabilities.
    pub recv: u64,
    /// Pending sleep deadlines, owning their reply capabilities.
    pub heap: TimerHeap,
    /// Discovered timer sources, append-only.
    pub timer_sources: Vec<TimerSource>,
    /// Index into `timer_sources` of the current wall-clock reference.
    pub reference_index: Option<usize>,
}

/// 2^64, the modulus of the raw tick counter and of the 64-bit results.
pub open spec fn pow2_64() -> int {
    0x1_0000_0000_0000_0000
}

/// Elapsed ticks from `b` to `a` on a counter that wraps modulo 2^64.
pub open spec fn wrapping_sub_u64(a: u64, b: u64) -> int {
    if a >= b {
        a - b
    } else {
        a - b + pow2_64()
    }
}

/// Ticks converted to nanoseconds at `freq` Hz, reduced to the 64-bit range.
pub open spec fn elapsed_ns_spec(dt_ticks: int, freq: int) -> int
    recommends
        freq > 0,
        dt_ticks >= 0,
{
    (dt_ticks * 1_000_000_000 / freq) % pow2_64()
}

/// Elapsed nanoseconds `e` with the drift rate applied: `e + e * ppb / 10^9`,
/// the correction truncated toward zero, the sum clamped to the 64-bit range.
pub open spec fn drift_adjusted_spec(e: int, ppb: int) -> int
    recommends
        0 <= e < pow2_64(),
{
    if ppb == 0 {
        e
    } else if ppb > 0 {
        let t = e + e * ppb / 1_000_000_000;
        if t > u64::MAX {
            u64::MAX as int
        } else {
            t
        }
    } else {
        let m = e * (-ppb) / 1_000_000_000;
        if m >= e {
            0
        } else {
            e - m
        }
    }
}

/// Wall-clock nanoseconds observed at tick sample `current_ticks`: the drift-
/// adjusted elapsed time since the base, added to `initial_ns` modulo 2^64.
pub open spec fn wall_time_spec(s: MarchService, current_ticks: u64) -> int
    recommends
        s.freq > 0,
{
    let dt = wrapping_sub_u64(current_ticks, s.initial_ticks);
    let e = elapsed_ns_spec(dt, s.freq as int);
    let a = drift_adjusted_spec(e, s.drift_ppb as int);
    (s.initial_ns + a) % pow2_64()
}

/// Monotonic nanoseconds observed at tick sample `current_ticks`: independent
/// of the base, the drift and the reference selection.
pub open spec fn mono_time_spec(s: MarchService, current_ticks: u64) -> int
    recommends
        s.freq > 0,
{
    elapsed_ns_spec(current_ticks as int, s.freq as int)
}

/// The tick count at which the kernel alarm must fire for a wall-clock
/// deadline: the inverse of the wall formula without the drift term, the
/// elapsed part saturated at zero for deadlines already past.
pub open spec fn alarm_ticks_spec(s: MarchService, deadline_ns: u64) -> int
    recommends
        s.freq > 0,
{
    let delta = if deadline_ns > s.initial_ns {
        deadline_ns - s.initial_ns
    } else {
        0
    };
    let dt = (delta * s.freq / 1_000_000_000) % pow2_64();
    (s.initial_ticks + dt) % pow2_64()
}

/// True when some entry of `s` carries the name `n`.
pub open spec fn has_name(s: Seq<TimerSource>, n: Seq<char>) -> bool {
    exists|j: int| 0 <= j < s.len() && #[trigger] s[j].name@ == n
}

/// The registry after a rescan folds in the discovered descriptors `disc`:
/// each is appended unless an entry of that name is already present.
pub open spec fn integrate_sources(existing: Seq<TimerSource>, disc: Seq<TimerSource>) -> Seq<
    TimerSource,
>
    decreases disc.len(),
{
    if disc.len() == 0 {
        existing
    } else if has_name(existing, disc[0].name@) {
        integrate_sources(existing, disc.drop_first())
    } else {
        integrate_sources(existing.push(disc[0]), disc.drop_first())
    }
}

/// True when index `i` is the reference that a rescan selects over `s`: a
/// positive frequency, maximal over the registry, first among equals.
pub open spec fn is_selected_ref(s: Seq<TimerSource>, i: int) -> bool {
    &&& 0 <= i < s.len()
    &&& s[i].freq > 0
    &&& forall|j: int| 0 <= j < s.len() ==> #[trigger] s[j].freq <= s[i].freq
    &&& forall|j: int| 0 <= j < i ==> #[trigger] s[j].freq < s[i].freq
}

/// True when some entry of `s` has a positive frequency, so that a rescan
/// selects a reference at all.
pub open spec fn has_positive_freq(s: Seq<TimerSource>) -> bool {
    exists|j: int| 0 <= j < s.len() && #[trigger] s[j].freq > 0
}

impl MarchService {
    /// The service invariant: a positive frequency, a sorted heap, and a
    /// reference index that stays inside the registry.
    pub open spec fn well_formed(&self) -> bool {
        &&& self.freq > 0
        &&& self.heap.well_formed()
        &&& match self.reference_index {
            Some(i) => i < self.timer_sources@.len(),
            None => true,
        }
    }

    /// The time base and registry fields of `self` and `other` agree; used to
    /// state that an operation leaves the clock untouched.
    pub open spec fn same_time_base(&self, other: &MarchService) -> bool {
        &&& self.initial_ns == other.initial_ns
        &&& self.initial_ticks == other.initial_ticks
        &&& self.freq == other.freq
        &&& self.drift_ppb == other.drift_ppb
    }

    pub fn new() -> (r: Self)
        ensures
            r.initial_ns == 0,
            r.initial_ticks == 0,
            r.freq == DEFAULT_FREQ_HZ,
            r.drift_ppb == 0,
            !r.running,
            r.endpoint == 0,
            r.reply == 0,
            r.recv == 0,
            r.heap@ == Seq::<TimerEvent>::empty(),
            r.timer_sources@ == Seq::<TimerSource>::empty(),
            r.reference_index is None,
            r.well_formed(),
    {
        MarchService {
            initial_ns: 0,
            initial_ticks: 0,
            freq: DEFAULT_FREQ_HZ,
            drift_ppb: 0,
            running: false,
            endpoint: 0,
            reply: 0,
            recv: 0,
            heap: TimerHeap::new(),
            timer_sources: Vec::new(),
            reference_index: None,
        }
    }

    /// Re-anchor the wall clock: `rtc_ns` is the reference timer's current
    /// reading and `ticks` the tick sample taken beside it.
    pub fn update_time_base(&mut self, rtc_ns: u64, ticks: u64)
        requires
            old(self).well_formed(),
        ensures
            final(self).well_formed(),
            final(self).initial_ns == rtc_ns,
            final(self).initial_ticks == ticks,
            final(self).freq == old(self).freq,
            final(self).drift_ppb == old(self).drift_ppb,
            final(self).running == old(self).running,
            final(self).endpoint == old(self).endpoint,
            final(self).reply == old(self).reply,
            final(self).recv == old(self).recv,
            final(self).heap@ == old(self).heap@,
            final(self).timer_sources@ == old(self).timer_sources@,
            final(self).reference_index == old(self).reference_index,
    {
        self.initial_ns = rtc_ns;
        self.initial_ticks = ticks;
    }

    /// Wall-clock nanoseconds at the given tick sample.
    pub fn get_wall_time_ns(&self, current_ticks: u64) -> (r: u64)
        requires
            self.well_formed(),
        ensures
            r == wall_time_spec(*self, current_ticks),
    {
        let dt: u64 = if current_ticks >= self.initial_ticks {
            current_ticks - self.initial_ticks
        } else {
            (u64::MAX - self.initial_ticks) + current_ticks + 1
        };
        let q: u128 = (dt as u128) * 1_000_000_000u128 / (self.freq as u128);
        let e: u64 = (q % 0x1_0000_0000_0000_0000u128) as u64;
        proof {
            lemma_mod_bound(q as int, pow2_64());
            assert(e == elapsed_ns_spec(wrapping_sub_u64(current_ticks, self.initial_ticks),
                self.freq as int));
        }
        let a: u64 = Self::apply_drift(e, self.drift_ppb);
        let r: u64 = if self.initial_ns <= u64::MAX - a {
            proof {
                lemma_small_mod((self.initial_ns + a) as nat, pow2_64() as nat);
            }
            self.initial_ns + a
        } else {
            proof {
                let s = self.initial_ns + a;
                lemma_fundamental_div_mod(s, pow2_64());
                lemma_small_mod((s - pow2_64()) as nat, pow2_64() as nat);
                assert((s - pow2_64()) % pow2_64() == s % pow2_64()) by {
                    assert(s / pow2_64() == 1) by {
                        assert(pow2_64() <= s < 2 * pow2_64());
                    };
                };
            }
            a - (u64::MAX - self.initial_ns) - 1
        };
        r
    }

    /// The drift-rate correction applied to an elapsed-nanosecond value.
    fn apply_drift(e: u64, ppb: i64) -> (r: u64)
        ensures
            r == drift_adjusted_spec(e as int, ppb as int),
    {
        if ppb == 0 {
            e
        } else if ppb > 0 {
            proof {
                lemma_mul_upper_bound(e as int, u64::MAX as int, ppb as int, i64::MAX as int);
            }
            let add: u128 = (e as u128) * (ppb as u128) / 1_000_000_000u128;
            let t: u128 = (e as u128) + add;
            if t > u64::MAX as u128 {
                u64::MAX
            } else {
                t as u64
            }
        } else {
            let mag: u128 = (-(ppb as i128)) as u128;
            proof {
                lemma_mul_upper_bound(e as int, u64::MAX as int, mag as int, 0x8000_0000_0000_0000);
            }
            let m: u128 = (e as u128) * mag / 1_000_000_000u128;
            if m >= e as u128 {
                0
            } else {
                e - (m as u64)
            }
        }
    }

    /// Monotonic nanoseconds at the given tick sample.
    pub fn get_mono_time_ns(&self, current_ticks: u64) -> (r: u64)
        requires
            self.well_formed(),
        ensures
            r == mono_time_spec(*self, current_ticks),
    {
        let q: u128 = (current_ticks as u128) * 1_000_000_000u128 / (self.freq as u128);
        let e: u64 = (q % 0x1_0000_0000_0000_0000u128) as u64;
        proof {
            lemma_mod_bound(q as int, pow2_64());
        }
        e
    }

    /// True when the registry already holds a source named `name`.
    fn has_source_named(&self, name: &String) -> (r: bool)
        ensures
            r == has_name(self.timer_sources@, name@),
    {
        let n = self.timer_sources.len();
        let mut i: usize = 0;
        while i < n
            invariant
                0 <= i <= n,
                n == self.timer_sources@.len(),
                forall|j: int| 0 <= j < i ==> #[trigger] self.timer_sources@[j].name@ != name@,
            decreases n - i,
        {
            if self.timer_sources[i].name == *name {
                return true;
            }
            i = i + 1;
        }
        false
    }

    /// Fold freshly discovered timers into the registry and reselect the
    /// reference: the highest advertised frequency wins, first-discovered
    /// breaking ties. Returns the index of the newly selected reference when
    /// the selection changed, so the caller can read that driver's clock and
    /// re-anchor the base with `update_time_base`; returns `None` when the
    /// reference is unchanged or no source has a positive frequency.
    pub fn rescan_devices(&mut self, discovered: Vec<TimerSource>) -> (rebase: Option<usize>)
        requires
            old(self).well_formed(),
        ensures
            final(self).well_formed(),
            final(self).timer_sources@ == integrate_sources(
                old(self).timer_sources@,
                discovered@,
            ),
            final(self).same_time_base(&*old(self)),
            final(self).running == old(self).running,
            final(self).endpoint == old(self).endpoint,
            final(self).reply == old(self).reply,
            final(self).recv == old(self).recv,
            final(self).heap@ == old(self).heap@,
            has_positive_freq(final(self).timer_sources@) ==> {
                &&& final(self).reference_index matches Some(b)
                &&& is_selected_ref(final(self).timer_sources@, b as int)
            },
            !has_positive_freq(final(self).timer_sources@) ==> final(self).reference_index == old(
                self,
            ).reference_index,
            match rebase {
                Some(i) => {
                    &&& final(self).reference_index == Some(i)
                    &&& old(self).reference_index != Some(i)
                    &&& is_selected_ref(final(self).timer_sources@, i as int)
                },
                None => final(self).reference_index == old(self).reference_index,
            },
    {
        let ghost orig_sources = self.timer_sources@;
        let ghost orig_disc = discovered@;
        let mut disc = discovered;
        while disc.len() > 0
            invariant
                integrate_sources(self.timer_sources@, disc@) == integrate_sources(
                    orig_sources,
                    orig_disc,
                ),
                self.initial_ns == old(self).initial_ns,
                self.initial_ticks == old(self).initial_ticks,
                self.freq == old(self).freq,
                self.drift_ppb == old(self).drift_ppb,
                self.running == old(self).running,
                self.endpoint == old(self).endpoint,
                self.reply == old(self).reply,
                self.recv == old(self).recv,
                self.heap == old(self).heap,
                self.reference_index == old(self).reference_index,
                self.timer_sources@.len() >= orig_sources.len(),
                old(self).well_formed(),
            decreases disc@.len(),
        {
            let ghost pre = self.timer_sources@;
            let ghost pre_disc = disc@;
            let d = disc.remove(0);
            if !self.has_source_named(&d.name) {
                self.timer_sources.push(d);
                proof {
                    assert(pre.push(pre_disc[0]) == self.timer_sources@);
                }
            }
        }
        // Select the highest-frequency source, first among equals.
        let n = self.timer_sources.len();
        let mut best_freq: u64 = 0;
        let mut best_idx: Option<usize> = None;
        let mut i: usize = 0;
        while i < n
            invariant
                0 <= i <= n,
                n == self.timer_sources@.len(),
                match best_idx {
                    Some(b) => {
                        &&& b < i
                        &&& self.timer_sources@[b as int].freq == best_freq
                        &&& best_freq > 0
                        &&& forall|j: int|
                            0 <= j < i ==> #[trigger] self.timer_sources@[j].freq <= best_freq
                        &&& forall|j: int|
                            0 <= j < b ==> #[trigger] self.timer_sources@[j].freq < best_freq
                    },
                    None => {
                        &&& best_freq == 0
                        &&& forall|j: int| 0 <= j < i ==> #[trigger] self.timer_sources@[j].freq == 0
                    },
                },
            decreases n - i,
        {
            if self.timer_sources[i].freq > best_freq {
                best_freq = self.timer_sources[i].freq;
                best_idx = Some(i);
            }
            i = i + 1;
        }
        match best_idx {
            Some(idx) => {
                let changed = match self.reference_index {
                    Some(r) => r != idx,
                    None => true,
                };
                if changed {
                    self.reference_index = Some(idx);
                    Some(idx)
                } else {
                    None
                }
            },
            None => None,
        }
    }

    /// The tick count the kernel alarm must be armed at for the earliest
    /// pending deadline, or `None` when no sleep is pending. The drift rate is
    /// deliberately not inverted here: the dispatcher re-drains expired
    /// entries on every wakeup, so any undershoot or overshoot self-corrects.
    pub fn update_alarm(&self) -> (r: Option<u64>)
        requires
            self.well_formed(),
        ensures
            match r {
                Some(t) => {
                    &&& self.heap@.len() > 0
                    &&& t == alarm_ticks_spec(*self, self.heap@[0].deadline_ns)
                },
                None => self.heap@.len() == 0,
            },
    {
        match self.heap.peek_deadline() {
            Some(deadline) => {
                let delta: u64 = if deadline > self.initial_ns {
                    deadline - self.initial_ns
                } else {
                    0
                };
                proof {
                    lemma_mul_upper_bound(
                        delta as int,
                        u64::MAX as int,
                        self.freq as int,
                        u64::MAX as int,
                    );
                }
                let p: u128 = (delta as u128) * (self.freq as u128) / 1_000_000_000u128;
                let dt: u64 = (p % 0x1_0000_0000_0000_0000u128) as u64;
                proof {
                    lemma_mod_bound(p as int, pow2_64());
                }
                let t: u64 = if self.initial_ticks <= u64::MAX - dt {
                    proof {
                        lemma_small_mod((self.initial_ticks + dt) as nat, pow2_64() as nat);
                    }
                    self.initial_ticks + dt
                } else {
                    proof {
                        let s = self.initial_ticks + dt;
                        lemma_fundamental_div_mod(s, pow2_64());
                        lemma_small_mod((s - pow2_64()) as nat, pow2_64() as nat);
                        assert((s - pow2_64()) % pow2_64() == s % pow2_64()) by {
                            assert(s / pow2_64() == 1) by {
                                assert(pow2_64() <= s < 2 * pow2_64());
                            };
                        };
                    }
                    dt - (u64::MAX - self.initial_ticks) - 1
                };
                Some(t)
            },
            None => None,
        }
    }

    /// Drain every entry whose deadline has passed at the given tick sample,
    /// earliest first, and return their reply capabilities in that order. The
    /// caller must invoke an empty OK reply on each and free its slot, then
    /// re-arm the alarm with `update_alarm`.
    pub fn check_timers(&mut self, current_ticks: u64) -> (caps: Vec<u64>)
        requires
            old(self).well_formed(),
        ensures
            final(self).well_formed(),
            final(self).same_time_base(&*old(self)),
            final(self).running == old(self).running,
            final(self).endpoint == old(self).endpoint,
            final(self).reply == old(self).reply,
            final(self).recv == old(self).recv,
            final(self).timer_sources@ == old(self).timer_sources@,
            final(self).reference_index == old(self).reference_index,
            caps@.len() <= old(self).heap@.len(),
            final(self).heap@ == old(self).heap@.skip(caps@.len() as int),
            forall|i: int|
                0 <= i < caps@.len() ==> #[trigger] caps@[i] == old(self).heap@[i].reply_cap
                    && old(self).heap@[i].deadline_ns <= wall_time_spec(*old(self), current_ticks),
            final(self).heap@.len() > 0 ==> final(self).heap@[0].deadline_ns > wall_time_spec(
                *old(self),
                current_ticks,
            ),
    {
        let now = self.get_wall_time_ns(current_ticks);
        let mut caps: Vec<u64> = Vec::new();
        proof {
            assert(self.heap@ =~= old(self).heap@.skip(0));
        }
        loop
            invariant
                self.well_formed(),
                self.same_time_base(&*old(self)),
                self.running == old(self).running,
                self.endpoint == old(self).endpoint,
                self.reply == old(self).reply,
                self.recv == old(self).recv,
                self.timer_sources@ == old(self).timer_sources@,
                self.reference_index == old(self).reference_index,
                now == wall_time_spec(*old(self), current_ticks),
                caps@.len() <= old(self).heap@.len(),
                self.heap@ == old(self).heap@.skip(caps@.len() as int),
                forall|i: int|
                    0 <= i < caps@.len() ==> #[trigger] caps@[i] == old(self).heap@[i].reply_cap
                        && old(self).heap@[i].deadline_ns <= now,
            ensures
                self.well_formed(),
                self.same_time_base(&*old(self)),
                self.running == old(self).running,
                self.endpoint == old(self).endpoint,
                self.reply == old(self).reply,
                self.recv == old(self).recv,
                self.timer_sources@ == old(self).timer_sources@,
                self.reference_index == old(self).reference_index,
                now == wall_time_spec(*old(self), current_ticks),
                caps@.len() <= old(self).heap@.len(),
                self.heap@ == old(self).heap@.skip(caps@.len() as int),
                forall|i: int|
                    0 <= i < caps@.len() ==> #[trigger] caps@[i] == old(self).heap@[i].reply_cap
                        && old(self).heap@[i].deadline_ns <= now,
                self.heap@.len() > 0 ==> self.heap@[0].deadline_ns > now,
            decreases self.heap@.len(),
        {
            let popped = self.heap.pop_expired(now);
            match popped {
                Some(cap) => {
                    proof {
                        let k = caps@.len() as int;
                        assert(old(self).heap@.skip(k)[0] == old(self).heap@[k]);
                        assert(old(self).heap@.skip(k).drop_first() =~= old(self).heap@.skip(
                            k + 1,
                        ));
                    }
                    caps.push(cap);
                },
                None => {
                    break;
                },
            }
        }
        proof {
            assert(now == wall_time_spec(*old(self), current_ticks));
            assert(forall|i: int|
                0 <= i < caps@.len() ==> #[trigger] caps@[i] == old(self).heap@[i].reply_cap
                    && old(self).heap@[i].deadline_ns <= now);
        }
        caps
    }
}

} // verus!
