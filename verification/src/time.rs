//! The time-protocol handlers: wall and monotonic queries, sleep enqueue and
//! clock adjustment.
//!
//! Each handler takes the raw tick-counter sample for the call as an argument;
//! reading the hardware counter is the caller's concern. The sleep handler
//! additionally takes the capability-space slot into which the caller has
//! already moved the client's reply capability.

use vstd::prelude::*;

use crate::heap::{stable_insert_pos, TimerEvent};
use crate::service::{wall_time_spec, mono_time_spec, MarchService};

verus! {

/// The sleep deadline for a request of `ms` milliseconds enqueued at tick
/// sample `ticks`: the wall time then, plus `ms * 10^6` nanoseconds,
/// saturated at the top of the 64-bit range.
pub open spec fn sleep_deadline_spec(s: MarchService, ticks: u64, ms: int) -> int
    recommends
        s.freq > 0,
        ms >= 0,
{
    let d = wall_time_spec(s, ticks) + ms * 1_000_000;
    if d > u64::MAX {
        u64::MAX as int
    } else {
        d
    }
}

impl MarchService {
    /// Wall-clock nanoseconds at the given tick sample.
    pub fn time_now(&self, current_ticks: u64) -> (r: u64)
        requires
            self.well_formed(),
        ensures
            r == wall_time_spec(*self, current_ticks),
    {
        self.get_wall_time_ns(current_ticks)
    }

    /// Monotonic nanoseconds at the given tick sample.
    pub fn mono_now(&self, current_ticks: u64) -> (r: u64)
        requires
            self.well_formed(),
        ensures
            r == mono_time_spec(*self, current_ticks),
    {
        self.get_mono_time_ns(current_ticks)
    }

    /// Enqueue a sleep of `ms` milliseconds observed at tick sample
    /// `current_ticks`. `slot` is the capability-space slot that now owns the
    /// caller's reply capability; the heap takes it over until the deadline
    /// expires. Returns the deadline that was enqueued. The caller must
    /// re-arm the alarm with `update_alarm` afterwards.
    pub fn sleep(&mut self, current_ticks: u64, ms: usize, slot: u64) -> (deadline: u64)
        requires
            old(self).well_formed(),
        ensures
            final(self).well_formed(),
            deadline == sleep_deadline_spec(*old(self), current_ticks, ms as int),
            final(self).heap@ == old(self).heap@.insert(
                stable_insert_pos(old(self).heap@, deadline),
                TimerEvent { deadline_ns: deadline, reply_cap: slot },
            ),
            final(self).heap@.len() == old(self).heap@.len() + 1,
            final(self).same_time_base(&*old(self)),
            final(self).running == old(self).running,
            final(self).endpoint == old(self).endpoint,
            final(self).reply == old(self).reply,
            final(self).recv == old(self).recv,
            final(self).timer_sources@ == old(self).timer_sources@,
            final(self).reference_index == old(self).reference_index,
    {
        let now = self.get_wall_time_ns(current_ticks);
        let add: u128 = (ms as u128) * 1_000_000u128;
        let sum: u128 = (now as u128) + add;
        let deadline: u64 = if sum > u64::MAX as u128 {
            u64::MAX
        } else {
            sum as u64
        };
        self.heap.push(deadline, slot);
        deadline
    }

    /// Apply a clock adjustment. A nonzero `absolute_ns` steps the wall clock
    /// to that value, re-anchoring the base at `current_ticks`; a nonzero
    /// `drift_ppb` replaces the drift rate; zero in either field leaves that
    /// part unchanged, so `adj_time(t, 0, 0)` changes nothing. Returns the
    /// reference index whose driver should best-effort be set to
    /// `absolute_ns`, when the clock was stepped and a reference exists.
    pub fn adj_time(&mut self, current_ticks: u64, absolute_ns: u64, drift_ppb: i64) -> (set_ref:
        Option<usize>)
        requires
            old(self).well_formed(),
        ensures
            final(self).well_formed(),
            final(self).initial_ns == if absolute_ns != 0 {
                absolute_ns
            } else {
                old(self).initial_ns
            },
            final(self).initial_ticks == if absolute_ns != 0 {
                current_ticks
            } else {
                old(self).initial_ticks
            },
            final(self).drift_ppb == if drift_ppb != 0 {
                drift_ppb
            } else {
                old(self).drift_ppb
            },
            final(self).freq == old(self).freq,
            final(self).running == old(self).running,
            final(self).endpoint == old(self).endpoint,
            final(self).reply == old(self).reply,
            final(self).recv == old(self).recv,
            final(self).heap@ == old(self).heap@,
            final(self).timer_sources@ == old(self).timer_sources@,
            final(self).reference_index == old(self).reference_index,
            set_ref == if absolute_ns != 0 {
                old(self).reference_index
            } else {
                None::<usize>
            },
    {
        let mut set_ref: Option<usize> = None;
        if absolute_ns != 0 {
            set_ref = match self.reference_index {
                Some(i) => Some(i),
                None => None,
            };
            self.initial_ns = absolute_ns;
            self.initial_ticks = current_ticks;
        }
        if drift_ppb != 0 {
            self.drift_ppb = drift_ppb;
        }
        set_ref
    }
}

} // verus!
