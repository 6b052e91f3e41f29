//! Message routing and the service lifecycle.
//!
//! The dispatcher is a single-threaded cooperative loop: the caller blocks on
//! the service endpoint, decodes the message registers into a `Message`, and
//! hands it to `dispatch` together with a fresh tick sample and, for sleep
//! requests, the slot into which it moved the caller's reply capability.
//! `dispatch` routes by (protocol, method), updates the service state, and
//! returns what the caller must do next: send a value or an empty OK reply,
//! send an error reply, suppress the reply for an enqueued sleeper, or run
//! the notification sequence (rescan if the hook bit is set, then drain
//! expired deadlines, then re-arm the alarm).

use vstd::prelude::*;

use crate::service::{
    alarm_ticks_spec, mono_time_spec, wall_time_spec, MarchService,
};
use crate::time::sleep_deadline_spec;

verus! {

/// Protocol tag of the time interface.
pub const TIME_PROTO: usize = 0x54;

/// Method labels of the time interface.
pub const TIME_NOW: usize = 0x1;

pub const MONO_NOW: usize = 0x2;

pub const SLEEP: usize = 0x3;

pub const ADJ_TIME: usize = 0x4;

/// Protocol tag of kernel-originated messages.
pub const KERNEL_PROTO: usize = 0x4B;

/// Method label of a kernel notification.
pub const NOTIFY: usize = 0x1;

/// Badge bit set on a kernel notification when the device topology changed.
pub const NOTIFY_HOOK: usize = 0x1;

/// Error code carried in the first message register of an error reply when a
/// message's (protocol, method) pair is not routed.
pub const ERR_INVALID_METHOD: usize = 0x16;

/// Error code for a sleep request that found no free capability slot.
pub const ERR_NO_SLOT: usize = 0xC;

/// One received message, decoded from the transport's registers: the tag's
/// protocol and method label, the arguments in the method's own types, and
/// the sender badge.
pub struct Message {
    pub proto: usize,
    pub label: usize,
    /// Sleep duration in milliseconds; meaningful for `SLEEP`.
    pub ms: usize,
    /// Absolute wall time in nanoseconds; meaningful for `ADJ_TIME`.
    pub absolute_ns: u64,
    /// Drift rate in parts per billion; meaningful for `ADJ_TIME`.
    pub drift_ppb: i64,
    /// Sender badge bits; meaningful for kernel notifications.
    pub badge_bits: usize,
}

/// What the dispatcher's caller must do after one `dispatch` step.
pub enum DispatchResult {
    /// Send a reply carrying `ns` in the first message register.
    ReplyValue { ns: u64 },
    /// Send an empty OK reply; first best-effort push the adjusted absolute
    /// time to the reference driver at this registry index, if any.
    ReplyOk { set_ref_time: Option<usize> },
    /// Suppress the reply: the sleeper's reply capability is now owned by the
    /// heap. Arm the kernel alarm at the given tick count.
    SleepEnqueued { alarm_ticks: u64 },
    /// Send an error reply carrying this code.
    ReplyError { code: usize },
    /// A kernel notification: run a device rescan when `rescan` is set, then
    /// drain expired deadlines with `check_timers` and re-arm the alarm with
    /// `update_alarm`. No reply is sent.
    Notify { rescan: bool },
}

impl MarchService {
    /// Adopt the kernel's reported tick frequency, falling back to the
    /// sentinel default when the kernel could not report a positive one, and
    /// anchor the tick base at the given sample. The caller then performs the
    /// initial device rescan and registers the service endpoint.
    pub fn init(&mut self, kernel_freq: Option<u64>, current_ticks: u64)
        requires
            old(self).well_formed(),
        ensures
            final(self).well_formed(),
            final(self).freq == match kernel_freq {
                Some(f) => if f > 0 {
                    f
                } else {
                    crate::service::DEFAULT_FREQ_HZ
                },
                None => crate::service::DEFAULT_FREQ_HZ,
            },
            final(self).initial_ticks == current_ticks,
            final(self).initial_ns == old(self).initial_ns,
            final(self).drift_ppb == old(self).drift_ppb,
            final(self).running == old(self).running,
            final(self).endpoint == old(self).endpoint,
            final(self).reply == old(self).reply,
            final(self).recv == old(self).recv,
            final(self).heap@ == old(self).heap@,
            final(self).timer_sources@ == old(self).timer_sources@,
            final(self).reference_index == old(self).reference_index,
    {
        self.freq = match kernel_freq {
            Some(f) => if f > 0 {
                f
            } else {
                crate::service::DEFAULT_FREQ_HZ
            },
            None => crate::service::DEFAULT_FREQ_HZ,
        };
        self.initial_ticks = current_ticks;
    }

    /// Record the endpoint, shared reply slot and receive-window slot that
    /// the service listens with.
    pub fn listen(&mut self, ep: u64, reply: u64, recv: u64)
        requires
            old(self).well_formed(),
        ensures
            final(self).well_formed(),
            final(self).endpoint == ep,
            final(self).reply == reply,
            final(self).recv == recv,
            final(self).same_time_base(&*old(self)),
            final(self).running == old(self).running,
            final(self).heap@ == old(self).heap@,
            final(self).timer_sources@ == old(self).timer_sources@,
            final(self).reference_index == old(self).reference_index,
    {
        self.endpoint = ep;
        self.reply = reply;
        self.recv = recv;
    }

    /// Mark the dispatcher loop as running.
    pub fn start_running(&mut self)
        requires
            old(self).well_formed(),
        ensures
            final(self).well_formed(),
            final(self).running,
            *final(self) == (MarchService { running: true, ..*old(self) }),
    {
        self.running = true;
    }

    /// Clear the running flag; the dispatcher loop exits after the current
    /// turn. The caller reports the stopped state to the init bus.
    pub fn stop(&mut self)
        requires
            old(self).well_formed(),
        ensures
            final(self).well_formed(),
            !final(self).running,
            *final(self) == (MarchService { running: false, ..*old(self) }),
    {
        self.running = false;
    }

    /// One dispatcher step: route `msg` by (protocol, method) and apply the
    /// handler. `current_ticks` is the tick sample taken for this message;
    /// `sleep_slot` is the slot now owning the caller's reply capability if
    /// the transport could allocate one for a sleep request, `None` when
    /// allocation failed. An unrouted pair changes nothing and yields an
    /// `ERR_INVALID_METHOD` error reply.
    pub fn dispatch(&mut self, msg: &Message, current_ticks: u64, sleep_slot: Option<u64>) -> (r:
        DispatchResult)
        requires
            old(self).well_formed(),
        ensures
            final(self).well_formed(),
            msg.proto == TIME_PROTO && msg.label == TIME_NOW ==> *final(self) == *old(self)
                && r == (DispatchResult::ReplyValue {
                ns: wall_time_spec(*old(self), current_ticks) as u64,
            }),
            msg.proto == TIME_PROTO && msg.label == MONO_NOW ==> *final(self) == *old(self)
                && r == (DispatchResult::ReplyValue {
                ns: mono_time_spec(*old(self), current_ticks) as u64,
            }),
            msg.proto == TIME_PROTO && msg.label == SLEEP ==> match sleep_slot {
                Some(slot) => {
                    &&& final(self).heap@.len() == old(self).heap@.len() + 1
                    &&& final(self).heap@ == old(self).heap@.insert(
                        crate::heap::stable_insert_pos(
                            old(self).heap@,
                            sleep_deadline_spec(*old(self), current_ticks, msg.ms as int) as u64,
                        ),
                        crate::heap::TimerEvent {
                            deadline_ns: sleep_deadline_spec(
                                *old(self),
                                current_ticks,
                                msg.ms as int,
                            ) as u64,
                            reply_cap: slot,
                        },
                    )
                    &&& final(self).same_time_base(&*old(self))
                    &&& final(self).timer_sources@ == old(self).timer_sources@
                    &&& final(self).reference_index == old(self).reference_index
                    &&& final(self).running == old(self).running
                    &&& r == (DispatchResult::SleepEnqueued {
                        alarm_ticks: alarm_ticks_spec(
                            *final(self),
                            final(self).heap@[0].deadline_ns,
                        ) as u64,
                    })
                },
                None => *final(self) == *old(self) && r == (DispatchResult::ReplyError {
                    code: ERR_NO_SLOT,
                }),
            },
            msg.proto == TIME_PROTO && msg.label == ADJ_TIME ==> {
                &&& final(self).initial_ns == if msg.absolute_ns != 0 {
                    msg.absolute_ns
                } else {
                    old(self).initial_ns
                }
                &&& final(self).initial_ticks == if msg.absolute_ns != 0 {
                    current_ticks
                } else {
                    old(self).initial_ticks
                }
                &&& final(self).drift_ppb == if msg.drift_ppb != 0 {
                    msg.drift_ppb
                } else {
                    old(self).drift_ppb
                }
                &&& final(self).freq == old(self).freq
                &&& final(self).heap@ == old(self).heap@
                &&& final(self).timer_sources@ == old(self).timer_sources@
                &&& final(self).reference_index == old(self).reference_index
                &&& final(self).running == old(self).running
                &&& r == (DispatchResult::ReplyOk {
                    set_ref_time: if msg.absolute_ns != 0 {
                        old(self).reference_index
                    } else {
                        None::<usize>
                    },
                })
            },
            msg.proto == KERNEL_PROTO && msg.label == NOTIFY ==> *final(self) == *old(self)
                && r == (DispatchResult::Notify {
                rescan: (msg.badge_bits & NOTIFY_HOOK) != 0,
            }),
            !(msg.proto == TIME_PROTO && (msg.label == TIME_NOW || msg.label == MONO_NOW
                || msg.label == SLEEP || msg.label == ADJ_TIME)) && !(msg.proto == KERNEL_PROTO
                && msg.label == NOTIFY) ==> *final(self) == *old(self) && r
                == (DispatchResult::ReplyError { code: ERR_INVALID_METHOD }),
    {
        if msg.proto == TIME_PROTO && msg.label == TIME_NOW {
            DispatchResult::ReplyValue { ns: self.time_now(current_ticks) }
        } else if msg.proto == TIME_PROTO && msg.label == MONO_NOW {
            DispatchResult::ReplyValue { ns: self.mono_now(current_ticks) }
        } else if msg.proto == TIME_PROTO && msg.label == SLEEP {
            match sleep_slot {
                Some(slot) => {
                    self.sleep(current_ticks, msg.ms, slot);
                    match self.update_alarm() {
                        Some(t) => DispatchResult::SleepEnqueued { alarm_ticks: t },
                        None => {
                            // The heap cannot be empty right after a push.
                            proof {
                                assert(false);
                            }
                            DispatchResult::ReplyError { code: ERR_NO_SLOT }
                        },
                    }
                },
                None => DispatchResult::ReplyError { code: ERR_NO_SLOT },
            }
        } else if msg.proto == TIME_PROTO && msg.label == ADJ_TIME {
            let set_ref = self.adj_time(current_ticks, msg.absolute_ns, msg.drift_ppb);
            DispatchResult::ReplyOk { set_ref_time: set_ref }
        } else if msg.proto == KERNEL_PROTO && msg.label == NOTIFY {
            DispatchResult::Notify { rescan: (msg.badge_bits & NOTIFY_HOOK) != 0 }
        } else {
            DispatchResult::ReplyError { code: ERR_INVALID_METHOD }
        }
    }
}

} // verus!
