use march_time::server::{
    Message, DispatchResult, ADJ_TIME, ERR_INVALID_METHOD, ERR_NO_SLOT, KERNEL_PROTO, MONO_NOW,
    NOTIFY, NOTIFY_HOOK, SLEEP, TIME_NOW, TIME_PROTO,
};
use march_time::service::{MarchService, TimerSource, DEFAULT_FREQ_HZ};

fn msg(proto: usize, label: usize) -> Message {
    Message { proto, label, ms: 0, absolute_ns: 0, drift_ppb: 0, badge_bits: 0 }
}

fn source(name: &str, freq: u64, client: u64) -> TimerSource {
    TimerSource { name: String::from(name), freq, client }
}

#[test]
fn wall_time_follows_tick_delta() {
    let mut s = MarchService::new();
    s.init(Some(10_000_000), 0);
    s.update_time_base(1_000_000_000, 1_000);
    // 500_000 ticks at 10 MHz are 50 ms.
    assert_eq!(s.get_wall_time_ns(1_000 + 500_000), 1_050_000_000);
}

#[test]
fn mono_time_is_ticks_scaled_to_ns() {
    let mut s = MarchService::new();
    s.init(Some(10_000_000), 0);
    assert_eq!(s.get_mono_time_ns(12_345), 1_234_500);
    // Monotonic time ignores the wall base entirely.
    s.update_time_base(77_777_777, 5_000);
    assert_eq!(s.get_mono_time_ns(12_345), 1_234_500);
}

#[test]
fn mono_time_nondecreasing_between_samples() {
    let mut s = MarchService::new();
    s.init(Some(10_000_000), 0);
    let a = s.mono_now(1_000);
    let b = s.mono_now(1_001);
    let c = s.mono_now(250_000);
    assert!(a <= b && b <= c);
}

#[test]
fn mono_time_delta_matches_wall_duration() {
    let mut s = MarchService::new();
    s.init(Some(10_000_000), 0);
    // 1_000 ticks at 10 MHz are exactly 100 us.
    assert_eq!(s.mono_now(2_000) - s.mono_now(1_000), 100_000);
}

#[test]
fn wall_time_survives_tick_counter_wrap() {
    let mut s = MarchService::new();
    s.init(Some(10_000_000), 0);
    // The base sits 100 ticks before the wrap; the sample 100 ticks after.
    s.update_time_base(0, u64::MAX - 99);
    assert_eq!(s.get_wall_time_ns(100), 20_000);
}

#[test]
fn adj_time_absolute_steps_the_clock() {
    let mut s = MarchService::new();
    s.init(Some(10_000_000), 0);
    let set_ref = s.adj_time(5_000, 1_000_000_000, 0);
    assert_eq!(set_ref, None);
    assert_eq!(s.time_now(5_000), 1_000_000_000);
    // 1_000 ticks later the clock has advanced 100 us past the set value.
    assert_eq!(s.time_now(6_000), 1_000_100_000);
}

#[test]
fn adj_time_zero_zero_is_a_noop() {
    let mut s = MarchService::new();
    s.init(Some(10_000_000), 42);
    s.update_time_base(123_456, 42);
    let set_ref = s.adj_time(99_999, 0, 0);
    assert_eq!(set_ref, None);
    assert_eq!(s.initial_ns, 123_456);
    assert_eq!(s.initial_ticks, 42);
    assert_eq!(s.drift_ppb, 0);
}

#[test]
fn adj_time_drift_only_keeps_base() {
    let mut s = MarchService::new();
    s.init(Some(10_000_000), 42);
    s.update_time_base(123_456, 42);
    s.adj_time(99_999, 0, 250);
    assert_eq!(s.initial_ns, 123_456);
    assert_eq!(s.initial_ticks, 42);
    assert_eq!(s.drift_ppb, 250);
}

#[test]
fn drift_slew_adds_ppb_fraction() {
    let mut s = MarchService::new();
    s.init(Some(10_000_000), 0);
    s.update_time_base(0, 0);
    s.adj_time(0, 0, 1_000_000);
    // 10^7 ticks at 10 MHz are 10^9 elapsed ns; 0.1% fast adds 10^6 ns.
    assert_eq!(s.time_now(10_000_000), 1_001_000_000);
}

#[test]
fn drift_slew_over_one_hour() {
    let mut s = MarchService::new();
    s.init(Some(10_000_000), 0);
    s.update_time_base(0, 0);
    s.adj_time(0, 0, 1_000_000);
    // One hour of ticks: 3600 s * 10^7 Hz. The clock gains 0.1%.
    assert_eq!(s.time_now(36_000_000_000), 3_603_600_000_000);
}

#[test]
fn negative_drift_slows_the_clock() {
    let mut s = MarchService::new();
    s.init(Some(10_000_000), 0);
    s.update_time_base(0, 0);
    s.adj_time(0, 0, -1_000_000);
    assert_eq!(s.time_now(10_000_000), 999_000_000);
}

#[test]
fn init_falls_back_to_default_freq() {
    let mut s = MarchService::new();
    s.init(None, 7);
    assert_eq!(s.freq, DEFAULT_FREQ_HZ);
    assert_eq!(s.initial_ticks, 7);
    s.init(Some(0), 8);
    assert_eq!(s.freq, DEFAULT_FREQ_HZ);
    s.init(Some(1_000_000), 9);
    assert_eq!(s.freq, 1_000_000);
}

#[test]
fn rescan_selects_highest_frequency() {
    let mut s = MarchService::new();
    let rebase = s.rescan_devices(vec![
        source("timer0", 1_000_000, 5),
        source("timer1", 10_000_000, 6),
        source("timer2", 10_000_000, 7),
    ]);
    // The 10 MHz source wins; first-discovered breaks the tie.
    assert_eq!(rebase, Some(1));
    assert_eq!(s.reference_index, Some(1));
    assert_eq!(s.timer_sources.len(), 3);
}

#[test]
fn rescan_ignores_already_known_names() {
    let mut s = MarchService::new();
    s.rescan_devices(vec![source("timer0", 1_000_000, 5)]);
    let rebase = s.rescan_devices(vec![source("timer0", 9_999_999, 8)]);
    assert_eq!(rebase, None);
    assert_eq!(s.timer_sources.len(), 1);
    assert_eq!(s.timer_sources[0].freq, 1_000_000);
}

#[test]
fn rescan_with_no_devices_selects_nothing() {
    let mut s = MarchService::new();
    let rebase = s.rescan_devices(Vec::new());
    assert_eq!(rebase, None);
    assert_eq!(s.reference_index, None);
}

#[test]
fn rescan_reselects_on_faster_hotplug() {
    let mut s = MarchService::new();
    s.init(Some(10_000_000), 0);
    let rebase = s.rescan_devices(vec![source("timer0", 1_000_000, 5)]);
    assert_eq!(rebase, Some(0));
    // The caller reads the new reference's clock and re-anchors.
    s.update_time_base(10_000, 100);
    // A faster timer appears via the device hook.
    let rebase = s.rescan_devices(vec![source("timer1", 10_000_000, 6)]);
    assert_eq!(rebase, Some(1));
    assert_eq!(s.reference_index, Some(1));
    s.update_time_base(999_000, 200);
    assert_eq!(s.time_now(200), 999_000);
    // A rescan with nothing new keeps the selection and does not rebase.
    let rebase = s.rescan_devices(Vec::new());
    assert_eq!(rebase, None);
}

#[test]
fn update_alarm_converts_earliest_deadline_to_ticks() {
    let mut s = MarchService::new();
    s.init(Some(10_000_000), 0);
    s.update_time_base(1_000_000_000, 400);
    assert_eq!(s.update_alarm(), None);
    s.sleep(400, 50, 7);
    // 50 ms past the base are 500_000 ticks past the base sample.
    assert_eq!(s.update_alarm(), Some(400 + 500_000));
}

#[test]
fn update_alarm_saturates_past_deadlines() {
    let mut s = MarchService::new();
    s.init(Some(10_000_000), 0);
    s.update_time_base(1_000_000_000, 400);
    // A deadline already behind the base maps to the base sample itself,
    // so the kernel alarm fires immediately.
    s.heap.push(500, 3);
    assert_eq!(s.update_alarm(), Some(400));
}

#[test]
fn sleep_enqueues_wall_deadline() {
    let mut s = MarchService::new();
    s.init(Some(10_000_000), 0);
    s.update_time_base(1_000_000_000, 0);
    let deadline = s.sleep(0, 50, 7);
    assert_eq!(deadline, 1_050_000_000);
    let caps = s.check_timers(499_999);
    assert!(caps.is_empty());
    let caps = s.check_timers(500_000);
    assert_eq!(caps, vec![7]);
    assert!(s.heap.is_empty());
}

#[test]
fn sleep_zero_is_due_immediately() {
    let mut s = MarchService::new();
    s.init(Some(10_000_000), 0);
    s.update_time_base(1_000_000_000, 0);
    let deadline = s.sleep(123, 0, 4);
    assert_eq!(deadline, s.time_now(123));
    let caps = s.check_timers(123);
    assert_eq!(caps, vec![4]);
}

#[test]
fn sleeps_fire_in_deadline_order() {
    let mut s = MarchService::new();
    s.init(Some(10_000_000), 0);
    s.update_time_base(1_000_000_000, 0);
    // Clients A, B, C sleep 100 ms, 30 ms and 70 ms, in that order.
    s.sleep(0, 100, 1);
    s.sleep(0, 30, 2);
    s.sleep(0, 70, 3);
    let caps = s.check_timers(1_000_000);
    assert_eq!(caps, vec![2, 3, 1]);
    assert!(s.heap.is_empty());
}

#[test]
fn check_timers_drains_only_expired() {
    let mut s = MarchService::new();
    s.init(Some(10_000_000), 0);
    s.update_time_base(0, 0);
    s.sleep(0, 10, 1);
    s.sleep(0, 1_000, 2);
    let caps = s.check_timers(100_000);
    assert_eq!(caps, vec![1]);
    assert!(!s.heap.is_empty());
    assert_eq!(s.heap.peek_deadline(), Some(1_000_000_000));
}

#[test]
fn dispatch_routes_time_now() {
    let mut s = MarchService::new();
    s.init(Some(10_000_000), 0);
    s.update_time_base(1_000_000_000, 0);
    let r = s.dispatch(&msg(TIME_PROTO, TIME_NOW), 500_000, None);
    assert!(matches!(r, DispatchResult::ReplyValue { ns: 1_050_000_000 }));
}

#[test]
fn dispatch_routes_mono_now() {
    let mut s = MarchService::new();
    s.init(Some(10_000_000), 0);
    s.update_time_base(1_000_000_000, 0);
    let r = s.dispatch(&msg(TIME_PROTO, MONO_NOW), 500_000, None);
    assert!(matches!(r, DispatchResult::ReplyValue { ns: 50_000_000 }));
}

#[test]
fn dispatch_sleep_suppresses_reply_and_arms_alarm() {
    let mut s = MarchService::new();
    s.init(Some(10_000_000), 0);
    s.update_time_base(1_000_000_000, 0);
    let mut m = msg(TIME_PROTO, SLEEP);
    m.ms = 50;
    let r = s.dispatch(&m, 0, Some(7));
    assert!(matches!(r, DispatchResult::SleepEnqueued { alarm_ticks: 500_000 }));
    // The kernel alarm later fires as a notification; the drain delivers.
    let mut n = msg(KERNEL_PROTO, NOTIFY);
    n.badge_bits = 0;
    let r = s.dispatch(&n, 500_000, None);
    assert!(matches!(r, DispatchResult::Notify { rescan: false }));
    let caps = s.check_timers(500_000);
    assert_eq!(caps, vec![7]);
    assert_eq!(s.update_alarm(), None);
}

#[test]
fn dispatch_sleep_without_slot_reports_exhaustion() {
    let mut s = MarchService::new();
    s.init(Some(10_000_000), 0);
    let mut m = msg(TIME_PROTO, SLEEP);
    m.ms = 50;
    let r = s.dispatch(&m, 0, None);
    assert!(matches!(r, DispatchResult::ReplyError { code: ERR_NO_SLOT }));
    assert!(s.heap.is_empty());
}

#[test]
fn dispatch_adj_time_updates_base_and_reports_reference() {
    let mut s = MarchService::new();
    s.init(Some(10_000_000), 0);
    s.rescan_devices(vec![source("timer0", 10_000_000, 5)]);
    let mut m = msg(TIME_PROTO, ADJ_TIME);
    m.absolute_ns = 2_000_000_000;
    m.drift_ppb = 100;
    let r = s.dispatch(&m, 777, None);
    // The reference driver at index 0 gets the best-effort set_time.
    assert!(matches!(r, DispatchResult::ReplyOk { set_ref_time: Some(0) }));
    assert_eq!(s.initial_ns, 2_000_000_000);
    assert_eq!(s.initial_ticks, 777);
    assert_eq!(s.drift_ppb, 100);
}

#[test]
fn dispatch_notify_hook_requests_rescan() {
    let mut s = MarchService::new();
    let mut n = msg(KERNEL_PROTO, NOTIFY);
    n.badge_bits = NOTIFY_HOOK;
    let r = s.dispatch(&n, 0, None);
    assert!(matches!(r, DispatchResult::Notify { rescan: true }));
}

#[test]
fn dispatch_unknown_method_replies_error() {
    let mut s = MarchService::new();
    s.init(Some(10_000_000), 0);
    s.update_time_base(123, 0);
    let r = s.dispatch(&msg(TIME_PROTO, 0xFFFF), 0, None);
    assert!(matches!(r, DispatchResult::ReplyError { code: ERR_INVALID_METHOD }));
    // No state changed and the service is still responsive.
    assert_eq!(s.initial_ns, 123);
    let r = s.dispatch(&msg(TIME_PROTO, TIME_NOW), 0, None);
    assert!(matches!(r, DispatchResult::ReplyValue { ns: 123 }));
}

#[test]
fn listen_records_capability_slots() {
    let mut s = MarchService::new();
    s.listen(10, 11, 12);
    assert_eq!(s.endpoint, 10);
    assert_eq!(s.reply, 11);
    assert_eq!(s.recv, 12);
}

#[test]
fn running_flag_follows_lifecycle() {
    let mut s = MarchService::new();
    assert!(!s.running);
    s.start_running();
    assert!(s.running);
    s.stop();
    assert!(!s.running);
}
