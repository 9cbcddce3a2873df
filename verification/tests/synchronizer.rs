use presence_sync::clock::Clock;
use presence_sync::ingest::Response;
use presence_sync::record::{LivenessState, PresenceRecord, SinkCall};
use presence_sync::synchronizer::{Synchronizer, DEFAULT_TICK_PERIOD, DEFAULT_TIMEOUT};
use std::sync::Mutex;
use std::time::{SystemTime, UNIX_EPOCH};

fn system_seconds() -> i64 {
    SystemTime::now().duration_since(UNIX_EPOCH).unwrap().as_secs() as i64
}

#[test]
fn defaults_are_ten_seconds_and_one_second() {
    assert_eq!(DEFAULT_TIMEOUT, 10);
    assert_eq!(DEFAULT_TICK_PERIOD, 1);
}

#[test]
fn new_clock_takes_any_first_reading() {
    let mut clock = Clock::new();
    assert_eq!(clock.latest(), i64::MIN);
    assert_eq!(clock.observe(-500), -500);
    assert_eq!(clock.latest(), -500);
}

#[test]
fn clock_never_runs_backward() {
    let mut clock = Clock::new();
    assert_eq!(clock.observe(100), 100);
    assert_eq!(clock.observe(90), 100);
    assert_eq!(clock.observe(100), 100);
    assert_eq!(clock.observe(101), 101);
    assert_eq!(clock.observe(i64::MIN), 101);
    assert_eq!(clock.observe(i64::MAX), i64::MAX);
    assert_eq!(clock.observe(0), i64::MAX);
    assert_eq!(clock.latest(), i64::MAX);
}

#[test]
fn clock_reads_the_system_time() {
    let before = system_seconds();
    let mut clock = Clock::new();
    let first = clock.now();
    let second = clock.now();
    let after = system_seconds();
    assert!(before <= first);
    assert!(first <= second);
    assert!(second <= after);
    assert_eq!(clock.latest(), second);
}

#[test]
fn clock_ahead_of_the_system_repeats_itself() {
    let mut clock = Clock::new();
    assert_eq!(clock.observe(i64::MAX - 1), i64::MAX - 1);
    assert_eq!(clock.now(), i64::MAX - 1);
}

#[test]
fn new_synchronizer_is_unknown() {
    let sync = Synchronizer::new(10);
    assert_eq!(sync.timeout(), 10);
    assert!(!sync.is_dirty());
    assert_eq!(
        sync.record(),
        PresenceRecord {
            last_heartbeat_at: 0,
            state: LivenessState::Unknown,
            player_count: 0,
            dirty: false,
        }
    );
}

#[test]
fn scenario_timeout_with_ticks_every_second() {
    let mut sync = Synchronizer::new(10);
    assert_eq!(sync.handle_at(b"/heartbeat", 0), (Response::HeartbeatOk, true));
    assert_eq!(sync.reconcile(), Some(SinkCall::SetOnline(0)));
    let mut calls = Vec::new();
    for t in 1..=25 {
        let wake = sync.tick_at(t);
        assert_eq!(wake, t == 10);
        let expected = if t < 10 { LivenessState::Online } else { LivenessState::Offline };
        assert_eq!(sync.record().state, expected);
        assert_eq!(sync.is_dirty(), wake);
        if let Some(call) = sync.reconcile() {
            calls.push((t, call));
        }
    }
    assert_eq!(calls, vec![(10, SinkCall::SetOffline)]);
}

#[test]
fn scenario_late_tick_still_detects_the_timeout() {
    let mut sync = Synchronizer::new(10);
    sync.handle_at(b"/heartbeat", 100);
    assert!(!sync.tick_at(109));
    assert!(sync.tick_at(250));
    assert_eq!(sync.record().state, LivenessState::Offline);
    assert_eq!(sync.reconcile(), Some(SinkCall::SetOffline));
}

#[test]
fn scenario_recovery_after_offline() {
    let mut sync = Synchronizer::new(10);
    sync.handle_at(b"/heartbeat", 0);
    sync.handle_at(b"/player/17", 1);
    assert_eq!(sync.reconcile(), Some(SinkCall::SetOnline(17)));
    assert!(sync.tick_at(11));
    assert_eq!(sync.reconcile(), Some(SinkCall::SetOffline));
    assert_eq!(sync.handle_at(b"/heartbeat", 30), (Response::HeartbeatOk, true));
    assert_eq!(sync.record().state, LivenessState::Online);
    assert_eq!(sync.reconcile(), Some(SinkCall::SetOnline(17)));
    assert_eq!(sync.reconcile(), None);
    assert!(!sync.tick_at(39));
    assert!(sync.tick_at(40));
}

#[test]
fn scenario_invalid_count_over_http() {
    let mut sync = Synchronizer::new(10);
    sync.handle_at(b"/heartbeat", 0);
    sync.handle_at(b"/player/8", 0);
    sync.reconcile();
    let before = sync.record();
    assert_eq!(sync.handle_at(b"/player/abc", 1), (Response::InvalidCount, false));
    assert_eq!(sync.handle_at(b"/player/-1", 1), (Response::InvalidCount, false));
    assert_eq!(sync.handle_at(b"/elsewhere", 1), (Response::NotFound, false));
    assert_eq!(sync.record(), before);
    assert_eq!(sync.reconcile(), None);
}

#[test]
fn reading_that_runs_backward_is_lifted_to_the_latest_time() {
    let mut sync = Synchronizer::new(10);
    sync.handle_at(b"/heartbeat", 100);
    assert_eq!(sync.record().last_heartbeat_at, 100);
    sync.handle_at(b"/heartbeat", 40);
    assert_eq!(sync.record().last_heartbeat_at, 100);
    assert!(!sync.tick_at(0));
    assert!(!sync.tick_at(109));
    assert!(sync.tick_at(110));
}

#[test]
fn every_request_advances_the_clock() {
    let mut sync = Synchronizer::new(10);
    sync.handle_at(b"/heartbeat", 5);
    sync.handle_at(b"/player/1", 50);
    assert_eq!(sync.record().last_heartbeat_at, 5);
    assert!(sync.tick_at(0));
}

#[test]
fn requests_are_served_at_the_system_time() {
    let before = system_seconds();
    let mut sync = Synchronizer::new(DEFAULT_TIMEOUT);
    assert_eq!(sync.handle(b"/heartbeat"), (Response::HeartbeatOk, true));
    let after = system_seconds();
    let record = sync.record();
    assert_eq!(record.state, LivenessState::Online);
    assert!(before <= record.last_heartbeat_at && record.last_heartbeat_at <= after);
    assert_eq!(sync.handle(b"/player/3"), (Response::PlayerCountOk, true));
    assert_eq!(sync.handle(b"/player/x"), (Response::InvalidCount, false));
    assert!(!sync.tick());
    assert_eq!(sync.reconcile(), Some(SinkCall::SetOnline(3)));
}

#[test]
fn tick_at_the_system_time_finds_an_old_heartbeat_silent() {
    let mut sync = Synchronizer::new(DEFAULT_TIMEOUT);
    sync.handle_at(b"/heartbeat", 1_000);
    sync.reconcile();
    assert!(sync.tick());
    assert_eq!(sync.record().state, LivenessState::Offline);
    assert_eq!(sync.reconcile(), Some(SinkCall::SetOffline));
    assert!(!sync.tick());
}

#[test]
fn interleaved_callers_keep_the_record_consistent() {
    let shared = Mutex::new(Synchronizer::new(10));
    let mut calls = Vec::new();
    let mut seed: u64 = 0x2545_f491_4f6c_dd1d;
    for round in 0..4000i64 {
        seed ^= seed << 13;
        seed ^= seed >> 7;
        seed ^= seed << 17;
        let now = round / 20;
        match seed % 4 {
            0 => {
                shared.lock().unwrap().handle_at(b"/heartbeat", now);
            }
            1 => {
                let path = format!("/player/{}", seed % 48);
                shared.lock().unwrap().handle_at(path.as_bytes(), now);
            }
            2 => {
                shared.lock().unwrap().tick_at(now + (seed % 30) as i64);
            }
            _ => {
                let call = shared.lock().unwrap().reconcile();
                if let Some(call) = call {
                    calls.push(call);
                }
            }
        }
        let record = shared.lock().unwrap().record();
        assert!(record.player_count < 48);
        assert!(record.last_heartbeat_at >= 0 && record.last_heartbeat_at < 260);
        if record.state == LivenessState::Unknown {
            assert!(!record.dirty);
            assert_eq!(record.last_heartbeat_at, 0);
        }
        if !record.dirty {
            let shown = calls.last().copied().unwrap_or(SinkCall::SetOffline);
            assert_eq!(shown, record.sink_call());
        }
    }
    let mut sync = shared.lock().unwrap();
    if let Some(call) = sync.reconcile() {
        calls.push(call);
    }
    let record = sync.record();
    assert!(!record.dirty);
    assert_ne!(record.state, LivenessState::Unknown);
    assert_eq!(calls.last().copied(), Some(record.sink_call()));
}
