use wake_on_traffic::controller::{
    has_idle_expired, next_step, Config, ControllerState, Lifecycle, NextStep, PacketEvent,
    DEFAULT_IDLE_TIMEOUT_SECS, DEFAULT_POLL_INTERVAL_MS,
};

fn config(finish: Option<&str>, timeout_secs: u64, debug: bool) -> Config {
    Config::new(
        "start-service".to_string(),
        finish.map(|f| f.to_string()),
        Some(timeout_secs),
        Some(1000),
        debug,
    )
}

fn event(timestamp: u64, sender: Option<&str>) -> PacketEvent {
    PacketEvent { timestamp, sender_identity: sender.map(|s| s.to_string()) }
}

#[test]
fn scenario_single_event_starts_then_times_out() {
    let config = config(Some("stop-service"), 5, false);
    let mut state = ControllerState::new(0);
    assert_eq!(state.lifecycle(), Lifecycle::Idle);

    let outcome = state.run_cycle(&vec![event(0, Some("10.0.0.1:4000"))], 1000, &config);
    assert_eq!(outcome.start, Some("start-service".to_string()));
    assert_eq!(outcome.report.client_count, Some(1));
    assert!(!outcome.report.timed_out);
    assert_eq!(outcome.report.command, None);
    assert_eq!(state.lifecycle(), Lifecycle::Running);

    let outcome = state.run_cycle(&vec![], 2000, &config);
    assert_eq!(outcome.start, None);
    assert_eq!(outcome.report.client_count, Some(0));
    assert!(!outcome.report.timed_out);
    for now in [3000, 4000, 4999] {
        let outcome = state.run_cycle(&vec![], now, &config);
        assert_eq!(outcome.start, None);
        assert_eq!(outcome.report.client_count, None);
        assert!(!outcome.report.timed_out);
        assert_eq!(outcome.report.command, None);
        assert_eq!(state.lifecycle(), Lifecycle::Running);
    }

    let outcome = state.run_cycle(&vec![], 5999, &config);
    assert_eq!(outcome.start, None);
    assert!(outcome.report.timed_out);
    assert_eq!(outcome.report.command, Some("stop-service".to_string()));
    assert_eq!(state.lifecycle(), Lifecycle::Idle);

    let outcome = state.run_cycle(&vec![], 6999, &config);
    assert!(!outcome.report.timed_out);
    assert_eq!(outcome.report.command, None);
    assert_eq!(state.lifecycle(), Lifecycle::Idle);
}

#[test]
fn scenario_two_senders_in_one_cycle_start_once() {
    let config = config(Some("stop-service"), 5, false);
    let mut state = ControllerState::new(0);
    let events = vec![event(100, Some("10.0.0.1:4000")), event(200, Some("10.0.0.2:4001"))];
    let outcome = state.run_cycle(&events, 1000, &config);
    assert_eq!(outcome.start, Some("start-service".to_string()));
    assert_eq!(outcome.report.client_count, Some(2));
    assert_eq!(state.lifecycle(), Lifecycle::Running);

    let mut state = ControllerState::new(0);
    state.begin_cycle();
    let first = state.on_event(&events[0], &config);
    let second = state.on_event(&events[1], &config);
    assert_eq!(first, Some("start-service".to_string()));
    assert_eq!(second, None);
    let report = state.end_cycle(1000, &config);
    assert_eq!(report.client_count, Some(2));
}

#[test]
fn scenario_without_finish_command_goes_idle_silently_and_restarts() {
    let config = config(None, 5, false);
    let mut state = ControllerState::new(0);
    let outcome = state.run_cycle(&vec![event(0, Some("10.0.0.1:4000"))], 1000, &config);
    assert_eq!(outcome.start, Some("start-service".to_string()));

    let outcome = state.run_cycle(&vec![], 5000, &config);
    assert!(outcome.report.timed_out);
    assert_eq!(outcome.report.command, None);
    assert_eq!(state.lifecycle(), Lifecycle::Idle);

    let outcome = state.run_cycle(&vec![event(5500, Some("10.0.0.1:4000"))], 6000, &config);
    assert_eq!(outcome.start, Some("start-service".to_string()));
    assert_eq!(state.lifecycle(), Lifecycle::Running);
}

#[test]
fn new_controller_is_idle_and_empty() {
    let state = ControllerState::new(42);
    assert_eq!(state.lifecycle(), Lifecycle::Idle);
    assert_eq!(state.last_activity(), 42);
    assert_eq!(state.cycle_packet_count(), 0);
    assert_eq!(state.cycle_senders().len(), 0);
    assert_eq!(state.previous_senders().len(), 0);
}

#[test]
fn start_fires_on_the_first_of_many_events_only() {
    let config = config(None, 900, false);
    let mut state = ControllerState::new(0);
    state.begin_cycle();
    let mut fired = 0;
    for i in 0..50u64 {
        let command = state.on_event(&event(i, Some("10.0.0.1:4000")), &config);
        if command.is_some() {
            assert_eq!(i, 0);
            fired += 1;
        }
    }
    assert_eq!(fired, 1);
    state.end_cycle(60, &config);
    state.begin_cycle();
    assert_eq!(state.on_event(&event(70, None), &config), None);
}

#[test]
fn events_while_running_start_nothing() {
    let config = config(None, 900, false);
    let mut state = ControllerState::new(0);
    state.run_cycle(&vec![event(0, None)], 10, &config);
    let outcome = state.run_cycle(&vec![event(20, None), event(30, None)], 40, &config);
    assert_eq!(outcome.start, None);
}

#[test]
fn timeout_happens_at_the_first_cycle_at_or_after_expiry() {
    let config = config(Some("stop"), 2, false);
    let mut state = ControllerState::new(0);
    state.run_cycle(&vec![event(500, None)], 600, &config);
    for now in [1000, 1500, 2000, 2499] {
        let report = state.run_cycle(&vec![], now, &config).report;
        assert!(!report.timed_out);
        assert_eq!(state.lifecycle(), Lifecycle::Running);
        assert_eq!(state.last_activity(), 500);
    }
    let report = state.run_cycle(&vec![], 2500, &config).report;
    assert!(report.timed_out);
    assert_eq!(report.command, Some("stop".to_string()));
    assert_eq!(state.lifecycle(), Lifecycle::Idle);
    assert_eq!(state.last_activity(), 500);
}

#[test]
fn an_event_postpones_the_timeout() {
    let config = config(Some("stop"), 2, false);
    let mut state = ControllerState::new(0);
    state.run_cycle(&vec![event(0, None)], 1000, &config);
    let report = state.run_cycle(&vec![event(1900, None)], 2000, &config).report;
    assert!(!report.timed_out);
    let report = state.run_cycle(&vec![], 3899, &config).report;
    assert!(!report.timed_out);
    let report = state.run_cycle(&vec![], 3900, &config).report;
    assert!(report.timed_out);
}

#[test]
fn an_idle_controller_never_times_out() {
    let config = config(Some("stop"), 1, false);
    let mut state = ControllerState::new(0);
    let report = state.run_cycle(&vec![], 1_000_000, &config).report;
    assert!(!report.timed_out);
    assert_eq!(report.command, None);
    assert_eq!(state.lifecycle(), Lifecycle::Idle);
}

#[test]
fn zero_timeout_expires_in_the_cycle_of_the_event() {
    let config = config(Some("stop"), 0, false);
    let mut state = ControllerState::new(0);
    let outcome = state.run_cycle(&vec![event(10, None)], 10, &config);
    assert_eq!(outcome.start, Some("start-service".to_string()));
    assert!(outcome.report.timed_out);
    assert_eq!(outcome.report.command, Some("stop".to_string()));
    assert_eq!(state.lifecycle(), Lifecycle::Idle);
}

#[test]
fn a_clock_that_reads_earlier_than_the_last_event_counts_as_no_time_passed() {
    let config = config(Some("stop"), 1, false);
    let mut state = ControllerState::new(0);
    let report = state.run_cycle(&vec![event(5000, None)], 4000, &config).report;
    assert!(!report.timed_out);
    assert_eq!(state.lifecycle(), Lifecycle::Running);
}

#[test]
fn idle_expiry_is_measured_in_whole_seconds_of_milliseconds() {
    assert!(has_idle_expired(5000, 0, 5));
    assert!(!has_idle_expired(4999, 0, 5));
    assert!(has_idle_expired(905_000, 5000, 900));
    assert!(!has_idle_expired(904_999, 5000, 900));
    assert!(has_idle_expired(0, 0, 0));
    assert!(!has_idle_expired(0, 10, 1));
    assert!(!has_idle_expired(u64::MAX, 0, u64::MAX));
    assert!(has_idle_expired(u64::MAX, 0, u64::MAX / 1000));
    assert!(!has_idle_expired(u64::MAX, 0, u64::MAX / 1000 + 1));
}

#[test]
fn client_count_is_reported_only_when_the_set_changes() {
    let config = config(None, 900, false);
    let mut state = ControllerState::new(0);
    let a = "10.0.0.1:4000";
    let b = "10.0.0.2:4001";

    let report = state.run_cycle(&vec![event(1, Some(a))], 10, &config).report;
    assert_eq!(report.client_count, Some(1));
    // the same sender again, twice: same set, no report
    let report = state.run_cycle(&vec![event(11, Some(a)), event(12, Some(a))], 20, &config).report;
    assert_eq!(report.client_count, None);
    // one more sender: report
    let report = state.run_cycle(&vec![event(21, Some(a)), event(22, Some(b))], 30, &config).report;
    assert_eq!(report.client_count, Some(2));
    // the same two in another order: no report
    let report = state.run_cycle(&vec![event(31, Some(b)), event(32, Some(a))], 40, &config).report;
    assert_eq!(report.client_count, None);
    // one sender replaced by another: same count, other members, report
    let report = state.run_cycle(&vec![event(41, Some(b)), event(42, Some("10.0.0.3:1"))], 50, &config).report;
    assert_eq!(report.client_count, Some(2));
    // one sender left: report
    let report = state.run_cycle(&vec![event(51, Some(b))], 60, &config).report;
    assert_eq!(report.client_count, Some(1));
    // nobody: report of zero, then silence
    let report = state.run_cycle(&vec![], 70, &config).report;
    assert_eq!(report.client_count, Some(0));
    let report = state.run_cycle(&vec![], 80, &config).report;
    assert_eq!(report.client_count, None);
}

#[test]
fn first_cycle_without_senders_reports_nothing() {
    let config = config(None, 900, false);
    let mut state = ControllerState::new(0);
    let report = state.run_cycle(&vec![], 10, &config).report;
    assert_eq!(report.client_count, None);
    let report = state.run_cycle(&vec![event(11, None)], 20, &config).report;
    assert_eq!(report.client_count, None);
}

#[test]
fn the_reported_snapshot_survives_the_next_reset() {
    let config = config(None, 900, false);
    let mut state = ControllerState::new(0);
    state.run_cycle(&vec![event(1, Some("10.0.0.1:4000"))], 10, &config);
    state.begin_cycle();
    assert_eq!(state.cycle_senders().len(), 0);
    assert_eq!(state.previous_senders().len(), 1);
    assert!(state.previous_senders().contains(&"10.0.0.1:4000".to_string()));
}

#[test]
fn every_event_of_a_burst_is_counted() {
    let config = config(None, 900, true);
    let mut state = ControllerState::new(0);
    let burst: Vec<PacketEvent> = (0..1000u64).map(|i| event(i, Some("10.0.0.1:4000"))).collect();
    let report = state.run_cycle(&burst, 1000, &config).report;
    assert_eq!(report.packet_count, Some(1000));
    assert_eq!(state.cycle_packet_count(), 1000);

    // the same burst taken in two cycles
    let mut state = ControllerState::new(0);
    let first = state.run_cycle(&burst[..317].to_vec(), 500, &config).report;
    let second = state.run_cycle(&burst[317..].to_vec(), 1000, &config).report;
    assert_eq!(first.packet_count, Some(317));
    assert_eq!(second.packet_count, Some(683));
}

#[test]
fn packet_count_is_reported_in_debug_mode_only() {
    let mut state = ControllerState::new(0);
    let quiet = config(None, 900, false);
    let report = state.run_cycle(&vec![event(1, None), event(2, None)], 10, &quiet).report;
    assert_eq!(report.packet_count, None);
    let loud = config(None, 900, true);
    let report = state.run_cycle(&vec![event(11, None), event(12, None)], 20, &loud).report;
    assert_eq!(report.packet_count, Some(2));
    let report = state.run_cycle(&vec![], 30, &loud).report;
    assert_eq!(report.packet_count, Some(0));
}

#[test]
fn an_event_without_identity_is_activity_but_no_client() {
    let config = config(None, 900, true);
    let mut state = ControllerState::new(0);
    state.begin_cycle();
    let command = state.on_event(&event(77, None), &config);
    assert_eq!(command, Some("start-service".to_string()));
    assert_eq!(state.last_activity(), 77);
    assert_eq!(state.cycle_packet_count(), 1);
    assert_eq!(state.cycle_senders().len(), 0);
    assert_eq!(state.lifecycle(), Lifecycle::Running);
    let report = state.end_cycle(100, &config);
    assert_eq!(report.client_count, None);
    assert_eq!(report.packet_count, Some(1));
}

#[test]
fn last_activity_is_the_time_of_the_last_event_taken() {
    let config = config(None, 900, false);
    let mut state = ControllerState::new(0);
    state.run_cycle(&vec![event(10, None), event(30, None), event(20, None)], 40, &config);
    assert_eq!(state.last_activity(), 20);
}

#[test]
fn begin_cycle_resets_senders_and_count_only() {
    let config = config(None, 900, false);
    let mut state = ControllerState::new(0);
    state.begin_cycle();
    state.on_event(&event(5, Some("10.0.0.1:4000")), &config);
    state.begin_cycle();
    assert_eq!(state.cycle_packet_count(), 0);
    assert_eq!(state.cycle_senders().len(), 0);
    assert_eq!(state.last_activity(), 5);
    assert_eq!(state.lifecycle(), Lifecycle::Running);
}

#[test]
fn config_takes_defaults_where_nothing_is_given() {
    let config = Config::new("go".to_string(), None, None, None, false);
    assert_eq!(config.start_command, "go");
    assert_eq!(config.finish_command, None);
    assert_eq!(config.idle_timeout_secs, 900);
    assert_eq!(config.poll_interval_ms, 1000);
    assert!(!config.debug);
    assert_eq!(DEFAULT_IDLE_TIMEOUT_SECS, 900);
    assert_eq!(DEFAULT_POLL_INTERVAL_MS, 1000);
}

#[test]
fn config_keeps_what_is_given() {
    let config = Config::new("go".to_string(), Some("halt".to_string()), Some(5), Some(250), true);
    assert_eq!(config.start_command, "go");
    assert_eq!(config.finish_command, Some("halt".to_string()));
    assert_eq!(config.idle_timeout_secs, 5);
    assert_eq!(config.poll_interval_ms, 250);
    assert!(config.debug);
}

#[test]
fn next_step_sleeps_while_the_relay_lives() {
    let config = Config::new("go".to_string(), None, None, Some(250), false);
    assert_eq!(next_step(&config, true), NextStep::Sleep { millis: 250 });
    assert_eq!(next_step(&config, false), NextStep::Halt);
}
