use runaway_daemon::collector::ProcessInfo;
use runaway_daemon::config::{
    CpuDetectionConfig, DetectionConfig, HangDetectionConfig, MemoryDetectionConfig,
    TimeoutDetectionConfig,
};
use runaway_daemon::detector::{
    AlertReason, AnomalyDetector, Detector, ProcessHistory, Severity,
};
use std::time::{SystemTime, UNIX_EPOCH};

const MB: u64 = 1_048_576;

fn test_config() -> DetectionConfig {
    DetectionConfig {
        cpu: CpuDetectionConfig { enabled: true, threshold_percent: 90, duration_seconds: 2 },
        hang: HangDetectionConfig { enabled: true, duration_seconds: 2 },
        memory: MemoryDetectionConfig { enabled: true, growth_mb: 100, window_minutes: 1 },
        timeout: TimeoutDetectionConfig { enabled: true },
    }
}

fn test_process(pid: u32) -> ProcessInfo {
    ProcessInfo {
        pid,
        name: "test".to_string(),
        cmdline: "/usr/bin/test".to_string(),
        cpu_millipercent: 10_000,
        memory_bytes: 50 * MB,
        runtime_seconds: 100,
        state: 'S',
        start_time: 0,
    }
}

fn config_with(cpu: (bool, u8, u64), hang: (bool, u64), memory: (bool, u64, u64)) -> DetectionConfig {
    DetectionConfig {
        cpu: CpuDetectionConfig { enabled: cpu.0, threshold_percent: cpu.1, duration_seconds: cpu.2 },
        hang: HangDetectionConfig { enabled: hang.0, duration_seconds: hang.1 },
        memory: MemoryDetectionConfig {
            enabled: memory.0,
            growth_mb: memory.1,
            window_minutes: memory.2,
        },
        timeout: TimeoutDetectionConfig { enabled: true },
    }
}

#[test]
fn test_normal_process_no_alert() {
    let mut detector = AnomalyDetector::new(test_config());
    let process = test_process(1);
    let alert = detector.check(&process);
    assert!(alert.is_none());
}

#[test]
fn test_whitelisted_process_no_alert() {
    let mut detector = AnomalyDetector::new(test_config());
    detector.add_whitelist("test".to_string());
    let mut process = test_process(1);
    process.cpu_millipercent = 100_000;
    let alert = detector.check(&process);
    assert!(alert.is_none());
}

#[test]
fn test_hanging_process_alert() {
    let mut detector = AnomalyDetector::new(test_config());
    let mut process = test_process(1);
    process.state = 'D';

    // First check initializes history
    detector.check(&process);

    // Ten seconds pass in the same state
    let now = SystemTime::now().duration_since(UNIX_EPOCH).map(|d| d.as_secs()).unwrap_or(0);
    let alert = detector.check_at(&process, now + 10);
    assert!(alert.is_some());
    let a = alert.unwrap();
    assert_eq!(a.reason, AlertReason::Hang);
}

#[test]
fn repeated_checks_of_a_quiet_process_never_alert() {
    let mut detector = AnomalyDetector::new(test_config());
    let process = test_process(7);
    for second in 0..500u64 {
        assert!(detector.check_at(&process, 1000 + second).is_none());
    }
}

#[test]
fn whitelisted_substring_silences_every_metric() {
    let mut detector = AnomalyDetector::new(config_with((true, 1, 0), (true, 0), (true, 0, 1)));
    detector.add_whitelist("fox".to_string());
    let mut process = test_process(3);
    process.name = "firefox-esr".to_string();
    process.cpu_millipercent = 400_000;
    process.state = 'D';
    for second in 0..10u64 {
        process.memory_bytes += 1000 * MB;
        assert!(detector.check_at(&process, 50 + second * 100).is_none());
    }
    // the same metrics under another name alert at once
    process.name = "chrome".to_string();
    assert!(detector.check_at(&process, 2000).is_some());
}

#[test]
fn whitelisted_check_leaves_no_history() {
    let mut detector = AnomalyDetector::new(config_with((false, 0, 0), (true, 5), (false, 0, 0)));
    detector.add_whitelist("test".to_string());
    let mut process = test_process(9);
    process.state = 'T';
    assert!(detector.check_at(&process, 100).is_none());
    // had the whitelisted check been recorded, ten seconds of 'T' would alert
    process.name = "other".to_string();
    assert!(detector.check_at(&process, 110).is_none());
    let alert = detector.check_at(&process, 115).unwrap();
    assert_eq!(alert.reason, AlertReason::Hang);
    assert_eq!(alert.severity, Severity::Warning);
}

#[test]
fn cpu_alert_fires_at_sixty_seconds_not_before() {
    let mut detector = AnomalyDetector::new(config_with((true, 90, 60), (false, 0), (false, 0, 0)));
    let mut process = test_process(42);
    process.cpu_millipercent = 95_000;
    let mut alerts = Vec::new();
    for second in 0..=60u64 {
        if let Some(alert) = detector.check_at(&process, 5000 + second) {
            alerts.push((second, alert));
        }
    }
    assert_eq!(alerts.len(), 1);
    assert_eq!(alerts[0].0, 60);
    assert_eq!(alerts[0].1.reason, AlertReason::CpuHigh);
    assert_eq!(alerts[0].1.severity, Severity::Warning);
    assert_eq!(alerts[0].1.pid, 42);
    assert_eq!(alerts[0].1.name, "test");
    assert_eq!(alerts[0].1.cmdline, "/usr/bin/test");
    assert_eq!(alerts[0].1.timestamp, 5060);
}

#[test]
fn cpu_alert_turns_critical_at_twice_the_duration() {
    let mut detector = AnomalyDetector::new(config_with((true, 90, 60), (false, 0), (false, 0, 0)));
    let mut process = test_process(42);
    process.cpu_millipercent = 90_000;
    assert!(detector.check_at(&process, 0).is_none());
    assert!(detector.check_at(&process, 59).is_none());
    assert_eq!(detector.check_at(&process, 60).unwrap().severity, Severity::Warning);
    assert_eq!(detector.check_at(&process, 119).unwrap().severity, Severity::Warning);
    assert_eq!(detector.check_at(&process, 120).unwrap().severity, Severity::Critical);
}

#[test]
fn cpu_threshold_is_inclusive_and_exact() {
    let mut detector = AnomalyDetector::new(config_with((true, 90, 0), (false, 0), (false, 0, 0)));
    let mut process = test_process(1);
    process.cpu_millipercent = 89_999;
    assert!(detector.check_at(&process, 10).is_none());
    process.cpu_millipercent = 90_000;
    // duration 0: at the threshold the alert is immediate and critical
    let alert = detector.check_at(&process, 11).unwrap();
    assert_eq!(alert.reason, AlertReason::CpuHigh);
    assert_eq!(alert.severity, Severity::Critical);
}

#[test]
fn one_poll_below_threshold_resets_the_cpu_streak() {
    let mut detector = AnomalyDetector::new(config_with((true, 90, 60), (false, 0), (false, 0, 0)));
    let mut process = test_process(5);
    process.cpu_millipercent = 99_000;
    assert!(detector.check_at(&process, 0).is_none());
    assert!(detector.check_at(&process, 50).is_none());
    process.cpu_millipercent = 10_000;
    assert!(detector.check_at(&process, 55).is_none());
    process.cpu_millipercent = 99_000;
    assert!(detector.check_at(&process, 56).is_none());
    assert!(detector.check_at(&process, 115).is_none());
    assert!(detector.check_at(&process, 116).is_some());
}

#[test]
fn disabled_cpu_check_never_alerts() {
    let mut detector = AnomalyDetector::new(config_with((false, 0, 0), (false, 0), (false, 0, 0)));
    let mut process = test_process(5);
    process.cpu_millipercent = u64::MAX;
    assert!(detector.check_at(&process, 0).is_none());
    assert!(detector.check_at(&process, 1_000_000).is_none());
}

#[test]
fn clock_running_backwards_gives_no_alert() {
    let mut detector = AnomalyDetector::new(config_with((true, 50, 0), (true, 0), (false, 0, 0)));
    let mut process = test_process(5);
    process.cpu_millipercent = 99_000;
    process.state = 'D';
    assert!(detector.check_at(&process, 1000).is_some());
    assert!(detector.check_at(&process, 999).is_none());
}

#[test]
fn blocked_for_sixty_five_seconds_is_one_critical_alert() {
    let mut detector = AnomalyDetector::new(config_with((false, 0, 0), (true, 30), (false, 0, 0)));
    let mut process = test_process(8);
    process.state = 'D';
    assert!(detector.check_at(&process, 100).is_none());
    let alert = detector.check_at(&process, 165).unwrap();
    assert_eq!(alert.reason, AlertReason::Hang);
    assert_eq!(alert.severity, Severity::Critical);
    assert_eq!(alert.timestamp, 165);
}

#[test]
fn hang_alerts_at_the_duration_and_escalates_at_twice() {
    let mut detector = AnomalyDetector::new(config_with((false, 0, 0), (true, 30), (false, 0, 0)));
    let mut process = test_process(8);
    process.state = 'T';
    assert!(detector.check_at(&process, 0).is_none());
    assert!(detector.check_at(&process, 29).is_none());
    assert_eq!(detector.check_at(&process, 30).unwrap().severity, Severity::Warning);
    assert_eq!(detector.check_at(&process, 59).unwrap().severity, Severity::Warning);
    assert_eq!(detector.check_at(&process, 60).unwrap().severity, Severity::Critical);
}

#[test]
fn state_change_restarts_the_hang_timer() {
    let mut detector = AnomalyDetector::new(config_with((false, 0, 0), (true, 30), (false, 0, 0)));
    let mut process = test_process(8);
    process.state = 'D';
    assert!(detector.check_at(&process, 0).is_none());
    assert!(detector.check_at(&process, 25).is_none());
    process.state = 'T';
    assert!(detector.check_at(&process, 29).is_none());
    // 30 s after the first sighting, but only 1 s in the new state
    assert!(detector.check_at(&process, 30).is_none());
    assert!(detector.check_at(&process, 58).is_none());
    assert!(detector.check_at(&process, 59).is_some());
}

#[test]
fn sleeping_and_running_states_never_hang() {
    let mut detector = AnomalyDetector::new(config_with((false, 0, 0), (true, 1), (false, 0, 0)));
    let mut process = test_process(8);
    for state in ['R', 'S', 'Z', 'I', '?'] {
        process.state = state;
        process.pid += 1;
        assert!(detector.check_at(&process, 0).is_none());
        assert!(detector.check_at(&process, 1000).is_none());
    }
}

#[test]
fn cpu_alert_takes_precedence_over_hang_and_memory() {
    let mut detector = AnomalyDetector::new(config_with((true, 90, 10), (true, 10), (true, 1, 10)));
    let mut process = test_process(2);
    process.cpu_millipercent = 95_000;
    process.state = 'D';
    assert!(detector.check_at(&process, 0).is_none());
    process.memory_bytes += 10 * MB;
    let alert = detector.check_at(&process, 10).unwrap();
    assert_eq!(alert.reason, AlertReason::CpuHigh);
    // with low cpu the hang check is next in line
    process.cpu_millipercent = 0;
    let alert = detector.check_at(&process, 11).unwrap();
    assert_eq!(alert.reason, AlertReason::Hang);
    // and with a quiet state, memory
    let mut detector = AnomalyDetector::new(config_with((true, 90, 10), (true, 10), (true, 1, 10)));
    process.state = 'S';
    process.memory_bytes = 50 * MB;
    assert!(detector.check_at(&process, 0).is_none());
    process.memory_bytes = 51 * MB;
    let alert = detector.check_at(&process, 1).unwrap();
    assert_eq!(alert.reason, AlertReason::MemoryLeak);
}

#[test]
fn memory_needs_two_samples_in_the_window() {
    let mut detector = AnomalyDetector::new(config_with((false, 0, 0), (false, 0), (true, 100, 1)));
    let mut process = test_process(4);
    process.memory_bytes = 5000 * MB;
    // a single sample: no verdict, however large
    assert!(detector.check_at(&process, 1000).is_none());
    // the first sample has left the one-minute window
    process.memory_bytes = 9000 * MB;
    assert!(detector.check_at(&process, 1061).is_none());
    // now two samples are in the window: 9000 -> 9100
    process.memory_bytes = 9100 * MB;
    let alert = detector.check_at(&process, 1100).unwrap();
    assert_eq!(alert.reason, AlertReason::MemoryLeak);
    assert_eq!(alert.severity, Severity::Warning);
}

#[test]
fn memory_growth_thresholds_are_exact() {
    let config = config_with((false, 0, 0), (false, 0), (true, 100, 5));
    let mut process = test_process(4);

    let mut detector = AnomalyDetector::new(config);
    process.memory_bytes = 50 * MB;
    assert!(detector.check_at(&process, 0).is_none());
    process.memory_bytes = 150 * MB - 1;
    assert!(detector.check_at(&process, 1).is_none());
    process.memory_bytes = 150 * MB;
    assert_eq!(detector.check_at(&process, 2).unwrap().severity, Severity::Warning);
    process.memory_bytes = 250 * MB - 1;
    assert_eq!(detector.check_at(&process, 3).unwrap().severity, Severity::Warning);
    process.memory_bytes = 250 * MB;
    assert_eq!(detector.check_at(&process, 4).unwrap().severity, Severity::Critical);
}

#[test]
fn memory_growth_is_measured_from_the_oldest_sample_in_the_window() {
    let mut detector = AnomalyDetector::new(config_with((false, 0, 0), (false, 0), (true, 100, 1)));
    let mut process = test_process(4);
    process.memory_bytes = 10 * MB;
    assert!(detector.check_at(&process, 0).is_none());
    process.memory_bytes = 100 * MB;
    assert!(detector.check_at(&process, 30).is_none());
    // at t=70 the window starts at t=10: the oldest sample in it is 100 MB
    process.memory_bytes = 150 * MB;
    assert!(detector.check_at(&process, 70).is_none());
    // at t=60 it would still have been measured from 10 MB
    let mut detector = AnomalyDetector::new(config_with((false, 0, 0), (false, 0), (true, 100, 1)));
    process.memory_bytes = 10 * MB;
    assert!(detector.check_at(&process, 0).is_none());
    process.memory_bytes = 100 * MB;
    assert!(detector.check_at(&process, 30).is_none());
    process.memory_bytes = 150 * MB;
    assert!(detector.check_at(&process, 60).is_some());
}

#[test]
fn shrinking_memory_never_alerts() {
    let mut detector = AnomalyDetector::new(config_with((false, 0, 0), (false, 0), (true, 0, 1)));
    let mut process = test_process(4);
    process.memory_bytes = 1000 * MB;
    for second in 0..100u64 {
        process.memory_bytes -= MB;
        assert!(detector.check_at(&process, second).is_none());
    }
}

#[test]
fn sixty_first_sample_evicts_the_oldest() {
    // window of 1000 minutes: only the ring bounds what is remembered
    let mut detector =
        AnomalyDetector::new(config_with((false, 0, 0), (false, 0), (true, 100, 1000)));
    let mut process = test_process(11);
    // sample 0 is small, samples 1..=59 are large
    process.memory_bytes = 10 * MB;
    assert!(detector.check_at(&process, 0).is_none());
    process.memory_bytes = 200 * MB;
    for second in 1..60u64 {
        let alert = detector.check_at(&process, second);
        assert_eq!(alert.unwrap().reason, AlertReason::MemoryLeak);
    }
    // the 61st sample evicts sample 0: growth is now measured from 200 MB
    assert!(detector.check_at(&process, 60).is_none());
}

#[test]
fn sixtieth_sample_still_sees_the_first() {
    let mut detector =
        AnomalyDetector::new(config_with((false, 0, 0), (false, 0), (true, 100, 1000)));
    let mut process = test_process(11);
    process.memory_bytes = 10 * MB;
    assert!(detector.check_at(&process, 0).is_none());
    process.memory_bytes = 20 * MB;
    for second in 1..59u64 {
        assert!(detector.check_at(&process, second).is_none());
    }
    process.memory_bytes = 110 * MB;
    assert!(detector.check_at(&process, 59).is_some());
}

#[test]
fn purged_pid_restarts_from_first_sighting() {
    let mut detector = AnomalyDetector::new(config_with((true, 90, 60), (true, 30), (true, 100, 5)));
    let mut process = test_process(77);
    process.cpu_millipercent = 99_000;
    process.state = 'D';
    assert!(detector.check_at(&process, 0).is_none());
    assert!(detector.check_at(&process, 29).is_none());
    // the pid is absent from a full batch
    detector.cleanup(&[1, 2, 3]);
    // the same numeric pid comes back: every timer starts anew
    process.memory_bytes = 5000 * MB;
    assert!(detector.check_at(&process, 31).is_none());
    assert!(detector.check_at(&process, 60).is_none());
    let alert = detector.check_at(&process, 61).unwrap();
    assert_eq!(alert.reason, AlertReason::Hang);
}

#[test]
fn cleanup_keeps_the_history_of_active_pids() {
    let mut detector = AnomalyDetector::new(config_with((false, 0, 0), (true, 30), (false, 0, 0)));
    let mut process = test_process(77);
    process.state = 'D';
    assert!(detector.check_at(&process, 0).is_none());
    detector.cleanup(&[5, 77, 77, 9]);
    assert!(detector.check_at(&process, 30).is_some());
}

#[test]
fn processes_are_judged_apart() {
    let mut detector = AnomalyDetector::new(config_with((false, 0, 0), (true, 30), (false, 0, 0)));
    let mut blocked = test_process(1);
    blocked.state = 'D';
    let fine = test_process(2);
    assert!(detector.check_at(&blocked, 0).is_none());
    assert!(detector.check_at(&fine, 0).is_none());
    assert!(detector.check_at(&fine, 40).is_none());
    let alert = detector.check_at(&blocked, 40).unwrap();
    assert_eq!(alert.pid, 1);
}

#[test]
fn adding_a_pattern_twice_keeps_it_once() {
    let mut detector = AnomalyDetector::new(test_config());
    detector.add_whitelist("chrome".to_string());
    detector.add_whitelist("chrome".to_string());
    detector.add_whitelist("".to_string());
    assert!(detector.is_whitelisted("chrome"));
    // the empty pattern is part of every name
    assert!(detector.is_whitelisted("anything"));
}

#[test]
fn whitelist_matches_substrings_anywhere() {
    let mut detector = AnomalyDetector::new(test_config());
    assert!(!detector.is_whitelisted("firefox"));
    detector.add_whitelist("fire".to_string());
    detector.add_whitelist("süß".to_string());
    assert!(detector.is_whitelisted("firefox"));
    assert!(detector.is_whitelisted("campfire"));
    assert!(detector.is_whitelisted("xxsüßyy"));
    assert!(!detector.is_whitelisted("fir"));
    assert!(!detector.is_whitelisted("Fire"));
    assert!(!detector.is_whitelisted(""));
}

#[test]
fn reason_and_severity_names() {
    assert_eq!(AlertReason::CpuHigh.as_str(), "cpu_high");
    assert_eq!(AlertReason::Hang.as_str(), "hang");
    assert_eq!(AlertReason::MemoryLeak.as_str(), "memory_leak");
    assert_eq!(AlertReason::Timeout.as_str(), "timeout");
    assert_eq!(Severity::Warning.as_str(), "warning");
    assert_eq!(Severity::Critical.as_str(), "critical");
}

#[test]
fn cpu_check_starts_keeps_and_clears_the_streak() {
    let detector = AnomalyDetector::new(config_with((true, 90, 60), (false, 0), (false, 0, 0)));
    let mut process = test_process(6);
    let mut history = ProcessHistory::new('S', 100);

    // below the threshold: no alert, no streak
    process.cpu_millipercent = 89_999;
    assert!(detector.check_cpu(&process, &mut history, 100).is_none());
    // the first high reading starts a streak of length zero
    process.cpu_millipercent = 90_000;
    assert!(detector.check_cpu(&process, &mut history, 110).is_none());
    assert!(detector.check_cpu(&process, &mut history, 169).is_none());
    // 60 s after the start of the streak
    let alert = detector.check_cpu(&process, &mut history, 170).unwrap();
    assert_eq!(alert.reason, AlertReason::CpuHigh);
    assert_eq!(alert.severity, Severity::Warning);
    assert_eq!(alert.pid, 6);
    assert_eq!(alert.name, "test");
    assert_eq!(alert.cmdline, "/usr/bin/test");
    assert_eq!(alert.timestamp, 170);
    assert_eq!(
        detector.check_cpu(&process, &mut history, 229).unwrap().severity,
        Severity::Warning
    );
    assert_eq!(
        detector.check_cpu(&process, &mut history, 230).unwrap().severity,
        Severity::Critical
    );
    // one reading below clears a streak of any length
    process.cpu_millipercent = 0;
    assert!(detector.check_cpu(&process, &mut history, 231).is_none());
    process.cpu_millipercent = 100_000;
    assert!(detector.check_cpu(&process, &mut history, 232).is_none());
    assert!(detector.check_cpu(&process, &mut history, 291).is_none());
    assert!(detector.check_cpu(&process, &mut history, 292).is_some());
}

#[test]
fn disabled_cpu_check_leaves_the_streak_alone() {
    let enabled = AnomalyDetector::new(config_with((true, 90, 60), (false, 0), (false, 0, 0)));
    let disabled = AnomalyDetector::new(config_with((false, 90, 60), (false, 0), (false, 0, 0)));
    let mut process = test_process(6);
    let mut history = ProcessHistory::new('S', 0);
    process.cpu_millipercent = 95_000;
    assert!(enabled.check_cpu(&process, &mut history, 0).is_none());
    // a low reading would clear the streak, were the check enabled
    process.cpu_millipercent = 0;
    assert!(disabled.check_cpu(&process, &mut history, 30).is_none());
    process.cpu_millipercent = 95_000;
    assert!(disabled.check_cpu(&process, &mut history, 100).is_none());
    assert!(enabled.check_cpu(&process, &mut history, 60).is_some());
}

#[test]
fn hang_check_measures_from_the_last_change_of_state() {
    let detector = AnomalyDetector::new(config_with((false, 0, 0), (true, 30), (false, 0, 0)));
    let mut process = test_process(6);
    process.state = 'D';
    let mut history = ProcessHistory::new('S', 100);
    // the state changes at 110
    history.observe(&process, 110);
    assert!(detector.check_hang(&process, &history, 110).is_none());
    history.observe(&process, 139);
    assert!(detector.check_hang(&process, &history, 139).is_none());
    history.observe(&process, 140);
    let alert = detector.check_hang(&process, &history, 140).unwrap();
    assert_eq!(alert.reason, AlertReason::Hang);
    assert_eq!(alert.severity, Severity::Warning);
    assert_eq!(alert.timestamp, 140);
    assert_eq!(detector.check_hang(&process, &history, 169).unwrap().severity, Severity::Warning);
    assert_eq!(detector.check_hang(&process, &history, 170).unwrap().severity, Severity::Critical);
    // a state that is neither blocked nor stopped never hangs
    process.state = 'S';
    assert!(detector.check_hang(&process, &history, 1000).is_none());
    // a clock that ran backwards gives no alert
    process.state = 'D';
    assert!(detector.check_hang(&process, &history, 5).is_none());
}

#[test]
fn memory_check_needs_two_samples_and_measures_from_the_oldest() {
    let detector = AnomalyDetector::new(config_with((false, 0, 0), (false, 0), (true, 100, 1)));
    let mut process = test_process(6);
    let mut history = ProcessHistory::new('S', 0);
    // no sample, then one: no verdict, whatever the memory
    process.memory_bytes = u64::MAX;
    assert!(detector.check_memory_leak(&process, &history, 0).is_none());
    process.memory_bytes = 10 * MB;
    history.observe(&process, 0);
    process.memory_bytes = u64::MAX;
    assert!(detector.check_memory_leak(&process, &history, 0).is_none());
    // two samples in the window: growth from the oldest, 10 MB
    process.memory_bytes = 50 * MB;
    history.observe(&process, 30);
    process.memory_bytes = 110 * MB - 1;
    assert!(detector.check_memory_leak(&process, &history, 30).is_none());
    process.memory_bytes = 110 * MB;
    let alert = detector.check_memory_leak(&process, &history, 30).unwrap();
    assert_eq!(alert.reason, AlertReason::MemoryLeak);
    assert_eq!(alert.severity, Severity::Warning);
    assert_eq!(alert.timestamp, 30);
    process.memory_bytes = 210 * MB;
    assert_eq!(
        detector.check_memory_leak(&process, &history, 30).unwrap().severity,
        Severity::Critical
    );
    // at 61 the first sample has left the window: one sample, no verdict
    assert!(detector.check_memory_leak(&process, &history, 61).is_none());
}

#[test]
fn snapshot_does_not_see_later_changes() {
    let detector = AnomalyDetector::new(config_with((false, 0, 0), (true, 10), (true, 1, 10)));
    let mut process = test_process(6);
    process.state = 'S';
    let mut history = ProcessHistory::new('S', 0);
    history.observe(&process, 0);
    let seen = history.snapshot();
    process.state = 'T';
    process.memory_bytes += 5 * MB;
    history.observe(&process, 5);
    // the live history holds the change of state and two samples
    assert!(detector.check_hang(&process, &history, 15).is_some());
    assert!(detector.check_memory_leak(&process, &history, 15).is_some());
    // the copy holds neither
    assert!(detector.check_hang(&process, &seen, 9).is_none());
    assert!(detector.check_hang(&process, &seen, 10).is_some());
    assert!(detector.check_memory_leak(&process, &seen, 15).is_none());
}
