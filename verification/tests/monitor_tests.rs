use runaway_daemon::collector::ProcessInfo;
use runaway_daemon::config::{
    Config, CpuDetectionConfig, DetectionConfig, HangDetectionConfig, MemoryDetectionConfig,
    TimeoutDetectionConfig,
};
use runaway_daemon::detector::{AlertReason, AnomalyDetector};
use runaway_daemon::monitor::{Monitor, Tick};

fn hang_only(duration: u64) -> DetectionConfig {
    DetectionConfig {
        cpu: CpuDetectionConfig { enabled: false, threshold_percent: 0, duration_seconds: 0 },
        hang: HangDetectionConfig { enabled: true, duration_seconds: duration },
        memory: MemoryDetectionConfig { enabled: false, growth_mb: 0, window_minutes: 0 },
        timeout: TimeoutDetectionConfig { enabled: false },
    }
}

fn process(pid: u32, state: char) -> ProcessInfo {
    ProcessInfo {
        pid,
        name: format!("p{}", pid),
        cmdline: String::new(),
        cpu_millipercent: 0,
        memory_bytes: 0,
        runtime_seconds: 0,
        state,
        start_time: 0,
    }
}

fn alerts_of(tick: &mut Tick, detector: &mut AnomalyDetector, now: u64) -> Vec<u32> {
    let mut pids = Vec::new();
    while let Some(alert) = tick.next_alert_at(detector, now) {
        assert_eq!(alert.reason, AlertReason::Hang);
        assert_eq!(alert.timestamp, now);
        pids.push(alert.pid);
    }
    pids
}

#[test]
fn alerts_come_in_batch_order() {
    let mut detector = AnomalyDetector::new(hang_only(0));
    let batch = vec![
        process(5, 'S'),
        process(3, 'D'),
        process(9, 'R'),
        process(1, 'T'),
        process(2, 'D'),
    ];
    let mut tick = Tick::new(batch);
    assert_eq!(tick.monitored(), 5);
    assert!(!tick.had_alert());
    assert_eq!(tick.next_alert_at(&mut detector, 10).unwrap().pid, 3);
    assert!(tick.had_alert());
    assert_eq!(tick.next_alert_at(&mut detector, 11).unwrap().pid, 1);
    assert_eq!(tick.next_alert_at(&mut detector, 12).unwrap().pid, 2);
    assert!(tick.next_alert_at(&mut detector, 13).is_none());
    // an exhausted tick stays exhausted
    assert!(tick.next_alert_at(&mut detector, 14).is_none());
    assert!(tick.had_alert());
}

#[test]
fn quiet_batch_gives_no_alert() {
    let mut detector = AnomalyDetector::new(hang_only(0));
    let mut tick = Tick::new(vec![process(1, 'S'), process(2, 'R')]);
    assert!(tick.next_alert(&mut detector).is_none());
    assert!(!tick.had_alert());
    let mut empty = Tick::new(Vec::new());
    assert!(empty.next_alert(&mut detector).is_none());
    assert_eq!(empty.monitored(), 0);
}

#[test]
fn clock_driven_tick_alerts_too() {
    let mut detector = AnomalyDetector::new(hang_only(0));
    let mut tick = Tick::new(vec![process(1, 'S'), process(2, 'D')]);
    let alert = tick.next_alert(&mut detector).unwrap();
    assert_eq!(alert.pid, 2);
    assert!(alert.timestamp > 1_600_000_000);
    assert!(tick.next_alert(&mut detector).is_none());
}

#[test]
fn end_of_batch_purges_absent_pids() {
    let mut detector = AnomalyDetector::new(hang_only(30));
    let mut tick = Tick::new(vec![process(1, 'D'), process(2, 'D')]);
    assert!(alerts_of(&mut tick, &mut detector, 0).is_empty());
    // pid 2 is missing from the second batch
    let mut tick = Tick::new(vec![process(1, 'D')]);
    assert!(alerts_of(&mut tick, &mut detector, 20).is_empty());
    // both are back: pid 1 has been blocked for 40 s, pid 2 starts anew
    let mut tick = Tick::new(vec![process(1, 'D'), process(2, 'D')]);
    assert_eq!(alerts_of(&mut tick, &mut detector, 40), vec![1]);
    let mut tick = Tick::new(vec![process(1, 'D'), process(2, 'D')]);
    assert_eq!(alerts_of(&mut tick, &mut detector, 70), vec![1, 2]);
}

#[test]
fn purge_waits_for_the_end_of_the_batch() {
    let mut detector = AnomalyDetector::new(hang_only(0));
    let blocked = process(7, 'D');
    assert!(detector.check_at(&blocked, 0).is_some());
    // pid 7 is not in this batch, but the batch stops at its first alert
    let mut tick = Tick::new(vec![process(1, 'D'), process(2, 'S')]);
    assert_eq!(tick.next_alert_at(&mut detector, 5).unwrap().pid, 1);
    let mut later = AnomalyDetector::new(hang_only(10));
    assert!(later.check_at(&blocked, 0).is_none());
    let mut tick = Tick::new(vec![process(1, 'D'), process(2, 'S')]);
    assert!(tick.next_alert_at(&mut later, 5).is_none());
    // purged at the end: ten seconds later pid 7 is a first sighting
    assert!(later.check_at(&blocked, 10).is_none());
}

#[test]
fn cadence_follows_whether_the_tick_had_an_alert() {
    let general = Config::default().general;
    let mut detector = AnomalyDetector::new(hang_only(0));
    let mut monitor = Monitor::new();
    assert_eq!(Monitor::first_interval(&general), 10);
    assert!(!monitor.in_alert_mode());

    // quiet tick in normal mode: nothing changes
    let mut tick = Tick::new(vec![process(1, 'S')]);
    assert!(alerts_of(&mut tick, &mut detector, 0).is_empty());
    let end = monitor.finish(&tick, &general);
    assert_eq!(end.new_interval, None);
    assert!(!monitor.in_alert_mode());

    // first tick with alerts: switch to the alert cadence, once
    let mut tick = Tick::new(vec![process(1, 'D'), process(2, 'T')]);
    assert_eq!(alerts_of(&mut tick, &mut detector, 1).len(), 2);
    let end = monitor.finish(&tick, &general);
    assert_eq!(end.new_interval, Some(2));
    assert!(monitor.in_alert_mode());

    // alerts go on: no change
    let mut tick = Tick::new(vec![process(1, 'D')]);
    assert_eq!(alerts_of(&mut tick, &mut detector, 2).len(), 1);
    let end = monitor.finish(&tick, &general);
    assert_eq!(end.new_interval, None);
    assert!(monitor.in_alert_mode());

    // first quiet tick: back to the normal cadence
    let mut tick = Tick::new(vec![process(1, 'S')]);
    assert!(alerts_of(&mut tick, &mut detector, 3).is_empty());
    let end = monitor.finish(&tick, &general);
    assert_eq!(end.new_interval, Some(10));
    assert!(!monitor.in_alert_mode());
}

#[test]
fn loop_starts_in_the_configured_normal_cadence() {
    let mut general = Config::default().general;
    assert_eq!(Monitor::first_interval(&general), 10);
    general.sample_interval_normal = 5;
    general.sample_interval_alert = 1;
    assert_eq!(Monitor::first_interval(&general), 5);

    // an alert comes and goes: 5 s, then 1 s, then 5 s again
    let mut detector = AnomalyDetector::new(hang_only(0));
    let mut monitor = Monitor::new();
    let mut tick = Tick::new(vec![process(1, 'D')]);
    assert_eq!(alerts_of(&mut tick, &mut detector, 0).len(), 1);
    assert_eq!(monitor.finish(&tick, &general).new_interval, Some(1));
    let mut tick = Tick::new(vec![process(1, 'S')]);
    assert!(alerts_of(&mut tick, &mut detector, 1).is_empty());
    assert_eq!(monitor.finish(&tick, &general).new_interval, Some(5));
    general.sample_interval_normal = 0;
    assert_eq!(Monitor::first_interval(&general), 0);
}

#[test]
fn status_tells_batch_size_and_alerts_so_far() {
    let general = Config::default().general;
    let mut detector = AnomalyDetector::new(hang_only(0));
    let mut monitor = Monitor::new();
    let mut tick = Tick::new(vec![process(1, 'D'), process(2, 'S'), process(3, 'T')]);
    while let Some(_alert) = tick.next_alert_at(&mut detector, 0) {
        monitor.record_alert();
    }
    let end = monitor.finish(&tick, &general);
    assert_eq!(end.status.monitored_count, 3);
    assert_eq!(end.status.alert_count, 2);
    assert_eq!(monitor.alert_count(), 2);

    let tick = Tick::new(Vec::new());
    let end = monitor.finish(&tick, &general);
    assert_eq!(end.status.monitored_count, 0);
    assert_eq!(end.status.alert_count, 2);
}

#[test]
fn alert_count_stops_at_its_limit() {
    let mut monitor = Monitor::new();
    assert_eq!(monitor.alert_count(), 0);
    monitor.record_alert();
    assert_eq!(monitor.alert_count(), 1);
}
