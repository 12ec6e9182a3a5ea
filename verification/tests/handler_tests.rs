use runaway_daemon::collector::ProcessInfo;
use runaway_daemon::config::Config;
use runaway_daemon::db::{AlertRecord, WhitelistEntry};
use runaway_daemon::detector::{Alert, AlertReason, Severity};
use runaway_daemon::executor::Signal;
use runaway_daemon::handler::{
    alert_event, alerts_response, config_response, plan, processes_response, signal_response,
    store_response, whitelist_response, Action,
};
use runaway_daemon::protocol::{
    AddWhitelistParams, GetAlertsParams, KillProcessParams, Payload, RemoveWhitelistParams,
    Request, Response,
};

fn error_of(response: &Response) -> Option<&str> {
    match response {
        Response::Response { id: None, data: Payload::Error(message) } => Some(message.as_str()),
        _ => None,
    }
}

fn is_success(response: &Response) -> bool {
    matches!(response, Response::Response { id: None, data: Payload::Success })
}

fn kill(pid: u32, signal: &str) -> Request {
    Request::KillProcess { params: KillProcessParams { pid, signal: signal.to_string() } }
}

#[test]
fn ping_is_answered_at_once() {
    assert!(matches!(plan(Request::Ping), Action::Reply(Response::Pong)));
}

#[test]
fn requests_map_to_their_actions() {
    assert!(matches!(plan(Request::ListProcesses), Action::ListProcesses));
    assert!(matches!(plan(Request::ListWhitelist), Action::ListWhitelist));
    assert!(matches!(plan(Request::GetConfig), Action::GetConfig));
    let remove = Request::RemoveWhitelist { params: RemoveWhitelistParams { id: -3 } };
    assert!(matches!(plan(remove), Action::RemoveWhitelist { id: -3 }));
    let add = Request::AddWhitelist {
        params: AddWhitelistParams { pattern: "fire".to_string(), match_type: "name".to_string() },
    };
    match plan(add) {
        Action::AddWhitelist { pattern, match_type } => {
            assert_eq!(pattern, "fire");
            assert_eq!(match_type, "name");
        }
        other => panic!("{:?}", other),
    }
}

#[test]
fn alert_limit_defaults_to_fifty() {
    let none = Request::GetAlerts { params: GetAlertsParams { limit: None, since: None } };
    assert!(matches!(plan(none), Action::GetAlerts { limit: 50 }));
    let some = Request::GetAlerts {
        params: GetAlertsParams { limit: Some(7), since: Some("2024-01-01".to_string()) },
    };
    assert!(matches!(plan(some), Action::GetAlerts { limit: 7 }));
    let zero = Request::GetAlerts { params: GetAlertsParams { limit: Some(0), since: None } };
    assert!(matches!(plan(zero), Action::GetAlerts { limit: 0 }));
}

#[test]
fn kill_request_names_its_signal() {
    assert!(matches!(
        plan(kill(42, "sigterm")),
        Action::SendSignal { pid: 42, signal: Signal::Term }
    ));
    assert!(matches!(plan(kill(42, "9")), Action::SendSignal { pid: 42, signal: Signal::Kill }));
    assert!(matches!(plan(kill(1, "Stop")), Action::SendSignal { pid: 1, signal: Signal::Stop }));
    assert!(matches!(plan(kill(1, "CONT")), Action::SendSignal { pid: 1, signal: Signal::Cont }));
}

#[test]
fn bad_signal_is_refused_without_action() {
    for signal in ["", "SIGUSR1", "bogus", "0", "-9"] {
        match plan(kill(42, signal)) {
            Action::Reply(response) => assert_eq!(error_of(&response), Some("Invalid signal")),
            other => panic!("{:?}", other),
        }
    }
}

#[test]
fn requests_that_are_not_carried_out_say_so() {
    let requests = vec![
        Request::UpdateConfig { params: serde_json::Value::Null },
        Request::UpdateConfig { params: serde_json::Value::String("{\"general\":{}}".to_string()) },
        Request::PauseMonitoring,
        Request::ResumeMonitoring,
        Request::ClearAlerts,
    ];
    for request in requests {
        match plan(request) {
            Action::Reply(response) => assert_eq!(error_of(&response), Some("Not implemented")),
            other => panic!("{:?}", other),
        }
    }
}

#[test]
fn processes_are_listed_in_order() {
    let processes = vec![
        ProcessInfo {
            pid: 1,
            name: "init".to_string(),
            cmdline: "/sbin/init".to_string(),
            cpu_millipercent: 1500,
            memory_bytes: 4096,
            runtime_seconds: 99,
            state: 'S',
            start_time: 5,
        },
        ProcessInfo {
            pid: 2,
            name: "kthreadd".to_string(),
            cmdline: String::new(),
            cpu_millipercent: 0,
            memory_bytes: 0,
            runtime_seconds: 98,
            state: 'D',
            start_time: 6,
        },
    ];
    match processes_response(&processes) {
        Response::Response { id: None, data: Payload::Processes(list) } => {
            assert_eq!(list.len(), 2);
            assert_eq!(list[0].pid, 1);
            assert_eq!(list[0].name, "init");
            assert_eq!(list[0].cmdline, "/sbin/init");
            assert_eq!(list[0].cpu_millipercent, 1500);
            assert_eq!(list[0].memory_bytes, 4096);
            assert_eq!(list[0].runtime_seconds, 99);
            assert_eq!(list[0].state, "S");
            assert_eq!(list[1].pid, 2);
            assert_eq!(list[1].state, "D");
        }
        other => panic!("{:?}", other),
    }
    assert!(matches!(
        processes_response(&Vec::new()),
        Response::Response { id: None, data: Payload::Processes(list) } if list.is_empty()
    ));
}

#[test]
fn alerts_are_listed_or_the_error_is_told() {
    let record = AlertRecord {
        id: 5,
        timestamp: 1700000000,
        pid: 1234,
        name: "test_process".to_string(),
        cmdline: "/usr/bin/test".to_string(),
        reason: "cpu_high".to_string(),
        severity: "warning".to_string(),
        resolved: false,
        action_taken: None,
    };
    match alerts_response(Ok(vec![record])) {
        Response::Response { id: None, data: Payload::Alerts(list) } => {
            assert_eq!(list.len(), 1);
            assert_eq!(list[0].id, 5);
            assert_eq!(list[0].pid, 1234);
            assert_eq!(list[0].name, "test_process");
            assert_eq!(list[0].reason, "cpu_high");
            assert_eq!(list[0].severity, "warning");
            assert_eq!(list[0].timestamp, 1700000000);
        }
        other => panic!("{:?}", other),
    }
    let failed = alerts_response(Err("database is locked".to_string()));
    assert_eq!(error_of(&failed), Some("database is locked"));
}

#[test]
fn signal_result_code_decides_the_response() {
    assert!(is_success(&signal_response(0)));
    assert_eq!(error_of(&signal_response(-1)), Some("Failed to send signal"));
    assert_eq!(error_of(&signal_response(1)), Some("Failed to send signal"));
}

#[test]
fn store_result_decides_the_response() {
    assert!(is_success(&store_response(None)));
    assert_eq!(error_of(&store_response(Some("disk full".to_string()))), Some("disk full"));
}

#[test]
fn whitelist_is_listed_or_the_error_is_told() {
    let entry = WhitelistEntry {
        id: 1,
        pattern: "firefox".to_string(),
        match_type: "name".to_string(),
        reason: Some("Browser".to_string()),
    };
    match whitelist_response(Ok(vec![entry])) {
        Response::Response { id: None, data: Payload::Whitelist(list) } => {
            assert_eq!(list.len(), 1);
            assert_eq!(list[0].pattern, "firefox");
            assert_eq!(list[0].match_type, "name");
            assert_eq!(list[0].reason.as_deref(), Some("Browser"));
        }
        other => panic!("{:?}", other),
    }
    assert_eq!(error_of(&whitelist_response(Err("gone".to_string()))), Some("gone"));
}

#[test]
fn config_is_told_with_clamped_numbers() {
    let mut config = Config::default();
    config.detection.cpu.duration_seconds = u64::MAX;
    config.general.sample_interval_normal = 4294967296;
    match config_response(&config) {
        Response::Config { data } => {
            assert!(data.cpu_high.enabled);
            assert_eq!(data.cpu_high.threshold_percent, 90);
            assert_eq!(data.cpu_high.duration_seconds, u32::MAX);
            assert!(data.hang.enabled);
            assert_eq!(data.hang.duration_seconds, 30);
            assert!(data.memory_leak.enabled);
            assert_eq!(data.memory_leak.growth_threshold_mb, 500);
            assert_eq!(data.memory_leak.window_minutes, 5);
            assert_eq!(data.general.sample_interval_normal, u32::MAX);
            assert_eq!(data.general.sample_interval_alert, 2);
            assert_eq!(data.general.notification_method, "both");
        }
        other => panic!("{:?}", other),
    }
}

#[test]
fn alert_event_names_reason_and_severity() {
    let alert = Alert {
        pid: 77,
        name: "stress".to_string(),
        cmdline: "stress --cpu 8".to_string(),
        reason: AlertReason::MemoryLeak,
        severity: Severity::Critical,
        timestamp: 1,
    };
    match alert_event(&alert) {
        Response::Alert { data } => {
            assert_eq!(data.pid, 77);
            assert_eq!(data.name, "stress");
            assert_eq!(data.reason, "memory_leak");
            assert_eq!(data.severity, "critical");
        }
        other => panic!("{:?}", other),
    }
}
