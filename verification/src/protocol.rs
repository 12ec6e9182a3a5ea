//! The messages that clients and the daemon exchange.

use crate::collector::{ProcessInfo, ProcessView};
use crate::config::Config;
use crate::db::{AlertRecord, WhitelistEntry, WhitelistEntryView};
use vstd::prelude::*;

verus! {

/// `serde_json::Value`: any JSON value. It is carried through as it came;
/// nothing is read of it.
#[verifier::external_type_specification]
#[verifier::external_body]
pub struct ExJsonValue(serde_json::Value);

/// `Clone::clone` of `serde_json::Value`. Nothing is claimed of the copy.
pub assume_specification[ <serde_json::Value as Clone>::clone ](
    value: &serde_json::Value,
) -> (copy: serde_json::Value)
;

/// Parameters of `get_alerts`.
#[derive(Debug, Clone)]
pub struct GetAlertsParams {
    pub limit: Option<u32>,
    pub since: Option<String>,
}

/// Parameters of `kill_process`.
#[derive(Debug, Clone)]
pub struct KillProcessParams {
    pub pid: u32,
    pub signal: String,
}

/// Parameters of `add_whitelist`.
#[derive(Debug, Clone)]
pub struct AddWhitelistParams {
    pub pattern: String,
    pub match_type: String,
}

/// Parameters of `remove_whitelist`.
#[derive(Debug, Clone, Copy, PartialEq, Eq)]
pub struct RemoveWhitelistParams {
    pub id: i64,
}

/// A request of a client, by its command.
#[derive(Debug, Clone)]
pub enum Request {
    Ping,
    ListProcesses,
    GetAlerts { params: GetAlertsParams },
    KillProcess { params: KillProcessParams },
    ListWhitelist,
    AddWhitelist { params: AddWhitelistParams },
    RemoveWhitelist { params: RemoveWhitelistParams },
    UpdateConfig { params: serde_json::Value },
    GetConfig,
    PauseMonitoring,
    ResumeMonitoring,
    ClearAlerts,
}

/// What a `Request` holds, as plain values.
pub enum RequestView {
    Ping,
    ListProcesses,
    GetAlerts { limit: Option<u32>, since: Option<Seq<char>> },
    KillProcess { pid: u32, signal: Seq<char> },
    ListWhitelist,
    AddWhitelist { pattern: Seq<char>, match_type: Seq<char> },
    RemoveWhitelist { id: i64 },
    /// The payload is not looked into.
    UpdateConfig,
    GetConfig,
    PauseMonitoring,
    ResumeMonitoring,
    ClearAlerts,
}

impl View for Request {
    type V = RequestView;

    open spec fn view(&self) -> RequestView {
        match *self {
            Request::Ping => RequestView::Ping,
            Request::ListProcesses => RequestView::ListProcesses,
            Request::GetAlerts { params } => RequestView::GetAlerts {
                limit: params.limit,
                since: match params.since {
                    Some(text) => Some(text@),
                    None => None,
                },
            },
            Request::KillProcess { params } => RequestView::KillProcess {
                pid: params.pid,
                signal: params.signal@,
            },
            Request::ListWhitelist => RequestView::ListWhitelist,
            Request::AddWhitelist { params } => RequestView::AddWhitelist {
                pattern: params.pattern@,
                match_type: params.match_type@,
            },
            Request::RemoveWhitelist { params } => RequestView::RemoveWhitelist { id: params.id },
            Request::UpdateConfig { params } => RequestView::UpdateConfig,
            Request::GetConfig => RequestView::GetConfig,
            Request::PauseMonitoring => RequestView::PauseMonitoring,
            Request::ResumeMonitoring => RequestView::ResumeMonitoring,
            Request::ClearAlerts => RequestView::ClearAlerts,
        }
    }
}

/// A process as a client is told of it.
#[derive(Debug, Clone)]
pub struct ProcessSummary {
    pub pid: u32,
    pub name: String,
    pub cmdline: String,
    pub cpu_millipercent: u64,
    pub memory_bytes: u64,
    pub runtime_seconds: u64,
    /// The state code as a text of one character.
    pub state: String,
}

/// What a `ProcessSummary` holds, as plain values.
pub struct ProcessSummaryView {
    pub pid: u32,
    pub name: Seq<char>,
    pub cmdline: Seq<char>,
    pub cpu_millipercent: u64,
    pub memory_bytes: u64,
    pub runtime_seconds: u64,
    pub state: Seq<char>,
}

impl View for ProcessSummary {
    type V = ProcessSummaryView;

    open spec fn view(&self) -> ProcessSummaryView {
        ProcessSummaryView {
            pid: self.pid,
            name: self.name@,
            cmdline: self.cmdline@,
            cpu_millipercent: self.cpu_millipercent,
            memory_bytes: self.memory_bytes,
            runtime_seconds: self.runtime_seconds,
            state: self.state@,
        }
    }
}

/// What a client is told of the process `process`.
pub open spec fn summary_of(process: ProcessView) -> ProcessSummaryView {
    ProcessSummaryView {
        pid: process.pid,
        name: process.name,
        cmdline: process.cmdline,
        cpu_millipercent: process.cpu_millipercent,
        memory_bytes: process.memory_bytes,
        runtime_seconds: process.runtime_seconds,
        state: seq![process.state],
    }
}

impl ProcessSummary {
    /// What a client is told of `process`.
    pub fn of(process: &ProcessInfo) -> (summary: ProcessSummary)
        ensures
            summary@ == summary_of(process@),
    {
        let mut state: String = String::new();
        state.push(process.state);
        ProcessSummary {
            pid: process.pid,
            name: process.name.clone(),
            cmdline: process.cmdline.clone(),
            cpu_millipercent: process.cpu_millipercent,
            memory_bytes: process.memory_bytes,
            runtime_seconds: process.runtime_seconds,
            state,
        }
    }
}

/// A stored alert as a client is told of it.
#[derive(Debug, Clone)]
pub struct AlertSummary {
    pub id: i64,
    pub pid: u32,
    pub name: String,
    pub reason: String,
    pub severity: String,
    pub timestamp: i64,
}

/// What an `AlertSummary` holds, as plain values.
pub struct AlertSummaryView {
    pub id: i64,
    pub pid: u32,
    pub name: Seq<char>,
    pub reason: Seq<char>,
    pub severity: Seq<char>,
    pub timestamp: i64,
}

impl View for AlertSummary {
    type V = AlertSummaryView;

    open spec fn view(&self) -> AlertSummaryView {
        AlertSummaryView {
            id: self.id,
            pid: self.pid,
            name: self.name@,
            reason: self.reason@,
            severity: self.severity@,
            timestamp: self.timestamp,
        }
    }
}

/// What a client is told of the stored alert `record`.
pub open spec fn alert_summary_of(record: AlertRecord) -> AlertSummaryView {
    AlertSummaryView {
        id: record.id,
        pid: record.pid,
        name: record.name@,
        reason: record.reason@,
        severity: record.severity@,
        timestamp: record.timestamp,
    }
}

impl AlertSummary {
    /// What a client is told of `record`.
    pub fn of(record: &AlertRecord) -> (summary: AlertSummary)
        ensures
            summary@ == alert_summary_of(*record),
    {
        AlertSummary {
            id: record.id,
            pid: record.pid,
            name: record.name.clone(),
            reason: record.reason.clone(),
            severity: record.severity.clone(),
            timestamp: record.timestamp,
        }
    }
}

/// The data of a direct response: a success payload or an error message.
#[derive(Debug, Clone)]
pub enum Payload {
    /// The request was carried out and has nothing to show.
    Success,
    /// The request failed, with the reason.
    Error(String),
    Processes(Vec<ProcessSummary>),
    Alerts(Vec<AlertSummary>),
    Whitelist(Vec<WhitelistEntry>),
}

/// What a `Payload` holds, as plain values.
pub enum PayloadView {
    Success,
    Error(Seq<char>),
    Processes(Seq<ProcessSummaryView>),
    Alerts(Seq<AlertSummaryView>),
    Whitelist(Seq<WhitelistEntryView>),
}

impl View for Payload {
    type V = PayloadView;

    open spec fn view(&self) -> PayloadView {
        match *self {
            Payload::Success => PayloadView::Success,
            Payload::Error(message) => PayloadView::Error(message@),
            Payload::Processes(list) => PayloadView::Processes(
                list@.map_values(|p: ProcessSummary| p@),
            ),
            Payload::Alerts(list) => PayloadView::Alerts(list@.map_values(|a: AlertSummary| a@)),
            Payload::Whitelist(list) => PayloadView::Whitelist(
                list@.map_values(|e: WhitelistEntry| e@),
            ),
        }
    }
}

/// An alert as it is broadcast.
#[derive(Debug, Clone)]
pub struct AlertData {
    pub pid: u32,
    pub name: String,
    pub reason: String,
    pub severity: String,
}

/// What an `AlertData` holds, as plain values.
pub struct AlertDataView {
    pub pid: u32,
    pub name: Seq<char>,
    pub reason: Seq<char>,
    pub severity: Seq<char>,
}

impl View for AlertData {
    type V = AlertDataView;

    open spec fn view(&self) -> AlertDataView {
        AlertDataView {
            pid: self.pid,
            name: self.name@,
            reason: self.reason@,
            severity: self.severity@,
        }
    }
}

/// The periodic status.
#[derive(Debug, Clone, Copy, PartialEq, Eq)]
pub struct StatusData {
    pub monitored_count: u32,
    pub alert_count: u32,
}

/// CPU settings as a client is told of them.
#[derive(Debug, Clone, Copy, PartialEq, Eq)]
pub struct CpuHighConfig {
    pub enabled: bool,
    pub threshold_percent: u32,
    pub duration_seconds: u32,
}

/// Hang settings as a client is told of them.
#[derive(Debug, Clone, Copy, PartialEq, Eq)]
pub struct HangConfig {
    pub enabled: bool,
    pub duration_seconds: u32,
}

/// Memory settings as a client is told of them.
#[derive(Debug, Clone, Copy, PartialEq, Eq)]
pub struct MemoryLeakConfig {
    pub enabled: bool,
    pub growth_threshold_mb: u32,
    pub window_minutes: u32,
}

/// General settings as a client is told of them.
#[derive(Debug, Clone)]
pub struct GeneralConfig {
    pub sample_interval_normal: u32,
    pub sample_interval_alert: u32,
    pub notification_method: String,
}

/// The settings as a client is told of them.
#[derive(Debug, Clone)]
pub struct ConfigData {
    pub cpu_high: CpuHighConfig,
    pub hang: HangConfig,
    pub memory_leak: MemoryLeakConfig,
    pub general: GeneralConfig,
}

/// What a `ConfigData` holds, as plain values.
pub struct ConfigDataView {
    pub cpu_high: CpuHighConfig,
    pub hang: HangConfig,
    pub memory_leak: MemoryLeakConfig,
    pub sample_interval_normal: u32,
    pub sample_interval_alert: u32,
    pub notification_method: Seq<char>,
}

impl View for ConfigData {
    type V = ConfigDataView;

    open spec fn view(&self) -> ConfigDataView {
        ConfigDataView {
            cpu_high: self.cpu_high,
            hang: self.hang,
            memory_leak: self.memory_leak,
            sample_interval_normal: self.general.sample_interval_normal,
            sample_interval_alert: self.general.sample_interval_alert,
            notification_method: self.general.notification_method@,
        }
    }
}

/// `x`, or the largest 32-bit number where `x` is beyond it.
pub open spec fn clamped(x: u64) -> u32 {
    if x > u32::MAX {
        u32::MAX
    } else {
        x as u32
    }
}

fn clamp(x: u64) -> (y: u32)
    ensures
        y == clamped(x),
{
    if x > u32::MAX as u64 {
        u32::MAX
    } else {
        x as u32
    }
}

/// The settings that a client is told for the configuration `config`. A
/// number beyond 32 bits is told as the largest 32-bit number.
pub open spec fn config_data_of(config: Config) -> ConfigDataView {
    ConfigDataView {
        cpu_high: CpuHighConfig {
            enabled: config.detection.cpu.enabled,
            threshold_percent: config.detection.cpu.threshold_percent as u32,
            duration_seconds: clamped(config.detection.cpu.duration_seconds),
        },
        hang: HangConfig {
            enabled: config.detection.hang.enabled,
            duration_seconds: clamped(config.detection.hang.duration_seconds),
        },
        memory_leak: MemoryLeakConfig {
            enabled: config.detection.memory.enabled,
            growth_threshold_mb: clamped(config.detection.memory.growth_mb),
            window_minutes: clamped(config.detection.memory.window_minutes),
        },
        sample_interval_normal: clamped(config.general.sample_interval_normal),
        sample_interval_alert: clamped(config.general.sample_interval_alert),
        notification_method: config.general.notification_method@,
    }
}

impl ConfigData {
    /// The settings that a client is told for `config`.
    pub fn of(config: &Config) -> (data: ConfigData)
        ensures
            data@ == config_data_of(*config),
    {
        ConfigData {
            cpu_high: CpuHighConfig {
                enabled: config.detection.cpu.enabled,
                threshold_percent: config.detection.cpu.threshold_percent as u32,
                duration_seconds: clamp(config.detection.cpu.duration_seconds),
            },
            hang: HangConfig {
                enabled: config.detection.hang.enabled,
                duration_seconds: clamp(config.detection.hang.duration_seconds),
            },
            memory_leak: MemoryLeakConfig {
                enabled: config.detection.memory.enabled,
                growth_threshold_mb: clamp(config.detection.memory.growth_mb),
                window_minutes: clamp(config.detection.memory.window_minutes),
            },
            general: GeneralConfig {
                sample_interval_normal: clamp(config.general.sample_interval_normal),
                sample_interval_alert: clamp(config.general.sample_interval_alert),
                notification_method: config.general.notification_method.clone(),
            },
        }
    }
}

/// A message of the daemon, by its type.
#[derive(Debug, Clone)]
pub enum Response {
    Pong,
    Response { id: Option<String>, data: Payload },
    Alert { data: AlertData },
    Status { data: StatusData },
    Config { data: ConfigData },
}

/// What a `Response` holds, as plain values.
pub enum ResponseView {
    Pong,
    Response { id: Option<Seq<char>>, data: PayloadView },
    Alert { data: AlertDataView },
    Status { data: StatusData },
    Config { data: ConfigDataView },
}

impl View for Response {
    type V = ResponseView;

    open spec fn view(&self) -> ResponseView {
        match *self {
            Response::Pong => ResponseView::Pong,
            Response::Response { id, data } => ResponseView::Response {
                id: match id {
                    Some(text) => Some(text@),
                    None => None,
                },
                data: data@,
            },
            Response::Alert { data } => ResponseView::Alert { data: data@ },
            Response::Status { data } => ResponseView::Status { data },
            Response::Config { data } => ResponseView::Config { data: data@ },
        }
    }
}

/// The direct response that carries `data` and no id.
pub open spec fn reply(data: PayloadView) -> ResponseView {
    ResponseView::Response { id: None, data }
}

impl Response {
    /// The direct response that reports success.
    pub fn success() -> (response: Response)
        ensures
            response@ == reply(PayloadView::Success),
    {
        Response::Response { id: None, data: Payload::Success }
    }

    /// The direct response that carries the error `message`.
    pub fn error(message: String) -> (response: Response)
        ensures
            response@ == reply(PayloadView::Error(message@)),
    {
        Response::Response { id: None, data: Payload::Error(message) }
    }
}

} // verus!
