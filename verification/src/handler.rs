//! Request handling: what each request asks of the daemon, and the response
//! that each outcome gets. Carrying out the work between the two is left to
//! the caller.

use crate::collector::linux::process_views;
use crate::collector::{ProcessInfo, ProcessView};
use crate::config::Config;
use crate::db::{AlertRecord, WhitelistEntry};
use crate::detector::{Alert, AlertView};
use crate::executor::{signal_named, uppercase, Signal};
use crate::protocol::{
    alert_summary_of, config_data_of, reply, summary_of, AlertData, AlertDataView, AlertSummary,
    ConfigData, Payload, PayloadView, ProcessSummary, Request, RequestView, Response,
    ResponseView,
};
use vstd::prelude::*;

verus! {

/// How many alerts `get_alerts` returns where the request names no limit.
pub const DEFAULT_ALERT_LIMIT: u32 = 50;

/// What a request asks of the daemon.
#[derive(Debug, Clone)]
pub enum Action {
    /// Nothing is to be done: this is the response.
    Reply(Response),
    /// Take a batch of snapshots and answer with `processes_response`.
    ListProcesses,
    /// Read the newest `limit` alerts and answer with `alerts_response`.
    GetAlerts { limit: u32 },
    /// Send `signal` to `pid` and answer with `signal_response`.
    SendSignal { pid: u32, signal: Signal },
    /// Add `pattern` to the detector's whitelist, then store it, and answer
    /// with `store_response`.
    AddWhitelist { pattern: String, match_type: String },
    /// Read the stored whitelist and answer with `whitelist_response`.
    ListWhitelist,
    /// Delete the stored entry `id` and answer with `store_response`.
    RemoveWhitelist { id: i64 },
    /// Answer with `config_response` for the current configuration.
    GetConfig,
}

/// What an `Action` holds, as plain values.
pub enum ActionView {
    Reply(ResponseView),
    ListProcesses,
    GetAlerts { limit: u32 },
    SendSignal { pid: u32, signal: Signal },
    AddWhitelist { pattern: Seq<char>, match_type: Seq<char> },
    ListWhitelist,
    RemoveWhitelist { id: i64 },
    GetConfig,
}

impl View for Action {
    type V = ActionView;

    open spec fn view(&self) -> ActionView {
        match *self {
            Action::Reply(response) => ActionView::Reply(response@),
            Action::ListProcesses => ActionView::ListProcesses,
            Action::GetAlerts { limit } => ActionView::GetAlerts { limit },
            Action::SendSignal { pid, signal } => ActionView::SendSignal { pid, signal },
            Action::AddWhitelist { pattern, match_type } => ActionView::AddWhitelist {
                pattern: pattern@,
                match_type: match_type@,
            },
            Action::ListWhitelist => ActionView::ListWhitelist,
            Action::RemoveWhitelist { id } => ActionView::RemoveWhitelist { id },
            Action::GetConfig => ActionView::GetConfig,
        }
    }
}

/// The response to a request that is not carried out.
pub open spec fn not_implemented() -> ResponseView {
    reply(PayloadView::Error("Not implemented"@))
}

/// What the request `request` asks of the daemon. A signal is named by the
/// uppercase form of its token; a token that names none is refused at once.
pub open spec fn plan_of(request: RequestView) -> ActionView {
    match request {
        RequestView::Ping => ActionView::Reply(ResponseView::Pong),
        RequestView::ListProcesses => ActionView::ListProcesses,
        RequestView::GetAlerts { limit, since } => ActionView::GetAlerts {
            limit: match limit {
                Some(count) => count,
                None => DEFAULT_ALERT_LIMIT,
            },
        },
        RequestView::KillProcess { pid, signal } => match signal_named(uppercase(signal)) {
            Some(found) => ActionView::SendSignal { pid, signal: found },
            None => ActionView::Reply(reply(PayloadView::Error("Invalid signal"@))),
        },
        RequestView::ListWhitelist => ActionView::ListWhitelist,
        RequestView::AddWhitelist { pattern, match_type } => ActionView::AddWhitelist {
            pattern,
            match_type,
        },
        RequestView::RemoveWhitelist { id } => ActionView::RemoveWhitelist { id },
        RequestView::UpdateConfig => ActionView::Reply(not_implemented()),
        RequestView::GetConfig => ActionView::GetConfig,
        RequestView::PauseMonitoring => ActionView::Reply(not_implemented()),
        RequestView::ResumeMonitoring => ActionView::Reply(not_implemented()),
        RequestView::ClearAlerts => ActionView::Reply(not_implemented()),
    }
}

/// What `request` asks of the daemon.
pub fn plan(request: Request) -> (action: Action)
    ensures
        action@ == plan_of(request@),
{
    match request {
        Request::Ping => Action::Reply(Response::Pong),
        Request::ListProcesses => Action::ListProcesses,
        Request::GetAlerts { params } => Action::GetAlerts {
            limit: match params.limit {
                Some(count) => count,
                None => DEFAULT_ALERT_LIMIT,
            },
        },
        Request::KillProcess { params } => match Signal::parse(params.signal.as_str()) {
            Some(signal) => Action::SendSignal { pid: params.pid, signal },
            None => Action::Reply(Response::error("Invalid signal".to_string())),
        },
        Request::ListWhitelist => Action::ListWhitelist,
        Request::AddWhitelist { params } => Action::AddWhitelist {
            pattern: params.pattern,
            match_type: params.match_type,
        },
        Request::RemoveWhitelist { params } => Action::RemoveWhitelist { id: params.id },
        Request::UpdateConfig { params } => Action::Reply(
            Response::error("Not implemented".to_string()),
        ),
        Request::GetConfig => Action::GetConfig,
        Request::PauseMonitoring => Action::Reply(Response::error("Not implemented".to_string())),
        Request::ResumeMonitoring => Action::Reply(Response::error("Not implemented".to_string())),
        Request::ClearAlerts => Action::Reply(Response::error("Not implemented".to_string())),
    }
}

/// The response that lists the processes of a batch, in order.
pub fn processes_response(processes: &Vec<ProcessInfo>) -> (response: Response)
    ensures
        response@ == reply(
            PayloadView::Processes(
                process_views(processes@).map_values(|p: ProcessView| summary_of(p)),
            ),
        ),
{
    let mut list: Vec<ProcessSummary> = Vec::new();
    let mut i: usize = 0;
    while i < processes.len()
        invariant
            i <= processes@.len(),
            list@.len() == i,
            forall|k: int| 0 <= k < i ==> (#[trigger] list@[k])@ == summary_of(processes@[k]@),
        decreases processes@.len() - i,
    {
        list.push(ProcessSummary::of(&processes[i]));
        i += 1;
    }
    proof {
        assert(list@.map_values(|p: ProcessSummary| p@) =~= process_views(
            processes@,
        ).map_values(|p: ProcessView| summary_of(p)));
    }
    Response::Response { id: None, data: Payload::Processes(list) }
}

/// The response to `get_alerts`: the alerts that were read, in order, or the
/// error that reading them gave.
pub fn alerts_response(outcome: Result<Vec<AlertRecord>, String>) -> (response: Response)
    ensures
        response@ == match outcome {
            Ok(records) => reply(
                PayloadView::Alerts(records@.map_values(|r: AlertRecord| alert_summary_of(r))),
            ),
            Err(message) => reply(PayloadView::Error(message@)),
        },
{
    match outcome {
        Ok(records) => {
            let mut list: Vec<AlertSummary> = Vec::new();
            let mut i: usize = 0;
            while i < records.len()
                invariant
                    i <= records@.len(),
                    list@.len() == i,
                    forall|k: int|
                        0 <= k < i ==> (#[trigger] list@[k])@ == alert_summary_of(records@[k]),
                decreases records@.len() - i,
            {
                list.push(AlertSummary::of(&records[i]));
                i += 1;
            }
            proof {
                assert(list@.map_values(|a: AlertSummary| a@) =~= records@.map_values(
                    |r: AlertRecord| alert_summary_of(r),
                ));
            }
            Response::Response { id: None, data: Payload::Alerts(list) }
        },
        Err(message) => Response::error(message),
    }
}

/// The response to `kill_process`, for the result code of sending the
/// signal: zero means sent.
pub fn signal_response(code: i32) -> (response: Response)
    ensures
        response@ == if code == 0 {
            reply(PayloadView::Success)
        } else {
            reply(PayloadView::Error("Failed to send signal"@))
        },
{
    if code == 0 {
        Response::success()
    } else {
        Response::error("Failed to send signal".to_string())
    }
}

/// The response to a change of the store: success, or the error that the
/// store gave.
pub fn store_response(failure: Option<String>) -> (response: Response)
    ensures
        response@ == match failure {
            None => reply(PayloadView::Success),
            Some(message) => reply(PayloadView::Error(message@)),
        },
{
    match failure {
        None => Response::success(),
        Some(message) => Response::error(message),
    }
}

/// The response to `list_whitelist`: the stored entries, or the error that
/// reading them gave.
pub fn whitelist_response(outcome: Result<Vec<WhitelistEntry>, String>) -> (response: Response)
    ensures
        response@ == match outcome {
            Ok(entries) => reply(
                PayloadView::Whitelist(entries@.map_values(|e: WhitelistEntry| e@)),
            ),
            Err(message) => reply(PayloadView::Error(message@)),
        },
{
    match outcome {
        Ok(entries) => Response::Response { id: None, data: Payload::Whitelist(entries) },
        Err(message) => Response::error(message),
    }
}

/// The response to `get_config`.
pub fn config_response(config: &Config) -> (response: Response)
    ensures
        response@ == (ResponseView::Config { data: config_data_of(*config) }),
{
    Response::Config { data: ConfigData::of(config) }
}

/// The broadcast form of the alert `alert`.
pub open spec fn alert_data_of(alert: AlertView) -> AlertDataView {
    AlertDataView {
        pid: alert.pid,
        name: alert.name,
        reason: alert.reason.label(),
        severity: alert.severity.label(),
    }
}

/// The event that is broadcast for `alert`.
pub fn alert_event(alert: &Alert) -> (event: Response)
    ensures
        event@ == (ResponseView::Alert { data: alert_data_of(alert@) }),
{
    Response::Alert {
        data: AlertData {
            pid: alert.pid,
            name: alert.name.clone(),
            reason: alert.reason.as_str().to_string(),
            severity: alert.severity.as_str().to_string(),
        },
    }
}

} // verus!
