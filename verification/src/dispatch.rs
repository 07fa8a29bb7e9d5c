//! Dispatch of devloop harness commands: what each command asks the
//! application to do, and the reply each outcome earns.
//!
//! The application runs the plan (waits, fixture I/O, screenshots,
//! message dispatch) and hands the outcome back to the reply functions
//! here.

use vstd::prelude::*;
use crate::broker::{broker_variant_name, broker_event_variant, BrokerEvent};
use crate::broker_inject::{inject_error_text, parse, parse_spec};
use crate::devloop::{
    account_tab_named, parse_account_tab, ticker_msg_name, ticker_msg_variant, AccountTab,
};
use crate::json::JsonValue;
use crate::keys::{key_command, key_command_spec, KeyCommand};
use crate::ticker_inject::{
    injected_kind, parse as ticker_parse, ticker_inject_error_text, ticker_parse_spec,
    InjectedTickerMsg,
};
use crate::text::{decimal, decimal_digits, push_str};

verus! {

/// Error classes of a harness reply.
#[derive(Copy, Clone, Debug, PartialEq, Eq, Structural)]
pub enum ErrorKind {
    ParseError,
    Internal,
    Timeout,
    FixtureNotFound,
    FixtureVersionMismatch,
}

/// A harness command, by what dispatch reads of it.
#[derive(Debug)]
pub enum DevCommand {
    Ping,
    Shutdown,
    WaitForEvent { event_type: String, timeout_ms: u64, since_cursor: Option<u64> },
    WaitForIdle { timeout_ms: u64 },
    LoadFixture { name: String },
    SnapshotFixture { name: String, note: Option<String> },
    DumpState { path: Option<String> },
    Screenshot { out_path: String },
    InjectTickerMsg { symbol: String, msg_json: JsonValue },
    InjectBrokerEvent { event_json: JsonValue },
    OpenOrdersPanel,
    CycleThumbnail { symbol: String },
    SetAccountTab { tab: String },
    Key { combo: String },
    Scroll,
    Click,
    ClickPrice,
    Drag,
}

/// What of the application's state dispatch depends on.
#[derive(Clone, Debug)]
pub struct HarnessState {
    pub event_log_ready: bool,
    pub idle_tracker_ready: bool,
    pub main_window_ready: bool,
    /// Account panels mounted in the workspace, in pane order.
    pub account_panels: Vec<u32>,
}

/// What the application does for a command.
#[derive(Debug)]
pub enum CommandPlan {
    /// Answer with the process id.
    ReplyPid,
    /// Answer with an empty body, then exit.
    ReplyThenExit,
    /// Answer with an error and do nothing else.
    Fail { kind: ErrorKind, message: String },
    /// Wait for an event of `event_type` logged after `since`.
    WaitForEvent { event_type: String, since: u64, timeout_ms: u64 },
    /// Wait until the interface has been quiet long enough.
    WaitForIdle { timeout_ms: u64 },
    LoadFixture { name: String },
    SnapshotFixture { name: String, note: Option<String> },
    DumpState { path: Option<String> },
    Screenshot { out_path: String },
    /// Answer with the symbol and the message's variant name, and
    /// deliver the message to the symbol's ticker.
    InjectTickerMsg { symbol: String, msg: InjectedTickerMsg, variant: &'static str },
    /// Answer with the event's variant name and deliver the event.
    InjectBrokerEvent { event: BrokerEvent, variant: &'static str },
    OpenOrdersPanel,
    CycleThumbnail { symbol: String },
    /// Answer with the panels and tab, and select the tab on each.
    SetAccountTab { tab: AccountTab, panels: Vec<u32> },
    /// Answer with the combo and run the key command.
    Key { command: KeyCommand },
    Scroll,
}

/// Refusal text for click and drag injection.
pub open spec fn click_refusal() -> Seq<char> {
    "click/drag injection not supported in v1 — use `inject_ticker_msg` for domain mutations."@
}

/// Text of an unknown account tab.
pub open spec fn unknown_tab_text(tab: Seq<char>) -> Seq<char> {
    "SetAccountTab: unknown tab '"@ + tab + "' (expected positions|orders|trade-history|recents)"@
}

/// Whether `r` is the plan for `cmd` in state `st`.
pub open spec fn planned(cmd: DevCommand, st: HarnessState, r: CommandPlan) -> bool {
    match cmd {
        DevCommand::Ping => r is ReplyPid,
        DevCommand::Shutdown => r is ReplyThenExit,
        DevCommand::WaitForEvent { event_type, timeout_ms, since_cursor } => if st.event_log_ready {
            r matches CommandPlan::WaitForEvent { event_type: e, since, timeout_ms: t } && e@
                == event_type@ && t == timeout_ms && since == match since_cursor {
                Some(c) => c,
                None => 0,
            }
        } else {
            r matches CommandPlan::Fail { kind, message } && kind == ErrorKind::Internal
                && message@ == "event log not initialised"@
        },
        DevCommand::WaitForIdle { timeout_ms } => if st.idle_tracker_ready {
            r == CommandPlan::WaitForIdle { timeout_ms }
        } else {
            r matches CommandPlan::Fail { kind, message } && kind == ErrorKind::Internal
                && message@ == "idle tracker not initialised"@
        },
        DevCommand::LoadFixture { name } => r matches CommandPlan::LoadFixture { name: n } && n@
            == name@,
        DevCommand::SnapshotFixture { name, note } => r matches CommandPlan::SnapshotFixture {
            name: n,
            note: o,
        } && n@ == name@ && o == note,
        DevCommand::DumpState { path } => r matches CommandPlan::DumpState { path: p } && p == path,
        DevCommand::Screenshot { out_path } => if st.main_window_ready {
            r matches CommandPlan::Screenshot { out_path: p } && p@ == out_path@
        } else {
            r matches CommandPlan::Fail { kind, message } && kind == ErrorKind::Internal
                && message@ == "main window not yet created"@
        },
        DevCommand::InjectTickerMsg { symbol, msg_json } => match ticker_parse_spec(msg_json) {
            Ok(m) => r matches CommandPlan::InjectTickerMsg { symbol: s, msg, variant } && s@
                == symbol@ && msg@ == m && variant@ == ticker_msg_name(injected_kind(m)),
            Err(e) => r matches CommandPlan::Fail { kind, message } && kind == ErrorKind::Internal
                && message@ == ticker_inject_error_text(e),
        },
        DevCommand::InjectBrokerEvent { event_json } => match parse_spec(event_json) {
            Ok(ev) => r matches CommandPlan::InjectBrokerEvent { event, variant } && event@ == ev
                && variant@ == broker_variant_name(event),
            Err(e) => r matches CommandPlan::Fail { kind, message } && kind == ErrorKind::Internal
                && message@ == inject_error_text(e),
        },
        DevCommand::OpenOrdersPanel => r is OpenOrdersPanel,
        DevCommand::CycleThumbnail { symbol } => r matches CommandPlan::CycleThumbnail {
            symbol: s,
        } && s@ == symbol@,
        DevCommand::SetAccountTab { tab } => match account_tab_named(tab@) {
            None => r matches CommandPlan::Fail { kind, message } && kind == ErrorKind::Internal
                && message@ == unknown_tab_text(tab@),
            Some(t) => if st.account_panels@.len() == 0 {
                r matches CommandPlan::Fail { kind, message } && kind == ErrorKind::Internal
                    && message@ == "SetAccountTab: no Account panel is mounted in the workspace"@
            } else {
                r matches CommandPlan::SetAccountTab { tab: u, panels } && u == t && panels@
                    == st.account_panels@
            },
        },
        DevCommand::Key { combo } => match key_command_spec(combo@) {
            None => r matches CommandPlan::Fail { kind, message } && kind == ErrorKind::Internal
                && message@ == "unrecognised key combo: "@ + combo@,
            Some((add, k)) => r matches CommandPlan::Key { command } && if add {
                command is AddChart
            } else {
                command matches KeyCommand::KeyPressed(key) && key@ == k
            },
        },
        DevCommand::Scroll => r is Scroll,
        DevCommand::Click | DevCommand::ClickPrice | DevCommand::Drag => r matches CommandPlan::Fail {
            kind,
            message,
        } && kind == ErrorKind::Internal && message@ == click_refusal(),
    }
}

fn fail(message: &str) -> (r: CommandPlan)
    ensures
        r matches CommandPlan::Fail { kind, message: m } && kind == ErrorKind::Internal && m@
            == message@,
{
    CommandPlan::Fail { kind: ErrorKind::Internal, message: message.to_owned() }
}

/// Decide what the application does for a harness command.
pub fn plan_command(cmd: DevCommand, state: &HarnessState) -> (r: CommandPlan)
    ensures
        planned(cmd, *state, r),
{
    match cmd {
        DevCommand::Ping => CommandPlan::ReplyPid,
        DevCommand::Shutdown => CommandPlan::ReplyThenExit,
        DevCommand::WaitForEvent { event_type, timeout_ms, since_cursor } => {
            if state.event_log_ready {
                let since = match since_cursor {
                    Some(c) => c,
                    None => 0,
                };
                CommandPlan::WaitForEvent { event_type, since, timeout_ms }
            } else {
                fail("event log not initialised")
            }
        },
        DevCommand::WaitForIdle { timeout_ms } => {
            if state.idle_tracker_ready {
                CommandPlan::WaitForIdle { timeout_ms }
            } else {
                fail("idle tracker not initialised")
            }
        },
        DevCommand::LoadFixture { name } => CommandPlan::LoadFixture { name },
        DevCommand::SnapshotFixture { name, note } => CommandPlan::SnapshotFixture { name, note },
        DevCommand::DumpState { path } => CommandPlan::DumpState { path },
        DevCommand::Screenshot { out_path } => {
            if state.main_window_ready {
                CommandPlan::Screenshot { out_path }
            } else {
                fail("main window not yet created")
            }
        },
        DevCommand::InjectTickerMsg { symbol, msg_json } => match ticker_parse(&msg_json) {
            Ok(msg) => {
                let k = msg.kind();
                let variant = ticker_msg_variant(&k);
                CommandPlan::InjectTickerMsg { symbol, msg, variant }
            },
            Err(e) => CommandPlan::Fail { kind: ErrorKind::Internal, message: e.message() },
        },
        DevCommand::InjectBrokerEvent { event_json } => match parse(&event_json) {
            Ok(event) => {
                let variant = broker_event_variant(&event);
                CommandPlan::InjectBrokerEvent { event, variant }
            },
            Err(e) => CommandPlan::Fail { kind: ErrorKind::Internal, message: e.message() },
        },
        DevCommand::OpenOrdersPanel => CommandPlan::OpenOrdersPanel,
        DevCommand::CycleThumbnail { symbol } => CommandPlan::CycleThumbnail { symbol },
        DevCommand::SetAccountTab { tab } => match parse_account_tab(tab.as_str()) {
            None => {
                let mut m = "SetAccountTab: unknown tab '".to_owned();
                push_str(&mut m, tab.as_str());
                push_str(&mut m, "' (expected positions|orders|trade-history|recents)");
                CommandPlan::Fail { kind: ErrorKind::Internal, message: m }
            },
            Some(t) => {
                if state.account_panels.len() == 0 {
                    fail("SetAccountTab: no Account panel is mounted in the workspace")
                } else {
                    CommandPlan::SetAccountTab { tab: t, panels: state.account_panels.clone() }
                }
            },
        },
        DevCommand::Key { combo } => match key_command(combo.as_str()) {
            Ok(command) => CommandPlan::Key { command },
            Err(e) => CommandPlan::Fail { kind: ErrorKind::Internal, message: e.message() },
        },
        DevCommand::Scroll => CommandPlan::Scroll,
        DevCommand::Click | DevCommand::ClickPrice | DevCommand::Drag => {
            fail("click/drag injection not supported in v1 — use `inject_ticker_msg` for domain mutations.")
        },
    }
}

/// The body of a successful reply, for the outcomes decided here.
#[derive(Clone, Debug, PartialEq, Eq, Structural)]
pub enum ReplyBody {
    Empty,
    MatchedCursor(u64),
}

/// A reply to an awaited command.
#[derive(Clone, Debug)]
pub enum Reply {
    Success(ReplyBody),
    Failure { kind: ErrorKind, message: String },
}

/// Reply to `wait_for_event` once the wait ended: the matched cursor,
/// or a timeout naming the event and the time waited.
pub fn wait_for_event_reply(event_type: &str, timeout_ms: u64, matched: Option<u64>) -> (r: Reply)
    ensures
        match matched {
            Some(c) => r matches Reply::Success(b) && b == ReplyBody::MatchedCursor(c),
            None => r matches Reply::Failure { kind, message } && kind == ErrorKind::Timeout && message@
                == "no event "@ + event_type@ + " within "@ + decimal_digits(timeout_ms as nat)
                + "ms"@,
        },
{
    match matched {
        Some(c) => Reply::Success(ReplyBody::MatchedCursor(c)),
        None => {
            let mut m = "no event ".to_owned();
            push_str(&mut m, event_type);
            push_str(&mut m, " within ");
            let t = decimal(timeout_ms);
            push_str(&mut m, t.as_str());
            push_str(&mut m, "ms");
            Reply::Failure { kind: ErrorKind::Timeout, message: m }
        },
    }
}

/// Reply to `wait_for_idle` once the wait ended.
pub fn wait_for_idle_reply(timeout_ms: u64, idle: bool) -> (r: Reply)
    ensures
        idle ==> (r matches Reply::Success(b) && b == ReplyBody::Empty),
        !idle ==> (r matches Reply::Failure { kind, message } && kind == ErrorKind::Timeout
            && message@ == "not idle after "@ + decimal_digits(timeout_ms as nat) + "ms"@),
{
    if idle {
        Reply::Success(ReplyBody::Empty)
    } else {
        let mut m = "not idle after ".to_owned();
        let t = decimal(timeout_ms);
        push_str(&mut m, t.as_str());
        push_str(&mut m, "ms");
        Reply::Failure { kind: ErrorKind::Timeout, message: m }
    }
}

/// How loading a fixture went.
#[derive(Clone, Debug)]
pub enum FixtureOutcome {
    Loaded,
    NotFound,
    VersionMismatch { field: String, expected: String, got: String },
    Failed(String),
}

/// The error reply for a fixture that did not load; `None` when it did.
pub fn load_fixture_error(name: &str, outcome: &FixtureOutcome) -> (r: Option<(ErrorKind, String)>)
    ensures
        match outcome {
            FixtureOutcome::Loaded => r is None,
            FixtureOutcome::NotFound => r matches Some((k, m)) && k == ErrorKind::FixtureNotFound
                && m@ == "fixture not found: "@ + name@,
            FixtureOutcome::VersionMismatch { field, expected, got } => r matches Some((k, m)) && k
                == ErrorKind::FixtureVersionMismatch && m@ == field@ + ": expected "@ + expected@
                + ", got "@ + got@,
            FixtureOutcome::Failed(e) => r matches Some((k, m)) && k == ErrorKind::Internal && m@
                == e@,
        },
{
    match outcome {
        FixtureOutcome::Loaded => None,
        FixtureOutcome::NotFound => {
            let mut m = "fixture not found: ".to_owned();
            push_str(&mut m, name);
            Some((ErrorKind::FixtureNotFound, m))
        },
        FixtureOutcome::VersionMismatch { field, expected, got } => {
            let mut m = field.clone();
            push_str(&mut m, ": expected ");
            push_str(&mut m, expected.as_str());
            push_str(&mut m, ", got ");
            push_str(&mut m, got.as_str());
            Some((ErrorKind::FixtureVersionMismatch, m))
        },
        FixtureOutcome::Failed(e) => Some((ErrorKind::Internal, e.clone())),
    }
}

/// The error text for a `dump_state` path that names nothing.
pub fn missing_path_message(path: &str) -> (r: String)
    ensures
        r@ == "path not found: "@ + path@,
{
    let mut m = "path not found: ".to_owned();
    push_str(&mut m, path);
    m
}

} // verus!
