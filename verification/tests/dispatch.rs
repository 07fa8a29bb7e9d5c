use midas_app::devloop::AccountTab;
use midas_app::dispatch::{
    load_fixture_error, missing_path_message, plan_command, wait_for_event_reply,
    wait_for_idle_reply, CommandPlan, DevCommand, ErrorKind, FixtureOutcome, HarnessState, Reply,
    ReplyBody,
};
use midas_app::json::JsonValue;
use midas_app::keys::KeyCommand;

fn ready() -> HarnessState {
    HarnessState {
        event_log_ready: true,
        idle_tracker_ready: true,
        main_window_ready: true,
        account_panels: vec![7, 9],
    }
}

fn cold() -> HarnessState {
    HarnessState {
        event_log_ready: false,
        idle_tracker_ready: false,
        main_window_ready: false,
        account_panels: vec![],
    }
}

fn fail_text(plan: CommandPlan) -> (ErrorKind, String) {
    match plan {
        CommandPlan::Fail { kind, message } => (kind, message),
        other => panic!("expected a failure, got {other:?}"),
    }
}

fn obj(members: Vec<(&str, JsonValue)>) -> JsonValue {
    JsonValue::Object(members.into_iter().map(|(k, v)| (k.to_owned(), v)).collect())
}

#[test]
fn ping_and_shutdown_plans() {
    assert!(matches!(plan_command(DevCommand::Ping, &ready()), CommandPlan::ReplyPid));
    assert!(matches!(plan_command(DevCommand::Shutdown, &cold()), CommandPlan::ReplyThenExit));
}

#[test]
fn wait_for_event_needs_the_event_log() {
    let cmd = || DevCommand::WaitForEvent {
        event_type: "TickerMsg".to_owned(),
        timeout_ms: 500,
        since_cursor: None,
    };
    match plan_command(cmd(), &ready()) {
        CommandPlan::WaitForEvent { event_type, since, timeout_ms } => {
            assert_eq!(event_type, "TickerMsg");
            assert_eq!(since, 0);
            assert_eq!(timeout_ms, 500);
        }
        other => panic!("unexpected {other:?}"),
    }
    let (kind, msg) = fail_text(plan_command(cmd(), &cold()));
    assert_eq!(kind, ErrorKind::Internal);
    assert_eq!(msg, "event log not initialised");
    let with_cursor = DevCommand::WaitForEvent {
        event_type: "X".to_owned(),
        timeout_ms: 1,
        since_cursor: Some(41),
    };
    assert!(matches!(
        plan_command(with_cursor, &ready()),
        CommandPlan::WaitForEvent { since: 41, .. }
    ));
}

#[test]
fn idle_and_screenshot_need_their_subsystems() {
    let (_, msg) = fail_text(plan_command(DevCommand::WaitForIdle { timeout_ms: 3 }, &cold()));
    assert_eq!(msg, "idle tracker not initialised");
    assert!(matches!(
        plan_command(DevCommand::WaitForIdle { timeout_ms: 3 }, &ready()),
        CommandPlan::WaitForIdle { timeout_ms: 3 }
    ));
    let shot = || DevCommand::Screenshot { out_path: "a.png".to_owned() };
    let (_, msg) = fail_text(plan_command(shot(), &cold()));
    assert_eq!(msg, "main window not yet created");
    assert!(matches!(plan_command(shot(), &ready()), CommandPlan::Screenshot { .. }));
}

#[test]
fn set_account_tab_targets_mounted_panels() {
    let cmd = |t: &str| DevCommand::SetAccountTab { tab: t.to_owned() };
    match plan_command(cmd("trade-history"), &ready()) {
        CommandPlan::SetAccountTab { tab, panels } => {
            assert_eq!(tab, AccountTab::TradeHistory);
            assert_eq!(panels, vec![7, 9]);
        }
        other => panic!("unexpected {other:?}"),
    }
    let (_, msg) = fail_text(plan_command(cmd("orders"), &cold()));
    assert_eq!(msg, "SetAccountTab: no Account panel is mounted in the workspace");
    let (_, msg) = fail_text(plan_command(cmd("bogus"), &ready()));
    assert_eq!(
        msg,
        "SetAccountTab: unknown tab 'bogus' (expected positions|orders|trade-history|recents)"
    );
}

#[test]
fn key_combos_plan_or_fail() {
    match plan_command(DevCommand::Key { combo: "Ctrl+n".to_owned() }, &ready()) {
        CommandPlan::Key { command } => assert!(matches!(command, KeyCommand::AddChart)),
        other => panic!("unexpected {other:?}"),
    }
    let (_, msg) = fail_text(plan_command(DevCommand::Key { combo: "Ctrl+".to_owned() }, &ready()));
    assert_eq!(msg, "unrecognised key combo: Ctrl+");
}

#[test]
fn injected_messages_are_parsed_before_delivery() {
    let good = DevCommand::InjectTickerMsg {
        symbol: "AAPL".to_owned(),
        msg_json: obj(vec![("type", JsonValue::String("TogglePin".to_owned()))]),
    };
    match plan_command(good, &ready()) {
        CommandPlan::InjectTickerMsg { symbol, variant, .. } => {
            assert_eq!(symbol, "AAPL");
            assert_eq!(variant, "TogglePin");
        }
        other => panic!("unexpected {other:?}"),
    }
    let bad = DevCommand::InjectTickerMsg { symbol: "AAPL".to_owned(), msg_json: JsonValue::Null };
    let (_, msg) = fail_text(plan_command(bad, &ready()));
    assert_eq!(msg, "missing `type` field on inject_ticker_msg payload");
    let broker = DevCommand::InjectBrokerEvent {
        event_json: obj(vec![("type", JsonValue::String("Reconnected".to_owned()))]),
    };
    assert!(matches!(
        plan_command(broker, &ready()),
        CommandPlan::InjectBrokerEvent { variant: "Reconnected", .. }
    ));
}

#[test]
fn pointer_injection_is_refused() {
    for cmd in [DevCommand::Click, DevCommand::ClickPrice, DevCommand::Drag] {
        let (kind, msg) = fail_text(plan_command(cmd, &ready()));
        assert_eq!(kind, ErrorKind::Internal);
        assert!(msg.starts_with("click/drag injection not supported in v1"));
    }
}

#[test]
fn wait_replies() {
    assert!(matches!(
        wait_for_event_reply("Tick", 250, Some(12)),
        Reply::Success(ReplyBody::MatchedCursor(12))
    ));
    match wait_for_event_reply("Tick", 250, None) {
        Reply::Failure { kind, message } => {
            assert_eq!(kind, ErrorKind::Timeout);
            assert_eq!(message, "no event Tick within 250ms");
        }
        other => panic!("unexpected {other:?}"),
    }
    assert!(matches!(wait_for_idle_reply(9, true), Reply::Success(ReplyBody::Empty)));
    match wait_for_idle_reply(1000, false) {
        Reply::Failure { message, .. } => assert_eq!(message, "not idle after 1000ms"),
        other => panic!("unexpected {other:?}"),
    }
}

#[test]
fn fixture_and_path_errors() {
    assert!(load_fixture_error("base", &FixtureOutcome::Loaded).is_none());
    assert_eq!(
        load_fixture_error("base", &FixtureOutcome::NotFound),
        Some((ErrorKind::FixtureNotFound, "fixture not found: base".to_owned()))
    );
    let mismatch = FixtureOutcome::VersionMismatch {
        field: "schema".to_owned(),
        expected: "2".to_owned(),
        got: "1".to_owned(),
    };
    assert_eq!(
        load_fixture_error("base", &mismatch),
        Some((ErrorKind::FixtureVersionMismatch, "schema: expected 2, got 1".to_owned()))
    );
    assert_eq!(
        load_fixture_error("base", &FixtureOutcome::Failed("disk".to_owned())),
        Some((ErrorKind::Internal, "disk".to_owned()))
    );
    assert_eq!(missing_path_message("a.b"), "path not found: a.b");
}
