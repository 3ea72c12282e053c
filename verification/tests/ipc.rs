use ovim::ipc::{
    get_arg_value, handle_ipc_command, handle_set_mode, parse_cli_args, parse_mode, parse_u32, CliAction, IpcCommand,
    IpcEffect, IpcOutcome, IpcResponse, VimMode,
};
use ovim::launcher::{
    init, register, signal_fallthrough, signal_handled, take_signal, unregister, LauncherCallback, LauncherRegistry,
};

fn args(list: &[&str]) -> Vec<String> {
    list.iter().map(|s| s.to_string()).collect()
}

#[test]
fn cli_commands_and_aliases() {
    assert!(matches!(parse_cli_args(&args(&["ovim", "mode"])), CliAction::Send(IpcCommand::GetMode)));
    assert!(matches!(parse_cli_args(&args(&["ovim", "status"])), CliAction::Send(IpcCommand::GetMode)));
    assert!(matches!(parse_cli_args(&args(&["ovim", "t"])), CliAction::Send(IpcCommand::Toggle)));
    assert!(matches!(parse_cli_args(&args(&["ovim", "i"])), CliAction::Send(IpcCommand::Insert)));
    assert!(matches!(parse_cli_args(&args(&["ovim", "normal"])), CliAction::Send(IpcCommand::Normal)));
    assert!(matches!(parse_cli_args(&args(&["ovim", "v"])), CliAction::Send(IpcCommand::Visual)));
    assert!(matches!(parse_cli_args(&args(&["ovim", "--help"])), CliAction::Help));
    assert!(matches!(parse_cli_args(&args(&["ovim"])), CliAction::MissingCommand));
}

#[test]
fn cli_set_needs_a_mode() {
    assert!(matches!(parse_cli_args(&args(&["ovim", "set"])), CliAction::MissingMode));
    match parse_cli_args(&args(&["ovim", "set", "Visual"])) {
        CliAction::Send(IpcCommand::SetMode(m)) => assert_eq!(m, "Visual"),
        other => panic!("unexpected {:?}", other),
    }
}

#[test]
fn cli_unknown_command_is_named() {
    match parse_cli_args(&args(&["ovim", "jump"])) {
        CliAction::UnknownCommand(c) => assert_eq!(c, "jump"),
        other => panic!("unexpected {:?}", other),
    }
}

#[test]
fn cli_launcher_reports() {
    match parse_cli_args(&args(&["ovim", "launcher-handled", "--session", "abc", "--pid", "42"])) {
        CliAction::Send(IpcCommand::LauncherHandled { session_id, editor_pid }) => {
            assert_eq!(session_id, "abc");
            assert_eq!(editor_pid, Some(42));
        }
        other => panic!("unexpected {:?}", other),
    }
    match parse_cli_args(&args(&["ovim", "launcher-handled", "--pid", "x", "--session", "s1"])) {
        CliAction::Send(IpcCommand::LauncherHandled { session_id, editor_pid }) => {
            assert_eq!(session_id, "s1");
            assert_eq!(editor_pid, None);
        }
        other => panic!("unexpected {:?}", other),
    }
    match parse_cli_args(&args(&["ovim", "launcher-fallthrough", "--session", "s2"])) {
        CliAction::Send(IpcCommand::LauncherFallthrough { session_id }) => assert_eq!(session_id, "s2"),
        other => panic!("unexpected {:?}", other),
    }
    match parse_cli_args(&args(&["ovim", "launcher-fallthrough", "--session"])) {
        CliAction::MissingSession(c) => assert_eq!(c, "launcher-fallthrough"),
        other => panic!("unexpected {:?}", other),
    }
}

#[test]
fn arg_value_takes_the_first_flag() {
    let a = args(&["x", "--session", "one", "--session", "two"]);
    assert_eq!(get_arg_value(&a, "--session"), Some("one".to_string()));
    assert_eq!(get_arg_value(&a, "--pid"), None);
    let b = args(&["x", "--pid"]);
    assert_eq!(get_arg_value(&b, "--pid"), None);
}

#[test]
fn pid_parsing_matches_std() {
    for text in ["0", "42", "+7", "4294967295", "4294967296", "-1", "", "+", "12a", " 1", "007"] {
        assert_eq!(parse_u32(text), text.parse::<u32>().ok(), "input {:?}", text);
    }
    assert_eq!(parse_u32("99999999999999999999"), None);
}

#[test]
fn mode_names() {
    assert_eq!(parse_mode("INSERT"), Some(VimMode::Insert));
    assert_eq!(parse_mode("n"), Some(VimMode::Normal));
    assert_eq!(parse_mode("V"), Some(VimMode::Visual));
    assert_eq!(parse_mode("command"), None);
    assert_eq!(VimMode::Normal.as_str(), "normal");
}

#[test]
fn set_mode_answers() {
    let (m, r) = handle_set_mode("Normal");
    assert_eq!(m, Some(VimMode::Normal));
    assert!(matches!(r, IpcResponse::Done));
    let (m, r) = handle_set_mode("Hyper");
    assert_eq!(m, None);
    match r {
        IpcResponse::Error(e) => assert_eq!(e, "Unknown mode: Hyper"),
        other => panic!("unexpected {:?}", other),
    }
}

fn reply(o: IpcOutcome) -> (IpcResponse, IpcEffect) {
    match o {
        IpcOutcome::Reply(r, e) => (r, e),
        IpcOutcome::ToggleAndReport => panic!("unexpected toggle"),
    }
}

#[test]
fn ipc_commands_are_answered() {
    let mut slot: Option<LauncherRegistry> = None;
    let (r, e) = reply(handle_ipc_command(IpcCommand::GetMode, VimMode::Visual, true, true, false, &mut slot));
    assert!(matches!(r, IpcResponse::Mode(ref m) if m == "visual"));
    assert_eq!(e, IpcEffect::Nothing);
    assert!(matches!(
        handle_ipc_command(IpcCommand::Toggle, VimMode::Insert, true, true, false, &mut slot),
        IpcOutcome::ToggleAndReport
    ));
    let (_, e) = reply(handle_ipc_command(IpcCommand::Insert, VimMode::Normal, true, true, false, &mut slot));
    assert_eq!(e, IpcEffect::SwitchMode(VimMode::Insert));
    let (_, e) = reply(handle_ipc_command(IpcCommand::SetMode("v".to_string()), VimMode::Normal, true, true, false, &mut slot));
    assert_eq!(e, IpcEffect::SwitchMode(VimMode::Visual));
}

#[test]
fn ipc_feature_checks() {
    let mut slot: Option<LauncherRegistry> = None;
    let (r, e) = reply(handle_ipc_command(IpcCommand::EditPopup, VimMode::Normal, false, true, false, &mut slot));
    assert!(matches!(r, IpcResponse::Error(ref m) if m == "Edit Popup is disabled"));
    assert_eq!(e, IpcEffect::Nothing);
    let (_, e) = reply(handle_ipc_command(IpcCommand::EditPopup, VimMode::Normal, true, true, false, &mut slot));
    assert_eq!(e, IpcEffect::OpenEditPopup);
    let (r, _) = reply(handle_ipc_command(IpcCommand::ClickMode, VimMode::Normal, true, false, false, &mut slot));
    assert!(matches!(r, IpcResponse::Error(ref m) if m == "Click Mode is disabled"));
    let (r, _) = reply(handle_ipc_command(IpcCommand::ClickMode, VimMode::Normal, true, true, true, &mut slot));
    assert!(matches!(r, IpcResponse::Error(ref m) if m == "Click Mode is already active"));
    let (r, e) = reply(handle_ipc_command(IpcCommand::ClickMode, VimMode::Normal, true, true, false, &mut slot));
    assert!(matches!(r, IpcResponse::Done));
    assert_eq!(e, IpcEffect::StartClickMode);
}

#[test]
fn launcher_report_reaches_the_waiting_session() {
    let mut slot: Option<LauncherRegistry> = None;
    init(&mut slot);
    let mut rx = register(&mut slot, "s1".to_string());
    let (r, _) = reply(handle_ipc_command(
        IpcCommand::LauncherHandled { session_id: "s1".to_string(), editor_pid: Some(7) },
        VimMode::Normal,
        true,
        true,
        false,
        &mut slot,
    ));
    assert!(matches!(r, IpcResponse::Done));
    match rx.try_recv() {
        Ok(LauncherCallback::Handled { editor_pid }) => assert_eq!(editor_pid, Some(7)),
        other => panic!("unexpected {:?}", other),
    }
    // A second report for the same session is refused.
    let (r, _) = reply(handle_ipc_command(
        IpcCommand::LauncherFallthrough { session_id: "s1".to_string() },
        VimMode::Normal,
        true,
        true,
        false,
        &mut slot,
    ));
    assert!(matches!(r, IpcResponse::Error(ref m) if m == "Unknown session: s1"));
}

#[test]
fn launcher_registry_signals_once() {
    let mut slot: Option<LauncherRegistry> = None;
    // Before init nothing is registered.
    let _rx0 = register(&mut slot, "early".to_string());
    assert!(!signal_fallthrough(&mut slot, "early"));
    init(&mut slot);
    let mut rx = register(&mut slot, "a".to_string());
    let _rx_b = register(&mut slot, "b".to_string());
    assert!(signal_fallthrough(&mut slot, "a"));
    assert!(matches!(rx.try_recv(), Ok(LauncherCallback::Fallthrough)));
    assert!(!signal_fallthrough(&mut slot, "a"));
    unregister(&mut slot, "b");
    assert!(!signal_handled(&mut slot, "b", None));
}

#[test]
fn registering_twice_replaces_the_channel() {
    let mut slot: Option<LauncherRegistry> = None;
    init(&mut slot);
    let mut first = register(&mut slot, "s".to_string());
    let mut second = register(&mut slot, "s".to_string());
    assert!(signal_handled(&mut slot, "s", None));
    assert!(first.try_recv().is_err());
    assert!(matches!(second.try_recv(), Ok(LauncherCallback::Handled { editor_pid: None })));
    assert!(!signal_handled(&mut slot, "s", None));
}

#[test]
fn decimal_text_parses_back() {
    for n in [0u32, 9, 10, 4096, 65535, u32::MAX] {
        assert_eq!(parse_u32(&n.to_string()), Some(n));
    }
}

#[test]
fn take_signal_hands_over_the_waiting_sender() {
    let mut slot: Option<LauncherRegistry> = None;
    init(&mut slot);
    let mut rx = register(&mut slot, "s".to_string());
    let mut other = register(&mut slot, "t".to_string());
    assert!(take_signal(&mut slot, "missing", LauncherCallback::Fallthrough).is_none());
    let (tx, cb) = take_signal(&mut slot, "s", LauncherCallback::Handled { editor_pid: Some(3) }).unwrap();
    assert!(matches!(cb, LauncherCallback::Handled { editor_pid: Some(3) }));
    assert!(tx.send(cb).is_ok());
    assert!(matches!(rx.try_recv(), Ok(LauncherCallback::Handled { editor_pid: Some(3) })));
    assert!(take_signal(&mut slot, "s", LauncherCallback::Fallthrough).is_none());
    assert!(signal_fallthrough(&mut slot, "t"));
    assert!(matches!(other.try_recv(), Ok(LauncherCallback::Fallthrough)));
}
