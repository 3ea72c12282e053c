use ovim::commands::{
    check_setup_permissions, editor_command, get_key_display_name, recorded_key_for, terminal_probe, validate_editor,
    validate_nvim_edit_paths, validate_terminal, PermissionStatus, ProbeOutcome, RecordedModifiers, TerminalProbe,
};
use ovim::keycode::{KeyCode, KeyEvent, Modifiers};

#[test]
fn key_display_names() {
    assert_eq!(get_key_display_name("Escape".to_string()), Some("Escape".to_string()));
    assert_eq!(get_key_display_name("a".to_string()), KeyCode::from_name("a").map(|k| k.to_display_name().to_string()));
    assert_eq!(get_key_display_name("no_such_key".to_string()), None);
}

#[test]
fn recording_a_key() {
    let ev = KeyEvent {
        code: KeyCode::J.as_raw(),
        modifiers: Modifiers { shift: true, control: false, option: false, command: true, caps_lock: false },
        is_key_down: true,
    };
    assert!(recorded_key_for(&ev, false).is_none());
    let rk = recorded_key_for(&ev, true).unwrap();
    assert_eq!(rk.name, KeyCode::J.to_name());
    assert_eq!(rk.display_name, KeyCode::J.to_display_name());
    assert_eq!(rk.modifiers, RecordedModifiers { shift: true, control: false, option: false, command: true });
    let unknown = KeyEvent { code: 0xFFFF, modifiers: Modifiers::default(), is_key_down: true };
    assert!(recorded_key_for(&unknown, true).is_none());
}

#[test]
fn setup_needs_both_permissions() {
    let both = PermissionStatus { accessibility: true, input_monitoring: true, capture_running: false };
    assert!(check_setup_permissions(both).is_ok());
    let one = PermissionStatus { accessibility: true, input_monitoring: false, capture_running: true };
    assert_eq!(
        check_setup_permissions(one),
        Err("Both permissions must be allowed before setup can finish".to_string())
    );
}

#[test]
fn terminal_probes() {
    assert!(matches!(terminal_probe("custom", ""), TerminalProbe::LauncherScript));
    assert!(matches!(terminal_probe("iterm", ""), TerminalProbe::AppBundle(ref p) if p == "/Applications/iTerm.app"));
    assert!(matches!(
        terminal_probe("default", "/x"),
        TerminalProbe::AppBundle(ref p) if p == "/Applications/Utilities/Terminal.app"
    ));
    assert!(matches!(terminal_probe("kitty", ""), TerminalProbe::Command(ref c) if c == "kitty"));
    assert!(matches!(terminal_probe("kitty", "/opt/kitty"), TerminalProbe::Command(ref c) if c == "/opt/kitty"));
}

#[test]
fn terminal_verdicts() {
    assert_eq!(
        validate_terminal("custom", "", ProbeOutcome::LauncherScript(Ok("/s.sh".to_string()))),
        (true, "/s.sh".to_string(), None)
    );
    assert_eq!(
        validate_terminal("custom", "", ProbeOutcome::LauncherScript(Err("disk full".to_string()))),
        (false, String::new(), Some("Failed to create launcher script: disk full".to_string()))
    );
    assert_eq!(
        validate_terminal("iterm", "", ProbeOutcome::AppBundle(true)),
        (true, "/Applications/iTerm.app".to_string(), None)
    );
    assert_eq!(
        validate_terminal("iterm", "", ProbeOutcome::AppBundle(false)),
        (false, String::new(), Some("iTerm2 not found at /Applications/iTerm.app".to_string()))
    );
    assert_eq!(
        validate_terminal("default", "", ProbeOutcome::AppBundle(false)),
        (true, "Terminal.app".to_string(), None)
    );
    assert_eq!(
        validate_terminal("wezterm", "", ProbeOutcome::Command { resolved: "/bin/wezterm".to_string(), executable: true }),
        (true, "/bin/wezterm".to_string(), None)
    );
    assert_eq!(
        validate_terminal("wezterm", "", ProbeOutcome::Command { resolved: "wezterm".to_string(), executable: false }),
        (false, String::new(), Some("WezTerm not found. Install it or specify a custom path.".to_string()))
    );
    assert_eq!(
        validate_terminal("ghostty", "/x/g", ProbeOutcome::Command { resolved: "/x/g".to_string(), executable: false }),
        (false, String::new(), Some("Path '/x/g' not found or not executable".to_string()))
    );
    assert_eq!(
        validate_terminal("foot", "", ProbeOutcome::Command { resolved: String::new(), executable: false }),
        (false, String::new(), Some("foot not found. Install it or specify a custom path.".to_string()))
    );
}

#[test]
fn editor_commands_and_verdicts() {
    assert_eq!(editor_command("neovim", ""), Some("nvim".to_string()));
    assert_eq!(editor_command("helix", ""), Some("hx".to_string()));
    assert_eq!(editor_command("custom", ""), None);
    assert_eq!(editor_command("custom", "/e"), Some("/e".to_string()));
    assert_eq!(editor_command("emacs", ""), Some("emacs".to_string()));
    assert_eq!(
        validate_editor("custom", "", Some("/ignored".to_string())),
        (false, String::new(), Some("Custom editor requires a path".to_string()))
    );
    assert_eq!(validate_editor("vim", "", Some("/usr/bin/vim".to_string())), (true, "/usr/bin/vim".to_string(), None));
    assert_eq!(
        validate_editor("neovim", "", None),
        (false, String::new(), Some("Neovim (nvim) not found. Install it or specify a custom path.".to_string()))
    );
    assert_eq!(
        validate_editor("custom", "/e", None),
        (false, String::new(), Some("Path '/e' not found or not executable".to_string()))
    );
}

#[test]
fn path_validation_gathers_both_verdicts() {
    let v = validate_nvim_edit_paths((true, "/t".to_string(), None), (false, String::new(), Some("no".to_string())));
    assert!(v.terminal_valid);
    assert_eq!(v.terminal_resolved_path, "/t");
    assert!(!v.editor_valid);
    assert_eq!(v.editor_error, Some("no".to_string()));
}
