//! The decisions behind the settings window's commands: recording a key,
//! naming keys, the permission check, and validating the terminal and editor
//! chosen for the Edit Popup.
//!
//! Validation needs the machine: whether an application bundle exists,
//! where a command resolves to and whether it is executable, whether the
//! launcher script could be written. The caller makes the probe that
//! `terminal_probe` asks for (or the editor lookups) and hands the outcome
//! back; the verdict and its messages are decided here.

use vstd::prelude::*;

use crate::keycode::{display_name, key_name, name_to_key, KeyCode, KeyEvent};
use crate::text::{owned, str_eq, unicode_lower};

verus! {

/// Modifier state of a recorded key.
#[derive(Debug, Clone, Copy, PartialEq, Eq, Structural)]
pub struct RecordedModifiers {
    pub shift: bool,
    pub control: bool,
    pub option: bool,
    pub command: bool,
}

/// A key pressed while the settings window was recording one.
#[derive(Debug, Clone)]
pub struct RecordedKey {
    /// The key's settings name.
    pub name: String,
    /// The key's human-readable name.
    pub display_name: String,
    /// The modifiers held with it.
    pub modifiers: RecordedModifiers,
}

/// The display name of the key named `key_name` (in any letter case).
pub fn get_key_display_name(key_name: String) -> (r: Option<String>)
    ensures
        match name_to_key(unicode_lower(key_name@)) {
            Some(k) => r matches Some(s) && s@ == display_name(k),
            None => r is None,
        },
{
    match KeyCode::from_name(key_name.as_str()) {
        Some(k) => Some(owned(k.to_display_name())),
        None => None,
    }
}

/// What is recorded for a key-down event while recording is on: the key's
/// names and the held modifiers, when the key is in the table.
pub fn recorded_key_for(event: &KeyEvent, recording: bool) -> (r: Option<RecordedKey>)
    ensures
        !recording ==> r is None,
        recording ==> match r {
            Some(rk) => exists|k: KeyCode| {
                &&& crate::keycode::raw_code(k) == event.code
                &&& rk.name@ == key_name(k)
                &&& rk.display_name@ == display_name(k)
            } && rk.modifiers == (RecordedModifiers {
                shift: event.modifiers.shift,
                control: event.modifiers.control,
                option: event.modifiers.option,
                command: event.modifiers.command,
            }),
            None => forall|k: KeyCode| crate::keycode::raw_code(k) != event.code,
        },
{
    if !recording {
        return None;
    }
    match event.keycode() {
        Some(k) => Some(
            RecordedKey {
                name: owned(k.to_name()),
                display_name: owned(k.to_display_name()),
                modifiers: RecordedModifiers {
                    shift: event.modifiers.shift,
                    control: event.modifiers.control,
                    option: event.modifiers.option,
                    command: event.modifiers.command,
                },
            },
        ),
        None => None,
    }
}

/// Which system permissions the app holds, and whether capture is running.
#[derive(Debug, Clone, Copy, PartialEq, Eq, Structural)]
pub struct PermissionStatus {
    pub accessibility: bool,
    pub input_monitoring: bool,
    pub capture_running: bool,
}

/// Whether the permission setup may finish: both permissions must be held.
pub fn check_setup_permissions(status: PermissionStatus) -> (r: Result<(), String>)
    ensures
        status.accessibility && status.input_monitoring ==> r is Ok,
        !(status.accessibility && status.input_monitoring) ==> (r matches Err(e) && e@
            == "Both permissions must be allowed before setup can finish"@),
{
    if !status.accessibility || !status.input_monitoring {
        return Err(owned("Both permissions must be allowed before setup can finish"));
    }
    Ok(())
}

/// Result of validating the terminal and editor paths.
#[derive(Debug, Clone)]
pub struct PathValidation {
    /// Whether the terminal exists and is executable.
    pub terminal_valid: bool,
    /// The resolved terminal path (empty if not found).
    pub terminal_resolved_path: String,
    /// Why the terminal is not valid.
    pub terminal_error: Option<String>,
    /// Whether the editor exists and is executable.
    pub editor_valid: bool,
    /// The resolved editor path (empty if not found).
    pub editor_resolved_path: String,
    /// Why the editor is not valid.
    pub editor_error: Option<String>,
}

/// What must be looked up on the machine to validate a terminal.
#[derive(Debug, Clone)]
pub enum TerminalProbe {
    /// Create the launcher script, or find it, and report its path.
    LauncherScript,
    /// Check whether the application bundle at this path exists.
    AppBundle(String),
    /// Resolve this command to a path and check that it is executable.
    Command(String),
}

/// The view of a probe.
pub enum ProbeView {
    LauncherScript,
    AppBundle(Seq<char>),
    Command(Seq<char>),
}

/// The view of a probe.
pub open spec fn probe_view(p: TerminalProbe) -> ProbeView {
    match p {
        TerminalProbe::LauncherScript => ProbeView::LauncherScript,
        TerminalProbe::AppBundle(s) => ProbeView::AppBundle(s@),
        TerminalProbe::Command(s) => ProbeView::Command(s@),
    }
}

/// Where the bundle of an AppleScript-driven terminal is installed.
pub open spec fn app_bundle_path(terminal_type: Seq<char>) -> Seq<char> {
    if terminal_type == "iterm"@ {
        "/Applications/iTerm.app"@
    } else {
        "/Applications/Utilities/Terminal.app"@
    }
}

/// The probe that validates a terminal: the launcher script for a custom
/// terminal, the application bundle for iTerm2 and Terminal.app, and for
/// the others the configured path, or the type's own name when no path is
/// set.
pub open spec fn probe_for(terminal_type: Seq<char>, terminal_path: Seq<char>) -> ProbeView {
    if terminal_type == "custom"@ {
        ProbeView::LauncherScript
    } else if terminal_type == "iterm"@ || terminal_type == "default"@ {
        ProbeView::AppBundle(app_bundle_path(terminal_type))
    } else if terminal_path.len() == 0 {
        ProbeView::Command(terminal_type)
    } else {
        ProbeView::Command(terminal_path)
    }
}

/// The probe to make for a terminal.
pub fn terminal_probe(terminal_type: &str, terminal_path: &str) -> (r: TerminalProbe)
    ensures
        probe_view(r) == probe_for(terminal_type@, terminal_path@),
{
    if str_eq(terminal_type, "custom") {
        TerminalProbe::LauncherScript
    } else if str_eq(terminal_type, "iterm") {
        TerminalProbe::AppBundle(owned("/Applications/iTerm.app"))
    } else if str_eq(terminal_type, "default") {
        TerminalProbe::AppBundle(owned("/Applications/Utilities/Terminal.app"))
    } else if terminal_path.unicode_len() == 0 {
        TerminalProbe::Command(owned(terminal_type))
    } else {
        TerminalProbe::Command(owned(terminal_path))
    }
}

/// What a probe found.
#[derive(Debug)]
pub enum ProbeOutcome {
    /// The launcher script's path, or why it could not be written.
    LauncherScript(Result<String, String>),
    /// Whether the application bundle exists.
    AppBundle(bool),
    /// The path the command resolved to, and whether it is executable.
    Command { resolved: String, executable: bool },
}

/// The view of a probe's outcome.
pub enum OutcomeView {
    LauncherScript(Result<Seq<char>, Seq<char>>),
    AppBundle(bool),
    Command(Seq<char>, bool),
}

/// The view of a probe's outcome.
pub open spec fn outcome_view(o: ProbeOutcome) -> OutcomeView {
    match o {
        ProbeOutcome::LauncherScript(Ok(p)) => OutcomeView::LauncherScript(Ok(p@)),
        ProbeOutcome::LauncherScript(Err(e)) => OutcomeView::LauncherScript(Err(e@)),
        ProbeOutcome::AppBundle(b) => OutcomeView::AppBundle(b),
        ProbeOutcome::Command { resolved, executable } => OutcomeView::Command(resolved@, executable),
    }
}

/// Whether an outcome answers the probe that was asked for.
pub open spec fn answers(probe: ProbeView, outcome: OutcomeView) -> bool {
    match probe {
        ProbeView::LauncherScript => outcome is LauncherScript,
        ProbeView::AppBundle(_) => outcome is AppBundle,
        ProbeView::Command(_) => outcome is Command,
    }
}

/// The name a terminal's error message uses.
pub open spec fn terminal_display_name(terminal_type: Seq<char>) -> Seq<char> {
    if terminal_type == "alacritty"@ {
        "Alacritty"@
    } else if terminal_type == "kitty"@ {
        "Kitty"@
    } else if terminal_type == "wezterm"@ {
        "WezTerm"@
    } else if terminal_type == "ghostty"@ {
        "Ghostty"@
    } else {
        terminal_type
    }
}

/// The message for a program that could not be found: by name when no path
/// was configured, else by the configured path.
pub open spec fn not_found_message(name: Seq<char>, configured_path: Seq<char>) -> Seq<char> {
    if configured_path.len() == 0 {
        name + " not found. Install it or specify a custom path."@
    } else {
        "Path '"@ + configured_path + "' not found or not executable"@
    }
}

/// The characters of a check's answer: whether the program can run, where
/// it lives (empty if it cannot), and why it cannot.
pub open spec fn verdict_view(v: (bool, String, Option<String>)) -> (bool, Seq<char>, Option<Seq<char>>) {
    (
        v.0,
        v.1@,
        match v.2 {
            Some(e) => Some(e@),
            None => None,
        },
    )
}

/// The verdict on a terminal, given what its probe found.
pub open spec fn terminal_verdict(terminal_type: Seq<char>, terminal_path: Seq<char>, outcome: OutcomeView) -> (
    bool,
    Seq<char>,
    Option<Seq<char>>,
) {
    match outcome {
        OutcomeView::LauncherScript(Ok(p)) => (true, p, None),
        OutcomeView::LauncherScript(Err(e)) => (
            false,
            Seq::empty(),
            Some("Failed to create launcher script: "@ + e),
        ),
        OutcomeView::AppBundle(exists) => if exists {
            (true, app_bundle_path(terminal_type), None)
        } else if terminal_type == "default"@ {
            (true, "Terminal.app"@, None)
        } else {
            (false, Seq::empty(), Some("iTerm2 not found at /Applications/iTerm.app"@))
        },
        OutcomeView::Command(resolved, executable) => if executable {
            (true, resolved, None)
        } else {
            (
                false,
                Seq::empty(),
                Some(not_found_message(terminal_display_name(terminal_type), terminal_path)),
            )
        },
    }
}

fn not_found(name: &str, configured_path: &str) -> (r: String)
    ensures
        r@ == not_found_message(name@, configured_path@),
{
    if configured_path.unicode_len() == 0 {
        let mut msg = owned(name);
        msg.append(" not found. Install it or specify a custom path.");
        msg
    } else {
        let mut msg = owned("Path '");
        msg.append(configured_path);
        msg.append("' not found or not executable");
        msg
    }
}

/// Whether the terminal can be run, given what the probe that
/// `terminal_probe` asked for found.
pub fn validate_terminal(terminal_type: &str, terminal_path: &str, outcome: ProbeOutcome) -> (r: (
    bool,
    String,
    Option<String>,
))
    requires
        answers(probe_for(terminal_type@, terminal_path@), outcome_view(outcome)),
    ensures
        verdict_view(r) == terminal_verdict(terminal_type@, terminal_path@, outcome_view(outcome)),
{
    match outcome {
        ProbeOutcome::LauncherScript(Ok(p)) => (true, p, None),
        ProbeOutcome::LauncherScript(Err(e)) => {
            let mut msg = owned("Failed to create launcher script: ");
            msg.append(e.as_str());
            (false, String::new(), Some(msg))
        },
        ProbeOutcome::AppBundle(exists) => {
            if exists {
                if str_eq(terminal_type, "iterm") {
                    (true, owned("/Applications/iTerm.app"), None)
                } else {
                    (true, owned("/Applications/Utilities/Terminal.app"), None)
                }
            } else if str_eq(terminal_type, "default") {
                (true, owned("Terminal.app"), None)
            } else {
                (false, String::new(), Some(owned("iTerm2 not found at /Applications/iTerm.app")))
            }
        },
        ProbeOutcome::Command { resolved, executable } => {
            if executable {
                (true, resolved, None)
            } else {
                let name: &str = if str_eq(terminal_type, "alacritty") {
                    "Alacritty"
                } else if str_eq(terminal_type, "kitty") {
                    "Kitty"
                } else if str_eq(terminal_type, "wezterm") {
                    "WezTerm"
                } else if str_eq(terminal_type, "ghostty") {
                    "Ghostty"
                } else {
                    terminal_type
                };
                (false, String::new(), Some(not_found(name, terminal_path)))
            }
        },
    }
}

/// The command an editor runs: the configured path, else the editor's own
/// command; a custom editor has none without a path.
pub open spec fn editor_command_for(editor_type: Seq<char>, editor_path: Seq<char>) -> Option<Seq<char>> {
    if editor_path.len() > 0 {
        Some(editor_path)
    } else if editor_type == "neovim"@ {
        Some("nvim"@)
    } else if editor_type == "vim"@ {
        Some("vim"@)
    } else if editor_type == "helix"@ {
        Some("hx"@)
    } else if editor_type == "custom"@ {
        None
    } else {
        Some(editor_type)
    }
}

/// An editor's command agrees with the settings: a configured path is the
/// command; without one, Neovim, Vim and Helix run the default executable
/// the settings give the editor of that name ("nvim", "vim", "hx"), and a
/// custom editor has no command.
pub proof fn lemma_editor_commands(editor_type: Seq<char>, editor_path: Seq<char>)
    ensures
        editor_path.len() > 0 ==> editor_command_for(editor_type, editor_path) == Some(editor_path),
        editor_command_for("neovim"@, Seq::empty()) == Some(crate::config::editor_executable(crate::config::editor_named("neovim"@))),
        editor_command_for("vim"@, Seq::empty()) == Some(crate::config::editor_executable(crate::config::editor_named("vim"@))),
        editor_command_for("helix"@, Seq::empty()) == Some(crate::config::editor_executable(crate::config::editor_named("helix"@))),
        editor_command_for("neovim"@, Seq::empty()) == Some(seq!['n', 'v', 'i', 'm']),
        editor_command_for("helix"@, Seq::empty()) == Some(seq!['h', 'x']),
        editor_command_for("custom"@, Seq::empty()) is None,
{
    reveal_strlit("neovim");
    reveal_strlit("nvim");
    reveal_strlit("vim");
    reveal_strlit("helix");
    reveal_strlit("hx");
    reveal_strlit("custom");
    assert("nvim"@ =~= seq!['n', 'v', 'i', 'm']);
    assert("hx"@ =~= seq!['h', 'x']);
    assert("neovim"@[0] != "nvim"@[0] || "neovim"@.len() != "nvim"@.len());
    assert("helix"@[0] != "hx"@[0] || "helix"@.len() != "hx"@.len());
    assert("custom"@[0] != "neovim"@[0]);
    assert("custom"@[0] != "vim"@[0]);
    assert("custom"@[0] != "helix"@[0]);
}

/// The probe for a terminal: the launcher script for a custom one, the
/// iTerm2 bundle for iTerm2 and the Terminal.app bundle for the default
/// one; any other terminal is looked up by its configured path, or by its
/// type's name when no path is set.
pub proof fn lemma_terminal_probes(terminal_type: Seq<char>, terminal_path: Seq<char>)
    ensures
        probe_for("custom"@, terminal_path) == ProbeView::LauncherScript,
        probe_for("iterm"@, terminal_path) == ProbeView::AppBundle("/Applications/iTerm.app"@),
        probe_for("default"@, terminal_path) == ProbeView::AppBundle("/Applications/Utilities/Terminal.app"@),
        terminal_type != "custom"@ && terminal_type != "iterm"@ && terminal_type != "default"@ ==> probe_for(
            terminal_type,
            terminal_path,
        ) == ProbeView::Command(if terminal_path.len() == 0 {
            terminal_type
        } else {
            terminal_path
        }),
{
    reveal_strlit("custom");
    reveal_strlit("iterm");
    reveal_strlit("default");
    assert("iterm"@[0] != "default"@[0]);
}

/// The command to look up for an editor; `None` for a custom editor without
/// a path.
pub fn editor_command(editor_type: &str, editor_path: &str) -> (r: Option<String>)
    ensures
        match editor_command_for(editor_type@, editor_path@) {
            Some(c) => r matches Some(s) && s@ == c,
            None => r is None,
        },
{
    if editor_path.unicode_len() > 0 {
        Some(owned(editor_path))
    } else if str_eq(editor_type, "neovim") {
        Some(owned("nvim"))
    } else if str_eq(editor_type, "vim") {
        Some(owned("vim"))
    } else if str_eq(editor_type, "helix") {
        Some(owned("hx"))
    } else if str_eq(editor_type, "custom") {
        None
    } else {
        Some(owned(editor_type))
    }
}

/// The name an editor's error message uses.
pub open spec fn editor_display_name(editor_type: Seq<char>) -> Seq<char> {
    if editor_type == "neovim"@ {
        "Neovim (nvim)"@
    } else if editor_type == "vim"@ {
        "Vim"@
    } else if editor_type == "helix"@ {
        "Helix (hx)"@
    } else if editor_type == "custom"@ {
        "Editor"@
    } else {
        editor_type
    }
}

/// The verdict on an editor, given the executable path found for its
/// command, if any.
pub open spec fn editor_verdict(editor_type: Seq<char>, editor_path: Seq<char>, found: Option<Seq<char>>) -> (
    bool,
    Seq<char>,
    Option<Seq<char>>,
) {
    if editor_command_for(editor_type, editor_path) is None {
        (false, Seq::empty(), Some("Custom editor requires a path"@))
    } else {
        match found {
            Some(p) => (true, p, None),
            None => (
                false,
                Seq::empty(),
                Some(not_found_message(editor_display_name(editor_type), editor_path)),
            ),
        }
    }
}

/// Whether the editor can be run, given the executable path that the
/// lookups of its command found, if any.
pub fn validate_editor(editor_type: &str, editor_path: &str, found: Option<String>) -> (r: (
    bool,
    String,
    Option<String>,
))
    ensures
        verdict_view(r) == editor_verdict(
            editor_type@,
            editor_path@,
            match found {
                Some(p) => Some(p@),
                None => None,
            },
        ),
{
    if editor_path.unicode_len() == 0 && str_eq(editor_type, "custom") {
        proof {
            reveal_strlit("custom");
            reveal_strlit("neovim");
            reveal_strlit("vim");
            reveal_strlit("helix");
            assert(editor_type@[0] != "neovim"@[0]);
            assert(editor_type@.len() != "vim"@.len());
            assert(editor_type@[0] != "helix"@[0]);
        }
        return (false, String::new(), Some(owned("Custom editor requires a path")));
    }
    match found {
        Some(p) => (true, p, None),
        None => {
            let name: &str = if str_eq(editor_type, "neovim") {
                "Neovim (nvim)"
            } else if str_eq(editor_type, "vim") {
                "Vim"
            } else if str_eq(editor_type, "helix") {
                "Helix (hx)"
            } else if str_eq(editor_type, "custom") {
                "Editor"
            } else {
                editor_type
            };
            (false, String::new(), Some(not_found(name, editor_path)))
        },
    }
}

/// Both verdicts, gathered for the settings window.
pub fn validate_nvim_edit_paths(
    terminal: (bool, String, Option<String>),
    editor: (bool, String, Option<String>),
) -> (r: PathValidation)
    ensures
        verdict_view((r.terminal_valid, r.terminal_resolved_path, r.terminal_error)) == verdict_view(
            terminal,
        ),
        verdict_view((r.editor_valid, r.editor_resolved_path, r.editor_error)) == verdict_view(editor),
{
    let (terminal_valid, terminal_resolved_path, terminal_error) = terminal;
    let (editor_valid, editor_resolved_path, editor_error) = editor;
    PathValidation {
        terminal_valid,
        terminal_resolved_path,
        terminal_error,
        editor_valid,
        editor_resolved_path,
        editor_error,
    }
}

} // verus!
