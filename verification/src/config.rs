//! Settings types and the rules that check and repair them.
//!
//! Reading and writing the settings file is the application's part; the
//! types it stores, their defaults, and the logic that reads them are here.

use vstd::prelude::*;

use crate::text::{
    contains, eq_ignore_ascii_case, eq_ignore_ascii_case_spec, is_infix, owned, str_eq,
    to_lowercase, unicode_lower, all_ascii, ascii_lower, lemma_ascii_case,
};

verus! {

/// Modifier keys that must accompany a configured key.
#[derive(Debug, Clone, Copy, PartialEq, Eq, Structural)]
pub struct VimKeyModifiers {
    pub shift: bool,
    pub control: bool,
    pub option: bool,
    pub command: bool,
}

impl Default for VimKeyModifiers {
    fn default() -> (r: Self)
        ensures
            !r.shift && !r.control && !r.option && !r.command,
    {
        VimKeyModifiers { shift: false, control: false, option: false, command: false }
    }
}

/// An RGB color.
#[derive(Debug, Clone, Copy, PartialEq, Eq, Structural)]
pub struct RgbColor {
    pub r: u8,
    pub g: u8,
    pub b: u8,
}

impl Default for RgbColor {
    /// Middle gray.
    fn default() -> (c: Self)
        ensures
            c == (RgbColor { r: 128, g: 128, b: 128 }),
    {
        RgbColor { r: 128, g: 128, b: 128 }
    }
}

/// Indicator background colors per Vim mode.
#[derive(Debug, Clone, Copy, PartialEq, Eq, Structural)]
pub struct ModeColors {
    pub insert: RgbColor,
    pub normal: RgbColor,
    pub visual: RgbColor,
}

impl Default for ModeColors {
    /// Blue for insert, orange for normal, purple for visual.
    fn default() -> (c: Self)
        ensures
            c == (ModeColors {
                insert: RgbColor { r: 74, g: 144, b: 217 },
                normal: RgbColor { r: 232, g: 148, b: 74 },
                visual: RgbColor { r: 155, g: 109, b: 215 },
            }),
    {
        ModeColors {
            insert: RgbColor { r: 74, g: 144, b: 217 },
            normal: RgbColor { r: 232, g: 148, b: 74 },
            visual: RgbColor { r: 155, g: 109, b: 215 },
        }
    }
}

/// Settings for scroll mode (Vimium-style navigation).
#[derive(Debug)]
pub struct ScrollModeSettings {
    /// Scroll mode is on.
    pub enabled: bool,
    /// Pixels per j/k step.
    pub scroll_step: u32,
    /// hjkl send arrow keys instead of scrolling.
    pub list_navigation: bool,
    /// Bundle identifiers of apps where scroll mode works.
    pub enabled_apps: Vec<String>,
    /// Bundle identifiers of apps where list navigation works; when empty,
    /// `enabled_apps` is used.
    pub list_navigation_apps: Vec<String>,
    /// Bundle identifiers of overlay apps that turn scroll mode off while
    /// they show windows.
    pub overlay_blocklist: Vec<String>,
}

/// The views of a sequence of strings.
pub open spec fn strs(s: Seq<String>) -> Seq<Seq<char>> {
    s.map_values(|x: String| x@)
}

fn strings(items: &[&str]) -> (r: Vec<String>)
    ensures
        strs(r@) == items@.map_values(|x: &str| x@),
{
    let mut out: Vec<String> = Vec::new();
    let mut i: usize = 0;
    while i < items.len()
        invariant
            i <= items@.len(),
            out@.len() == i,
            strs(out@) == items@.take(i as int).map_values(|x: &str| x@),
        decreases items@.len() - i,
    {
        let ghost before = out@;
        let item: &str = items[i];
        out.push(owned(item));
        proof {
            assert(out@ == before.push(out@[i as int]));
            assert(out@[i as int]@ == items@[i as int]@);
            assert forall|k: int| 0 <= k < i + 1 implies #[trigger] strs(out@)[k] == items@.take(
                i + 1,
            ).map_values(|x: &str| x@)[k] by {
                if k < i {
                    assert(strs(out@)[k] == strs(before)[k]);
                    assert(strs(before)[k] == items@.take(i as int).map_values(|x: &str| x@)[k]);
                }
            }
            assert(strs(out@) =~= items@.take(i + 1).map_values(|x: &str| x@));
        }
        i = i + 1;
    }
    proof {
        assert(items@.take(items@.len() as int) =~= items@);
    }
    out
}

impl Default for ScrollModeSettings {
    /// Off, 100-pixel steps, the common browsers enabled, Finder and System
    /// Settings for list navigation.
    fn default() -> (s: Self)
        ensures
            !s.enabled,
            s.scroll_step == 100,
            !s.list_navigation,
            strs(s.enabled_apps@) == seq![
                "com.apple.Safari"@,
                "com.google.Chrome"@,
                "org.mozilla.firefox"@,
                "com.brave.Browser"@,
                "company.thebrowser.Browser"@,
                "com.microsoft.edgemac"@,
            ],
            strs(s.list_navigation_apps@) == seq![
                "com.apple.finder"@,
                "com.apple.systempreferences"@,
                "com.apple.SystemPreferences"@,
            ],
            s.overlay_blocklist@.len() == 0,
    {
        let apps = [
            "com.apple.Safari",
            "com.google.Chrome",
            "org.mozilla.firefox",
            "com.brave.Browser",
            "company.thebrowser.Browser",
            "com.microsoft.edgemac",
        ];
        let list_apps = [
            "com.apple.finder",
            "com.apple.systempreferences",
            "com.apple.SystemPreferences",
        ];
        let enabled_apps = strings(apps.as_slice());
        let list_navigation_apps = strings(list_apps.as_slice());
        proof {
            assert(apps@.map_values(|x: &str| x@) =~= seq![
                "com.apple.Safari"@,
                "com.google.Chrome"@,
                "org.mozilla.firefox"@,
                "com.brave.Browser"@,
                "company.thebrowser.Browser"@,
                "com.microsoft.edgemac"@,
            ]);
            assert(list_apps@.map_values(|x: &str| x@) =~= seq![
                "com.apple.finder"@,
                "com.apple.systempreferences"@,
                "com.apple.SystemPreferences"@,
            ]);
        }
        ScrollModeSettings {
            enabled: false,
            scroll_step: 100,
            list_navigation: false,
            enabled_apps,
            list_navigation_apps,
            overlay_blocklist: Vec::new(),
        }
    }
}

/// A user-defined shell script widget.
#[derive(Debug)]
pub struct ShellWidgetConfig {
    /// Display name.
    pub name: String,
    /// Inline script, exclusive with `script_path`.
    pub script: Option<String>,
    /// Script file, exclusive with `script`.
    pub script_path: Option<String>,
    /// Polling interval in seconds.
    pub interval_secs: u64,
}

/// Polling interval of a shell widget when the settings give none.
pub fn default_shell_interval() -> (r: u64)
    ensures
        r == 10,
{
    10
}

/// Whether a shortcut fires: the feature is on, the key names match without
/// regard to ASCII case, and exactly the configured modifiers are held.
pub open spec fn shortcut_hit(
    enabled: bool,
    shortcut_key: Seq<char>,
    mods: VimKeyModifiers,
    key: Seq<char>,
    shift: bool,
    control: bool,
    option: bool,
    command: bool,
) -> bool {
    enabled && eq_ignore_ascii_case_spec(shortcut_key, key) && mods.shift == shift && mods.control
        == control && mods.option == option && mods.command == command
}

/// Whether a configured shortcut matches a key name and modifiers.
pub fn matches_shortcut(
    enabled: bool,
    shortcut_key: &str,
    shortcut_modifiers: VimKeyModifiers,
    key: &str,
    shift: bool,
    control: bool,
    option: bool,
    command: bool,
) -> (r: bool)
    ensures
        r == shortcut_hit(
            enabled,
            shortcut_key@,
            shortcut_modifiers,
            key@,
            shift,
            control,
            option,
            command,
        ),
{
    if !enabled {
        return false;
    }
    let key_matches = eq_ignore_ascii_case(shortcut_key, key);
    let mods_match = shortcut_modifiers.shift == shift && shortcut_modifiers.control == control
        && shortcut_modifiers.option == option && shortcut_modifiers.command == command;
    key_matches && mods_match
}

/// Editors that the Edit Popup can open.
#[derive(Debug, Clone, Copy, PartialEq, Eq, Structural)]
pub enum EditorType {
    Neovim,
    Vim,
    Helix,
    Custom,
}

impl Default for EditorType {
    fn default() -> (r: Self)
        ensures
            r == EditorType::Neovim,
    {
        EditorType::Neovim
    }
}

/// The editor a lowercased name selects.
pub open spec fn editor_named(lower: Seq<char>) -> EditorType {
    if lower == "neovim"@ || lower == "nvim"@ {
        EditorType::Neovim
    } else if lower == "vim"@ {
        EditorType::Vim
    } else if lower == "helix"@ || lower == "hx"@ {
        EditorType::Helix
    } else {
        EditorType::Custom
    }
}

/// The default executable of an editor; empty for a custom one.
pub open spec fn editor_executable(e: EditorType) -> Seq<char> {
    match e {
        EditorType::Neovim => "nvim"@,
        EditorType::Vim => "vim"@,
        EditorType::Helix => "hx"@,
        EditorType::Custom => ""@,
    }
}

/// An editor's default executable names that editor again: reading it back
/// with `from_string` gives the editor (an empty name gives a custom one).
pub proof fn lemma_editor_name_round_trip(e: EditorType)
    ensures
        editor_named(unicode_lower(editor_executable(e))) == e,
{
    reveal_strlit("nvim");
    reveal_strlit("vim");
    reveal_strlit("hx");
    reveal_strlit("");
    reveal_strlit("neovim");
    reveal_strlit("helix");
    let x = editor_executable(e);
    assert(all_ascii(x));
    lemma_ascii_case(x);
    assert(x.map_values(|c: char| ascii_lower(c)) =~= x);
    assert(x.len() == 0 || x.len() == 2 || x.len() == 3 || x.len() == 4);
    assert("neovim"@.len() == 6);
    assert("helix"@.len() == 5);
    if e == EditorType::Vim {
        assert(x[0] != "nvim"@[0]);
    }
    if e == EditorType::Helix {
        assert(x.len() != "vim"@.len());
    }
}

impl EditorType {
    /// The editor a name selects, ignoring case: neovim/nvim, vim,
    /// helix/hx, anything else custom.
    pub fn from_string(s: &str) -> (r: Self)
        ensures
            r == editor_named(unicode_lower(s@)),
    {
        let lower = to_lowercase(s);
        let l = lower.as_str();
        if str_eq(l, "neovim") || str_eq(l, "nvim") {
            EditorType::Neovim
        } else if str_eq(l, "vim") {
            EditorType::Vim
        } else if str_eq(l, "helix") || str_eq(l, "hx") {
            EditorType::Helix
        } else {
            EditorType::Custom
        }
    }

    /// The default executable name.
    pub fn default_executable(&self) -> (r: &'static str)
        ensures
            r@ == editor_executable(*self),
    {
        match self {
            EditorType::Neovim => "nvim",
            EditorType::Vim => "vim",
            EditorType::Helix => "hx",
            EditorType::Custom => "",
        }
    }

    /// The process name to wait for; the same as the executable name.
    pub fn process_name(&self) -> (r: &'static str)
        ensures
            r@ == editor_executable(*self),
    {
        match self {
            EditorType::Neovim => "nvim",
            EditorType::Vim => "vim",
            EditorType::Helix => "hx",
            EditorType::Custom => "",
        }
    }

    /// Arguments that put the cursor at the end of the file: `+normal G$`
    /// for Neovim and Vim, none for the others.
    pub fn cursor_end_args(&self) -> (r: Vec<&'static str>)
        ensures
            (*self is Neovim || *self is Vim) ==> r@.len() == 1 && r@[0]@ == "+normal G$"@,
            !(*self is Neovim || *self is Vim) ==> r@.len() == 0,
    {
        match self {
            EditorType::Neovim | EditorType::Vim => {
                let mut v: Vec<&'static str> = Vec::new();
                v.push("+normal G$");
                v
            },
            EditorType::Helix => Vec::new(),
            EditorType::Custom => Vec::new(),
        }
    }
}

/// What `Path::file_name` gives for a path, as text: the last component,
/// absent when there is none.
pub uninterp spec fn path_file_name(path: Seq<char>) -> Option<Seq<char>>;

/// The characters after the last `/` of a path (all of it when it has none).
pub open spec fn last_segment(path: Seq<char>) -> Seq<char>
    decreases path.len(),
{
    if path.len() == 0 {
        path
    } else if path.last() == '/' {
        Seq::empty()
    } else {
        last_segment(path.drop_last()).push(path.last())
    }
}

/// Whether a path segment is an ordinary name on every platform: not empty,
/// not `.` or `..`, and free of `\` and `:`.
pub open spec fn plain_name(name: Seq<char>) -> bool {
    &&& name.len() > 0
    &&& name != seq!['.']
    &&& name != seq!['.', '.']
    &&& !name.contains('\\')
    &&& !name.contains(':')
}

/// A path with its trailing `/` separators and trailing `.` components
/// dropped, as std's reading of path components ignores them.
pub open spec fn trim_trailing(path: Seq<char>) -> Seq<char>
    decreases path.len(),
{
    if path.len() > 0 && path.last() == '/' {
        trim_trailing(path.drop_last())
    } else if path.len() > 1 && path.last() == '.' && path[path.len() - 2] == '/' {
        trim_trailing(path.drop_last())
    } else {
        path
    }
}

/// The file name of a path by the Unix rules of `Path::file_name`: the
/// last component once trailing separators and `.` components are
/// dropped, absent when that is empty, `.` or `..`.
pub open spec fn unix_file_name(path: Seq<char>) -> Option<Seq<char>> {
    let name = last_segment(trim_trailing(path));
    if name.len() == 0 || name == seq!['.'] || name == seq!['.', '.'] {
        None
    } else {
        Some(name)
    }
}

/// Whether a path reads the same on every platform: no `\`, no `:`, and
/// no leading `//`.
pub open spec fn portable_path(path: Seq<char>) -> bool {
    &&& !path.contains('\\')
    &&& !path.contains(':')
    &&& !(path.len() >= 2 && path[0] == '/' && path[1] == '/')
}

/// Calls `Path::file_name` on the path and reads the name back as `&str`,
/// which cannot fail for a name taken from a `&str`. When the path ends in
/// an ordinary name after its last `/`, that name is the result, as std
/// documents; more generally, on a portable path the result follows the
/// Unix rules of `unix_file_name`. On other paths the result is named, not
/// spelled out.
#[verifier::external_body]
fn file_name_of(path: &str) -> (r: Option<&str>)
    ensures
        match r {
            Some(name) => path_file_name(path@) == Some(name@),
            None => path_file_name(path@) is None,
        },
        plain_name(last_segment(path@)) ==> r is Some && r->0@ == last_segment(path@),
        portable_path(path@) ==> (r is Some) == (unix_file_name(path@) is Some) && (r is Some ==> r->0@
            == unix_file_name(path@)->0),
{
    std::path::Path::new(path).file_name().and_then(|s| s.to_str())
}

/// Settings for the Edit Popup.
#[derive(Debug)]
pub struct NvimEditSettings {
    pub enabled: bool,
    /// Shortcut key name.
    pub shortcut_key: String,
    pub shortcut_modifiers: VimKeyModifiers,
    /// "alacritty", "iterm", "kitty", "wezterm", "ghostty", "default" or
    /// "custom".
    pub terminal: String,
    /// Terminal executable path; empty means auto-detect.
    pub terminal_path: String,
    pub editor: EditorType,
    /// Editor executable path; empty means the editor's default.
    pub nvim_path: String,
    /// Open below the text field instead of fullscreen.
    pub popup_mode: bool,
    /// Popup width in pixels; 0 matches the text field.
    pub popup_width: u32,
    /// Popup height in pixels.
    pub popup_height: u32,
    pub live_sync_enabled: bool,
    pub use_custom_script: bool,
    pub clipboard_mode: bool,
}

/// Whether a terminal path names the configured terminal type: its
/// lowercase holds the type's name ("terminal" for the default one); other
/// types accept any path.
pub open spec fn path_fits_terminal(terminal: Seq<char>, path: Seq<char>) -> bool {
    let lower = unicode_lower(path);
    if terminal == "alacritty"@ {
        is_infix("alacritty"@, lower)
    } else if terminal == "kitty"@ {
        is_infix("kitty"@, lower)
    } else if terminal == "wezterm"@ {
        is_infix("wezterm"@, lower)
    } else if terminal == "ghostty"@ {
        is_infix("ghostty"@, lower)
    } else if terminal == "iterm"@ {
        is_infix("iterm"@, lower)
    } else if terminal == "default"@ {
        is_infix("terminal"@, lower)
    } else {
        true
    }
}

impl Default for NvimEditSettings {
    /// On, Cmd+Shift+E, Alacritty, Neovim, popup of height 300 matching the
    /// text field's width, live sync on.
    fn default() -> (s: Self)
        ensures
            s.enabled,
            s.shortcut_key@ == "e"@,
            s.shortcut_modifiers == (VimKeyModifiers {
                shift: true,
                control: false,
                option: false,
                command: true,
            }),
            s.terminal@ == "alacritty"@,
            s.terminal_path@.len() == 0,
            s.editor == EditorType::Neovim,
            s.nvim_path@.len() == 0,
            s.popup_mode,
            s.popup_width == 0,
            s.popup_height == 300,
            s.live_sync_enabled,
            !s.use_custom_script,
            !s.clipboard_mode,
    {
        proof {
            reveal_strlit("");
        }
        NvimEditSettings {
            enabled: true,
            shortcut_key: owned("e"),
            shortcut_modifiers: VimKeyModifiers {
                shift: true,
                control: false,
                option: false,
                command: true,
            },
            terminal: owned("alacritty"),
            terminal_path: owned(""),
            editor: EditorType::Neovim,
            nvim_path: owned(""),
            popup_mode: true,
            popup_width: 0,
            popup_height: 300,
            live_sync_enabled: true,
            use_custom_script: false,
            clipboard_mode: false,
        }
    }
}

impl NvimEditSettings {
    /// The editor executable: the configured path, or the editor's default.
    pub fn editor_path(&self) -> (r: String)
        ensures
            r@ == (if self.nvim_path@.len() == 0 {
                editor_executable(self.editor)
            } else {
                self.nvim_path@
            }),
    {
        if self.nvim_path.as_str().unicode_len() == 0 {
            owned(self.editor.default_executable())
        } else {
            self.nvim_path.clone()
        }
    }

    /// The terminal to launch: the configured path when it is set and names
    /// the terminal type, otherwise the type's name for auto-detection.
    pub fn get_terminal_path(&self) -> (r: String)
        ensures
            r@ == (if self.terminal_path@.len() == 0 || !path_fits_terminal(
                self.terminal@,
                self.terminal_path@,
            ) {
                self.terminal@
            } else {
                self.terminal_path@
            }),
    {
        if self.terminal_path.as_str().unicode_len() == 0 {
            return self.terminal.clone();
        }
        if self.terminal_path_matches_type() {
            self.terminal_path.clone()
        } else {
            self.terminal.clone()
        }
    }

    fn terminal_path_matches_type(&self) -> (r: bool)
        ensures
            r == path_fits_terminal(self.terminal@, self.terminal_path@),
    {
        let path_lower = to_lowercase(self.terminal_path.as_str());
        let p = path_lower.as_str();
        let t = self.terminal.as_str();
        if str_eq(t, "alacritty") {
            contains(p, "alacritty")
        } else if str_eq(t, "kitty") {
            contains(p, "kitty")
        } else if str_eq(t, "wezterm") {
            contains(p, "wezterm")
        } else if str_eq(t, "ghostty") {
            contains(p, "ghostty")
        } else if str_eq(t, "iterm") {
            contains(p, "iterm")
        } else if str_eq(t, "default") {
            contains(p, "terminal")
        } else {
            true
        }
    }

    /// Clear a terminal path that does not name the terminal type; nothing
    /// else changes.
    pub fn sanitize(&mut self)
        ensures
            final(self).terminal_path@ == (if old(self).terminal_path@.len() != 0
                && !path_fits_terminal(old(self).terminal@, old(self).terminal_path@) {
                Seq::empty()
            } else {
                old(self).terminal_path@
            }),
            final(self).terminal == old(self).terminal,
            final(self).editor == old(self).editor,
            final(self).nvim_path == old(self).nvim_path,
            final(self).enabled == old(self).enabled,
            final(self).shortcut_key == old(self).shortcut_key,
            final(self).shortcut_modifiers == old(self).shortcut_modifiers,
            final(self).popup_mode == old(self).popup_mode,
            final(self).popup_width == old(self).popup_width,
            final(self).popup_height == old(self).popup_height,
            final(self).live_sync_enabled == old(self).live_sync_enabled,
            final(self).use_custom_script == old(self).use_custom_script,
            final(self).clipboard_mode == old(self).clipboard_mode,
    {
        if self.terminal_path.as_str().unicode_len() != 0 && !self.terminal_path_matches_type() {
            self.terminal_path = String::new();
        }
    }

    /// Editor arguments that put the cursor at the end of the file.
    pub fn editor_args(&self) -> (r: Vec<&'static str>)
        ensures
            (self.editor is Neovim || self.editor is Vim) ==> r@.len() == 1 && r@[0]@
                == "+normal G$"@,
            !(self.editor is Neovim || self.editor is Vim) ==> r@.len() == 0,
    {
        self.editor.cursor_end_args()
    }

    /// The process name to wait for: the editor's default, or the file name
    /// of the configured editor path (empty when the path has none).
    pub fn editor_process_name(&self) -> (r: &str)
        ensures
            self.nvim_path@.len() == 0 ==> r@ == editor_executable(self.editor),
            self.nvim_path@.len() != 0 ==> r@ == (match path_file_name(self.nvim_path@) {
                Some(name) => name,
                None => Seq::empty(),
            }),
            plain_name(last_segment(self.nvim_path@)) ==> r@ == last_segment(self.nvim_path@),
            self.nvim_path@.len() != 0 && portable_path(self.nvim_path@) ==> r@ == (match unix_file_name(
                self.nvim_path@,
            ) {
                Some(name) => name,
                None => Seq::empty(),
            }),
    {
        if self.nvim_path.as_str().unicode_len() == 0 {
            self.editor.process_name()
        } else {
            match file_name_of(self.nvim_path.as_str()) {
                Some(name) => name,
                None => {
                    proof {
                        reveal_strlit("");
                    }
                    ""
                },
            }
        }
    }
}

/// A terminal path must name its terminal type: for alacritty, kitty,
/// wezterm, ghostty and iterm the path, lowercased, holds the type's own
/// name, and for the default terminal it holds "terminal"; a custom
/// terminal accepts any path.
pub proof fn lemma_terminal_path_rules(path: Seq<char>)
    ensures
        path_fits_terminal("alacritty"@, path) == is_infix("alacritty"@, unicode_lower(path)),
        path_fits_terminal("kitty"@, path) == is_infix("kitty"@, unicode_lower(path)),
        path_fits_terminal("wezterm"@, path) == is_infix("wezterm"@, unicode_lower(path)),
        path_fits_terminal("ghostty"@, path) == is_infix("ghostty"@, unicode_lower(path)),
        path_fits_terminal("iterm"@, path) == is_infix("iterm"@, unicode_lower(path)),
        path_fits_terminal("default"@, path) == is_infix(seq!['t', 'e', 'r', 'm', 'i', 'n', 'a', 'l'], unicode_lower(path)),
        path_fits_terminal("custom"@, path),
{
    reveal_strlit("alacritty");
    reveal_strlit("kitty");
    reveal_strlit("wezterm");
    reveal_strlit("ghostty");
    reveal_strlit("iterm");
    reveal_strlit("default");
    reveal_strlit("terminal");
    reveal_strlit("custom");
    assert("terminal"@ =~= seq!['t', 'e', 'r', 'm', 'i', 'n', 'a', 'l']);
    assert("kitty"@[0] != "iterm"@[0]);
    assert("wezterm"@[0] != "ghostty"@[0]);
    assert("wezterm"@[0] != "default"@[0]);
    assert("ghostty"@[0] != "default"@[0]);
    assert("custom"@[0] != "iterm"@[0]);
    assert("custom"@[0] != "kitty"@[0]);
}

/// Sanitizing twice clears nothing more than sanitizing once: a path left
/// in place names its terminal type.
pub proof fn lemma_sanitize_idempotent(terminal: Seq<char>, path: Seq<char>)
    ensures
        ({
            let once = if path.len() != 0 && !path_fits_terminal(terminal, path) {
                Seq::<char>::empty()
            } else {
                path
            };
            let twice = if once.len() != 0 && !path_fits_terminal(terminal, once) {
                Seq::<char>::empty()
            } else {
                once
            };
            twice == once
        }),
{
}

} // verus!
