use ovim::config::{matches_shortcut, EditorType, ModeColors, NvimEditSettings, RgbColor, VimKeyModifiers};

#[test]
fn editor_names() {
    assert_eq!(EditorType::from_string("NVIM"), EditorType::Neovim);
    assert_eq!(EditorType::from_string("vim"), EditorType::Vim);
    assert_eq!(EditorType::from_string("hx"), EditorType::Helix);
    assert_eq!(EditorType::from_string("emacs"), EditorType::Custom);
    assert_eq!(EditorType::Helix.default_executable(), "hx");
    assert_eq!(EditorType::Custom.process_name(), "");
    assert_eq!(EditorType::Vim.cursor_end_args(), vec!["+normal G$"]);
    assert!(EditorType::Helix.cursor_end_args().is_empty());
}

#[test]
fn edit_popup_defaults() {
    let s = NvimEditSettings::default();
    assert!(s.enabled);
    assert_eq!(s.shortcut_key, "e");
    assert_eq!(s.terminal, "alacritty");
    assert_eq!(s.editor_path(), "nvim");
    assert_eq!(s.get_terminal_path(), "alacritty");
    assert_eq!(s.editor_args(), vec!["+normal G$"]);
    assert_eq!(s.editor_process_name(), "nvim");
}

#[test]
fn terminal_path_must_name_the_terminal() {
    let mut s = NvimEditSettings::default();
    s.terminal = "kitty".to_string();
    s.terminal_path = "/Applications/Kitty.app/Contents/MacOS/kitty".to_string();
    assert_eq!(s.get_terminal_path(), "/Applications/Kitty.app/Contents/MacOS/kitty");
    s.terminal_path = "/usr/local/bin/alacritty".to_string();
    assert_eq!(s.get_terminal_path(), "kitty");
    s.sanitize();
    assert_eq!(s.terminal_path, "");
    s.terminal = "custom".to_string();
    s.terminal_path = "/any/thing".to_string();
    s.sanitize();
    assert_eq!(s.terminal_path, "/any/thing");
}

#[test]
fn custom_editor_path_gives_process_name() {
    let mut s = NvimEditSettings::default();
    s.nvim_path = "/opt/homebrew/bin/nvim-nightly".to_string();
    assert_eq!(s.editor_path(), "/opt/homebrew/bin/nvim-nightly");
    assert_eq!(s.editor_process_name(), "nvim-nightly");
}

#[test]
fn shortcut_matching_ignores_key_case() {
    let m = VimKeyModifiers { shift: false, control: true, option: false, command: false };
    assert!(matches_shortcut(true, "Space", m, "space", false, true, false, false));
    assert!(!matches_shortcut(true, "Space", m, "space", true, true, false, false));
    assert!(!matches_shortcut(false, "Space", m, "space", false, true, false, false));
}

#[test]
fn default_colors() {
    let c = ModeColors::default();
    assert_eq!(c.insert, RgbColor { r: 74, g: 144, b: 217 });
    assert_eq!(c.visual, RgbColor { r: 155, g: 109, b: 215 });
}

#[test]
fn sanitizing_twice_keeps_the_first_result() {
    let mut s = NvimEditSettings::default();
    s.terminal = "wezterm".to_string();
    s.terminal_path = "/usr/bin/kitty".to_string();
    s.sanitize();
    let once = s.terminal_path.clone();
    s.sanitize();
    assert_eq!(s.terminal_path, once);
    s.terminal_path = "/Applications/WezTerm.app/wezterm".to_string();
    s.sanitize();
    s.sanitize();
    assert_eq!(s.terminal_path, "/Applications/WezTerm.app/wezterm");
}

#[test]
fn editor_default_executable_reads_back_as_the_editor() {
    for e in [EditorType::Neovim, EditorType::Vim, EditorType::Helix, EditorType::Custom] {
        assert_eq!(EditorType::from_string(e.default_executable()), e);
    }
}

#[test]
fn editor_process_name_follows_path_rules() {
    let mut s = NvimEditSettings::default();
    s.nvim_path = "/usr/local/bin/hx/".to_string();
    assert_eq!(s.editor_process_name(), "hx");
    s.nvim_path = "/usr/local/bin/vim/.".to_string();
    assert_eq!(s.editor_process_name(), "vim");
    s.nvim_path = "/usr/local/..".to_string();
    assert_eq!(s.editor_process_name(), "");
    s.nvim_path = "/".to_string();
    assert_eq!(s.editor_process_name(), "");
}
