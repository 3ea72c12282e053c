# ovim

Modal (Vim-style) keyboard control for macOS: a mode indicator, keyboard-driven
clicking on hint labels, Vimium-style scrolling, list navigation, and an Edit
Popup that opens the focused text in a terminal editor.

The decision logic is a library verified with Verus (`src/`). `app/` holds the
ordinary Rust around it that exists here: the command-line client, the IPC
server, the settings file, the accessibility walk and element queries, and the
permission checks. The event-tap runner, which would feed tap events to
`capture.rs` and post the key plans of `inject.rs`, and the desktop shell's
setup are not part of this crate.

## Layout

- `src/keycode.rs`: virtual key codes, their names, modifier flags, key events.
- `src/inject.rs`: the key and scroll events each editing or navigation command sends.
- `src/dispatch.rs`: who handles a key event, in order, and the key handler that runs the
  Escape double-tap and click mode before routing the rest; double-tap bindings.
- `src/capture.rs`: the event tap's callbacks and per-event verdict.
- `src/double_tap.rs`: double-tap detection on modifiers and Escape.
- `src/hints.rs`, `src/click_mode.rs`: hint labels, hint matching, the click-mode state machine.
- `src/element_query.rs`, `src/ax.rs`, `src/browser.rs`: finding clickable elements
  (cache, traversal rules, browser scripts and their output).
- `src/list_mode.rs`, `src/scroll_mode.rs`: list navigation and scroll-mode routing.
- `src/config.rs`, `src/indicator.rs`: settings types, their repairs and defaults.
- `src/ipc.rs`, `src/launcher.rs`: the command-line client's requests, their answers,
  and pending launcher-script sessions.
- `src/commands.rs`: key recording, permission checks, terminal and editor validation.
- `src/text.rs`: string helpers shared by the above.

Public proof functions (`lemma_*`) state the properties the library keeps across
calls, such as the double-tap timing rules, the idempotence of the settings
repairs, and that a launcher session is signalled at most once.

`app/main.rs` is the `ovim` command-line client; the other files under `app/` are
the I/O halves the desktop application uses (IPC server, settings file,
accessibility walk, element queries, permissions).
