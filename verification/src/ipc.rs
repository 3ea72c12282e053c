//! The command-line client's requests to the running app, and the app's
//! answers.
//!
//! The client turns its arguments into an `IpcCommand`; the app answers each
//! command with an `IpcResponse` and, for some, a change it must carry out
//! (switch mode, open the edit popup, start click mode). Both halves are
//! decisions on plain values; the socket, the JSON framing and the process
//! exit codes stay with the caller.

use vstd::prelude::*;

use crate::launcher::{
    after_signal, pending_of, sent_of, signal_fallthrough, signal_handled, slot_ok, LauncherCallback,
    LauncherRegistry,
};
use crate::text::{
    all_ascii, ascii_lower, decimal, digit_char, lemma_ascii_case, owned, str_eq, to_lowercase, unicode_lower,
};

verus! {

/// A request from the command-line client.
#[derive(Debug, Clone)]
pub enum IpcCommand {
    GetMode,
    SetMode(String),
    Toggle,
    Insert,
    Normal,
    Visual,
    EditPopup,
    ClickMode,
    LauncherHandled { session_id: String, editor_pid: Option<u32> },
    LauncherFallthrough { session_id: String },
}

/// The app's answer to a request.
#[derive(Debug, Clone)]
pub enum IpcResponse {
    Mode(String),
    Done,
    Error(String),
}

/// The editing modes a request can name.
#[derive(Debug, Clone, Copy, PartialEq, Eq, Structural)]
pub enum VimMode {
    Insert,
    Normal,
    Visual,
}

/// The name of a mode on the wire.
pub open spec fn mode_name(m: VimMode) -> Seq<char> {
    match m {
        VimMode::Insert => "insert"@,
        VimMode::Normal => "normal"@,
        VimMode::Visual => "visual"@,
    }
}

impl VimMode {
    /// The name of the mode: "insert", "normal" or "visual".
    pub fn as_str(&self) -> (r: &'static str)
        ensures
            r@ == mode_name(*self),
    {
        match self {
            VimMode::Insert => "insert",
            VimMode::Normal => "normal",
            VimMode::Visual => "visual",
        }
    }
}

/// The mode a (lowercased) name selects: the full name or its first letter.
pub open spec fn mode_for_name(s: Seq<char>) -> Option<VimMode> {
    if s == "insert"@ || s == "i"@ {
        Some(VimMode::Insert)
    } else if s == "normal"@ || s == "n"@ {
        Some(VimMode::Normal)
    } else if s == "visual"@ || s == "v"@ {
        Some(VimMode::Visual)
    } else {
        None
    }
}

/// The mode named by `s`, in any letter case.
pub fn parse_mode(s: &str) -> (r: Option<VimMode>)
    ensures
        r == mode_for_name(unicode_lower(s@)),
{
    let lower = to_lowercase(s);
    let l = lower.as_str();
    if str_eq(l, "insert") || str_eq(l, "i") {
        Some(VimMode::Insert)
    } else if str_eq(l, "normal") || str_eq(l, "n") {
        Some(VimMode::Normal)
    } else if str_eq(l, "visual") || str_eq(l, "v") {
        Some(VimMode::Visual)
    } else {
        None
    }
}

/// A change the app carries out after answering.
#[derive(Debug, Clone, Copy, PartialEq, Eq, Structural)]
pub enum IpcEffect {
    /// Nothing to do.
    Nothing,
    /// Switch to the given mode and announce it.
    SwitchMode(VimMode),
    /// Open the edit popup.
    OpenEditPopup,
    /// Mark click mode as activating and start it.
    StartClickMode,
}

/// What the app does with a request.
#[derive(Debug, Clone)]
pub enum IpcOutcome {
    /// Answer with the response, then carry out the effect.
    Reply(IpcResponse, IpcEffect),
    /// Toggle the mode, then answer with the name of the new mode.
    ToggleAndReport,
}

/// The view of a response: its variant, with strings as character sequences.
pub enum ResponseView {
    Mode(Seq<char>),
    Done,
    Error(Seq<char>),
}

/// The view of a response.
pub open spec fn response_view(r: IpcResponse) -> ResponseView {
    match r {
        IpcResponse::Mode(s) => ResponseView::Mode(s@),
        IpcResponse::Done => ResponseView::Done,
        IpcResponse::Error(s) => ResponseView::Error(s@),
    }
}

/// Answer to a request to set the mode by name: the mode and `Ok` for a
/// known name, else an error naming the mode as given.
pub open spec fn set_mode_answer(s: Seq<char>) -> (Option<VimMode>, ResponseView) {
    match mode_for_name(unicode_lower(s)) {
        Some(m) => (Some(m), ResponseView::Done),
        None => (None, ResponseView::Error("Unknown mode: "@ + s)),
    }
}

/// The mode a set-mode request selects, and the answer to it.
pub fn handle_set_mode(mode_str: &str) -> (r: (Option<VimMode>, IpcResponse))
    ensures
        (r.0, response_view(r.1)) == set_mode_answer(mode_str@),
{
    match parse_mode(mode_str) {
        Some(m) => (Some(m), IpcResponse::Done),
        None => {
            let mut msg = owned("Unknown mode: ");
            msg.append(mode_str);
            (None, IpcResponse::Error(msg))
        },
    }
}

/// The answer to a launcher report: `Ok` when the session was pending,
/// else an error naming the session.
pub open spec fn launcher_answer(found: bool, session_id: Seq<char>) -> ResponseView {
    if found {
        ResponseView::Done
    } else {
        ResponseView::Error("Unknown session: "@ + session_id)
    }
}

fn launcher_response(found: bool, session_id: &str) -> (r: IpcResponse)
    ensures
        response_view(r) == launcher_answer(found, session_id@),
{
    if found {
        IpcResponse::Done
    } else {
        let mut msg = owned("Unknown session: ");
        msg.append(session_id);
        IpcResponse::Error(msg)
    }
}

/// The view of an outcome.
pub enum OutcomeView {
    Reply(ResponseView, IpcEffect),
    ToggleAndReport,
}

/// The view of an outcome.
pub open spec fn outcome_view(o: IpcOutcome) -> OutcomeView {
    match o {
        IpcOutcome::Reply(r, e) => OutcomeView::Reply(response_view(r), e),
        IpcOutcome::ToggleAndReport => OutcomeView::ToggleAndReport,
    }
}

/// What the app answers to a request, given the current mode, the
/// click-mode and edit-popup settings, and, for a launcher report, whether
/// the session it names was pending.
pub open spec fn answer(
    cmd: IpcCommand,
    mode: VimMode,
    edit_popup_enabled: bool,
    click_mode_enabled: bool,
    click_mode_active: bool,
    session_pending: bool,
) -> OutcomeView {
    match cmd {
        IpcCommand::GetMode => OutcomeView::Reply(ResponseView::Mode(mode_name(mode)), IpcEffect::Nothing),
        IpcCommand::Toggle => OutcomeView::ToggleAndReport,
        IpcCommand::Insert => OutcomeView::Reply(ResponseView::Done, IpcEffect::SwitchMode(VimMode::Insert)),
        IpcCommand::Normal => OutcomeView::Reply(ResponseView::Done, IpcEffect::SwitchMode(VimMode::Normal)),
        IpcCommand::Visual => OutcomeView::Reply(ResponseView::Done, IpcEffect::SwitchMode(VimMode::Visual)),
        IpcCommand::SetMode(s) => {
            let (m, resp) = set_mode_answer(s@);
            OutcomeView::Reply(
                resp,
                match m {
                    Some(m) => IpcEffect::SwitchMode(m),
                    None => IpcEffect::Nothing,
                },
            )
        },
        IpcCommand::EditPopup => if edit_popup_enabled {
            OutcomeView::Reply(ResponseView::Done, IpcEffect::OpenEditPopup)
        } else {
            OutcomeView::Reply(ResponseView::Error("Edit Popup is disabled"@), IpcEffect::Nothing)
        },
        IpcCommand::ClickMode => if !click_mode_enabled {
            OutcomeView::Reply(ResponseView::Error("Click Mode is disabled"@), IpcEffect::Nothing)
        } else if click_mode_active {
            OutcomeView::Reply(ResponseView::Error("Click Mode is already active"@), IpcEffect::Nothing)
        } else {
            OutcomeView::Reply(ResponseView::Done, IpcEffect::StartClickMode)
        },
        IpcCommand::LauncherHandled { session_id, .. } => OutcomeView::Reply(
            launcher_answer(session_pending, session_id@),
            IpcEffect::Nothing,
        ),
        IpcCommand::LauncherFallthrough { session_id } => OutcomeView::Reply(
            launcher_answer(session_pending, session_id@),
            IpcEffect::Nothing,
        ),
    }
}

/// The wire names of the modes, and what they read back as: "insert",
/// "normal" and "visual", each selecting its own mode, in either case.
pub proof fn lemma_mode_names(m: VimMode)
    ensures
        mode_name(VimMode::Insert) == seq!['i', 'n', 's', 'e', 'r', 't'],
        mode_name(VimMode::Normal) == seq!['n', 'o', 'r', 'm', 'a', 'l'],
        mode_name(VimMode::Visual) == seq!['v', 'i', 's', 'u', 'a', 'l'],
        mode_for_name(mode_name(m)) == Some(m),
        unicode_lower(mode_name(m)) == mode_name(m),
{
    reveal_strlit("insert");
    reveal_strlit("normal");
    reveal_strlit("visual");
    reveal_strlit("i");
    reveal_strlit("n");
    reveal_strlit("v");
    let x = mode_name(m);
    assert(all_ascii(x));
    lemma_ascii_case(x);
    assert(x.map_values(|c: char| ascii_lower(c)) =~= x);
}

/// A request that names a mode switches to that mode and answers `Ok`,
/// just as a request to set the mode by that name does; and asking for the
/// mode answers the current mode's name.
pub proof fn lemma_mode_requests(
    m: VimMode,
    name: String,
    mode: VimMode,
    edit_popup_enabled: bool,
    click_mode_enabled: bool,
    click_mode_active: bool,
    session_pending: bool,
)
    requires
        name@ == mode_name(m),
    ensures
        answer(IpcCommand::SetMode(name), mode, edit_popup_enabled, click_mode_enabled, click_mode_active, session_pending)
            == OutcomeView::Reply(ResponseView::Done, IpcEffect::SwitchMode(m)),
        answer(
            match m {
                VimMode::Insert => IpcCommand::Insert,
                VimMode::Normal => IpcCommand::Normal,
                VimMode::Visual => IpcCommand::Visual,
            },
            mode,
            edit_popup_enabled,
            click_mode_enabled,
            click_mode_active,
            session_pending,
        ) == OutcomeView::Reply(ResponseView::Done, IpcEffect::SwitchMode(m)),
        answer(IpcCommand::GetMode, mode, edit_popup_enabled, click_mode_enabled, click_mode_active, session_pending)
            == OutcomeView::Reply(ResponseView::Mode(mode_name(mode)), IpcEffect::Nothing),
        answer(IpcCommand::Toggle, mode, edit_popup_enabled, click_mode_enabled, click_mode_active, session_pending)
            == OutcomeView::ToggleAndReport,
{
    lemma_mode_names(m);
}

/// The feature requests: the Edit Popup opens exactly when it is enabled,
/// and click mode starts exactly when it is enabled and not already
/// active; otherwise the answer is an error and nothing happens.
pub proof fn lemma_feature_requests(
    mode: VimMode,
    edit_popup_enabled: bool,
    click_mode_enabled: bool,
    click_mode_active: bool,
    session_pending: bool,
)
    ensures
        (answer(IpcCommand::EditPopup, mode, edit_popup_enabled, click_mode_enabled, click_mode_active, session_pending)
            == OutcomeView::Reply(ResponseView::Done, IpcEffect::OpenEditPopup)) == edit_popup_enabled,
        !edit_popup_enabled ==> answer(IpcCommand::EditPopup, mode, edit_popup_enabled, click_mode_enabled, click_mode_active, session_pending)
            matches OutcomeView::Reply(ResponseView::Error(_), IpcEffect::Nothing),
        (answer(IpcCommand::ClickMode, mode, edit_popup_enabled, click_mode_enabled, click_mode_active, session_pending)
            == OutcomeView::Reply(ResponseView::Done, IpcEffect::StartClickMode)) == (click_mode_enabled && !click_mode_active),
        !(click_mode_enabled && !click_mode_active) ==> answer(IpcCommand::ClickMode, mode, edit_popup_enabled, click_mode_enabled, click_mode_active, session_pending)
            matches OutcomeView::Reply(ResponseView::Error(_), IpcEffect::Nothing),
{
}

/// Whether a request is a launcher report.
pub open spec fn is_launcher_report(cmd: IpcCommand) -> bool {
    cmd is LauncherHandled || cmd is LauncherFallthrough
}

/// The session a launcher report names.
pub open spec fn report_session(cmd: IpcCommand) -> Seq<char> {
    match cmd {
        IpcCommand::LauncherHandled { session_id, .. } => session_id@,
        IpcCommand::LauncherFallthrough { session_id } => session_id@,
        _ => Seq::empty(),
    }
}

/// The callback a launcher report sends to its session.
pub open spec fn report_callback(cmd: IpcCommand) -> LauncherCallback {
    match cmd {
        IpcCommand::LauncherHandled { editor_pid, .. } => LauncherCallback::Handled { editor_pid },
        _ => LauncherCallback::Fallthrough,
    }
}

/// Decides what the app does with a request, as `answer` says. A launcher
/// report also sends its callback (`Handled` with the editor's process id,
/// or `Fallthrough`) to the session it names and removes it from the
/// registry; every other request leaves the registry alone.
pub fn handle_ipc_command(
    cmd: IpcCommand,
    mode: VimMode,
    edit_popup_enabled: bool,
    click_mode_enabled: bool,
    click_mode_active: bool,
    launchers: &mut Option<LauncherRegistry>,
) -> (r: IpcOutcome)
    requires
        slot_ok(*old(launchers)),
    ensures
        slot_ok(*final(launchers)),
        (*final(launchers) is Some) <==> (*old(launchers) is Some),
        outcome_view(r) == answer(
            cmd,
            mode,
            edit_popup_enabled,
            click_mode_enabled,
            click_mode_active,
            pending_of(*old(launchers)).contains(report_session(cmd)),
        ),
        is_launcher_report(cmd) ==> pending_of(*final(launchers)) == pending_of(*old(launchers)).remove(
            report_session(cmd),
        ),
        is_launcher_report(cmd) ==> sent_of(*final(launchers)) == after_signal(
            *old(launchers),
            report_session(cmd),
            report_callback(cmd),
        ),
        !is_launcher_report(cmd) ==> *final(launchers) == *old(launchers),
{
    match cmd {
        IpcCommand::GetMode => IpcOutcome::Reply(IpcResponse::Mode(owned(mode.as_str())), IpcEffect::Nothing),
        IpcCommand::Toggle => IpcOutcome::ToggleAndReport,
        IpcCommand::Insert => IpcOutcome::Reply(IpcResponse::Done, IpcEffect::SwitchMode(VimMode::Insert)),
        IpcCommand::Normal => IpcOutcome::Reply(IpcResponse::Done, IpcEffect::SwitchMode(VimMode::Normal)),
        IpcCommand::Visual => IpcOutcome::Reply(IpcResponse::Done, IpcEffect::SwitchMode(VimMode::Visual)),
        IpcCommand::SetMode(s) => {
            let (m, resp) = handle_set_mode(s.as_str());
            let effect = match m {
                Some(m) => IpcEffect::SwitchMode(m),
                None => IpcEffect::Nothing,
            };
            IpcOutcome::Reply(resp, effect)
        },
        IpcCommand::EditPopup => {
            if edit_popup_enabled {
                IpcOutcome::Reply(IpcResponse::Done, IpcEffect::OpenEditPopup)
            } else {
                IpcOutcome::Reply(IpcResponse::Error(owned("Edit Popup is disabled")), IpcEffect::Nothing)
            }
        },
        IpcCommand::ClickMode => {
            if !click_mode_enabled {
                IpcOutcome::Reply(IpcResponse::Error(owned("Click Mode is disabled")), IpcEffect::Nothing)
            } else if click_mode_active {
                IpcOutcome::Reply(
                    IpcResponse::Error(owned("Click Mode is already active")),
                    IpcEffect::Nothing,
                )
            } else {
                IpcOutcome::Reply(IpcResponse::Done, IpcEffect::StartClickMode)
            }
        },
        IpcCommand::LauncherHandled { session_id, editor_pid } => {
            let found = signal_handled(launchers, session_id.as_str(), editor_pid);
            IpcOutcome::Reply(launcher_response(found, session_id.as_str()), IpcEffect::Nothing)
        },
        IpcCommand::LauncherFallthrough { session_id } => {
            let found = signal_fallthrough(launchers, session_id.as_str());
            IpcOutcome::Reply(launcher_response(found, session_id.as_str()), IpcEffect::Nothing)
        },
    }
}

// ---------------------------------------------------------------------------
// The command-line client
// ---------------------------------------------------------------------------

/// Whether `i` is the first position of `flag` in `args`.
pub open spec fn is_first_position(args: Seq<Seq<char>>, flag: Seq<char>, i: int) -> bool {
    &&& 0 <= i < args.len()
    &&& args[i] == flag
    &&& forall|j: int| 0 <= j < i ==> args[j] != flag
}

/// The argument after the first occurrence of `flag`, if both exist.
pub open spec fn arg_value(args: Seq<Seq<char>>, flag: Seq<char>) -> Option<Seq<char>> {
    if exists|i: int| is_first_position(args, flag, i) {
        let i = choose|i: int| is_first_position(args, flag, i);
        if i + 1 < args.len() {
            Some(args[i + 1])
        } else {
            None
        }
    } else {
        None
    }
}

/// The arguments' characters.
pub open spec fn arg_views(args: Seq<String>) -> Seq<Seq<char>> {
    args.map_values(|a: String| a@)
}

proof fn lemma_first_position_unique(args: Seq<Seq<char>>, flag: Seq<char>, i: int, k: int)
    requires
        is_first_position(args, flag, i),
        is_first_position(args, flag, k),
    ensures
        i == k,
{
    if i < k {
        assert(args[i] == flag);
    } else if k < i {
        assert(args[k] == flag);
    }
}

/// The value given after `flag` on the command line, if any.
pub fn get_arg_value(args: &[String], flag: &str) -> (r: Option<String>)
    ensures
        match arg_value(arg_views(args@), flag@) {
            Some(v) => r matches Some(s) && s@ == v,
            None => r is None,
        },
{
    let ghost views = arg_views(args@);
    let n = args.len();
    let mut i: usize = 0;
    while i < n
        invariant
            n == args@.len(),
            views == arg_views(args@),
            views.len() == n,
            i <= n,
            forall|j: int| 0 <= j < i ==> views[j] != flag@,
        decreases n - i,
    {
        if str_eq(args[i].as_str(), flag) {
            proof {
                assert(is_first_position(views, flag@, i as int));
                assert forall|k: int| is_first_position(views, flag@, k) implies k == i by {
                    lemma_first_position_unique(views, flag@, i as int, k);
                }
            }
            if i + 1 < n {
                return Some(args[i + 1].clone());
            } else {
                return None;
            }
        }
        i = i + 1;
    }
    proof {
        assert forall|k: int| !is_first_position(views, flag@, k) by {
            if 0 <= k < n {
                assert(views[k] != flag@);
            }
        }
    }
    None
}

/// Whether a character is an ASCII digit.
pub open spec fn is_digit(c: char) -> bool {
    '0' <= c && c <= '9'
}

/// The value of an ASCII digit.
pub open spec fn digit_value(c: char) -> nat {
    (c as u32 - '0' as u32) as nat
}

/// The value of a string of ASCII digits, read in base ten.
pub open spec fn digits_value(s: Seq<char>) -> nat
    decreases s.len(),
{
    if s.len() == 0 {
        0
    } else {
        digits_value(s.drop_last()) * 10 + digit_value(s.last())
    }
}

/// The digits of a number's text: what follows an optional leading '+'.
pub open spec fn unsigned_body(s: Seq<char>) -> Seq<char> {
    if s.len() > 0 && s[0] == '+' {
        s.drop_first()
    } else {
        s
    }
}

/// What `str::parse::<u32>` gives: the value of an optional '+' followed by
/// one or more ASCII digits, when it fits in 32 bits.
pub open spec fn u32_from_text(s: Seq<char>) -> Option<u32> {
    let body = unsigned_body(s);
    if body.len() > 0 && (forall|i: int| 0 <= i < body.len() ==> is_digit(#[trigger] body[i]))
        && digits_value(body) <= u32::MAX {
        Some(digits_value(body) as u32)
    } else {
        None
    }
}

proof fn lemma_digits_value_grows(s: Seq<char>, k: int)
    requires
        0 <= k <= s.len(),
        forall|i: int| 0 <= i < s.len() ==> is_digit(#[trigger] s[i]),
    ensures
        digits_value(s.take(k)) <= digits_value(s),
    decreases s.len() - k,
{
    if k < s.len() {
        lemma_digits_value_grows(s, k + 1);
        assert(s.take(k + 1).drop_last() =~= s.take(k));
    } else {
        assert(s.take(k) =~= s);
    }
}

proof fn lemma_decimal_digits(n: nat)
    ensures
        decimal(n).len() > 0,
        forall|i: int| 0 <= i < decimal(n).len() ==> is_digit(#[trigger] decimal(n)[i]),
        digits_value(decimal(n)) == n,
    decreases n,
{
    let d = digit_char(n % 10);
    assert(digit_value(digit_char(n % 10)) == n % 10);
    if n < 10 {
        assert(decimal(n) == seq![digit_char(n)]);
        assert(decimal(n).drop_last() =~= Seq::<char>::empty());
        assert(digits_value(decimal(n)) == digits_value(Seq::<char>::empty()) * 10 + digit_value(d));
    } else {
        lemma_decimal_digits(n / 10);
        let s = decimal(n / 10);
        assert(decimal(n) == s.push(d));
        assert(s.push(d).drop_last() =~= s);
        assert(digits_value(s.push(d)) == digits_value(s) * 10 + digit_value(d));
        assert(n == (n / 10) * 10 + n % 10);
        assert forall|i: int| 0 <= i < decimal(n).len() implies is_digit(#[trigger] decimal(n)[i]) by {
            if i < s.len() {
                assert(decimal(n)[i] == s[i]);
            }
        }
    }
}

/// A number written in decimal reads back as itself: the text that
/// `usize_to_decimal` writes for any value below 2^32 parses to that value.
pub proof fn lemma_parse_decimal_round_trip(n: nat)
    requires
        n <= u32::MAX,
    ensures
        u32_from_text(decimal(n)) == Some(n as u32),
{
    lemma_decimal_digits(n);
    assert(is_digit(decimal(n)[0]));
    assert(unsigned_body(decimal(n)) == decimal(n));
}

/// Parses a process id as `str::parse::<u32>` does.
pub fn parse_u32(s: &str) -> (r: Option<u32>)
    ensures
        r == u32_from_text(s@),
{
    let n = s.unicode_len();
    let mut start: usize = 0;
    if n > 0 && s.get_char(0) == '+' {
        start = 1;
    }
    let ghost body = unsigned_body(s@);
    proof {
        assert(body =~= s@.skip(start as int));
    }
    if start == n {
        return None;
    }
    let mut acc: u64 = 0;
    let mut i: usize = start;
    while i < n
        invariant
            n == s@.len(),
            start <= i <= n,
            start < n,
            body == s@.skip(start as int),
            body == unsigned_body(s@),
            acc <= u32::MAX,
            acc == digits_value(body.take(i - start)),
            forall|j: int| 0 <= j < i - start ==> is_digit(#[trigger] body[j]),
        decreases n - i,
    {
        let c = s.get_char(i);
        assert(c == body[i - start]);
        if !('0' <= c && c <= '9') {
            proof {
                assert(!is_digit(body[i - start]));
            }
            return None;
        }
        let d: u64 = (c as u32 - '0' as u32) as u64;
        proof {
            assert(body.take(i - start + 1).drop_last() =~= body.take(i - start));
            assert(body.take(i - start + 1).last() == c);
        }
        let next: u64 = acc * 10 + d;
        proof {
            assert(d == digit_value(c));
            assert(next == digits_value(body.take(i - start + 1)));
        }
        if next > 0xFFFF_FFFF {
            proof {
                if forall|j: int| 0 <= j < body.len() ==> is_digit(#[trigger] body[j]) {
                    lemma_digits_value_grows(body, i - start + 1);
                }
            }
            return None;
        }
        acc = next;
        i = i + 1;
    }
    proof {
        assert(body.take(n - start) =~= body);
    }
    Some(acc as u32)
}

/// What the client does with its arguments (the program's name first).
#[derive(Debug, Clone)]
pub enum CliAction {
    /// Send the request to the app.
    Send(IpcCommand),
    /// Print usage and exit successfully.
    Help,
    /// No command was given: print usage and fail.
    MissingCommand,
    /// `set` without a mode: fail.
    MissingMode,
    /// A launcher report without `--session`: fail, naming the command.
    MissingSession(String),
    /// Not a known command: fail, naming it.
    UnknownCommand(String),
}

/// The view of a client action.
pub enum CliView {
    GetMode,
    SetMode(Seq<char>),
    Toggle,
    Insert,
    Normal,
    Visual,
    LauncherHandled(Seq<char>, Option<u32>),
    LauncherFallthrough(Seq<char>),
    Help,
    MissingCommand,
    MissingMode,
    MissingSession(Seq<char>),
    UnknownCommand(Seq<char>),
    Other,
}

/// The view of a client action.
pub open spec fn cli_view(a: CliAction) -> CliView {
    match a {
        CliAction::Send(IpcCommand::GetMode) => CliView::GetMode,
        CliAction::Send(IpcCommand::SetMode(s)) => CliView::SetMode(s@),
        CliAction::Send(IpcCommand::Toggle) => CliView::Toggle,
        CliAction::Send(IpcCommand::Insert) => CliView::Insert,
        CliAction::Send(IpcCommand::Normal) => CliView::Normal,
        CliAction::Send(IpcCommand::Visual) => CliView::Visual,
        CliAction::Send(IpcCommand::LauncherHandled { session_id, editor_pid }) =>
            CliView::LauncherHandled(session_id@, editor_pid),
        CliAction::Send(IpcCommand::LauncherFallthrough { session_id }) =>
            CliView::LauncherFallthrough(session_id@),
        CliAction::Send(_) => CliView::Other,
        CliAction::Help => CliView::Help,
        CliAction::MissingCommand => CliView::MissingCommand,
        CliAction::MissingMode => CliView::MissingMode,
        CliAction::MissingSession(c) => CliView::MissingSession(c@),
        CliAction::UnknownCommand(c) => CliView::UnknownCommand(c@),
    }
}

/// The client's reading of its arguments.
pub open spec fn cli_plan(args: Seq<Seq<char>>) -> CliView {
    if args.len() < 2 {
        CliView::MissingCommand
    } else {
        let c = args[1];
        if c == "mode"@ || c == "get"@ || c == "status"@ {
            CliView::GetMode
        } else if c == "toggle"@ || c == "t"@ {
            CliView::Toggle
        } else if c == "insert"@ || c == "i"@ {
            CliView::Insert
        } else if c == "normal"@ || c == "n"@ {
            CliView::Normal
        } else if c == "visual"@ || c == "v"@ {
            CliView::Visual
        } else if c == "set"@ {
            if args.len() < 3 {
                CliView::MissingMode
            } else {
                CliView::SetMode(args[2])
            }
        } else if c == "launcher-handled"@ {
            match arg_value(args, "--session"@) {
                Some(id) => CliView::LauncherHandled(
                    id,
                    match arg_value(args, "--pid"@) {
                        Some(p) => u32_from_text(p),
                        None => None,
                    },
                ),
                None => CliView::MissingSession(c),
            }
        } else if c == "launcher-fallthrough"@ {
            match arg_value(args, "--session"@) {
                Some(id) => CliView::LauncherFallthrough(id),
                None => CliView::MissingSession(c),
            }
        } else if c == "help"@ || c == "-h"@ || c == "--help"@ {
            CliView::Help
        } else {
            CliView::UnknownCommand(c)
        }
    }
}

/// Every command the client's usage lists is understood, whatever the
/// program's name and whatever follows the command: mode, get and status
/// ask for the mode; toggle or t toggles; insert/i, normal/n and visual/v
/// switch to the mode they name, exactly the names `mode_for_name` reads;
/// set takes the mode from the next argument; help, -h and --help print
/// the usage. A command reported unknown is none of these.
pub proof fn lemma_cli_commands(args: Seq<Seq<char>>)
    requires
        args.len() >= 2,
    ensures
        args[1] == seq!['m', 'o', 'd', 'e'] || args[1] == seq!['g', 'e', 't'] || args[1] == seq![
            's',
            't',
            'a',
            't',
            'u',
            's',
        ] ==> cli_plan(args) == CliView::GetMode,
        args[1] == seq!['t', 'o', 'g', 'g', 'l', 'e'] || args[1] == seq!['t'] ==> cli_plan(args)
            == CliView::Toggle,
        mode_for_name(args[1]) == Some(VimMode::Insert) ==> cli_plan(args) == CliView::Insert,
        mode_for_name(args[1]) == Some(VimMode::Normal) ==> cli_plan(args) == CliView::Normal,
        mode_for_name(args[1]) == Some(VimMode::Visual) ==> cli_plan(args) == CliView::Visual,
        args[1] == seq!['i', 'n', 's', 'e', 'r', 't'] || args[1] == seq!['i'] ==> cli_plan(args) == CliView::Insert,
        args[1] == seq!['n', 'o', 'r', 'm', 'a', 'l'] || args[1] == seq!['n'] ==> cli_plan(args) == CliView::Normal,
        args[1] == seq!['v', 'i', 's', 'u', 'a', 'l'] || args[1] == seq!['v'] ==> cli_plan(args) == CliView::Visual,
        args[1] == seq!['s', 'e', 't'] ==> cli_plan(args) == (if args.len() >= 3 {
            CliView::SetMode(args[2])
        } else {
            CliView::MissingMode
        }),
        args[1] == seq!['h', 'e', 'l', 'p'] || args[1] == seq!['-', 'h'] || args[1] == seq![
            '-',
            '-',
            'h',
            'e',
            'l',
            'p',
        ] ==> cli_plan(args) == CliView::Help,
        cli_plan(args) matches CliView::UnknownCommand(c) ==> c == args[1] && mode_for_name(c) is None && c
            != seq!['t', 'o', 'g', 'g', 'l', 'e'] && c != seq!['t'] && c != seq!['m', 'o', 'd', 'e'] && c != seq![
            'g',
            'e',
            't',
        ] && c != seq!['s', 't', 'a', 't', 'u', 's'] && c != seq!['s', 'e', 't'] && c != seq!['h', 'e', 'l', 'p'],
{
    reveal_strlit("mode");
    reveal_strlit("get");
    reveal_strlit("status");
    reveal_strlit("toggle");
    reveal_strlit("t");
    reveal_strlit("insert");
    reveal_strlit("i");
    reveal_strlit("normal");
    reveal_strlit("n");
    reveal_strlit("visual");
    reveal_strlit("v");
    reveal_strlit("set");
    reveal_strlit("launcher-handled");
    reveal_strlit("launcher-fallthrough");
    reveal_strlit("help");
    reveal_strlit("-h");
    reveal_strlit("--help");
    let c = args[1];
    assert(seq!['m', 'o', 'd', 'e'] =~= "mode"@);
    assert(seq!['g', 'e', 't'] =~= "get"@);
    assert(seq!['s', 't', 'a', 't', 'u', 's'] =~= "status"@);
    assert(seq!['t', 'o', 'g', 'g', 'l', 'e'] =~= "toggle"@);
    assert(seq!['t'] =~= "t"@);
    assert(seq!['i', 'n', 's', 'e', 'r', 't'] =~= "insert"@);
    assert(seq!['i'] =~= "i"@);
    assert(seq!['n', 'o', 'r', 'm', 'a', 'l'] =~= "normal"@);
    assert(seq!['n'] =~= "n"@);
    assert(seq!['v', 'i', 's', 'u', 'a', 'l'] =~= "visual"@);
    assert(seq!['v'] =~= "v"@);
    assert(seq!['s', 'e', 't'] =~= "set"@);
    assert(seq!['h', 'e', 'l', 'p'] =~= "help"@);
    assert(seq!['-', 'h'] =~= "-h"@);
    assert(seq!['-', '-', 'h', 'e', 'l', 'p'] =~= "--help"@);
    if c.len() == 1 && (c[0] == 'i' || c[0] == 'n' || c[0] == 'v') {
        assert(c[0] != "t"@[0]);
        if c[0] == 'n' || c[0] == 'v' {
            assert(c[0] != "i"@[0]);
        }
        if c[0] == 'v' {
            assert(c[0] != "n"@[0]);
        }
    }
    if c.len() == 6 && (c[0] == 'i' || c[0] == 'n' || c[0] == 'v') {
        assert(c[0] != "status"@[0]);
        assert(c[0] != "toggle"@[0]);
        if c[0] == 'n' || c[0] == 'v' {
            assert(c[0] != "insert"@[0]);
        }
        if c[0] == 'v' {
            assert(c[0] != "normal"@[0]);
        }
    }
}

/// Reads the client's arguments: a command name and its operands.
pub fn parse_cli_args(args: &[String]) -> (r: CliAction)
    ensures
        cli_view(r) == cli_plan(arg_views(args@)),
{
    let ghost views = arg_views(args@);
    if args.len() < 2 {
        return CliAction::MissingCommand;
    }
    let c: &str = args[1].as_str();
    assert(views[1] == c@);
    if str_eq(c, "mode") || str_eq(c, "get") || str_eq(c, "status") {
        CliAction::Send(IpcCommand::GetMode)
    } else if str_eq(c, "toggle") || str_eq(c, "t") {
        CliAction::Send(IpcCommand::Toggle)
    } else if str_eq(c, "insert") || str_eq(c, "i") {
        CliAction::Send(IpcCommand::Insert)
    } else if str_eq(c, "normal") || str_eq(c, "n") {
        CliAction::Send(IpcCommand::Normal)
    } else if str_eq(c, "visual") || str_eq(c, "v") {
        CliAction::Send(IpcCommand::Visual)
    } else if str_eq(c, "set") {
        if args.len() < 3 {
            CliAction::MissingMode
        } else {
            assert(views[2] == args@[2]@);
            CliAction::Send(IpcCommand::SetMode(args[2].clone()))
        }
    } else if str_eq(c, "launcher-handled") {
        match get_arg_value(args, "--session") {
            Some(session_id) => {
                let editor_pid = match get_arg_value(args, "--pid") {
                    Some(p) => parse_u32(p.as_str()),
                    None => None,
                };
                CliAction::Send(IpcCommand::LauncherHandled { session_id, editor_pid })
            },
            None => CliAction::MissingSession(owned(c)),
        }
    } else if str_eq(c, "launcher-fallthrough") {
        match get_arg_value(args, "--session") {
            Some(session_id) => CliAction::Send(IpcCommand::LauncherFallthrough { session_id }),
            None => CliAction::MissingSession(owned(c)),
        }
    } else if str_eq(c, "help") || str_eq(c, "-h") || str_eq(c, "--help") {
        CliAction::Help
    } else {
        CliAction::UnknownCommand(owned(c))
    }
}

} // verus!
