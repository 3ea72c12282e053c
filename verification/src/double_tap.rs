//! Double-tap detection for modifier keys and Escape.
//!
//! A tap is a press followed by a release within the hold limit; two taps
//! whose release and next press are within the interval limit make a
//! double-tap. Timing comes from the monotonic clock: the functions that
//! read it state what holds whatever it reads, and `press_at` and
//! `release_at` state the outcome for each elapsed time.

use vstd::prelude::*;

use std::time::{Duration, Instant};

verus! {

/// The monotonic clock's instant type, carried through opaquely.
#[verifier::external_type_specification]
#[verifier::external_body]
pub struct ExInstant(Instant);

/// Calls `Instant::now`; nothing is claimed of the instant it returns.
#[verifier::external_body]
pub(crate) fn instant_now() -> Instant {
    Instant::now()
}

/// Calls `Instant::duration_since`; nothing is claimed of the duration.
#[verifier::external_body]
pub(crate) fn duration_since(later: &Instant, earlier: &Instant) -> Duration {
    later.duration_since(*earlier)
}

/// Calls `Duration::as_nanos`; nothing is claimed of the count.
#[verifier::external_body]
pub(crate) fn duration_as_nanos(d: &Duration) -> u128 {
    d.as_nanos()
}

/// Longest gap, in nanoseconds, between a tap's release and the next press
/// for the two taps to count as a double-tap (300 ms).
pub const MAX_INTERVAL_NANOS: u128 = 300_000_000;

/// Longest hold, in nanoseconds, for a press and release to count as a tap
/// (200 ms).
pub const MAX_HOLD_NANOS: u128 = 200_000_000;

/// Which key a double-tap was detected on.
#[derive(Debug, Clone, Copy, PartialEq, Eq, Structural)]
pub enum DoubleTapKey {
    Command,
    Option,
    Control,
    Shift,
    Escape,
}

/// Tap detection state for one key.
pub struct DoubleTapTracker {
    last_press_time: Option<Instant>,
    last_release_time: Option<Instant>,
    is_pressed: bool,
    tap_count: u8,
}

/// The observable state of a tracker.
pub struct TapView {
    /// Taps completed towards a double-tap.
    pub tap_count: nat,
    /// Whether the key is currently down.
    pub pressed: bool,
    /// Whether a press time is recorded.
    pub has_press: bool,
    /// Whether a tap's release time is recorded.
    pub has_release: bool,
}

/// The state after a reset: no taps, nothing recorded, key up.
pub open spec fn cleared() -> TapView {
    TapView { tap_count: 0, pressed: false, has_press: false, has_release: false }
}

/// The state after a press, given the time since the recorded release.
pub open spec fn after_press(v: TapView, since_release_nanos: u128) -> TapView {
    TapView {
        tap_count: if v.has_release && since_release_nanos > MAX_INTERVAL_NANOS {
            0
        } else {
            v.tap_count
        },
        pressed: true,
        has_press: true,
        has_release: v.has_release,
    }
}

/// The state after a release, given the time since the recorded press, and
/// whether the release completed a double-tap.
pub open spec fn after_release(v: TapView, held_nanos: u128) -> (TapView, bool) {
    if !v.has_press {
        (TapView { pressed: false, ..v }, false)
    } else if held_nanos > MAX_HOLD_NANOS {
        (cleared(), false)
    } else if v.tap_count + 1 >= 2 {
        (cleared(), true)
    } else {
        (TapView { tap_count: v.tap_count + 1, pressed: false, has_press: true, has_release: true }, false)
    }
}

/// Two taps in a row on a cleared tracker, each held no longer than the hold
/// limit and with the second press no later than the interval limit after
/// the first release, make a double-tap on the second release and leave the
/// tracker cleared; the first release alone never does.
pub proof fn lemma_two_quick_taps(h1: u128, gap: u128, h2: u128)
    requires
        h1 <= MAX_HOLD_NANOS,
        gap <= MAX_INTERVAL_NANOS,
        h2 <= MAX_HOLD_NANOS,
    ensures
        ({
            let (v1, first) = after_release(after_press(cleared(), 0), h1);
            let (v2, second) = after_release(after_press(v1, gap), h2);
            !first && second && v2 == cleared()
        }),
{
}

/// A release after a hold longer than the limit never completes a
/// double-tap, and clears the tracker when a press was recorded.
pub proof fn lemma_long_hold_resets(v: TapView, held: u128)
    requires
        held > MAX_HOLD_NANOS,
    ensures
        !after_release(v, held).1,
        v.has_press ==> after_release(v, held).0 == cleared(),
{
}

/// A press more than the interval limit after a recorded release drops the
/// pending tap, so the next release cannot complete a double-tap.
pub proof fn lemma_late_press_drops_tap(v: TapView, gap: u128, held: u128)
    requires
        v.has_release,
        gap > MAX_INTERVAL_NANOS,
    ensures
        after_press(v, gap).tap_count == 0,
        !after_release(after_press(v, gap), held).1,
{
}

/// The limits are 200 ms of hold and 300 ms between taps, both inclusive:
/// from a cleared tracker, two taps each held 200 ms with 300 ms between
/// them make a double-tap, while one nanosecond more of hold, or of gap,
/// does not.
pub proof fn lemma_timing_limits()
    ensures
        after_release(after_press(after_release(after_press(cleared(), 0), 200_000_000).0, 300_000_000), 200_000_000).1,
        !after_release(after_press(after_release(after_press(cleared(), 0), 200_000_000).0, 300_000_000), 200_000_001).1,
        !after_release(after_press(after_release(after_press(cleared(), 0), 200_000_000).0, 300_000_001), 200_000_000).1,
        !after_release(after_press(after_release(after_press(cleared(), 0), 200_000_001).0, 300_000_000), 200_000_000).1,
{
}

impl DoubleTapTracker {
    /// The observable state.
    pub closed spec fn view(&self) -> TapView {
        TapView {
            tap_count: self.tap_count as nat,
            pressed: self.is_pressed,
            has_press: self.last_press_time is Some,
            has_release: self.last_release_time is Some,
        }
    }

    /// The instant of the recorded press, which the next release measures
    /// its hold from.
    pub closed spec fn press_time(&self) -> Option<Instant> {
        self.last_press_time
    }

    /// The instant of the recorded release, which the next press measures
    /// its gap from.
    pub closed spec fn release_time(&self) -> Option<Instant> {
        self.last_release_time
    }

    /// At most one tap is ever pending between calls.
    pub open spec fn wf(&self) -> bool {
        self.view().tap_count <= 1
    }

    /// A tracker with no taps and nothing recorded.
    pub fn new() -> (r: Self)
        ensures
            r.view() == cleared(),
            r.press_time() is None,
            r.release_time() is None,
    {
        DoubleTapTracker {
            last_press_time: None,
            last_release_time: None,
            is_pressed: false,
            tap_count: 0,
        }
    }

    /// The key went down at `now`; `since_release_nanos` is the time since
    /// the recorded release, if there is one. A pending tap is dropped when
    /// that time exceeds the interval limit. Always returns `true`.
    pub fn press_at(&mut self, now: Instant, since_release_nanos: u128) -> (r: bool)
        requires
            old(self).wf(),
        ensures
            r,
            final(self).wf(),
            final(self).view() == after_press(old(self).view(), since_release_nanos),
            final(self).press_time() == Some(now),
            final(self).release_time() == old(self).release_time(),
    {
        if self.last_release_time.is_some() && since_release_nanos > MAX_INTERVAL_NANOS {
            self.tap_count = 0;
        }
        self.last_press_time = Some(now);
        self.is_pressed = true;
        true
    }

    /// The key went down now. Always returns `true`; a pending tap survives
    /// unless the clock says the interval limit has passed since it.
    pub fn on_press(&mut self) -> (r: bool)
        requires
            old(self).wf(),
        ensures
            r,
            final(self).wf(),
            final(self).view().pressed,
            final(self).view().has_press,
            final(self).view().has_release == old(self).view().has_release,
            final(self).view().tap_count == 0 || final(self).view().tap_count == old(self).view().tap_count,
            exists|since: u128| final(self).view() == after_press(old(self).view(), since),
            final(self).press_time() is Some,
            final(self).release_time() == old(self).release_time(),
    {
        let now = instant_now();
        let since: u128 = match &self.last_release_time {
            Some(release) => duration_as_nanos(&duration_since(&now, release)),
            None => 0,
        };
        let r = self.press_at(now, since);
        proof {
            assert(self.view() == after_press(old(self).view(), since));
        }
        r
    }

    /// The key went up at `now`; `held_nanos` is the time since the recorded
    /// press. A short hold completes a tap, and a second tap is a
    /// double-tap (`true`, and the tracker resets); a long hold resets.
    pub fn release_at(&mut self, now: Instant, held_nanos: u128) -> (r: bool)
        requires
            old(self).wf(),
        ensures
            final(self).wf(),
            (final(self).view(), r) == after_release(old(self).view(), held_nanos),
            old(self).press_time() is None ==> final(self).press_time() is None && final(self).release_time()
                == old(self).release_time(),
            old(self).press_time() is Some && held_nanos <= MAX_HOLD_NANOS && !r ==> final(self).release_time()
                == Some(now) && final(self).press_time() == old(self).press_time(),
            old(self).press_time() is Some && (held_nanos > MAX_HOLD_NANOS || r) ==> final(self).press_time() is None
                && final(self).release_time() is None,
    {
        if self.last_press_time.is_some() {
            if held_nanos <= MAX_HOLD_NANOS {
                self.tap_count = self.tap_count + 1;
                self.last_release_time = Some(now);
                if self.tap_count >= 2 {
                    self.reset();
                    return true;
                }
            } else {
                self.reset();
            }
        }
        self.is_pressed = false;
        false
    }

    /// The key went up now. A detected double-tap needs a recorded press and
    /// one pending tap, and leaves the tracker reset.
    pub fn on_release(&mut self) -> (r: bool)
        requires
            old(self).wf(),
        ensures
            final(self).wf(),
            !final(self).view().pressed,
            r ==> old(self).view().has_press && old(self).view().tap_count == 1 && final(self).view() == cleared(),
            !old(self).view().has_press ==> !r && final(self).view() == (TapView {
                pressed: false,
                ..old(self).view()
            }),
            exists|held: u128| (final(self).view(), r) == after_release(old(self).view(), held),
            old(self).press_time() is None ==> final(self).release_time() == old(self).release_time(),
            final(self).press_time() == old(self).press_time() || final(self).press_time() is None,
            final(self).release_time() is Some ==> final(self).press_time() == old(self).press_time(),
    {
        let now = instant_now();
        let held: u128 = match &self.last_press_time {
            Some(press) => duration_as_nanos(&duration_since(&now, press)),
            None => 0,
        };
        let r = self.release_at(now, held);
        proof {
            assert((self.view(), r) == after_release(old(self).view(), held));
        }
        r
    }

    /// Forget all taps and recorded times.
    pub fn reset(&mut self)
        ensures
            final(self).view() == cleared(),
            final(self).press_time() is None,
            final(self).release_time() is None,
    {
        self.tap_count = 0;
        self.last_press_time = None;
        self.last_release_time = None;
        self.is_pressed = false;
    }
}

impl Default for DoubleTapTracker {
    fn default() -> (r: Self)
        ensures
            r.view() == cleared(),
    {
        Self::new()
    }
}

/// Whether more than one of the four modifiers is held.
pub open spec fn several_held(command: bool, option: bool, control: bool, shift: bool) -> bool {
    (if command { 1int } else { 0int }) + (if option { 1int } else { 0int }) + (if control {
        1int
    } else {
        0int
    }) + (if shift { 1int } else { 0int }) > 1
}

/// The observable state of all five trackers.
pub struct TrackersView {
    pub command: TapView,
    pub option: TapView,
    pub control: TapView,
    pub shift: TapView,
    pub escape: TapView,
}

/// The tracker for a key within the five.
pub open spec fn tracker_of(v: TrackersView, k: DoubleTapKey) -> TapView {
    match k {
        DoubleTapKey::Command => v.command,
        DoubleTapKey::Option => v.option,
        DoubleTapKey::Control => v.control,
        DoubleTapKey::Shift => v.shift,
        DoubleTapKey::Escape => v.escape,
    }
}

/// One key's part of a modifier change, from trackers `a` to `b`, its flag
/// going from `was_down` to `down`. A key whose flag did not change leaves everything as it was and detects
/// nothing. A key that went down starts a tap on its tracker (after some
/// time since its last release) and clears the other trackers. A key that
/// went up finishes a tap on its tracker (after some hold time), which may
/// complete a double-tap, and leaves the other trackers alone.
#[verifier::opaque]
pub open spec fn key_step(
    a: TrackersView,
    b: TrackersView,
    key: DoubleTapKey,
    was_down: bool,
    down: bool,
    detected: bool,
) -> bool {
    if was_down == down {
        b == a && !detected
    } else if down {
        &&& !detected
        &&& exists|since: u128| tracker_of(b, key) == after_press(tracker_of(a, key), since)
        &&& forall|k: DoubleTapKey| k != key ==> #[trigger] tracker_of(b, k) == cleared()
    } else {
        &&& exists|held: u128| (tracker_of(b, key), detected) == after_release(tracker_of(a, key), held)
        &&& forall|k: DoubleTapKey| k != key ==> #[trigger] tracker_of(b, k) == tracker_of(a, k)
    }
}

/// The double-tap a modifier change reports: the last of Command, Option,
/// Control and Shift, in that order, whose release completed one.
pub open spec fn last_detected(d_command: bool, d_option: bool, d_control: bool, d_shift: bool) -> Option<
    DoubleTapKey,
> {
    if d_shift {
        Some(DoubleTapKey::Shift)
    } else if d_control {
        Some(DoubleTapKey::Control)
    } else if d_option {
        Some(DoubleTapKey::Option)
    } else if d_command {
        Some(DoubleTapKey::Command)
    } else {
        None
    }
}

/// After a reset, a single tap (one press then one release of the same
/// key, whatever the timing) never reports a double-tap.
pub proof fn lemma_single_tap_after_reset(since: u128, held: u128)
    ensures
        !after_release(after_press(cleared(), since), held).1,
{
}

/// Double-tap detection for the four modifiers and Escape.
pub struct DoubleTapManager {
    pub command_tracker: DoubleTapTracker,
    pub option_tracker: DoubleTapTracker,
    pub control_tracker: DoubleTapTracker,
    pub shift_tracker: DoubleTapTracker,
    pub escape_tracker: DoubleTapTracker,
    prev_command: bool,
    prev_option: bool,
    prev_control: bool,
    prev_shift: bool,
}

impl DoubleTapManager {
    /// The modifier state last reported, as (command, option, control, shift).
    pub closed spec fn prev_flags(&self) -> (bool, bool, bool, bool) {
        (self.prev_command, self.prev_option, self.prev_control, self.prev_shift)
    }

    /// Every tracker holds at most one pending tap.
    pub closed spec fn wf(&self) -> bool {
        &&& self.command_tracker.wf()
        &&& self.option_tracker.wf()
        &&& self.control_tracker.wf()
        &&& self.shift_tracker.wf()
        &&& self.escape_tracker.wf()
    }

    /// The observable state of all five trackers.
    pub closed spec fn trackers(&self) -> TrackersView {
        TrackersView {
            command: self.command_tracker.view(),
            option: self.option_tracker.view(),
            control: self.control_tracker.view(),
            shift: self.shift_tracker.view(),
            escape: self.escape_tracker.view(),
        }
    }

    /// The observable state of the tracker for a key.
    pub open spec fn tracker(&self, k: DoubleTapKey) -> TapView {
        tracker_of(self.trackers(), k)
    }

    /// All trackers cleared, no modifier held.
    pub fn new() -> (r: Self)
        ensures
            r.wf(),
            r.prev_flags() == (false, false, false, false),
            forall|k: DoubleTapKey| #[trigger] r.tracker(k) == cleared(),
    {
        DoubleTapManager {
            command_tracker: DoubleTapTracker::new(),
            option_tracker: DoubleTapTracker::new(),
            control_tracker: DoubleTapTracker::new(),
            shift_tracker: DoubleTapTracker::new(),
            escape_tracker: DoubleTapTracker::new(),
            prev_command: false,
            prev_option: false,
            prev_control: false,
            prev_shift: false,
        }
    }

    /// Reset every tracker but the one for `except`.
    fn reset_other_trackers(&mut self, except: DoubleTapKey)
        requires
            old(self).wf(),
        ensures
            final(self).wf(),
            final(self).prev_flags() == old(self).prev_flags(),
            final(self).tracker(except) == old(self).tracker(except),
            forall|k: DoubleTapKey| k != except ==> #[trigger] final(self).tracker(k) == cleared(),
    {
        if except != DoubleTapKey::Command {
            self.command_tracker.reset();
        }
        if except != DoubleTapKey::Option {
            self.option_tracker.reset();
        }
        if except != DoubleTapKey::Control {
            self.control_tracker.reset();
        }
        if except != DoubleTapKey::Shift {
            self.shift_tracker.reset();
        }
        if except != DoubleTapKey::Escape {
            self.escape_tracker.reset();
        }
    }

    /// One key went down (`down`) or up: down resets the other trackers and
    /// starts a tap on this key; up finishes the tap and reports a
    /// double-tap.
    fn key_transition(&mut self, key: DoubleTapKey, down: bool) -> (detected: bool)
        requires
            old(self).wf(),
        ensures
            final(self).wf(),
            final(self).prev_flags() == old(self).prev_flags(),
            down ==> !detected && final(self).tracker(key).pressed && forall|k: DoubleTapKey|
                k != key ==> #[trigger] final(self).tracker(k) == cleared(),
            !down ==> forall|k: DoubleTapKey|
                k != key ==> #[trigger] final(self).tracker(k) == old(self).tracker(k),
            detected ==> !down && final(self).tracker(key) == cleared(),
            down ==> exists|since: u128| final(self).tracker(key) == after_press(old(self).tracker(key), since),
            !down ==> exists|held: u128|
                (final(self).tracker(key), detected) == after_release(old(self).tracker(key), held),
    {
        if down {
            self.reset_other_trackers(key);
            let ghost mid = *self;
            match key {
                DoubleTapKey::Command => {
                    self.command_tracker.on_press();
                },
                DoubleTapKey::Option => {
                    self.option_tracker.on_press();
                },
                DoubleTapKey::Control => {
                    self.control_tracker.on_press();
                },
                DoubleTapKey::Shift => {
                    self.shift_tracker.on_press();
                },
                DoubleTapKey::Escape => {
                    self.escape_tracker.on_press();
                },
            }
            assert forall|k: DoubleTapKey| k != key implies #[trigger] self.tracker(k) == cleared() by {
                assert(mid.tracker(k) == cleared());
            }
            false
        } else {
            let ghost before = *self;
            let detected = match key {
                DoubleTapKey::Command => {
                    let d = self.command_tracker.on_release();
                    proof {
                        let h = choose|h: u128|
                            (self.command_tracker.view(), d) == after_release(before.command_tracker.view(), h);
                        assert((self.tracker(key), d) == after_release(before.tracker(key), h));
                    }
                    d
                },
                DoubleTapKey::Option => {
                    let d = self.option_tracker.on_release();
                    proof {
                        let h = choose|h: u128|
                            (self.option_tracker.view(), d) == after_release(before.option_tracker.view(), h);
                        assert((self.tracker(key), d) == after_release(before.tracker(key), h));
                    }
                    d
                },
                DoubleTapKey::Control => {
                    let d = self.control_tracker.on_release();
                    proof {
                        let h = choose|h: u128|
                            (self.control_tracker.view(), d) == after_release(before.control_tracker.view(), h);
                        assert((self.tracker(key), d) == after_release(before.tracker(key), h));
                    }
                    d
                },
                DoubleTapKey::Shift => {
                    let d = self.shift_tracker.on_release();
                    proof {
                        let h = choose|h: u128|
                            (self.shift_tracker.view(), d) == after_release(before.shift_tracker.view(), h);
                        assert((self.tracker(key), d) == after_release(before.tracker(key), h));
                    }
                    d
                },
                DoubleTapKey::Escape => {
                    let d = self.escape_tracker.on_release();
                    proof {
                        let h = choose|h: u128|
                            (self.escape_tracker.view(), d) == after_release(before.escape_tracker.view(), h);
                        assert((self.tracker(key), d) == after_release(before.tracker(key), h));
                    }
                    d
                },
            };
            assert forall|k: DoubleTapKey| k != key implies #[trigger] self.tracker(k)
                == before.tracker(k) by {}
            detected
        }
    }

    /// A modifier state change. With several modifiers held the four
    /// modifier trackers reset and nothing is detected; otherwise each
    /// modifier that went down resets the other trackers and starts a tap,
    /// and each one that went up finishes one. The result names a modifier
    /// whose release completed a double-tap.
    pub fn process_flags_changed(
        &mut self,
        command: bool,
        option: bool,
        control: bool,
        shift: bool,
    ) -> (r: Option<DoubleTapKey>)
        requires
            old(self).wf(),
        ensures
            final(self).wf(),
            final(self).prev_flags() == (command, option, control, shift),
            several_held(command, option, control, shift) ==> r is None && final(self).tracker(
                DoubleTapKey::Command,
            ) == cleared() && final(self).tracker(DoubleTapKey::Option) == cleared() && final(self).tracker(DoubleTapKey::Control) == cleared() && final(self).tracker(
                DoubleTapKey::Shift,
            ) == cleared() && final(self).tracker(DoubleTapKey::Escape) == old(self).tracker(
                DoubleTapKey::Escape,
            ),
            r == Some(DoubleTapKey::Command) ==> old(self).prev_flags().0 && !command,
            r == Some(DoubleTapKey::Option) ==> old(self).prev_flags().1 && !option,
            r == Some(DoubleTapKey::Control) ==> old(self).prev_flags().2 && !control,
            r == Some(DoubleTapKey::Shift) ==> old(self).prev_flags().3 && !shift,
            r != Some(DoubleTapKey::Escape),
            r matches Some(k) ==> final(self).tracker(k) == cleared(),
            !several_held(command, option, control, shift) && old(self).prev_flags() == (
                command,
                option,
                control,
                shift,
            ) ==> r is None && forall|
                k: DoubleTapKey,
            | #[trigger] final(self).tracker(k) == old(self).tracker(k),
            !several_held(command, option, control, shift) ==> exists|
                v1: TrackersView,
                v2: TrackersView,
                v3: TrackersView,
                d0: bool,
                d1: bool,
                d2: bool,
                d3: bool,
            |
                #![trigger key_step(old(self).trackers(), v1, DoubleTapKey::Command, old(self).prev_flags().0, command, d0), key_step(v1, v2, DoubleTapKey::Option, old(self).prev_flags().1, option, d1), key_step(v2, v3, DoubleTapKey::Control, old(self).prev_flags().2, control, d2), key_step(v3, final(self).trackers(), DoubleTapKey::Shift, old(self).prev_flags().3, shift, d3)]
                {
                    &&& key_step(
                        old(self).trackers(),
                        v1,
                        DoubleTapKey::Command,
                        old(self).prev_flags().0,
                        command,
                        d0,
                    )
                    &&& key_step(v1, v2, DoubleTapKey::Option, old(self).prev_flags().1, option, d1)
                    &&& key_step(v2, v3, DoubleTapKey::Control, old(self).prev_flags().2, control, d2)
                    &&& key_step(
                        v3,
                        final(self).trackers(),
                        DoubleTapKey::Shift,
                        old(self).prev_flags().3,
                        shift,
                        d3,
                    )
                    &&& r == last_detected(d0, d1, d2, d3)
                },
    {
        let mut result: Option<DoubleTapKey> = None;
        let modifier_count: u8 = (if command { 1u8 } else { 0u8 }) + (if option { 1u8 } else { 0u8 })
            + (if control { 1u8 } else { 0u8 }) + (if shift { 1u8 } else { 0u8 });
        if modifier_count > 1 {
            self.command_tracker.reset();
            self.option_tracker.reset();
            self.control_tracker.reset();
            self.shift_tracker.reset();
        } else {
            result = self.apply_flag_changes(command, option, control, shift);
        }
        let ghost mid = self.trackers();
        self.prev_command = command;
        self.prev_option = option;
        self.prev_control = control;
        self.prev_shift = shift;
        proof {
            assert(self.trackers() == mid);
        }
        result
    }

    /// The four keys' parts of a change to at most one held modifier, in the
    /// order Command, Option, Control, Shift; the remembered flags are left
    /// for the caller.
    #[verifier::rlimit(40)]
    #[verifier::spinoff_prover]
    fn apply_flag_changes(&mut self, command: bool, option: bool, control: bool, shift: bool) -> (r: Option<
        DoubleTapKey,
    >)
        requires
            old(self).wf(),
        ensures
            final(self).wf(),
            final(self).prev_flags() == old(self).prev_flags(),
            r == Some(DoubleTapKey::Command) ==> old(self).prev_flags().0 && !command,
            r == Some(DoubleTapKey::Option) ==> old(self).prev_flags().1 && !option,
            r == Some(DoubleTapKey::Control) ==> old(self).prev_flags().2 && !control,
            r == Some(DoubleTapKey::Shift) ==> old(self).prev_flags().3 && !shift,
            r != Some(DoubleTapKey::Escape),
            r matches Some(k) ==> final(self).tracker(k) == cleared(),
            old(self).prev_flags() == (command, option, control, shift) ==> r is None && final(self).trackers()
                == old(self).trackers(),
            exists|v1: TrackersView, v2: TrackersView, v3: TrackersView, d0: bool, d1: bool, d2: bool, d3: bool|
                #![trigger key_step(old(self).trackers(), v1, DoubleTapKey::Command, old(self).prev_flags().0, command, d0), key_step(v1, v2, DoubleTapKey::Option, old(self).prev_flags().1, option, d1), key_step(v2, v3, DoubleTapKey::Control, old(self).prev_flags().2, control, d2), key_step(v3, final(self).trackers(), DoubleTapKey::Shift, old(self).prev_flags().3, shift, d3)]
                {
                    &&& key_step(old(self).trackers(), v1, DoubleTapKey::Command, old(self).prev_flags().0, command, d0)
                    &&& key_step(v1, v2, DoubleTapKey::Option, old(self).prev_flags().1, option, d1)
                    &&& key_step(v2, v3, DoubleTapKey::Control, old(self).prev_flags().2, control, d2)
                    &&& key_step(v3, final(self).trackers(), DoubleTapKey::Shift, old(self).prev_flags().3, shift, d3)
                    &&& r == last_detected(d0, d1, d2, d3)
                },
    {
        let ghost v0 = self.trackers();
        let (pc, po, pl, ps) = (self.prev_command, self.prev_option, self.prev_control, self.prev_shift);
        let d0 = self.flag_step(DoubleTapKey::Command, pc, command);
        let ghost v1 = self.trackers();
        let d1 = self.flag_step(DoubleTapKey::Option, po, option);
        let ghost v2 = self.trackers();
        let d2 = self.flag_step(DoubleTapKey::Control, pl, control);
        let ghost v3 = self.trackers();
        let d3 = self.flag_step(DoubleTapKey::Shift, ps, shift);
        proof {
            lemma_steps(v0, v1, v2, v3, self.trackers(), (pc, po, pl, ps), command, option, control, shift, d0, d1, d2, d3);
        }
        pick_last(d0, d1, d2, d3)
    }

    /// One key's part of a modifier change: a tap starts or ends on it when
    /// its flag changed, and nothing happens otherwise.
    fn flag_step(&mut self, key: DoubleTapKey, was_down: bool, down: bool) -> (det: bool)
        requires
            old(self).wf(),
        ensures
            final(self).wf(),
            final(self).prev_flags() == old(self).prev_flags(),
            key_step(old(self).trackers(), final(self).trackers(), key, was_down, down, det),
    {
        if was_down != down {
            let ghost before = *self;
            let det = self.key_transition(key, down);
            proof {
                lemma_transition_step(before, *self, key, down, det);
            }
            det
        } else {
            proof {
                reveal(key_step);
            }
            false
        }
    }

    /// A key event for Escape (other keys are ignored): key down resets the
    /// other trackers and starts a tap; key up finishes it and reports a
    /// double-tap.
    pub fn process_key_event(&mut self, key: DoubleTapKey, is_key_down: bool) -> (r: Option<
        DoubleTapKey,
    >)
        requires
            old(self).wf(),
        ensures
            final(self).wf(),
            final(self).prev_flags() == old(self).prev_flags(),
            key != DoubleTapKey::Escape ==> r is None && *final(self) == *old(self),
            key != DoubleTapKey::Escape ==> forall|k: DoubleTapKey| #[trigger] final(self).tracker(k) == old(self).tracker(k),
            key == DoubleTapKey::Escape && is_key_down ==> r is None && final(self).tracker(
                DoubleTapKey::Escape,
            ).pressed && forall|k: DoubleTapKey|
                k != DoubleTapKey::Escape ==> #[trigger] final(self).tracker(k) == cleared(),
            r is Some ==> r == Some(DoubleTapKey::Escape) && !is_key_down && final(self).tracker(
                DoubleTapKey::Escape,
            ) == cleared(),
            key == DoubleTapKey::Escape && is_key_down ==> exists|since: u128|
                final(self).tracker(DoubleTapKey::Escape) == after_press(old(self).tracker(DoubleTapKey::Escape), since),
            key == DoubleTapKey::Escape && !is_key_down ==> exists|held: u128|
                (final(self).tracker(DoubleTapKey::Escape), r is Some) == after_release(
                    old(self).tracker(DoubleTapKey::Escape),
                    held,
                ),
            key == DoubleTapKey::Escape && !is_key_down ==> forall|k: DoubleTapKey|
                k != DoubleTapKey::Escape ==> #[trigger] final(self).tracker(k) == old(self).tracker(k),
    {
        if key != DoubleTapKey::Escape {
            return None;
        }
        if self.key_transition(DoubleTapKey::Escape, is_key_down) {
            Some(DoubleTapKey::Escape)
        } else {
            None
        }
    }

    /// Reset every tracker.
    pub fn reset(&mut self)
        ensures
            final(self).wf(),
            final(self).prev_flags() == old(self).prev_flags(),
            forall|k: DoubleTapKey| #[trigger] final(self).tracker(k) == cleared(),
    {
        self.command_tracker.reset();
        self.option_tracker.reset();
        self.control_tracker.reset();
        self.shift_tracker.reset();
        self.escape_tracker.reset();
    }
}

/// The double-tap named by the four keys' results.
fn pick_last(d_command: bool, d_option: bool, d_control: bool, d_shift: bool) -> (r: Option<DoubleTapKey>)
    ensures
        r == last_detected(d_command, d_option, d_control, d_shift),
{
    if d_shift {
        Some(DoubleTapKey::Shift)
    } else if d_control {
        Some(DoubleTapKey::Control)
    } else if d_option {
        Some(DoubleTapKey::Option)
    } else if d_command {
        Some(DoubleTapKey::Command)
    } else {
        None
    }
}

/// What four steps of a modifier change give, key by key.
proof fn lemma_steps(
    v0: TrackersView,
    v1: TrackersView,
    v2: TrackersView,
    v3: TrackersView,
    v4: TrackersView,
    p: (bool, bool, bool, bool),
    command: bool,
    option: bool,
    control: bool,
    shift: bool,
    d0: bool,
    d1: bool,
    d2: bool,
    d3: bool,
)
    requires
        key_step(v0, v1, DoubleTapKey::Command, p.0, command, d0),
        key_step(v1, v2, DoubleTapKey::Option, p.1, option, d1),
        key_step(v2, v3, DoubleTapKey::Control, p.2, control, d2),
        key_step(v3, v4, DoubleTapKey::Shift, p.3, shift, d3),
    ensures
        last_detected(d0, d1, d2, d3) matches Some(k) ==> tracker_of(v4, k) == cleared(),
        last_detected(d0, d1, d2, d3) == Some(DoubleTapKey::Command) ==> p.0 && !command,
        last_detected(d0, d1, d2, d3) == Some(DoubleTapKey::Option) ==> p.1 && !option,
        last_detected(d0, d1, d2, d3) == Some(DoubleTapKey::Control) ==> p.2 && !control,
        last_detected(d0, d1, d2, d3) == Some(DoubleTapKey::Shift) ==> p.3 && !shift,
        p == (command, option, control, shift) ==> last_detected(d0, d1, d2, d3) is None && v4 == v0,
        exists|w1: TrackersView, w2: TrackersView, w3: TrackersView, e0: bool, e1: bool, e2: bool, e3: bool|
            #![trigger key_step(v0, w1, DoubleTapKey::Command, p.0, command, e0), key_step(w1, w2, DoubleTapKey::Option, p.1, option, e1), key_step(w2, w3, DoubleTapKey::Control, p.2, control, e2), key_step(w3, v4, DoubleTapKey::Shift, p.3, shift, e3)]
            {
                &&& key_step(v0, w1, DoubleTapKey::Command, p.0, command, e0)
                &&& key_step(w1, w2, DoubleTapKey::Option, p.1, option, e1)
                &&& key_step(w2, w3, DoubleTapKey::Control, p.2, control, e2)
                &&& key_step(w3, v4, DoubleTapKey::Shift, p.3, shift, e3)
                &&& last_detected(d0, d1, d2, d3) == last_detected(e0, e1, e2, e3)
            },
{
    assert(key_step(v0, v1, DoubleTapKey::Command, p.0, command, d0));
    reveal(key_step);
    if d3 {
        let h = choose|h: u128| (tracker_of(v4, DoubleTapKey::Shift), d3) == after_release(tracker_of(v3, DoubleTapKey::Shift), h);
    } else if d2 {
        let h = choose|h: u128| (tracker_of(v3, DoubleTapKey::Control), d2) == after_release(tracker_of(v2, DoubleTapKey::Control), h);
        assert(tracker_of(v4, DoubleTapKey::Control) == tracker_of(v3, DoubleTapKey::Control));
    } else if d1 {
        let h = choose|h: u128| (tracker_of(v2, DoubleTapKey::Option), d1) == after_release(tracker_of(v1, DoubleTapKey::Option), h);
        assert(tracker_of(v3, DoubleTapKey::Option) == cleared() || tracker_of(v3, DoubleTapKey::Option) == tracker_of(v2, DoubleTapKey::Option));
        assert(tracker_of(v4, DoubleTapKey::Option) == cleared() || tracker_of(v4, DoubleTapKey::Option) == tracker_of(v3, DoubleTapKey::Option));
    } else if d0 {
        let h = choose|h: u128| (tracker_of(v1, DoubleTapKey::Command), d0) == after_release(tracker_of(v0, DoubleTapKey::Command), h);
        assert(tracker_of(v2, DoubleTapKey::Command) == cleared() || tracker_of(v2, DoubleTapKey::Command) == tracker_of(v1, DoubleTapKey::Command));
        assert(tracker_of(v3, DoubleTapKey::Command) == cleared() || tracker_of(v3, DoubleTapKey::Command) == tracker_of(v2, DoubleTapKey::Command));
        assert(tracker_of(v4, DoubleTapKey::Command) == cleared() || tracker_of(v4, DoubleTapKey::Command) == tracker_of(v3, DoubleTapKey::Command));
    }
}

proof fn lemma_tracker_of(m: DoubleTapManager, k: DoubleTapKey)
    ensures
        m.tracker(k) == tracker_of(m.trackers(), k),
{
}

proof fn lemma_transition_step(a: DoubleTapManager, b: DoubleTapManager, key: DoubleTapKey, down: bool, det: bool)
    requires
        down ==> !det && (exists|since: u128| b.tracker(key) == after_press(a.tracker(key), since))
            && forall|k: DoubleTapKey| k != key ==> #[trigger] b.tracker(k) == cleared(),
        !down ==> (exists|held: u128| (b.tracker(key), det) == after_release(a.tracker(key), held))
            && forall|k: DoubleTapKey| k != key ==> #[trigger] b.tracker(k) == a.tracker(k),
    ensures
        key_step(a.trackers(), b.trackers(), key, !down, down, det),
{
    reveal(key_step);
    lemma_tracker_of(a, key);
    lemma_tracker_of(b, key);
    if down {
        let s = choose|s: u128| b.tracker(key) == after_press(a.tracker(key), s);
        assert(tracker_of(b.trackers(), key) == after_press(tracker_of(a.trackers(), key), s));
        assert forall|k: DoubleTapKey| k != key implies #[trigger] tracker_of(b.trackers(), k) == cleared() by {
            lemma_tracker_of(b, k);
        }
    } else {
        let h = choose|h: u128| (b.tracker(key), det) == after_release(a.tracker(key), h);
        assert((tracker_of(b.trackers(), key), det) == after_release(tracker_of(a.trackers(), key), h));
        assert forall|k: DoubleTapKey| k != key implies #[trigger] tracker_of(b.trackers(), k) == tracker_of(
            a.trackers(),
            k,
        ) by {
            lemma_tracker_of(a, k);
            lemma_tracker_of(b, k);
        }
    }
}

impl Default for DoubleTapManager {
    fn default() -> (r: Self)
        ensures
            r.wf(),
            r.prev_flags() == (false, false, false, false),
            forall|k: DoubleTapKey| #[trigger] r.tracker(k) == cleared(),
    {
        Self::new()
    }
}

} // verus!
