//! Gathering the clickable elements of the frontmost app.
//!
//! Elements come from an accessibility helper process and, for browsers
//! that need it, from JavaScript run in the page. A short-lived cache keeps
//! the helper's answer per process id. This module holds the timing
//! settings, the cache and its freshness rule, which sources a query uses,
//! and the hint labels given to the elements found; the helper process and
//! the browser query run in the caller.

use vstd::prelude::*;

use std::time::Instant;

use crate::browser::BrowserType;
use crate::double_tap::{duration_as_nanos, duration_since, instant_now};
use crate::hints::{generate_hints, hint_label, hints_spec, views, DEFAULT_HINT_CHARS};
use crate::text::{decimal, unicode_upper, usize_to_decimal};

verus! {

/// Click-mode timing and traversal limits, as the settings give them.
#[derive(Debug, Clone, Copy, PartialEq, Eq, Structural)]
pub struct TimingSettings {
    /// How long cached elements stay valid, in milliseconds.
    pub cache_ttl_ms: u128,
    /// Delay the helper waits before querying, in milliseconds.
    pub ax_delay_ms: u32,
    /// Deepest level of the accessibility tree the helper visits.
    pub max_depth: u32,
    /// Most elements the helper collects.
    pub max_elements: u32,
}

impl Default for TimingSettings {
    fn default() -> (r: Self)
        ensures
            r == (TimingSettings { cache_ttl_ms: 500, ax_delay_ms: 10, max_depth: 10, max_elements: 500 }),
    {
        TimingSettings { cache_ttl_ms: 500, ax_delay_ms: 10, max_depth: 10, max_elements: 500 }
    }
}

/// Takes new timing values from the settings.
pub fn update_timing_settings(
    settings: &mut TimingSettings,
    cache_ttl_ms: u32,
    ax_delay_ms: u32,
    max_depth: u32,
    max_elements: u32,
)
    ensures
        *final(settings) == (TimingSettings {
            cache_ttl_ms: cache_ttl_ms as u128,
            ax_delay_ms,
            max_depth,
            max_elements,
        }),
{
    settings.cache_ttl_ms = cache_ttl_ms as u128;
    settings.ax_delay_ms = ax_delay_ms;
    settings.max_depth = max_depth;
    settings.max_elements = max_elements;
}

/// The arguments the accessibility helper runs with for `pid`: the process,
/// then the delay, depth and element limit of the timing settings.
pub open spec fn helper_args(timing: TimingSettings, pid: i32) -> (i32, u32, u32, u32) {
    (pid, timing.ax_delay_ms, timing.max_depth, timing.max_elements)
}

/// The arguments the accessibility helper runs with for `pid`.
pub fn helper_arguments(timing: &TimingSettings, pid: i32) -> (r: (i32, u32, u32, u32))
    ensures
        r == helper_args(*timing, pid),
{
    (pid, timing.ax_delay_ms, timing.max_depth, timing.max_elements)
}

/// Once new timing values are taken, element queries use them: cached
/// elements count as fresh exactly while they belong to the process and are
/// younger than the new time to live, and the helper runs with the new
/// delay, depth and element limit.
pub proof fn lemma_timing_update_applies(
    after: TimingSettings,
    cache_ttl_ms: u32,
    ax_delay_ms: u32,
    max_depth: u32,
    max_elements: u32,
    cached_pid: i32,
    pid: i32,
    age_ms: u128,
)
    requires
        after == (TimingSettings { cache_ttl_ms: cache_ttl_ms as u128, ax_delay_ms, max_depth, max_elements }),
    ensures
        fresh(cached_pid, pid, age_ms, after.cache_ttl_ms) <==> (cached_pid == pid && age_ms < cache_ttl_ms),
        helper_args(after, pid) == (pid, ax_delay_ms, max_depth, max_elements),
{
}

/// Elements the helper reported for one process, and when.
pub struct ElementCache<E> {
    elements: Vec<E>,
    pid: i32,
    timestamp: Instant,
    is_modal: bool,
}

impl<E> ElementCache<E> {
    /// The cached elements.
    pub closed spec fn elements(&self) -> Seq<E> {
        self.elements@
    }

    /// The process the elements belong to.
    pub closed spec fn pid(&self) -> i32 {
        self.pid
    }

    /// Whether the elements came from a sheet or dialog.
    pub closed spec fn is_modal(&self) -> bool {
        self.is_modal
    }
}

/// Whether cached elements may be used: they belong to the same process
/// and are younger than the time to live.
pub open spec fn fresh(cached_pid: i32, pid: i32, age_ms: u128, ttl_ms: u128) -> bool {
    cached_pid == pid && age_ms < ttl_ms
}

/// Whether cached elements may be used.
pub fn cache_is_fresh(cached_pid: i32, pid: i32, age_ms: u128, ttl_ms: u128) -> (r: bool)
    ensures
        r == fresh(cached_pid, pid, age_ms, ttl_ms),
{
    cached_pid == pid && age_ms < ttl_ms
}

/// The cached elements for `pid` and whether they are modal, given the
/// cache's age: they are handed out (copied) when the cache holds that
/// process's elements and is younger than the time to live.
pub fn cached_elements_at<E: Clone>(cache: &Option<ElementCache<E>>, pid: i32, age_ms: u128, ttl_ms: u128) -> (r:
    Option<(Vec<E>, bool)>)
    ensures
        match cache {
            Some(c) => if fresh(c.pid(), pid, age_ms, ttl_ms) {
                r matches Some(hit) && hit.1 == c.is_modal() && hit.0@.len() == c.elements().len()
                    && forall|i: int|
                    0 <= i < hit.0@.len() ==> vstd::pervasive::cloned::<E>(c.elements()[i], #[trigger] hit.0@[i])
            } else {
                r is None
            },
            None => r is None,
        },
{
    match cache {
        Some(c) => {
            if cache_is_fresh(c.pid, pid, age_ms, ttl_ms) {
                Some((c.elements.clone(), c.is_modal))
            } else {
                None
            }
        },
        None => None,
    }
}

/// Whole milliseconds in a count of nanoseconds, rounded down.
pub fn millis_of_nanos(nanos: u128) -> (r: u128)
    ensures
        r == nanos / 1_000_000,
{
    nanos / 1_000_000
}

/// Milliseconds since the cache was filled, by the clock: the elapsed
/// nanoseconds the clock gives, converted by `millis_of_nanos`. What the
/// clock gives is not claimed.
pub fn cache_age_ms<E>(cache: &ElementCache<E>) -> (r: u128)
    ensures
        r <= u128::MAX / 1_000_000,
{
    let now = instant_now();
    let nanos = duration_as_nanos(&duration_since(&now, &cache.timestamp));
    millis_of_nanos(nanos)
}

/// The cached elements for `pid`, by the clock: `cached_elements_at` with
/// the cache's current age. Whatever the clock says, nothing is returned for
/// another process or an empty cache, and what is returned is a copy of
/// what was cached.
pub fn get_cached_elements<E: Clone>(cache: &Option<ElementCache<E>>, pid: i32, ttl_ms: u128) -> (r:
    Option<(Vec<E>, bool)>)
    ensures
        cache is None ==> r is None,
        cache matches Some(c) && c.pid() != pid ==> r is None,
        ttl_ms == 0 ==> r is None,
        r matches Some(hit) ==> cache matches Some(c) && c.pid() == pid && hit.1 == c.is_modal()
            && hit.0@.len() == c.elements().len() && forall|i: int|
            0 <= i < hit.0@.len() ==> vstd::pervasive::cloned::<E>(c.elements()[i], #[trigger] hit.0@[i]),
{
    match cache {
        Some(c) => {
            let age_ms = cache_age_ms(c);
            cached_elements_at(cache, pid, age_ms, ttl_ms)
        },
        None => None,
    }
}

/// Stores the helper's answer for `pid`, stamped with the current time.
pub fn cache_elements<E>(cache: &mut Option<ElementCache<E>>, pid: i32, elements: Vec<E>, is_modal: bool)
    ensures
        *final(cache) matches Some(c) && c.pid() == pid && c.elements() == elements@ && c.is_modal()
            == is_modal,
{
    *cache = Some(ElementCache { elements, pid, timestamp: instant_now(), is_modal });
}

/// Empties the cache (the focused app changed).
pub fn invalidate_cache<E>(cache: &mut Option<ElementCache<E>>)
    ensures
        *final(cache) is None,
{
    *cache = None;
}

/// Whether the browser's page must be queried with JavaScript: for a
/// browser that needs it, on a cache miss, and on a cache hit unless the
/// cached elements came from a sheet or dialog. (`cached_modal` is the
/// cached modal flag on a hit, `None` on a miss.)
pub open spec fn fetch_browser(cached_modal: Option<bool>, browser: Option<BrowserType>) -> bool {
    match browser {
        Some(b) => !(b is Safari) && match cached_modal {
            Some(m) => !m,
            None => true,
        },
        None => false,
    }
}

/// Safari's page is never queried with JavaScript, nor is anything when no
/// browser is frontmost; any other browser's page is queried on a cache
/// miss, and on a hit exactly when the cached elements did not come from a
/// sheet or dialog.
pub proof fn lemma_fetch_browser(cached_modal: Option<bool>, b: BrowserType)
    ensures
        !fetch_browser(cached_modal, Some(BrowserType::Safari)),
        !fetch_browser(cached_modal, None),
        b != BrowserType::Safari && cached_modal is None ==> fetch_browser(cached_modal, Some(b)),
        b != BrowserType::Safari && cached_modal is Some ==> fetch_browser(cached_modal, Some(b))
            == !cached_modal->0,
{
}

/// Whether the browser's page must be queried with JavaScript.
pub fn should_fetch_browser_elements(cached_modal: Option<bool>, browser: Option<BrowserType>) -> (r: bool)
    ensures
        r == fetch_browser(cached_modal, browser),
{
    match browser {
        Some(b) => {
            if !b.needs_js_injection() {
                false
            } else {
                match cached_modal {
                    Some(m) => !m,
                    None => true,
                }
            }
        },
        None => false,
    }
}

/// The label of element `i` of `count`: its hint over the default
/// characters, or its index in decimal past the end of the hints (which
/// `generate_hints` never reaches, as it makes one hint per element).
pub open spec fn element_label(hints: Seq<Seq<char>>, i: int) -> Seq<char> {
    if i < hints.len() {
        hints[i]
    } else {
        decimal(i as nat)
    }
}

/// The labels of `count` elements, in order.
pub fn element_labels(count: usize) -> (r: Vec<String>)
    ensures
        r@.len() == count,
        exists|h: Seq<Seq<char>>| {
            &&& hints_spec(count as nat, DEFAULT_HINT_CHARS@, h)
            &&& forall|i: int| 0 <= i < count ==> (#[trigger] r@[i])@ == element_label(h, i)
        },
        forall|i: int| 0 <= i < count ==> (#[trigger] r@[i])@ == unicode_upper(hint_label(DEFAULT_HINT_CHARS@, i as nat)),
{
    proof {
        reveal_strlit("asdfghjklqwertyuiopzxcvbnm");
    }
    let hints = generate_hints(count, DEFAULT_HINT_CHARS);
    let ghost h = views(hints@);
    let mut labels: Vec<String> = Vec::new();
    let mut i: usize = 0;
    while i < count
        invariant
            i <= count,
            labels@.len() == i,
            h == views(hints@),
            forall|j: int| 0 <= j < i ==> (#[trigger] labels@[j])@ == element_label(h, j),
        decreases count - i,
    {
        if i < hints.len() {
            labels.push(hints[i].clone());
        } else {
            labels.push(usize_to_decimal(i));
        }
        i = i + 1;
    }
    labels
}

} // verus!
