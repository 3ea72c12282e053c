//! Clickable elements of web pages in browsers.
//!
//! Chromium-based browsers do not expose web content well through the
//! accessibility API, so their clickable elements are queried from the page
//! with JavaScript run through AppleScript. This module names the browsers,
//! builds the scripts, and splits the script's output; running `osascript`
//! and reading the coordinates is the application's part.

use vstd::prelude::*;

use crate::text::{owned, push_char, str_eq};

verus! {

/// Browsers whose web content can be queried.
#[derive(Debug, Clone, Copy, PartialEq, Eq, Structural)]
pub enum BrowserType {
    Safari,
    Chrome,
    Brave,
    Arc,
}

/// The application name that AppleScript addresses.
pub open spec fn app_name_of(b: BrowserType) -> Seq<char> {
    match b {
        BrowserType::Safari => "Safari"@,
        BrowserType::Chrome => "Google Chrome"@,
        BrowserType::Brave => "Brave Browser"@,
        BrowserType::Arc => "Arc"@,
    }
}

impl BrowserType {
    /// The application name that AppleScript addresses.
    pub fn app_name(&self) -> (r: &'static str)
        ensures
            r@ == app_name_of(*self),
    {
        match self {
            BrowserType::Safari => "Safari",
            BrowserType::Chrome => "Google Chrome",
            BrowserType::Brave => "Brave Browser",
            BrowserType::Arc => "Arc",
        }
    }

    /// Whether web content must be queried with JavaScript: every browser
    /// but Safari, which exposes it through accessibility.
    pub fn needs_js_injection(&self) -> (r: bool)
        ensures
            r == !(*self is Safari),
    {
        !matches!(self, BrowserType::Safari)
    }
}

/// Bundle identifier of Safari.
pub const SAFARI_BUNDLE: &'static str = "com.apple.Safari";
/// Bundle identifier of Google Chrome.
pub const CHROME_BUNDLE: &'static str = "com.google.Chrome";
/// Bundle identifier of Arc.
pub const ARC_BUNDLE: &'static str = "company.thebrowser.Browser";
/// Bundle identifier of Brave.
pub const BRAVE_BUNDLE: &'static str = "com.brave.Browser";
/// Bundle identifier of Microsoft Edge, which is queried like Chrome.
pub const EDGE_BUNDLE: &'static str = "com.microsoft.edgemac";

/// The browser with a bundle identifier, if it is one of the known ones.
pub open spec fn browser_for(id: Seq<char>) -> Option<BrowserType> {
    if id == SAFARI_BUNDLE@ {
        Some(BrowserType::Safari)
    } else if id == CHROME_BUNDLE@ || id == EDGE_BUNDLE@ {
        Some(BrowserType::Chrome)
    } else if id == BRAVE_BUNDLE@ {
        Some(BrowserType::Brave)
    } else if id == ARC_BUNDLE@ {
        Some(BrowserType::Arc)
    } else {
        None
    }
}

/// Each known browser is recognised by its bundle identifier, Edge's
/// counting as Chrome's.
pub proof fn lemma_browser_bundles()
    ensures
        browser_for(SAFARI_BUNDLE@) == Some(BrowserType::Safari),
        browser_for(CHROME_BUNDLE@) == Some(BrowserType::Chrome),
        browser_for(EDGE_BUNDLE@) == Some(BrowserType::Chrome),
        browser_for(BRAVE_BUNDLE@) == Some(BrowserType::Brave),
        browser_for(ARC_BUNDLE@) == Some(BrowserType::Arc),
{
    reveal_strlit("com.apple.Safari");
    reveal_strlit("com.google.Chrome");
    reveal_strlit("company.thebrowser.Browser");
    reveal_strlit("com.brave.Browser");
    reveal_strlit("com.microsoft.edgemac");
    assert(SAFARI_BUNDLE@.len() != CHROME_BUNDLE@.len());
    assert(SAFARI_BUNDLE@[4] != EDGE_BUNDLE@[4]);
    assert(BRAVE_BUNDLE@[4] != SAFARI_BUNDLE@[4]);
    assert(BRAVE_BUNDLE@[4] != CHROME_BUNDLE@[4]);
    assert(BRAVE_BUNDLE@.len() != EDGE_BUNDLE@.len());
    assert(ARC_BUNDLE@.len() != SAFARI_BUNDLE@.len());
    assert(ARC_BUNDLE@.len() != CHROME_BUNDLE@.len());
    assert(ARC_BUNDLE@.len() != EDGE_BUNDLE@.len());
    assert(ARC_BUNDLE@.len() != BRAVE_BUNDLE@.len());
}

/// The browser with a bundle identifier; Edge counts as Chrome.
pub fn detect_browser_type(bundle_id: &str) -> (r: Option<BrowserType>)
    ensures
        r == browser_for(bundle_id@),
{
    if str_eq(bundle_id, SAFARI_BUNDLE) {
        Some(BrowserType::Safari)
    } else if str_eq(bundle_id, CHROME_BUNDLE) || str_eq(bundle_id, EDGE_BUNDLE) {
        Some(BrowserType::Chrome)
    } else if str_eq(bundle_id, BRAVE_BUNDLE) {
        Some(BrowserType::Brave)
    } else if str_eq(bundle_id, ARC_BUNDLE) {
        Some(BrowserType::Arc)
    } else {
        None
    }
}

/// JavaScript that lists the visible clickable elements of the page.
pub const GET_CLICKABLES_JS: &'static str = "(function(){var r=[];var seen=new Set();var s=\"a[href],button,input,textarea,select,[role=button],[role=link],[onclick],[tabindex]\";var els=document.querySelectorAll(s);for(var i=0;i<els.length&&r.length<200;i++){var el=els[i];var rect=el.getBoundingClientRect();if(rect.width<=0||rect.height<=0)continue;if(rect.top>window.innerHeight||rect.bottom<0)continue;if(rect.left>window.innerWidth||rect.right<0)continue;var k=Math.round(rect.left)+\",\"+Math.round(rect.top);if(seen.has(k))continue;seen.add(k);var t=el.textContent||el.value||el.placeholder||\"\";t=t.trim().substring(0,50);r.push({x:rect.left,y:rect.top,width:rect.width,height:rect.height,tag:el.tagName.toLowerCase(),text:t});}return JSON.stringify(r);})()";

/// JavaScript that returns the viewport height and the visible clickable
/// elements as JSON: {"vh": height, "els": [...]}.
pub const GET_ALL_JS: &'static str = "(function(){var r=[];var seen=new Set();var s=\"a[href],button,input,textarea,select,[role=button],[role=link],[onclick],[tabindex]\";var els=document.querySelectorAll(s);for(var i=0;i<els.length&&r.length<200;i++){var el=els[i];var rect=el.getBoundingClientRect();if(rect.width<=0||rect.height<=0)continue;if(rect.top>window.innerHeight||rect.bottom<0)continue;if(rect.left>window.innerWidth||rect.right<0)continue;var k=Math.round(rect.left)+\",\"+Math.round(rect.top);if(seen.has(k))continue;seen.add(k);var t=el.textContent||el.value||el.placeholder||\"\";t=t.trim().substring(0,50);r.push({x:rect.left,y:rect.top,width:rect.width,height:rect.height,tag:el.tagName.toLowerCase(),text:t});}return JSON.stringify({vh:window.innerHeight,els:r});})()";

/// How one character of JavaScript is written inside an AppleScript string:
/// double quotes are escaped and newlines dropped.
pub open spec fn escape_char(c: char) -> Seq<char> {
    if c == '"' {
        seq!['\\', '"']
    } else if c == '\n' {
        Seq::empty()
    } else {
        seq![c]
    }
}

/// JavaScript written inside an AppleScript string literal.
pub open spec fn escape_js(s: Seq<char>) -> Seq<char>
    decreases s.len(),
{
    if s.len() == 0 {
        Seq::empty()
    } else {
        escape_js(s.drop_last()) + escape_char(s.last())
    }
}

fn append_escaped(out: &mut String, js: &str)
    ensures
        final(out)@ == old(out)@ + escape_js(js@),
{
    let n = js.unicode_len();
    let mut i: usize = 0;
    while i < n
        invariant
            n == js@.len(),
            i <= n,
            out@ == old(out)@ + escape_js(js@.take(i as int)),
        decreases n - i,
    {
        let c = js.get_char(i);
        proof {
            assert(js@.take(i + 1).drop_last() =~= js@.take(i as int));
        }
        if c == '"' {
            push_char(out, '\\');
            push_char(out, '"');
        } else if c != '\n' {
            push_char(out, c);
        }
        proof {
            assert(out@ =~= old(out)@ + escape_js(js@.take(i + 1)));
        }
        i = i + 1;
    }
    proof {
        assert(js@.take(n as int) =~= js@);
    }
}

/// AppleScript that runs `js` in Safari's current tab.
pub fn build_safari_script(js: &str) -> (r: String)
    ensures
        r@ == "tell application \"Safari\"\n    if (count of windows) = 0 then return \"null\"\n    tell front window\n        if (count of tabs) = 0 then return \"null\"\n        try\n            return do JavaScript \""@ + escape_js(js@) + "\" in current tab\n        on error\n            return \"null\"\n        end try\n    end tell\nend tell"@,
{
    let mut out = owned("tell application \"Safari\"\n    if (count of windows) = 0 then return \"null\"\n    tell front window\n        if (count of tabs) = 0 then return \"null\"\n        try\n            return do JavaScript \"");
    append_escaped(&mut out, js);
    out.append("\" in current tab\n        on error\n            return \"null\"\n        end try\n    end tell\nend tell");
    out
}

/// AppleScript that runs `js` in the active tab of a Chromium-based browser.
pub fn build_chrome_script(app_name: &str, js: &str) -> (r: String)
    ensures
        r@ == "tell application \""@ + app_name@ + "\"\n    if (count of windows) = 0 then return \"null\"\n    tell active tab of front window\n        try\n            return execute javascript \""@ + escape_js(js@)
            + "\"\n        on error\n            return \"null\"\n        end try\n    end tell\nend tell"@,
{
    let mut out = owned("tell application \"");
    out.append(app_name);
    out.append("\"\n    if (count of windows) = 0 then return \"null\"\n    tell active tab of front window\n        try\n            return execute javascript \"");
    append_escaped(&mut out, js);
    out.append("\"\n        on error\n            return \"null\"\n        end try\n    end tell\nend tell");
    out
}

/// AppleScript that reads the front window's position and height through
/// System Events and runs `js` in a Chromium-based browser, in one call.
/// Its output is "x,y,height|result".
pub fn build_combined_chrome_script(app_name: &str, js: &str) -> (r: String)
    ensures
        r@ == "set winInfo to \"\"\ntell application \"System Events\"\n    try\n        set winPos to position of front window of process \""@ + app_name@ + "\"\n        set winSize to size of front window of process \""@ + app_name@
            + "\"\n        set winInfo to (item 1 of winPos as text) & \",\" & (item 2 of winPos as text) & \",\" & (item 2 of winSize as text)\n    end try\nend tell\nset jsResult to \"null\"\ntell application \""@ + app_name@ + "\"\n    if (count of windows) > 0 then\n        tell active tab of front window\n            try\n                set jsResult to execute javascript \""@ + escape_js(js@)
            + "\"\n            end try\n        end tell\n    end if\nend tell\nreturn winInfo & \"|\" & jsResult"@,
{
    let mut out = owned("set winInfo to \"\"\ntell application \"System Events\"\n    try\n        set winPos to position of front window of process \"");
    out.append(app_name);
    out.append("\"\n        set winSize to size of front window of process \"");
    out.append(app_name);
    out.append("\"\n        set winInfo to (item 1 of winPos as text) & \",\" & (item 2 of winPos as text) & \",\" & (item 2 of winSize as text)\n    end try\nend tell\nset jsResult to \"null\"\ntell application \"");
    out.append(app_name);
    out.append("\"\n    if (count of windows) > 0 then\n        tell active tab of front window\n            try\n                set jsResult to execute javascript \"");
    append_escaped(&mut out, js);
    out.append("\"\n            end try\n        end tell\n    end if\nend tell\nreturn winInfo & \"|\" & jsResult");
    out
}

/// The combined window-and-JavaScript AppleScript for Safari.
pub fn build_combined_safari_script(js: &str) -> (r: String)
    ensures
        r@ == "set winInfo to \"\"\ntell application \"System Events\"\n    try\n        set winPos to position of front window of process \"Safari\"\n        set winSize to size of front window of process \"Safari\"\n        set winInfo to (item 1 of winPos as text) & \",\" & (item 2 of winPos as text) & \",\" & (item 2 of winSize as text)\n    end try\nend tell\nset jsResult to \"null\"\ntell application \"Safari\"\n    if (count of windows) > 0 then\n        tell front window\n            if (count of tabs) > 0 then\n                try\n                    set jsResult to do JavaScript \""@ + escape_js(js@) + "\" in current tab\n                end try\n            end if\n        end tell\n    end if\nend tell\nreturn winInfo & \"|\" & jsResult"@,
{
    let mut out = owned("set winInfo to \"\"\ntell application \"System Events\"\n    try\n        set winPos to position of front window of process \"Safari\"\n        set winSize to size of front window of process \"Safari\"\n        set winInfo to (item 1 of winPos as text) & \",\" & (item 2 of winPos as text) & \",\" & (item 2 of winSize as text)\n    end try\nend tell\nset jsResult to \"null\"\ntell application \"Safari\"\n    if (count of windows) > 0 then\n        tell front window\n            if (count of tabs) > 0 then\n                try\n                    set jsResult to do JavaScript \"");
    append_escaped(&mut out, js);
    out.append("\" in current tab\n                end try\n            end if\n        end tell\n    end if\nend tell\nreturn winInfo & \"|\" & jsResult");
    out
}

/// The combined query script for a browser.
pub fn combined_script(browser_type: BrowserType) -> (r: String)
    ensures
        browser_type is Safari ==> r@ == "set winInfo to \"\"\ntell application \"System Events\"\n    try\n        set winPos to position of front window of process \"Safari\"\n        set winSize to size of front window of process \"Safari\"\n        set winInfo to (item 1 of winPos as text) & \",\" & (item 2 of winPos as text) & \",\" & (item 2 of winSize as text)\n    end try\nend tell\nset jsResult to \"null\"\ntell application \"Safari\"\n    if (count of windows) > 0 then\n        tell front window\n            if (count of tabs) > 0 then\n                try\n                    set jsResult to do JavaScript \""@ + escape_js(GET_ALL_JS@) + "\" in current tab\n                end try\n            end if\n        end tell\n    end if\nend tell\nreturn winInfo & \"|\" & jsResult"@,
        !(browser_type is Safari) ==> r@ == "set winInfo to \"\"\ntell application \"System Events\"\n    try\n        set winPos to position of front window of process \""@ + app_name_of(browser_type)
            + "\"\n        set winSize to size of front window of process \""@ + app_name_of(browser_type) + "\"\n        set winInfo to (item 1 of winPos as text) & \",\" & (item 2 of winPos as text) & \",\" & (item 2 of winSize as text)\n    end try\nend tell\nset jsResult to \"null\"\ntell application \""@
            + app_name_of(browser_type) + "\"\n    if (count of windows) > 0 then\n        tell active tab of front window\n            try\n                set jsResult to execute javascript \""@ + escape_js(GET_ALL_JS@)
            + "\"\n            end try\n        end tell\n    end if\nend tell\nreturn winInfo & \"|\" & jsResult"@,
{
    match browser_type {
        BrowserType::Safari => build_combined_safari_script(GET_ALL_JS),
        _ => build_combined_chrome_script(browser_type.app_name(), GET_ALL_JS),
    }
}

/// The fields of `s` between occurrences of `sep`, as `str::split` yields
/// them: one field for a string without `sep`, an empty field on either
/// side of a separator at the ends.
pub open spec fn split_fields(s: Seq<char>, sep: char) -> Seq<Seq<char>>
    decreases s.len(),
{
    if s.len() == 0 {
        seq![Seq::empty()]
    } else {
        let prev = split_fields(s.drop_last(), sep);
        if s.last() == sep {
            prev.push(Seq::empty())
        } else {
            prev.update(prev.len() - 1, prev.last().push(s.last()))
        }
    }
}

/// The views of a sequence of strings.
pub open spec fn string_views(s: Seq<String>) -> Seq<Seq<char>> {
    s.map_values(|x: String| x@)
}

/// The fields of `s` between commas.
pub fn split_commas(s: &str) -> (r: Vec<String>)
    ensures
        string_views(r@) == split_fields(s@, ','),
{
    let n = s.unicode_len();
    let mut fields: Vec<String> = Vec::new();
    let mut cur = String::new();
    let mut i: usize = 0;
    proof {
        assert(s@.take(0) =~= Seq::<char>::empty());
        assert(string_views(fields@).push(cur@) =~= split_fields(s@.take(0), ','));
    }
    while i < n
        invariant
            n == s@.len(),
            i <= n,
            string_views(fields@).push(cur@) == split_fields(s@.take(i as int), ','),
        decreases n - i,
    {
        let c = s.get_char(i);
        let ghost before = string_views(fields@).push(cur@);
        proof {
            assert(s@.take(i + 1).drop_last() =~= s@.take(i as int));
            assert(s@.take(i + 1).last() == c);
        }
        if c == ',' {
            let done = cur;
            fields.push(done);
            cur = String::new();
            proof {
                assert(string_views(fields@).push(cur@) =~= before.push(Seq::empty()));
            }
        } else {
            push_char(&mut cur, c);
            proof {
                assert(string_views(fields@).push(cur@) =~= before.update(
                    before.len() - 1,
                    before.last().push(c),
                ));
            }
        }
        i = i + 1;
    }
    fields.push(cur);
    proof {
        assert(s@.take(n as int) =~= s@);
        assert(string_views(fields@) =~= split_fields(s@, ','));
    }
    fields
}

/// `p` is the first position of `c` in `s`.
pub open spec fn is_first_index(s: Seq<char>, c: char, p: int) -> bool {
    0 <= p < s.len() && s[p] == c && forall|j: int| 0 <= j < p ==> s[j] != c
}

/// Whether `c` occurs in `s`.
pub open spec fn has_char(s: Seq<char>, c: char) -> bool {
    exists|j: int| 0 <= j < s.len() && s[j] == c
}

fn find_char(s: &str, c: char) -> (r: Option<usize>)
    ensures
        r matches Some(p) ==> is_first_index(s@, c, p as int),
        r is None ==> !has_char(s@, c),
{
    let n = s.unicode_len();
    let mut i: usize = 0;
    while i < n
        invariant
            n == s@.len(),
            i <= n,
            forall|j: int| 0 <= j < i ==> s@[j] != c,
        decreases n - i,
    {
        if s.get_char(i) == c {
            return Some(i);
        }
        i = i + 1;
    }
    None
}

fn substring(s: &str, from: usize, to: usize) -> (r: String)
    requires
        from <= to <= s@.len(),
    ensures
        r@ == s@.subrange(from as int, to as int),
{
    let mut out = String::new();
    let mut i: usize = from;
    while i < to
        invariant
            from <= i <= to,
            to <= s@.len(),
            out@ == s@.subrange(from as int, i as int),
        decreases to - i,
    {
        push_char(&mut out, s.get_char(i));
        proof {
            assert(out@ =~= s@.subrange(from as int, i + 1));
        }
        i = i + 1;
    }
    out
}

/// The parts of the combined script's output "x,y,height|result": the
/// window fields before the first `|`, which must be three, and the script
/// result after it, absent when it is empty, "null" or "missing value".
pub fn split_combined_output(stdout: &str) -> (r: Result<(Vec<String>, Option<String>), String>)
    ensures
        !has_char(stdout@, '|') ==> (r matches Err(e) && e@ == "Invalid combined output format: "@
            + stdout@),
        forall|p: int|
            is_first_index(stdout@, '|', p) ==> {
                let win = stdout@.take(p);
                let js = stdout@.skip(p + 1);
                if split_fields(win, ',').len() != 3 {
                    r matches Err(e) && e@ == "Invalid window info: "@ + win
                } else {
                    &&& r matches Ok(parts)
                    &&& string_views(r->Ok_0.0@) == split_fields(win, ',')
                    &&& if js.len() == 0 || js == "null"@ || js == "missing value"@ {
                        r->Ok_0.1 is None
                    } else {
                        r->Ok_0.1 matches Some(t) && t@ == js
                    }
                }
            },
{
    let n = stdout.unicode_len();
    let bar = match find_char(stdout, '|') {
        Some(p) => p,
        None => {
            let mut msg = owned("Invalid combined output format: ");
            msg.append(stdout);
            return Err(msg);
        },
    };
    let window = substring(stdout, 0, bar);
    let js = substring(stdout, bar + 1, n);
    proof {
        assert(window@ =~= stdout@.take(bar as int));
        assert(js@ =~= stdout@.skip(bar + 1));
        assert forall|p: int| is_first_index(stdout@, '|', p) implies p == bar by {
            if p < bar {
                assert(stdout@[p] != '|');
            } else if p > bar {
                assert(stdout@[bar as int] != '|');
            }
        }
    }
    let win_parts = split_commas(window.as_str());
    if win_parts.len() != 3 {
        let mut msg = owned("Invalid window info: ");
        msg.append(window.as_str());
        return Err(msg);
    }
    let empty = js.as_str().unicode_len() == 0 || str_eq(js.as_str(), "null") || str_eq(
        js.as_str(),
        "missing value",
    );
    if empty {
        Ok((win_parts, None))
    } else {
        Ok((win_parts, Some(js)))
    }
}

} // verus!
