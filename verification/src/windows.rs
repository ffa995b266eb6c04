//! Window decisions: the pending-attention marker, the WebUI's trailing name
//! suffix, fallback titles and native title adornments, the in-page
//! tunnel-status call, navigation policy, content-window order, placement
//! of new windows, macOS chrome updates and when closing hides or quits.
use vstd::prelude::*;
use crate::state::{spec_status_name, TunnelStatus};
use crate::text::{
    all_ascii, ascii_lower_seq, chars_of, lemma_trim_idempotent, lemma_trim_prefix_of_trimmed, lemma_trimmed_first, dec, dec_string, has_prefix, is_ws, lowercase, owned,
    parse_unsigned, parse_unsigned_chars, push_char, push_str, skip_ws, string_of,
    strip_all_prefixes, trim, trim_bounds, trim_start, trimmed, unicode_lowercase,
};
use crate::weburl::{parse_url, parts_view, url_parse_result, UrlParts};

verus! {

// ---------------------------------------------------------------------------
// Pending-attention marker
// ---------------------------------------------------------------------------

/// The glyph the WebUI prepends to `document.title` while the session waits
/// on the user (an approval or clarify popup).
pub const ATTENTION_MARKER: char = '●';

/// `(pending, title)`: after leading whitespace, a marker flags the title as
/// pending and is dropped together with the whitespace after it; otherwise
/// the title is returned untouched.
pub open spec fn spec_split_attention(raw: Seq<char>) -> (bool, Seq<char>) {
    let t = trim_start(raw);
    if t.len() > 0 && t[0] == ATTENTION_MARKER {
        (true, trim_start(t.drop_first()))
    } else {
        (false, raw)
    }
}

/// Split a reported `document.title` into (pending-attention, marker-free title).
pub fn split_attention(raw: &str) -> (r: (bool, &str))
    ensures
        (r.0, r.1@) == spec_split_attention(raw@),
{
    let v = chars_of(raw);
    let i = skip_ws(&v, 0);
    assert(v@.skip(0) =~= v@);
    if i < v.len() && v[i] == ATTENTION_MARKER {
        let j = skip_ws(&v, i + 1);
        assert(v@.skip(i as int).drop_first() =~= v@.skip(i + 1));
        assert(v@.skip(j as int) =~= v@.subrange(j as int, v@.len() as int));
        (true, raw.substring_char(j, v.len()))
    } else {
        (false, raw)
    }
}

// ---------------------------------------------------------------------------
// Trailing name suffix
// ---------------------------------------------------------------------------

/// Title-segment separators the WebUI may place before its trailing name.
pub const TITLE_SEPARATORS: &'static str = "—–|·-";

/// A trailing ` <sep> <segment>` suffix whose segment holds no separator, so
/// only the last separator group is matched; leading `\s*` so a title that is
/// only " — Name" matches from its first character.
pub const TITLE_SUFFIX_PATTERN: &'static str = r"\s*[—–|·-]\s+[^—–|·-]+\s*$";

/// Name for what `regex::Regex::new(pattern)` and then `replace(haystack,
/// replacement)` yield: `None` when the pattern is rejected, otherwise the
/// haystack with its leftmost-first match replaced.
pub uninterp spec fn regex_replace_first(pattern: Seq<char>, haystack: Seq<char>, replacement: Seq<char>) -> Option<Seq<char>>;

/// `regex::Regex::new(pattern)` then `Regex::replace(haystack, replacement)`:
/// compile the pattern and replace its leftmost-first match. The result is
/// named, not described (regex matching semantics), except for the title
/// suffix pattern removed with an empty replacement: that pattern compiles,
/// every match of it ends at the end of the haystack (`$` without multi-line
/// mode) so removing it leaves a leading part, and it needs one separator
/// character, so a haystack without one comes back unchanged.
#[verifier::external_body]
fn regex_replace(pattern: &str, haystack: &str, replacement: &str) -> (r: Option<String>)
    ensures
        r is None <==> regex_replace_first(pattern@, haystack@, replacement@) is None,
        r matches Some(s) ==> regex_replace_first(pattern@, haystack@, replacement@) == Some(s@),
        pattern@ == TITLE_SUFFIX_PATTERN@ && replacement@ == ""@ ==> r is Some,
        pattern@ == TITLE_SUFFIX_PATTERN@ && replacement@ == ""@ && r is Some ==> has_prefix(haystack@, r->0@),
        pattern@ == TITLE_SUFFIX_PATTERN@ && replacement@ == ""@ && r is Some && (forall|i: int|
            0 <= i < haystack@.len() ==> !is_separator(#[trigger] haystack@[i])) ==> r->0@ == haystack@,
{
    match regex::Regex::new(pattern) {
        Ok(re) => Some(re.replace(haystack, replacement).into_owned()),
        Err(_) => None,
    }
}

/// A title separator character.
pub open spec fn is_separator(c: char) -> bool {
    c == '—' || c == '–' || c == '|' || c == '·' || c == '-'
}

/// Only whitespace and separators: a transient title, not a real one.
pub open spec fn separator_only(s: Seq<char>) -> bool {
    forall|i: int| 0 <= i < s.len() ==> is_ws(#[trigger] s[i]) || is_separator(s[i])
}

/// The cleaned title, from the text left after the suffix was removed.
pub open spec fn spec_clean_stripped(stripped: Seq<char>) -> Seq<char> {
    let t = trim(stripped);
    if separator_only(t) {
        Seq::empty()
    } else {
        t
    }
}

/// `clean_title`: trim, remove the trailing `<sep> <name>` suffix, trim
/// again, and collapse a separator-only remainder to empty. When the suffix
/// pattern is rejected by the regex engine, no suffix is removed.
pub open spec fn spec_clean_title(raw: Seq<char>) -> Seq<char> {
    match regex_replace_first(TITLE_SUFFIX_PATTERN@, trim(raw), ""@) {
        Some(r) => spec_clean_stripped(r),
        None => spec_clean_stripped(trim(raw)),
    }
}

/// A cleaned title is either empty (a transient report) or trimmed and
/// holding at least one character that is neither whitespace nor a
/// separator — whatever the suffix pattern removed.
pub proof fn law_clean_title_shape(raw: Seq<char>)
    ensures
        spec_clean_title(raw).len() == 0 || (trim(spec_clean_title(raw)) == spec_clean_title(raw)
            && !separator_only(spec_clean_title(raw))),
{
    let stripped = match regex_replace_first(TITLE_SUFFIX_PATTERN@, trim(raw), ""@) {
        Some(r) => r,
        None => trim(raw),
    };
    lemma_trim_idempotent(stripped);
}

fn is_separator_char(c: char) -> (b: bool)
    ensures
        b == is_separator(c),
{
    c == '—' || c == '–' || c == '|' || c == '·' || c == '-'
}

/// Finish cleaning a title whose suffix has already been removed: trim it,
/// and collapse a remainder of only whitespace and separators to empty.
pub fn clean_title_from_stripped(stripped: &str) -> (t: String)
    ensures
        t@ == spec_clean_stripped(stripped@),
{
    let v = chars_of(stripped);
    let (a, b) = trim_bounds(&v);
    let mut k = a;
    while k < b
        invariant
            a <= k <= b <= v.len(),
            v@ == stripped@,
            trim(v@) == v@.subrange(a as int, b as int),
            forall|m: int| a <= m < k ==> is_ws(#[trigger] v@[m]) || is_separator(v@[m]),
        decreases b - k,
    {
        if !(crate::text::char_is_ws(v[k]) || is_separator_char(v[k])) {
            assert(v@.subrange(a as int, b as int)[k - a] == v@[k as int]);
            assert(!(is_ws(v@.subrange(a as int, b as int)[k - a]) || is_separator(v@.subrange(a as int, b as int)[k - a])));
            assert(!separator_only(v@.subrange(a as int, b as int)));
            assert(trim(stripped@) == v@.subrange(a as int, b as int));
            assert(spec_clean_stripped(stripped@) == v@.subrange(a as int, b as int));
            return string_of(&v, a, b);
        }
        k += 1;
    }
    assert(separator_only(v@.subrange(a as int, b as int))) by {
        assert forall|i: int| 0 <= i < b - a implies is_ws(#[trigger] v@.subrange(a as int, b as int)[i])
            || is_separator(v@.subrange(a as int, b as int)[i]) by {
            assert(v@.subrange(a as int, b as int)[i] == v@[a + i]);
        }
    }
    String::new()
}

/// Strip the WebUI's trailing " — <name>" suffix (the bot name, or the
/// profile name on a non-default profile) from a reported title. Empty for
/// an empty or separator/suffix-only title.
pub fn clean_title(raw: &str) -> (t: String)
    ensures
        t@ == spec_clean_title(raw@),
        regex_replace_first(TITLE_SUFFIX_PATTERN@, trim(raw@), ""@) is Some,
        has_prefix(trim(raw@), t@),
        (forall|i: int| 0 <= i < trim(raw@).len() ==> !is_separator(#[trigger] trim(raw@)[i])) ==> t@ == trim(raw@),
{
    let tr = trimmed(raw);
    proof {
        lemma_trim_idempotent(raw@);
    }
    match regex_replace(TITLE_SUFFIX_PATTERN, tr.as_str(), "") {
        Some(r) => {
            let t = clean_title_from_stripped(r.as_str());
            proof {
                lemma_trim_prefix_of_trimmed(tr@, r@);
                if t@.len() == 0 {
                    assert(tr@.take(0) =~= t@);
                }
                if forall|i: int| 0 <= i < tr@.len() ==> !is_separator(#[trigger] tr@[i]) {
                    if tr@.len() > 0 {
                        lemma_trimmed_first(tr@);
                        assert(!separator_only(tr@));
                    } else {
                        assert(tr@ =~= Seq::<char>::empty());
                    }
                }
            }
            t
        },
        None => clean_title_from_stripped(tr.as_str()),
    }
}

// ---------------------------------------------------------------------------
// Display title
// ---------------------------------------------------------------------------

/// Longest title shown untruncated, in characters.
pub const TITLE_MAX_CHARS: usize = 40;

/// Characters kept before the ellipsis when a title is truncated.
pub const TITLE_KEEP_CHARS: usize = 38;

/// The `host[:port]` shown in the fallback title of a direct-mode window:
/// the parsed URL's host with its explicit port, or the raw target when it
/// does not parse or has no host.
pub open spec fn spec_host_label(target: Seq<char>, parsed: Option<(Seq<char>, Option<Seq<char>>, Option<u16>)>) -> Seq<char> {
    match parsed {
        Some((_, Some(h), Some(p))) => h + ":"@ + dec(p as nat),
        Some((_, Some(h), None)) => h,
        _ => target,
    }
}

/// The window/tab title for a cleaned page title: the title itself
/// (truncated to 38 characters plus `…` beyond 40), else a fallback — in
/// direct mode `Hermes WebUI  ● host:port` (`○` when unhealthy), otherwise
/// `Hermes WebUI`.
pub open spec fn spec_display_from(
    cleaned: Seq<char>,
    mode: Seq<char>,
    target: Seq<char>,
    healthy: bool,
    parsed: Option<(Seq<char>, Option<Seq<char>>, Option<u16>)>,
) -> Seq<char> {
    if cleaned.len() > 0 {
        if cleaned.len() > TITLE_MAX_CHARS {
            cleaned.take(TITLE_KEEP_CHARS as int).push('…')
        } else {
            cleaned
        }
    } else if mode == "direct"@ {
        "Hermes WebUI  "@ + (if healthy {
            "●"@
        } else {
            "○"@
        }) + " "@ + spec_host_label(target, parsed)
    } else {
        "Hermes WebUI"@
    }
}

/// Optional parsed parts, viewed.
pub open spec fn opt_parts_view(p: Option<UrlParts>) -> Option<(Seq<char>, Option<Seq<char>>, Option<u16>)> {
    match p {
        Some(x) => Some(parts_view(x)),
        None => None,
    }
}

/// The display title from an already cleaned title and the parse of `target`.
pub fn display_title_from(
    cleaned: &str,
    mode: &str,
    target: &str,
    healthy: bool,
    parsed: Option<UrlParts>,
) -> (t: String)
    ensures
        t@ == spec_display_from(cleaned@, mode@, target@, healthy, opt_parts_view(parsed)),
{
    let cv = chars_of(cleaned);
    if cv.len() > 0 {
        if cv.len() > TITLE_MAX_CHARS {
            let mut out = string_of(&cv, 0, TITLE_KEEP_CHARS);
            push_char(&mut out, '…');
            assert(cv@.subrange(0, TITLE_KEEP_CHARS as int) =~= cv@.take(TITLE_KEEP_CHARS as int));
            return out;
        }
        return owned(cleaned);
    }
    let mv = chars_of(mode);
    let dv = chars_of("direct");
    if crate::text::starts_with(&mv, &dv) && mv.len() == dv.len() {
        assert(mv@ =~= "direct"@);
        let mut out = owned("Hermes WebUI  ");
        if healthy {
            push_str(&mut out, "●");
        } else {
            push_str(&mut out, "○");
        }
        push_str(&mut out, " ");
        match parsed {
            Some(UrlParts { scheme: _, host: Some(h), port: Some(p) }) => {
                push_str(&mut out, h.as_str());
                push_str(&mut out, ":");
                let ps = dec_string(p as u64);
                push_str(&mut out, ps.as_str());
            },
            Some(UrlParts { scheme: _, host: Some(h), port: None }) => {
                push_str(&mut out, h.as_str());
            },
            _ => {
                push_str(&mut out, target);
            },
        }
        assert(out@ =~= spec_display_from(cleaned@, mode@, target@, healthy, opt_parts_view(parsed)));
        out
    } else {
        proof {
            if mode@ == "direct"@ {
                assert(mv@.take(dv@.len() as int) =~= mv@);
            }
        }
        owned("Hermes WebUI")
    }
}

/// Title pipeline: clean the reported title, then truncate it or fall back.
pub fn display_title(raw: &str, mode: &str, target: &str, healthy: bool) -> (t: String)
    ensures
        t@ == spec_display_from(spec_clean_title(raw@), mode@, target@, healthy, url_parse_result(target@)),
{
    let cleaned = clean_title(raw);
    let parsed = parse_url(target);
    display_title_from(cleaned.as_str(), mode, target, healthy, parsed)
}

/// A non-empty cleaned title is never shown longer than 40 characters.
pub proof fn law_display_title_bounded(
    cleaned: Seq<char>,
    mode: Seq<char>,
    target: Seq<char>,
    healthy: bool,
    parsed: Option<(Seq<char>, Option<Seq<char>>, Option<u16>)>,
)
    requires
        cleaned.len() > 0,
    ensures
        spec_display_from(cleaned, mode, target, healthy, parsed).len() <= TITLE_MAX_CHARS,
        cleaned.len() <= TITLE_MAX_CHARS ==> spec_display_from(cleaned, mode, target, healthy, parsed)
            == cleaned,
{
}

// ---------------------------------------------------------------------------
// Native title adornments
// ---------------------------------------------------------------------------

/// The native tab title: a non-empty profile name prefixes the base title,
/// then the state glyph leads — `●` while the session waits on the user
/// (outranking busy), `⟳` while it works.
pub open spec fn spec_adorned_title(base: Seq<char>, profile_name: Option<Seq<char>>, busy: bool, attention: bool) -> Seq<char> {
    let titled = match profile_name {
        Some(n) if n.len() > 0 => n + " · "@ + base,
        _ => base,
    };
    if attention {
        "● "@ + titled
    } else if busy {
        "⟳ "@ + titled
    } else {
        titled
    }
}

/// Optional string slice, viewed.
pub open spec fn opt_str_view(o: Option<&str>) -> Option<Seq<char>> {
    match o {
        Some(s) => Some(s@),
        None => None,
    }
}

/// Adorn a display title for a native (macOS) tab.
pub fn adorned_title(base: &str, profile_name: Option<&str>, busy: bool, attention: bool) -> (t: String)
    ensures
        t@ == spec_adorned_title(base@, opt_str_view(profile_name), busy, attention),
{
    let mut out = if attention {
        owned("● ")
    } else if busy {
        owned("⟳ ")
    } else {
        String::new()
    };
    let ghost lead = out@;
    match profile_name {
        Some(n) => {
            let nv = chars_of(n);
            if nv.len() > 0 {
                push_str(&mut out, n);
                push_str(&mut out, " · ");
            }
        },
        None => {},
    }
    push_str(&mut out, base);
    proof {
        let titled = match opt_str_view(profile_name) {
            Some(n) if n.len() > 0 => n + " · "@ + base@,
            _ => base@,
        };
        assert(out@ =~= lead + titled);
        assert(lead + titled =~= spec_adorned_title(base@, opt_str_view(profile_name), busy, attention));
    }
    out
}

/// The title of a native content window: its display title (the mode the
/// window was built for, `direct` when unknown), adorned with its profile
/// name and its (busy, attention) state (neither when unknown).
pub fn window_title(
    raw: &str,
    mode: Option<&str>,
    target: &str,
    healthy: bool,
    profile_name: Option<&str>,
    indicator: Option<(bool, bool)>,
) -> (t: String)
    ensures
        t@ == spec_adorned_title(
            spec_display_from(
                spec_clean_title(raw@),
                match mode {
                    Some(m) => m@,
                    None => "direct"@,
                },
                target@,
                healthy,
                url_parse_result(target@),
            ),
            opt_str_view(profile_name),
            match indicator {
                Some(p) => p.0,
                None => false,
            },
            match indicator {
                Some(p) => p.1,
                None => false,
            },
        ),
{
    let m = match mode {
        Some(m) => m,
        None => "direct",
    };
    let base = display_title(raw, m, target, healthy);
    let (busy, attention) = match indicator {
        Some(p) => p,
        None => (false, false),
    };
    adorned_title(base.as_str(), profile_name, busy, attention)
}

/// Merge a (busy, attention) report into the current pair; `None` keeps that
/// half. Returns the new pair and whether it differs (a repaint is due).
pub fn next_indicator(cur: (bool, bool), busy: Option<bool>, attention: Option<bool>) -> (r: ((bool, bool), bool))
    ensures
        r.0.0 == match busy {
            Some(b) => b,
            None => cur.0,
        },
        r.0.1 == match attention {
            Some(a) => a,
            None => cur.1,
        },
        r.1 == (r.0 != cur),
{
    let b = match busy {
        Some(b) => b,
        None => cur.0,
    };
    let a = match attention {
        Some(a) => a,
        None => cur.1,
    };
    ((b, a), b != cur.0 || a != cur.1)
}

/// Where a reported `document.title` goes.
#[derive(Clone, Debug)]
pub enum TitleReport {
    /// A transient empty or separator-only title: ignored, so a known-good
    /// title is never downgraded to the host fallback.
    Ignore,
    /// A strip tab's title (marker-free) and its pending-attention state.
    Tab { title: String, attention: bool },
    /// A native content window's title (marker-free) and attention state.
    Window { title: String, attention: bool },
}

/// Route a title reported by webview `label`: the attention marker is split
/// off; a title that cleans to nothing is ignored; `tab-` labels belong to
/// the strip, everything else is a native window.
pub fn route_reported_title(label: &str, raw: &str) -> (r: TitleReport)
    ensures
        ({
            let (attention, title) = spec_split_attention(raw@);
            &&& spec_clean_title(title).len() == 0 ==> r is Ignore
            &&& spec_clean_title(title).len() > 0 && has_prefix(label@, "tab-"@) ==> (r matches TitleReport::Tab { title: t, attention: a } && t@ == title && a == attention)
            &&& spec_clean_title(title).len() > 0 && !has_prefix(label@, "tab-"@) ==> (r matches TitleReport::Window { title: t, attention: a } && t@ == title && a == attention)
        }),
{
    let (attention, title) = split_attention(raw);
    let cleaned = clean_title(title);
    let cv = chars_of(cleaned.as_str());
    if cv.len() == 0 {
        return TitleReport::Ignore;
    }
    let lv = chars_of(label);
    let tp = chars_of("tab-");
    if crate::text::starts_with(&lv, &tp) {
        TitleReport::Tab { title: owned(title), attention }
    } else {
        TitleReport::Window { title: owned(title), attention }
    }
}

/// The offline badge after a tunnel status change: shown when disconnected,
/// cleared when connected, unchanged while connecting.
pub fn offline_badge_for(status: TunnelStatus) -> (b: Option<bool>)
    ensures
        b == match status {
            TunnelStatus::Connected => Some(false),
            TunnelStatus::Disconnected => Some(true),
            TunnelStatus::Connecting => None::<bool>,
        },
{
    match status {
        TunnelStatus::Connected => Some(false),
        TunnelStatus::Disconnected => Some(true),
        TunnelStatus::Connecting => None,
    }
}

/// Whether a moved/resized window's frame is saved: only the first content
/// window (`main-` label, lowest sequence), and never while fullscreen or
/// minimized.
pub fn should_persist_frame(label: &str, first_label: Option<&str>, fullscreen: bool, minimized: bool) -> (p: bool)
    ensures
        p == (has_prefix(label@, "main-"@) && (first_label matches Some(f) && f@ == label@) && !fullscreen
            && !minimized),
{
    let lv = chars_of(label);
    let mp = chars_of("main-");
    if !crate::text::starts_with(&lv, &mp) {
        return false;
    }
    match first_label {
        Some(f) => crate::text::str_eq(f, label) && !fullscreen && !minimized,
        None => false,
    }
}

// ---------------------------------------------------------------------------
// In-page tunnel status
// ---------------------------------------------------------------------------

/// `s` without backslashes and single quotes, so it can sit in a JS string.
pub open spec fn js_quote_safe(s: Seq<char>) -> Seq<char>
    decreases s.len(),
{
    if s.len() == 0 {
        s
    } else if s.last() == '\\' || s.last() == '\'' {
        js_quote_safe(s.drop_last())
    } else {
        js_quote_safe(s.drop_last()).push(s.last())
    }
}

/// The script that pushes a tunnel status into a page's footer.
pub open spec fn spec_tunnel_status_script(status: TunnelStatus, host: Seq<char>, port: Seq<char>) -> Seq<char> {
    "if (window.__hermesSetTunnelStatus) window.__hermesSetTunnelStatus('"@ + spec_status_name(status)
        + "', '"@ + js_quote_safe(host) + "', '"@ + js_quote_safe(port) + "');"@
}

fn push_js_safe(out: &mut String, s: &str)
    ensures
        final(out)@ == old(out)@ + js_quote_safe(s@),
{
    let v = chars_of(s);
    let mut i: usize = 0;
    assert(v@.take(0) =~= Seq::<char>::empty());
    while i < v.len()
        invariant
            i <= v.len(),
            out@ == old(out)@ + js_quote_safe(v@.take(i as int)),
        decreases v.len() - i,
    {
        let c = v[i];
        proof {
            assert(v@.take(i + 1).drop_last() =~= v@.take(i as int));
            assert(v@.take(i + 1).last() == c);
        }
        if c != '\\' && c != '\'' {
            push_char(out, c);
        }
        i += 1;
    }
    assert(v@.take(i as int) =~= s@);
}

/// The script that pushes `status` into a page's tunnel footer.
pub fn tunnel_status_script(status: TunnelStatus, host: &str, port: &str) -> (js: String)
    ensures
        js@ == spec_tunnel_status_script(status, host@, port@),
{
    let mut out = owned("if (window.__hermesSetTunnelStatus) window.__hermesSetTunnelStatus('");
    push_str(&mut out, status.as_str());
    push_str(&mut out, "', '");
    push_js_safe(&mut out, host);
    push_str(&mut out, "', '");
    push_js_safe(&mut out, port);
    push_str(&mut out, "');");
    out
}

// ---------------------------------------------------------------------------
// Navigation policy
// ---------------------------------------------------------------------------

/// What happens to a top-frame navigation in a content webview.
#[derive(Clone, Copy, Debug, PartialEq, Eq, Structural)]
pub enum NavDecision {
    /// The webview loads it.
    Allow,
    /// Refused outright (`file:`).
    Block,
    /// Refused here and opened in the system browser instead.
    OpenExternally,
}

/// `s` without leading and trailing `[` / `]`.
pub open spec fn strip_brackets(s: Seq<char>) -> Seq<char>
    decreases s.len(),
{
    if s.len() > 0 && (s[0] == '[' || s[0] == ']') {
        strip_brackets(s.drop_first())
    } else if s.len() > 0 && (s.last() == '[' || s.last() == ']') {
        strip_brackets(s.drop_last())
    } else {
        s
    }
}

/// Navigation policy over a URL's scheme and its lowercase, bracket-free
/// host: `file:` is refused; other non-web schemes (`about:`, `blob:`,
/// `data:` …) load, the engine needs them; a local host or the target's own
/// host loads; any other web host opens externally.
pub open spec fn spec_navigation(scheme: Seq<char>, host_key: Seq<char>, allowed_host: Option<Seq<char>>) -> NavDecision {
    if scheme == "file"@ {
        NavDecision::Block
    } else if scheme != "http"@ && scheme != "https"@ {
        NavDecision::Allow
    } else if host_key == "localhost"@ || host_key == "127.0.0.1"@ || host_key == "::1"@ {
        NavDecision::Allow
    } else if allowed_host == Some(host_key) {
        NavDecision::Allow
    } else {
        NavDecision::OpenExternally
    }
}

/// Safe navigation: `file:` never loads; a web page loads in the app only on
/// the local host or the target's own host, and any other web host goes to
/// the system browser instead.
pub proof fn law_safe_navigation(scheme: Seq<char>, host_key: Seq<char>, allowed_host: Option<Seq<char>>)
    ensures
        scheme == "file"@ ==> spec_navigation(scheme, host_key, allowed_host) == NavDecision::Block,
        (scheme == "http"@ || scheme == "https"@) ==> (spec_navigation(scheme, host_key, allowed_host)
            == NavDecision::Allow <==> (host_key == "localhost"@ || host_key == "127.0.0.1"@ || host_key
            == "::1"@ || allowed_host == Some(host_key))),
        (scheme == "http"@ || scheme == "https"@) ==> spec_navigation(scheme, host_key, allowed_host)
            != NavDecision::Block,
{
    reveal_strlit("file");
    reveal_strlit("http");
    reveal_strlit("https");
    assert("file"@[0] != "http"@[0]);
    assert("file"@.len() != "https"@.len());
}

fn eq_lit(v: &Vec<char>, lit: &str) -> (b: bool)
    ensures
        b == (v@ == lit@),
{
    let l = chars_of(lit);
    if v.len() != l.len() {
        return false;
    }
    let b = crate::text::starts_with(v, &l);
    assert(v@.take(l@.len() as int) =~= v@);
    b
}

/// The host a window's pages may stay on: the target URL's host, lowercased;
/// none when the target does not parse or names no host.
pub open spec fn spec_allowed_host(target: Seq<char>) -> Option<Seq<char>> {
    match url_parse_result(target) {
        Some((_, Some(h), _)) => Some(unicode_lowercase(h)),
        _ => None,
    }
}

/// The in-app host for windows opened onto `target`.
pub fn allowed_host(target: &str) -> (h: Option<String>)
    ensures
        h matches Some(s) ==> spec_allowed_host(target@) == Some(s@),
        h is None ==> spec_allowed_host(target@) is None,
{
    match parse_url(target) {
        Some(p) => match p.host {
            Some(host) => Some(lowercase(host.as_str())),
            None => None,
        },
        None => None,
    }
}

/// The navigation decision given the host already lowercased.
pub fn navigation_decision_lowered(scheme: &str, host_key: &str, allowed_host: Option<&str>) -> (d: NavDecision)
    ensures
        d == spec_navigation(scheme@, host_key@, opt_str_view(allowed_host)),
{
    let sv = chars_of(scheme);
    if eq_lit(&sv, "file") {
        return NavDecision::Block;
    }
    if !eq_lit(&sv, "http") && !eq_lit(&sv, "https") {
        return NavDecision::Allow;
    }
    let hv = chars_of(host_key);
    if eq_lit(&hv, "localhost") || eq_lit(&hv, "127.0.0.1") || eq_lit(&hv, "::1") {
        return NavDecision::Allow;
    }
    match allowed_host {
        Some(a) => {
            let av = chars_of(a);
            let same = av.len() == hv.len() && crate::text::starts_with(&hv, &av);
            assert(av@.len() == hv@.len() ==> hv@.take(av@.len() as int) =~= hv@);
            assert(same == (av@ == hv@));
            if same {
                NavDecision::Allow
            } else {
                NavDecision::OpenExternally
            }
        },
        None => NavDecision::OpenExternally,
    }
}

/// Bounds of `strip_brackets(v)` within `v`.
fn bracket_bounds(v: &Vec<char>) -> (r: (usize, usize))
    ensures
        r.0 <= r.1 <= v.len(),
        strip_brackets(v@) == v@.subrange(r.0 as int, r.1 as int),
{
    let mut a: usize = 0;
    let mut b: usize = v.len();
    assert(v@.subrange(0, v@.len() as int) =~= v@);
    while a < b && (v[a] == '[' || v[a] == ']' || v[b - 1] == '[' || v[b - 1] == ']')
        invariant
            a <= b <= v.len(),
            strip_brackets(v@) == strip_brackets(v@.subrange(a as int, b as int)),
        decreases b - a,
    {
        let ghost s = v@.subrange(a as int, b as int);
        if v[a] == '[' || v[a] == ']' {
            assert(s[0] == v@[a as int]);
            assert(s.drop_first() =~= v@.subrange(a + 1, b as int));
            a += 1;
        } else {
            assert(s[0] == v@[a as int]);
            assert(s.last() == v@[b - 1]);
            assert(s.drop_last() =~= v@.subrange(a as int, b - 1));
            b -= 1;
        }
    }
    proof {
        let s = v@.subrange(a as int, b as int);
        if a < b {
            assert(s[0] == v@[a as int]);
            assert(s.last() == v@[b - 1]);
        }
    }
    (a, b)
}

/// The navigation decision for a URL with `scheme` and `host` (its host
/// string, if any) in a window whose target host is `allowed_host`.
pub fn navigation_decision(scheme: &str, host: Option<&str>, allowed_host: Option<&str>) -> (d: NavDecision)
    ensures
        d == spec_navigation(
            scheme@,
            unicode_lowercase(strip_brackets(match host {
                Some(h) => h@,
                None => Seq::empty(),
            })),
            opt_str_view(allowed_host),
        ),
        host matches Some(h) ==> (all_ascii(h@) ==> d == spec_navigation(
            scheme@,
            ascii_lower_seq(strip_brackets(h@)),
            opt_str_view(allowed_host),
        )),
{
    let hv = match host {
        Some(h) => chars_of(h),
        None => Vec::new(),
    };
    let (a, b) = bracket_bounds(&hv);
    let stripped = string_of(&hv, a, b);
    proof {
        if host is Some && all_ascii(host->0@) {
            assert forall|i: int| 0 <= i < stripped@.len() implies (#[trigger] stripped@[i] as u32) < 128 by {
                assert(stripped@[i] == hv@[a + i]);
            }
        }
    }
    let key = lowercase(stripped.as_str());
    navigation_decision_lowered(scheme, key.as_str(), allowed_host)
}

// ---------------------------------------------------------------------------
// Content-window ordering
// ---------------------------------------------------------------------------

/// The sort key of a window label: content windows (`main-<n>`) sort by `<n>`
/// (every leading `main-` dropped; `0` when the rest is not a number); other
/// labels are not content windows.
pub open spec fn spec_content_window_key(label: Seq<char>) -> Option<nat> {
    if has_prefix(label, "main-"@) {
        match parse_unsigned(strip_all_prefixes(label, "main-"@), u64::MAX as nat) {
            Some(n) => Some(n),
            None => Some(0),
        }
    } else {
        None
    }
}

/// The sort key of a window label among content windows.
pub fn content_window_key(label: &str) -> (k: Option<u64>)
    ensures
        k matches Some(n) ==> spec_content_window_key(label@) == Some(n as nat),
        k is None ==> spec_content_window_key(label@) is None,
{
    let mut v = chars_of(label);
    let p = chars_of("main-");
    if !crate::text::starts_with(&v, &p) {
        return None;
    }
    proof {
        reveal_strlit("main-");
    }
    let mut i: usize = 0;
    assert(v@.skip(0) =~= v@);
    while v.len() - i >= 5 && crate::text::matches_at(&v, i, &p)
        invariant
            i <= v.len(),
            p@ == "main-"@,
            "main-"@.len() == 5,
            strip_all_prefixes(v@, "main-"@) == strip_all_prefixes(v@.skip(i as int), "main-"@),
        decreases v.len() - i,
    {
        proof {
            let r = v@.skip(i as int);
            assert(r.take(5) =~= v@.subrange(i as int, i + 5));
            assert(r.skip(5) =~= v@.skip(i + 5));
        }
        i += 5;
    }
    proof {
        let r = v@.skip(i as int);
        if r.len() >= 5 {
            assert(r.take(5) =~= v@.subrange(i as int, i + 5));
        }
        assert(v@.skip(i as int) =~= v@.subrange(i as int, v@.len() as int));
    }
    let rest: Vec<char> = v.split_off(i);
    match parse_unsigned_chars(&rest, u64::MAX) {
        Some(n) => Some(n),
        None => Some(0),
    }
}

/// Every content window was built for `mode` (`modes[i]` is the recorded
/// mode of window `i`, if any): same-mode reconnects keep the windows alive.
pub open spec fn spec_all_modes_match(modes: Seq<Option<String>>, mode: Seq<char>) -> bool {
    forall|i: int| 0 <= i < modes.len() ==> (#[trigger] modes[i] matches Some(m) && m@ == mode)
}

/// Whether every content window was built for `mode`.
pub fn all_modes_match(modes: &Vec<Option<String>>, mode: &str) -> (r: bool)
    ensures
        r == spec_all_modes_match(modes@, mode@),
{
    let mut i: usize = 0;
    while i < modes.len()
        invariant
            i <= modes.len(),
            forall|k: int| 0 <= k < i ==> (#[trigger] modes@[k] matches Some(m) && m@ == mode@),
        decreases modes.len() - i,
    {
        let ok = match &modes[i] {
            Some(m) => crate::text::str_eq(m.as_str(), mode),
            None => false,
        };
        if !ok {
            return false;
        }
        i += 1;
    }
    true
}

// ---------------------------------------------------------------------------
// Window placement
// ---------------------------------------------------------------------------

/// Where a newly built content window goes.
#[derive(Clone, Copy, Debug, PartialEq, Eq, Structural)]
pub enum Placement {
    /// A saved frame: position and size in physical pixels.
    Frame { x: i32, y: i32, w: u32, h: u32 },
    /// Centered on the screen.
    Center,
    /// Into the host window's native tab group (macOS).
    JoinHostTabs,
    /// At this position: 28 pixels right of and below the host window.
    At { x: i32, y: i32 },
    /// Where the platform put it.
    Stay,
}

/// Offset of a cascaded window from its host, in pixels.
pub const CASCADE_OFFSET: i32 = 28;

/// The cascade position off a host at `host`, if its position is known; a
/// coordinate past `i32::MAX` wraps, as the platform's `i32` addition does
/// in a release build.
pub open spec fn cascade(host: Option<(i32, i32)>) -> Placement {
    match host {
        Some((x, y)) => Placement::At {
            x: x.wrapping_add(CASCADE_OFFSET),
            y: y.wrapping_add(CASCADE_OFFSET),
        },
        None => Placement::Stay,
    }
}

fn cascade_exec(host: Option<(i32, i32)>) -> (p: Placement)
    ensures
        p == cascade(host),
{
    match host {
        Some((x, y)) => Placement::At { x: x.wrapping_add(CASCADE_OFFSET), y: y.wrapping_add(CASCADE_OFFSET) },
        None => Placement::Stay,
    }
}

/// A saved frame as a placement.
pub open spec fn frame_placement(f: (i32, i32, u32, u32)) -> Placement {
    Placement::Frame { x: f.0, y: f.1, w: f.2, h: f.3 }
}

/// Placement of a native browser window: the first window restores the
/// saved first-window frame, else it is centered; a new tab joins the host's
/// tab group on macOS; anything else cascades off the host.
pub open spec fn spec_browser_placement(
    is_first: bool,
    as_tab: bool,
    macos: bool,
    saved: Option<(i32, i32, u32, u32)>,
    host: Option<(i32, i32)>,
) -> Placement {
    if is_first {
        match saved {
            Some(f) => frame_placement(f),
            None => Placement::Center,
        }
    } else if as_tab && macos {
        Placement::JoinHostTabs
    } else {
        cascade(host)
    }
}

/// Decide where a native browser window goes; `host` is the position of the
/// focused (or most recent) content window, if known.
pub fn browser_placement(
    is_first: bool,
    as_tab: bool,
    macos: bool,
    saved: Option<(i32, i32, u32, u32)>,
    host: Option<(i32, i32)>,
) -> (p: Placement)
    ensures
        p == spec_browser_placement(is_first, as_tab, macos, saved, host),
{
    if is_first {
        match saved {
            Some(f) => Placement::Frame { x: f.0, y: f.1, w: f.2, h: f.3 },
            None => Placement::Center,
        }
    } else if as_tab && macos {
        Placement::JoinHostTabs
    } else {
        cascade_exec(host)
    }
}

/// A window frame saved in a session, when both sides are at least 200
/// pixels: position truncated to `i32`, size to `u32`.
pub open spec fn spec_restored_frame(f: Option<[i64; 4]>) -> Option<(i32, i32, u32, u32)> {
    match f {
        Some(a) => if a@[2] >= 200 && a@[3] >= 200 {
            Some((a@[0] as i32, a@[1] as i32, a@[2] as u32, a@[3] as u32))
        } else {
            None
        },
        None => None,
    }
}

/// The usable frame of a saved session window.
pub fn restored_frame(f: Option<[i64; 4]>) -> (r: Option<(i32, i32, u32, u32)>)
    ensures
        r == spec_restored_frame(f),
{
    match f {
        Some(a) => {
            if a[2] >= 200 && a[3] >= 200 {
                Some((a[0] as i32, a[1] as i32, a[2] as u32, a[3] as u32))
            } else {
                None
            }
        },
        None => None,
    }
}

/// Placement of a strip window: a usable saved session frame wins; else the
/// first window restores the saved first-window frame or is centered; later
/// windows cascade off the host.
pub open spec fn spec_strip_placement(
    session_frame: Option<[i64; 4]>,
    is_first: bool,
    saved: Option<(i32, i32, u32, u32)>,
    host: Option<(i32, i32)>,
) -> Placement {
    match spec_restored_frame(session_frame) {
        Some(f) => frame_placement(f),
        None => if is_first {
            match saved {
                Some(f) => frame_placement(f),
                None => Placement::Center,
            }
        } else {
            cascade(host)
        },
    }
}

/// Decide where a strip window goes.
pub fn strip_placement(
    session_frame: Option<[i64; 4]>,
    is_first: bool,
    saved: Option<(i32, i32, u32, u32)>,
    host: Option<(i32, i32)>,
) -> (p: Placement)
    ensures
        p == spec_strip_placement(session_frame, is_first, saved, host),
{
    match restored_frame(session_frame) {
        Some(f) => Placement::Frame { x: f.0, y: f.1, w: f.2, h: f.3 },
        None => {
            if is_first {
                match saved {
                    Some(f) => Placement::Frame { x: f.0, y: f.1, w: f.2, h: f.3 },
                    None => Placement::Center,
                }
            } else {
                cascade_exec(host)
            }
        },
    }
}

// ---------------------------------------------------------------------------
// macOS chrome and window lifetime
// ---------------------------------------------------------------------------

/// The page-chrome script for a window whose native tab bar is `tabbed` and
/// which is `fullscreen` or not: the page hides its own titlebar while
/// tabbed, and leaves room for the traffic lights unless fullscreen.
pub open spec fn spec_chrome_script(tabbed: bool, fullscreen: bool) -> Seq<char> {
    "if (document.body) document.body.classList."@ + (if tabbed {
        "add"@
    } else {
        "remove"@
    }) + "('hermes-mac-tabbed'); document.documentElement.style.setProperty('--traffic-light-width', '"@
        + (if fullscreen {
        "0"@
    } else {
        "80"@
    }) + "px');"@
}

/// What a chrome refresh does for one window.
#[derive(Clone, Debug)]
pub struct ChromeUpdate {
    /// The script to run in the page, when the window's state changed.
    pub script: Option<String>,
    /// The fullscreen flag to save, when the first window entered or left
    /// fullscreen.
    pub save_fullscreen: Option<bool>,
}

/// A chrome refresh of a window last seen in state `prev` (none on first
/// sighting), now `tabbed` and `fullscreen`: the page is told only on a
/// change, and the first window's fullscreen is saved only on an observed
/// transition.
pub fn chrome_update(prev: Option<(bool, bool)>, tabbed: bool, fullscreen: bool, is_first: bool) -> (u: ChromeUpdate)
    ensures
        prev == Some((tabbed, fullscreen)) ==> u.script is None && u.save_fullscreen is None,
        prev != Some((tabbed, fullscreen)) ==> (u.script matches Some(js) && js@ == spec_chrome_script(tabbed, fullscreen)),
        prev != Some((tabbed, fullscreen)) ==> u.save_fullscreen == (if is_first && (prev matches Some(p) && p.1 != fullscreen) {
            Some(fullscreen)
        } else {
            None::<bool>
        }),
{
    let same = match prev {
        Some(p) => p.0 == tabbed && p.1 == fullscreen,
        None => false,
    };
    if same {
        return ChromeUpdate { script: None, save_fullscreen: None };
    }
    let mut js = owned("if (document.body) document.body.classList.");
    push_str(&mut js, if tabbed {
        "add"
    } else {
        "remove"
    });
    push_str(&mut js, "('hermes-mac-tabbed'); document.documentElement.style.setProperty('--traffic-light-width', '");
    push_str(&mut js, if fullscreen {
        "0"
    } else {
        "80"
    });
    push_str(&mut js, "px');");
    let save = match prev {
        Some(p) => {
            if is_first && p.1 != fullscreen {
                Some(fullscreen)
            } else {
                None
            }
        },
        None => None,
    };
    ChromeUpdate { script: Some(js), save_fullscreen: save }
}

/// Closing a content window (`main-` label) that is the last one only hides
/// it on macOS, where the app stays in the Dock.
pub fn close_only_hides(label: &str, content_windows: usize, macos: bool) -> (hide: bool)
    ensures
        hide == (macos && has_prefix(label@, "main-"@) && content_windows <= 1),
{
    let lv = chars_of(label);
    let mp = chars_of("main-");
    macos && crate::text::starts_with(&lv, &mp) && content_windows <= 1
}

/// After a window is destroyed on Windows/Linux, the app quits when no
/// content, error, preferences or splash window is left, unless a
/// connection run is rebuilding its windows; macOS keeps running.
pub fn quit_after_close(
    macos: bool,
    connecting: bool,
    content_windows: usize,
    error_open: bool,
    prefs_open: bool,
    splash_open: bool,
) -> (quit: bool)
    ensures
        quit == (!macos && !connecting && content_windows == 0 && !error_open && !prefs_open && !splash_open),
{
    !macos && !connecting && content_windows == 0 && !error_open && !prefs_open && !splash_open
}

// ---------------------------------------------------------------------------
// Content-window order
// ---------------------------------------------------------------------------

/// The views of a list of labels.
pub open spec fn label_views(labels: Seq<String>) -> Seq<Seq<char>> {
    labels.map_values(|l: String| l@)
}

/// Label `i` names a content window.
pub open spec fn is_content(labels: Seq<Seq<char>>, i: int) -> bool {
    0 <= i < labels.len() && spec_content_window_key(labels[i]) is Some
}

/// Content window `i` comes before content window `j`: by sequence number,
/// ties kept in their listed order.
pub open spec fn comes_before(labels: Seq<Seq<char>>, i: int, j: int) -> bool {
    let ki = spec_content_window_key(labels[i])->0;
    let kj = spec_content_window_key(labels[j])->0;
    ki < kj || (ki == kj && i < j)
}

/// The content windows among `labels`, as indices, in window order: every
/// `main-` label exactly once, ordered by its sequence number, equal numbers
/// in listed order.
pub open spec fn is_window_order(labels: Seq<Seq<char>>, order: Seq<usize>) -> bool {
    &&& forall|a: int| 0 <= a < order.len() ==> #[trigger] is_content(labels, order[a] as int)
    &&& forall|i: int| #[trigger] is_content(labels, i) ==> order.contains(i as usize)
    &&& forall|a: int, b: int|
        0 <= a < b < order.len() ==> #[trigger] comes_before(labels, order[a] as int, order[b] as int)
}

/// What the ordering loop keeps about the windows seen so far (`i` of them):
/// `order` lists content windows below `i` in window order, `keys` holds
/// their sequence numbers, and every content window below `i` is listed.
pub open spec fn order_so_far(lv: Seq<Seq<char>>, order: Seq<usize>, keys: Seq<u64>, i: int) -> bool {
    &&& order.len() == keys.len()
    &&& forall|a: int| 0 <= a < order.len() ==> (#[trigger] order[a]) < i
    &&& forall|a: int| 0 <= a < order.len() ==> #[trigger] is_content(lv, order[a] as int)
    &&& forall|a: int|
        0 <= a < order.len() ==> spec_content_window_key(lv[order[a] as int]) == Some(#[trigger] keys[a] as nat)
    &&& forall|j: int| 0 <= j < i && #[trigger] is_content(lv, j) ==> order.contains(j as usize)
    &&& forall|a: int, b: int|
        0 <= a < b < order.len() ==> #[trigger] comes_before(lv, order[a] as int, order[b] as int)
}

/// Inserting content window `i` (sequence number `k`) after every listed
/// window whose number is at most `k` keeps the order.
proof fn lemma_insert_keeps_order(lv: Seq<Seq<char>>, order: Seq<usize>, keys: Seq<u64>, i: int, k: u64, p: int)
    requires
        0 <= i < lv.len(),
        i <= usize::MAX,
        order_so_far(lv, order, keys, i),
        spec_content_window_key(lv[i]) == Some(k as nat),
        0 <= p <= keys.len(),
        forall|a: int| 0 <= a < p ==> keys[a] <= k,
        p < keys.len() ==> keys[p] > k,
    ensures
        order_so_far(lv, order.insert(p, i as usize), keys.insert(p, k), i + 1),
{
    let no = order.insert(p, i as usize);
    let nk = keys.insert(p, k);
    order.insert_ensures(p, i as usize);
    keys.insert_ensures(p, k);
    assert forall|a: int| p <= a < keys.len() implies keys[a] > k by {
        if a > p {
            assert(comes_before(lv, order[p] as int, order[a] as int));
        }
    }
    assert forall|a: int| 0 <= a < no.len() implies (#[trigger] no[a]) < i + 1 by {
        if a > p {
            assert(no[a] == order[a - 1]);
        }
    }
    assert forall|a: int| 0 <= a < no.len() implies #[trigger] is_content(lv, no[a] as int) by {
        if a > p {
            assert(no[a] == order[a - 1]);
        }
    }
    assert forall|a: int| 0 <= a < no.len() implies spec_content_window_key(lv[no[a] as int]) == Some(
        #[trigger] nk[a] as nat,
    ) by {
        if a > p {
            assert(no[a] == order[a - 1]);
            assert(nk[a] == keys[a - 1]);
        }
    }
    assert forall|j: int| 0 <= j < i + 1 && #[trigger] is_content(lv, j) implies no.contains(j as usize) by {
        if j == i {
            assert(no[p] == i as usize);
        } else {
            assert(order.contains(j as usize));
            let a = choose|a: int| 0 <= a < order.len() && order[a] == j as usize;
            if a < p {
                assert(no[a] == j as usize);
            } else {
                assert(no[a + 1] == j as usize);
            }
        }
    }
    assert forall|a: int, b: int| 0 <= a < b < no.len() implies #[trigger] comes_before(
        lv,
        no[a] as int,
        no[b] as int,
    ) by {
        if b < p {
        } else if a < p && b == p {
            assert(nk[a] <= k);
        } else if a < p && b > p {
            assert(no[b] == order[b - 1]);
        } else if a == p {
            assert(no[b] == order[b - 1]);
            assert(nk[b] == keys[b - 1]);
        } else {
            assert(no[a] == order[a - 1]);
            assert(no[b] == order[b - 1]);
            assert(comes_before(lv, order[a - 1] as int, order[b - 1] as int));
        }
    }
}

/// Order the windows listed by `labels`: the indices of the content windows,
/// sorted by sequence number, stable.
pub fn content_window_order(labels: &Vec<String>) -> (order: Vec<usize>)
    ensures
        is_window_order(label_views(labels@), order@),
{
    let ghost lv = label_views(labels@);
    let mut order: Vec<usize> = Vec::new();
    let mut keys: Vec<u64> = Vec::new();
    let mut i: usize = 0;
    while i < labels.len()
        invariant
            i <= labels.len(),
            lv == label_views(labels@),
            lv.len() == labels@.len(),
            order_so_far(lv, order@, keys@, i as int),
        decreases labels.len() - i,
    {
        assert(lv[i as int] == labels@[i as int]@);
        match content_window_key(labels[i].as_str()) {
            Some(k) => {
                let mut p: usize = 0;
                while p < keys.len() && keys[p] <= k
                    invariant
                        p <= keys@.len(),
                        forall|a: int| 0 <= a < p ==> keys@[a] <= k,
                    decreases keys@.len() - p,
                {
                    p += 1;
                }
                proof {
                    lemma_insert_keeps_order(lv, order@, keys@, i as int, k, p as int);
                }
                order.insert(p, i);
                keys.insert(p, k);
            },
            None => {
                assert(!is_content(lv, i as int));
            },
        }
        i += 1;
    }
    order
}

/// The focused window among windows in order (`focused[i]` tells whether
/// window `i` has the focus): the first focused one, else the last one.
pub fn focused_or_last(focused: &Vec<bool>) -> (r: Option<usize>)
    ensures
        focused@.len() == 0 ==> r is None,
        r matches Some(i) ==> i < focused@.len() && (focused@[i as int] || i == focused@.len() - 1),
        r matches Some(i) ==> forall|j: int| 0 <= j < i ==> !focused@[j],
        focused@.len() > 0 ==> r is Some,
{
    let mut i: usize = 0;
    while i < focused.len()
        invariant
            i <= focused@.len(),
            forall|j: int| 0 <= j < i ==> !focused@[j],
        decreases focused@.len() - i,
    {
        if focused[i] {
            return Some(i);
        }
        i += 1;
    }
    if focused.len() == 0 {
        None
    } else {
        Some(focused.len() - 1)
    }
}

} // verus!
