//! Session model: the shape of the workspace (windows, their ordered tabs
//! with URL and WebUI profile, the active tab, the frame) and the decisions
//! around capturing and replaying it. Only the non-sensitive profile
//! selector cookie is re-seeded per tab, never login cookies.
use vstd::prelude::*;
use crate::state::{opt_view, WindowTabs};
use crate::strip::PROFILE_COOKIE;
use crate::text::{chars_of, has_prefix, owned, str_eq, strip_trailing};
use crate::weburl::{parse_url, url_parse_result};

verus! {

/// Store key of the saved session.
pub const SESSION_KEY: &'static str = "session";

/// One saved tab.
#[derive(Clone, Debug)]
pub struct SessionTab {
    pub url: String,
    /// The tab's `hermes_profile` selector (`None` = default profile).
    pub profile: Option<String>,
    /// The tab's data-partition directory, reused on restore.
    pub partition: Option<String>,
    /// User-given tab name.
    pub custom_title: Option<String>,
}

/// One saved window.
#[derive(Clone, Debug)]
pub struct SessionWindow {
    /// `[x, y, w, h]` in physical pixels, or `None` to center/cascade.
    pub frame: Option<[i64; 4]>,
    pub active: usize,
    pub tabs: Vec<SessionTab>,
}

/// A saved workspace, tied to the connection it was captured under.
#[derive(Clone, Debug)]
pub struct Session {
    pub mode: String,
    pub target: String,
    pub windows: Vec<SessionWindow>,
}

/// Target comparison ignores trailing slashes.
pub open spec fn same_target(a: Seq<char>, b: Seq<char>) -> bool {
    strip_trailing(a, '/') == strip_trailing(b, '/')
}

/// A saved session is replayed only when it has windows and was captured
/// under the same mode and (trailing-slash-insensitively) the same target.
pub open spec fn spec_should_restore(saved: Session, mode: Seq<char>, target: Seq<char>) -> bool {
    &&& saved.windows@.len() > 0
    &&& saved.mode@ == mode
    &&& same_target(saved.target@, target)
}

fn strip_slashes_len(v: &Vec<char>) -> (n: usize)
    ensures
        n <= v.len(),
        strip_trailing(v@, '/') == v@.take(n as int),
{
    let mut n = v.len();
    assert(v@.take(n as int) =~= v@);
    while n > 0 && v[n - 1] == '/'
        invariant
            n <= v.len(),
            strip_trailing(v@, '/') == strip_trailing(v@.take(n as int), '/'),
        decreases n,
    {
        assert(v@.take(n as int).drop_last() =~= v@.take(n - 1));
        n -= 1;
    }
    proof {
        if n > 0 {
            assert(v@.take(n as int).last() == v@[n - 1]);
        }
    }
    n
}

fn same_target_exec(a: &str, b: &str) -> (r: bool)
    ensures
        r == same_target(a@, b@),
{
    let av = chars_of(a);
    let bv = chars_of(b);
    let na = strip_slashes_len(&av);
    let nb = strip_slashes_len(&bv);
    if na != nb {
        assert(strip_trailing(av@, '/').len() != strip_trailing(bv@, '/').len());
        return false;
    }
    let mut i: usize = 0;
    while i < na
        invariant
            i <= na,
            na == nb,
            na <= av.len(),
            nb <= bv.len(),
            av@ == a@,
            bv@ == b@,
            strip_trailing(av@, '/') == av@.take(na as int),
            strip_trailing(bv@, '/') == bv@.take(nb as int),
            forall|k: int| 0 <= k < i ==> av@[k] == bv@[k],
        decreases na - i,
    {
        if av[i] != bv[i] {
            assert(av@.take(na as int)[i as int] != bv@.take(nb as int)[i as int]);
            return false;
        }
        i += 1;
    }
    assert(av@.take(na as int) =~= bv@.take(nb as int));
    true
}


/// Whether `saved` should be replayed for a connection with `mode` and `target`.
pub fn should_restore(saved: &Session, mode: &str, target: &str) -> (r: bool)
    ensures
        r == spec_should_restore(*saved, mode@, target@),
{
    saved.windows.len() > 0 && str_eq(saved.mode.as_str(), mode) && same_target_exec(
        saved.target.as_str(),
        target,
    )
}

/// A trailing slash on the current target never decides whether a saved
/// session is replayed.
pub proof fn law_restore_ignores_trailing_slash(saved: Session, mode: Seq<char>, target: Seq<char>)
    ensures
        spec_should_restore(saved, mode, target.push('/')) == spec_should_restore(saved, mode, target),
{
    let t = target.push('/');
    assert(t.last() == '/');
    assert(t.drop_last() =~= target);
}

/// A captured tab URL is kept unless it is an `about:` page (a webview that
/// has not navigated yet); callers fall back to the target then.
pub open spec fn spec_navigated_url(u: Option<Seq<char>>) -> Option<Seq<char>> {
    match u {
        Some(s) if !has_prefix(s, "about:"@) => Some(s),
        _ => None,
    }
}

/// Keep a captured URL unless it is an `about:` page.
pub fn navigated_url(u: Option<String>) -> (r: Option<String>)
    ensures
        r matches Some(s) ==> spec_navigated_url(match u {
            Some(x) => Some(x@),
            None => None,
        }) == Some(s@),
        r is None ==> spec_navigated_url(match u {
            Some(x) => Some(x@),
            None => None,
        }) is None,
{
    match u {
        Some(s) => {
            let v = chars_of(s.as_str());
            let p = chars_of("about:");
            if crate::text::starts_with(&v, &p) {
                None
            } else {
                Some(s)
            }
        },
        None => None,
    }
}

/// Smallest saved window side, in pixels.
pub const MIN_SAVED_SIDE: u32 = 200;

/// The frame saved for a window: none while minimized or fullscreen, when
/// position or size is unknown, or when a side is under 200 pixels.
pub open spec fn spec_frame_of(minimized: bool, fullscreen: bool, pos: Option<(i32, i32)>, size: Option<(u32, u32)>) -> Option<Seq<i64>> {
    if minimized || fullscreen {
        None
    } else {
        match (pos, size) {
            (Some((x, y)), Some((w, h))) => if w < MIN_SAVED_SIDE || h < MIN_SAVED_SIDE {
                None
            } else {
                Some(seq![x as i64, y as i64, w as i64, h as i64])
            },
            _ => None,
        }
    }
}

/// The frame to save for a window, from its state and geometry.
pub fn frame_of_window(minimized: bool, fullscreen: bool, pos: Option<(i32, i32)>, size: Option<(u32, u32)>) -> (f: Option<[i64; 4]>)
    ensures
        f matches Some(a) ==> spec_frame_of(minimized, fullscreen, pos, size) == Some(a@),
        f is None ==> spec_frame_of(minimized, fullscreen, pos, size) is None,
{
    if minimized || fullscreen {
        return None;
    }
    let (x, y) = match pos {
        Some(p) => p,
        None => {
            return None;
        },
    };
    let (w, h) = match size {
        Some(s) => s,
        None => {
            return None;
        },
    };
    if w < MIN_SAVED_SIDE || h < MIN_SAVED_SIDE {
        return None;
    }
    let a: [i64; 4] = [x as i64, y as i64, w as i64, h as i64];
    assert(a@ =~= seq![x as i64, y as i64, w as i64, h as i64]);
    Some(a)
}

/// A capture is written only when it holds windows (an empty capture never
/// overwrites a saved session) and differs from the last write.
pub fn needs_write(captured_windows: usize, last: &str, serialized: &str) -> (w: bool)
    ensures
        w == (captured_windows > 0 && last@ != serialized@),
{
    captured_windows > 0 && !str_eq(last, serialized)
}

/// A cookie the shell seeds into a webview's jar: the attributes it sets.
#[derive(Clone, Debug)]
pub struct SeedCookie {
    pub name: String,
    pub value: String,
    /// `Path`, when set.
    pub path: Option<String>,
    /// `HttpOnly`, when set.
    pub http_only: Option<bool>,
    /// `Domain`, when set; none makes the cookie host-only.
    pub domain: Option<String>,
}

impl SeedCookie {
    /// The cookie name.
    pub fn name(&self) -> (r: &str)
        ensures
            r@ == self.name@,
    {
        self.name.as_str()
    }

    /// The cookie value.
    pub fn value(&self) -> (r: &str)
        ensures
            r@ == self.value@,
    {
        self.value.as_str()
    }

    /// The `Path` attribute, if set.
    pub fn path(&self) -> (r: Option<&str>)
        ensures
            r matches Some(p) ==> self.path matches Some(q) && p@ == q@,
            r is None ==> self.path is None,
    {
        match &self.path {
            Some(p) => Some(p.as_str()),
            None => None,
        }
    }

    /// The `HttpOnly` attribute, if set.
    pub fn http_only(&self) -> (r: Option<bool>)
        ensures
            r == self.http_only,
    {
        self.http_only
    }

    /// The `Domain` attribute, if set (none: host-only).
    pub fn domain(&self) -> (r: Option<&str>)
        ensures
            r matches Some(d) ==> self.domain matches Some(e) && d@ == e@,
            r is None ==> self.domain is None,
    {
        match &self.domain {
            Some(d) => Some(d.as_str()),
            None => None,
        }
    }
}

/// The WebUI's `hermes_profile` selector cookie for re-seeding a restored
/// tab: host-only (no `Domain`), `HttpOnly`, `Path=/`, as the server sets it.
pub fn profile_cookie(value: &str) -> (c: SeedCookie)
    ensures
        c.name@ == PROFILE_COOKIE@,
        c.value@ == value@,
        opt_view(c.path) == Some("/"@),
        c.http_only == Some(true),
        c.domain is None,
{
    SeedCookie {
        name: owned(PROFILE_COOKIE),
        value: owned(value),
        path: Some(owned("/")),
        http_only: Some(true),
        domain: None,
    }
}

/// The cookies seeding a restored strip tab: its profile selector, if it had one.
pub fn restore_seed(profile: &Option<String>) -> (seed: Vec<SeedCookie>)
    ensures
        profile is None ==> seed@.len() == 0,
        profile matches Some(v) ==> seed@.len() == 1 && seed@[0].name@ == PROFILE_COOKIE@ && seed@[0].value@
            == v@ && opt_view(seed@[0].path) == Some("/"@) && seed@[0].http_only == Some(true)
            && seed@[0].domain is None,
{
    let mut seed: Vec<SeedCookie> = Vec::new();
    match profile {
        Some(v) => seed.push(profile_cookie(v.as_str())),
        None => {},
    }
    seed
}

/// Which URL a restored tab loads.
#[derive(Clone, Copy, Debug, PartialEq, Eq, Structural)]
pub enum RestoreSource {
    /// Its saved URL.
    Saved,
    /// The connection target, the saved URL no longer parsing.
    Target,
    /// Neither parses: the tab is skipped.
    Skip,
}

/// The saved URL when it parses, else the target when that parses, else
/// nothing.
pub open spec fn spec_restore_source(saved: Seq<char>, target: Seq<char>) -> RestoreSource {
    if url_parse_result(saved) is Some {
        RestoreSource::Saved
    } else if url_parse_result(target) is Some {
        RestoreSource::Target
    } else {
        RestoreSource::Skip
    }
}

/// Choose the URL a restored tab loads.
pub fn restore_source(saved: &str, target: &str) -> (r: RestoreSource)
    ensures
        r == spec_restore_source(saved@, target@),
{
    if parse_url(saved).is_some() {
        RestoreSource::Saved
    } else if parse_url(target).is_some() {
        RestoreSource::Target
    } else {
        RestoreSource::Skip
    }
}

/// Which of `count` restored tabs gets the focus: the saved active one, or
/// the last when that index is past the end.
pub fn restored_focus(active: usize, count: usize) -> (i: Option<usize>)
    ensures
        count == 0 ==> i is None,
        count > 0 && active < count ==> i == Some(active),
        count > 0 && active >= count ==> i == Some((count - 1) as usize),
{
    if count == 0 {
        None
    } else if active < count {
        Some(active)
    } else {
        Some(count - 1)
    }
}

/// The captured form of one strip tab: its live URL (else the target), its
/// profile, partition and name.
pub open spec fn captured_tab_ok(t: SessionTab, e: crate::state::TabEntry, url: Option<String>, target: Seq<char>) -> bool {
    &&& t.url@ == (match url {
        Some(u) => u@,
        None => target,
    })
    &&& opt_view(t.profile) == opt_view(e.profile)
    &&& opt_view(t.partition) == Some(e.partition@)
    &&& opt_view(t.custom_title) == opt_view(e.custom_title)
}

fn clone_opt(o: &Option<String>) -> (r: Option<String>)
    ensures
        opt_view(r) == opt_view(*o),
{
    match o {
        Some(s) => Some(s.clone()),
        None => None,
    }
}

/// Capture one strip window for the session: each tab in order with its live
/// URL (`urls[i]`, or `target` when the webview has none), the active index
/// clamped to the tabs, and the window's frame. A window without tabs is
/// not captured.
pub fn capture_strip_window(
    w: &WindowTabs,
    urls: &Vec<Option<String>>,
    target: &str,
    frame: Option<[i64; 4]>,
) -> (r: Option<SessionWindow>)
    requires
        urls@.len() == w.tabs@.len(),
    ensures
        w.tabs@.len() == 0 ==> r is None,
        w.tabs@.len() > 0 ==> (r matches Some(sw) && {
            &&& sw.frame == frame
            &&& sw.active == (if (w.active as int) < w.tabs@.len() {
                w.active as int
            } else {
                w.tabs@.len() - 1
            })
            &&& sw.tabs@.len() == w.tabs@.len()
            &&& forall|i: int|
                0 <= i < sw.tabs@.len() ==> #[trigger] captured_tab_ok(sw.tabs@[i], w.tabs@[i], urls@[i], target@)
        }),
{
    let n = w.tabs.len();
    if n == 0 {
        return None;
    }
    let mut tabs: Vec<SessionTab> = Vec::new();
    let mut i: usize = 0;
    while i < n
        invariant
            n == w.tabs@.len(),
            urls@.len() == n,
            i <= n,
            tabs@.len() == i,
            forall|k: int| 0 <= k < i ==> #[trigger] captured_tab_ok(tabs@[k], w.tabs@[k], urls@[k], target@),
        decreases n - i,
    {
        let e = &w.tabs[i];
        let url = match &urls[i] {
            Some(u) => u.clone(),
            None => owned(target),
        };
        let t = SessionTab {
            url,
            profile: clone_opt(&e.profile),
            partition: Some(e.partition.clone()),
            custom_title: clone_opt(&e.custom_title),
        };
        assert(captured_tab_ok(t, w.tabs@[i as int], urls@[i as int], target@));
        tabs.push(t);
        i += 1;
    }
    let active = if w.active < n {
        w.active
    } else {
        n - 1
    };
    Some(SessionWindow { frame, active, tabs })
}

} // verus!
