//! Messages pages send through the `bridge` event, and what the shell does
//! about each: the JSON payload is read into plain fields, then one decision
//! names the action. Performing the action (notifications, files, windows)
//! belongs to the application.
use base64::Engine;
use vstd::prelude::*;
use crate::state::{opt_view, spec_cycle_index};
use crate::bridge::{
    is_web_url, shortcut_action, spec_is_web_url, spec_shortcut_action, ShortcutAction,
    DEFAULT_NOTIFY_BODY, DEFAULT_NOTIFY_TITLE,
};
use crate::strip::{spec_window_of_tab, window_of_tab};
use crate::text::{chars_of, has_prefix, owned, push_str, starts_with, str_eq};

verus! {

/// The fields of a bridge message, each present only when the payload holds
/// a string there: `label`, `kind`, `value`, and `value.title`,
/// `value.body`, `value.name`, `value.data`.
#[derive(Clone, Debug)]
pub struct BridgeMessage {
    pub label: Option<String>,
    pub kind: Option<String>,
    pub value: Option<String>,
    pub title: Option<String>,
    pub body: Option<String>,
    pub name: Option<String>,
    pub data: Option<String>,
}


/// The fields of a message, viewed, in declaration order.
pub open spec fn message_view(m: BridgeMessage) -> (
    Option<Seq<char>>,
    Option<Seq<char>>,
    Option<Seq<char>>,
    Option<Seq<char>>,
    Option<Seq<char>>,
    Option<Seq<char>>,
    Option<Seq<char>>,
) {
    (opt_view(m.label), opt_view(m.kind), opt_view(m.value), opt_view(m.title), opt_view(m.body), opt_view(m.name), opt_view(m.data))
}

/// Name for what `serde_json::from_str::<serde_json::Value>(raw)` yields,
/// read at `label`, `kind`, `value`, `value.title`, `value.body`,
/// `value.name`, `value.data` with `as_str`: `None` when `raw` is not JSON.
pub uninterp spec fn json_message_fields(raw: Seq<char>) -> Option<(
    Option<Seq<char>>,
    Option<Seq<char>>,
    Option<Seq<char>>,
    Option<Seq<char>>,
    Option<Seq<char>>,
    Option<Seq<char>>,
    Option<Seq<char>>,
)>;

/// `serde_json::from_str::<serde_json::Value>(raw)`, then the string fields
/// the bridge reads. The parse is named, not described (JSON grammar).
#[verifier::external_body]
fn read_message(raw: &str) -> (m: Option<BridgeMessage>)
    ensures
        m is None <==> json_message_fields(raw@) is None,
        m matches Some(x) ==> json_message_fields(raw@) == Some(message_view(x)),
{
    let v: serde_json::Value = serde_json::from_str(raw).ok()?;
    Some(BridgeMessage {
        label: v["label"].as_str().map(String::from),
        kind: v["kind"].as_str().map(String::from),
        value: v["value"].as_str().map(String::from),
        title: v["value"]["title"].as_str().map(String::from),
        body: v["value"]["body"].as_str().map(String::from),
        name: v["value"]["name"].as_str().map(String::from),
        data: v["value"]["data"].as_str().map(String::from),
    })
}

/// Name for what base64 (standard alphabet, padded) decoding of `data`
/// yields: `None` when it is not valid base64.
pub uninterp spec fn base64_decoded(data: Seq<char>) -> Option<Seq<u8>>;

/// `base64::engine::general_purpose::STANDARD.decode(data)`. The result is
/// named, not described.
#[verifier::external_body]
fn decode_base64(data: &str) -> (r: Option<Vec<u8>>)
    ensures
        r is None <==> base64_decoded(data@) is None,
        r matches Some(b) ==> base64_decoded(data@) == Some(b@),
{
    base64::engine::general_purpose::STANDARD.decode(data).ok()
}

/// Where a forwarded keyboard shortcut goes.
#[derive(Clone, Debug)]
pub enum ShortcutRoute {
    /// Add a tab to strip window `window`.
    AddTab { window: String },
    /// Open a new session (a tab when `as_tab`).
    NewSession { as_tab: bool },
    /// Close strip tab `tab`.
    CloseTab { tab: String },
    /// Close the native window `label`.
    CloseWindow { label: String },
    /// Select the next (or previous) tab of the strip holding `tab`.
    CycleTab { tab: String, forward: bool },
    /// Show or hide the tab bar of strip window `window`.
    ToggleStrip { window: String },
    OpenPrefs,
    ZoomIn,
    ZoomOut,
    ZoomReset,
    /// Nothing happens.
    Nothing,
}

/// What the shell does about a bridge message.
#[derive(Clone, Debug)]
pub enum BridgeAction {
    /// Nothing happens.
    Ignore,
    /// The page reported its background color as CSS text.
    Theme { css: String },
    /// Record the live URL of webview `label` (when it sent one) for session
    /// restore; a strip tab also re-reads its profile.
    Route { label: String, url: Option<String>, recapture_profile: bool },
    /// Set the profile name shown by strip tab `tab`'s dot.
    TabDotProfile { tab: String, name: String },
    /// Set the profile name shown in native window `window`'s title.
    WindowProfileName { window: String, name: String },
    /// Show a notification.
    Notify { title: String, body: String },
    /// Open an http(s) URL in the system browser.
    OpenExternal { url: String },
    /// Run the connection flow again.
    Reconnect,
    /// Save downloaded bytes under a name derived from `name`.
    SaveDownload { name: String, bytes: Vec<u8> },
    /// A download whose data did not decode; nothing is saved.
    BadDownload { name: String },
    /// Tell the user a download was too large for the page to hand over.
    TooLarge { title: String, body: String },
    /// A forwarded keyboard shortcut.
    Shortcut { route: ShortcutRoute },
}

/// A shortcut route, viewed.
pub enum RouteView {
    AddTab(Seq<char>),
    NewSession(bool),
    CloseTab(Seq<char>),
    CloseWindow(Seq<char>),
    CycleTab(Seq<char>, bool),
    ToggleStrip(Seq<char>),
    OpenPrefs,
    ZoomIn,
    ZoomOut,
    ZoomReset,
    Nothing,
}

/// A bridge action, viewed.
pub enum ActionView {
    Ignore,
    Theme(Seq<char>),
    Route(Seq<char>, Option<Seq<char>>, bool),
    TabDotProfile(Seq<char>, Seq<char>),
    WindowProfileName(Seq<char>, Seq<char>),
    Notify(Seq<char>, Seq<char>),
    OpenExternal(Seq<char>),
    Reconnect,
    SaveDownload(Seq<char>, Seq<u8>),
    BadDownload(Seq<char>),
    TooLarge(Seq<char>, Seq<char>),
    Shortcut(RouteView),
}

/// The view of a shortcut route.
pub open spec fn route_view(r: ShortcutRoute) -> RouteView {
    match r {
        ShortcutRoute::AddTab { window } => RouteView::AddTab(window@),
        ShortcutRoute::NewSession { as_tab } => RouteView::NewSession(as_tab),
        ShortcutRoute::CloseTab { tab } => RouteView::CloseTab(tab@),
        ShortcutRoute::CloseWindow { label } => RouteView::CloseWindow(label@),
        ShortcutRoute::CycleTab { tab, forward } => RouteView::CycleTab(tab@, forward),
        ShortcutRoute::ToggleStrip { window } => RouteView::ToggleStrip(window@),
        ShortcutRoute::OpenPrefs => RouteView::OpenPrefs,
        ShortcutRoute::ZoomIn => RouteView::ZoomIn,
        ShortcutRoute::ZoomOut => RouteView::ZoomOut,
        ShortcutRoute::ZoomReset => RouteView::ZoomReset,
        ShortcutRoute::Nothing => RouteView::Nothing,
    }
}

/// The view of a bridge action.
pub open spec fn action_view(a: BridgeAction) -> ActionView {
    match a {
        BridgeAction::Ignore => ActionView::Ignore,
        BridgeAction::Theme { css } => ActionView::Theme(css@),
        BridgeAction::Route { label, url, recapture_profile } => ActionView::Route(
            label@,
            opt_view(url),
            recapture_profile,
        ),
        BridgeAction::TabDotProfile { tab, name } => ActionView::TabDotProfile(tab@, name@),
        BridgeAction::WindowProfileName { window, name } => ActionView::WindowProfileName(window@, name@),
        BridgeAction::Notify { title, body } => ActionView::Notify(title@, body@),
        BridgeAction::OpenExternal { url } => ActionView::OpenExternal(url@),
        BridgeAction::Reconnect => ActionView::Reconnect,
        BridgeAction::SaveDownload { name, bytes } => ActionView::SaveDownload(name@, bytes@),
        BridgeAction::BadDownload { name } => ActionView::BadDownload(name@),
        BridgeAction::TooLarge { title, body } => ActionView::TooLarge(title@, body@),
        BridgeAction::Shortcut { route } => ActionView::Shortcut(route_view(route)),
    }
}

/// `o`, or `d` when absent.
pub open spec fn or_default(o: Option<Seq<char>>, d: Seq<char>) -> Seq<char> {
    match o {
        Some(s) => s,
        None => d,
    }
}

/// Where shortcut `v`, forwarded by webview `label`, goes; `strip_tab` says
/// the label is a strip tab's.
pub open spec fn spec_shortcut_route(v: Seq<char>, label: Seq<char>, strip_tab: bool) -> RouteView {
    match spec_shortcut_action(v) {
        Some(ShortcutAction::NewTab) => if strip_tab {
            match spec_window_of_tab(label) {
                Some(w) => RouteView::AddTab(w),
                None => RouteView::Nothing,
            }
        } else {
            RouteView::NewSession(true)
        },
        Some(ShortcutAction::NewWindow) => RouteView::NewSession(false),
        Some(ShortcutAction::Close) => if strip_tab {
            RouteView::CloseTab(label)
        } else {
            RouteView::CloseWindow(label)
        },
        Some(ShortcutAction::NextTab) => RouteView::CycleTab(label, true),
        Some(ShortcutAction::PrevTab) => RouteView::CycleTab(label, false),
        Some(ShortcutAction::ToggleBar) => if strip_tab {
            match spec_window_of_tab(label) {
                Some(w) => RouteView::ToggleStrip(w),
                None => RouteView::Nothing,
            }
        } else {
            RouteView::Nothing
        },
        Some(ShortcutAction::Prefs) => RouteView::OpenPrefs,
        Some(ShortcutAction::ZoomIn) => RouteView::ZoomIn,
        Some(ShortcutAction::ZoomOut) => RouteView::ZoomOut,
        Some(ShortcutAction::ZoomReset) => RouteView::ZoomReset,
        None => RouteView::Nothing,
    }
}

/// Title of the notice for a download too large to hand over.
pub const TOO_LARGE_TITLE: &'static str = "Download too large";

/// The body of the too-large notice for file `name`.
pub open spec fn too_large_body(name: Seq<char>) -> Seq<char> {
    name + " is too large to save from the app — open Hermes in your browser for this one."@
}

/// A download message whose `data` decoded to `decoded`: saved under its
/// name (`download` when unnamed) when the data was valid.
pub open spec fn spec_download_action(name: Option<Seq<char>>, decoded: Option<Seq<u8>>) -> ActionView {
    match decoded {
        Some(b) => ActionView::SaveDownload(or_default(name, "download"@), b),
        None => ActionView::BadDownload(or_default(name, "download"@)),
    }
}

/// What a message with fields `f` does, given the decode of its download
/// data: theme and route reports, profile names (strip tabs and macOS
/// windows only), notifications (when enabled), external links (http(s)
/// only), reconnects, downloads and shortcuts; anything else is ignored.
pub open spec fn spec_bridge_action(
    f: (
        Option<Seq<char>>,
        Option<Seq<char>>,
        Option<Seq<char>>,
        Option<Seq<char>>,
        Option<Seq<char>>,
        Option<Seq<char>>,
        Option<Seq<char>>,
    ),
    decoded: Option<Seq<u8>>,
    strip: bool,
    macos: bool,
    notifications: bool,
) -> ActionView {
    let label = or_default(f.0, ""@);
    let kind = or_default(f.1, ""@);
    let strip_tab = strip && has_prefix(label, "tab-"@);
    if kind == "theme"@ {
        match f.2 {
            Some(css) => ActionView::Theme(css),
            None => ActionView::Ignore,
        }
    } else if kind == "route"@ {
        ActionView::Route(label, f.2, strip_tab)
    } else if kind == "profile"@ {
        if strip_tab {
            ActionView::TabDotProfile(label, or_default(f.2, ""@))
        } else {
            ActionView::Ignore
        }
    } else if kind == "mac-profile"@ {
        if macos && has_prefix(label, "main-"@) {
            ActionView::WindowProfileName(label, or_default(f.2, ""@))
        } else {
            ActionView::Ignore
        }
    } else if kind == "notify"@ {
        if notifications {
            ActionView::Notify(or_default(f.3, DEFAULT_NOTIFY_TITLE@), or_default(f.4, DEFAULT_NOTIFY_BODY@))
        } else {
            ActionView::Ignore
        }
    } else if kind == "open-external"@ {
        match f.2 {
            Some(u) => if spec_is_web_url(u) {
                ActionView::OpenExternal(u)
            } else {
                ActionView::Ignore
            },
            None => ActionView::Ignore,
        }
    } else if kind == "reconnect"@ {
        ActionView::Reconnect
    } else if kind == "download"@ {
        spec_download_action(f.5, decoded)
    } else if kind == "download-too-big"@ {
        ActionView::TooLarge(TOO_LARGE_TITLE@, too_large_body(or_default(f.5, "file"@)))
    } else if kind == "shortcut"@ {
        match f.2 {
            Some(v) => ActionView::Shortcut(spec_shortcut_route(v, label, strip_tab)),
            None => ActionView::Ignore,
        }
    } else {
        ActionView::Ignore
    }
}

fn or_default_exec(o: &Option<String>, d: &str) -> (r: String)
    ensures
        r@ == or_default(opt_view(*o), d@),
{
    match o {
        Some(s) => s.clone(),
        None => owned(d),
    }
}

fn has_prefix_str(s: &str, p: &str) -> (b: bool)
    ensures
        b == has_prefix(s@, p@),
{
    let v = chars_of(s);
    let pv = chars_of(p);
    starts_with(&v, &pv)
}

/// A shortcut acts where it was pressed: a route naming a tab names the
/// sender, one naming a window names the sender or the strip window holding
/// the sending tab; in a tab, close closes that tab and elsewhere the
/// window; only known shortcuts do anything, and new-window always opens a
/// separate window.
pub proof fn law_shortcuts_act_on_sender(v: Seq<char>, label: Seq<char>, strip_tab: bool)
    ensures
        spec_shortcut_route(v, label, strip_tab) matches RouteView::CloseTab(t) ==> t == label && strip_tab,
        spec_shortcut_route(v, label, strip_tab) matches RouteView::CloseWindow(t) ==> t == label && !strip_tab,
        spec_shortcut_route(v, label, strip_tab) matches RouteView::CycleTab(t, _) ==> t == label,
        spec_shortcut_route(v, label, strip_tab) matches RouteView::AddTab(w) ==> strip_tab && spec_window_of_tab(label)
            == Some(w),
        spec_shortcut_route(v, label, strip_tab) matches RouteView::ToggleStrip(w) ==> strip_tab
            && spec_window_of_tab(label) == Some(w),
        spec_shortcut_action(v) is None ==> spec_shortcut_route(v, label, strip_tab) is Nothing,
        spec_shortcut_action(v) == Some(ShortcutAction::Close) ==> !(spec_shortcut_route(v, label, strip_tab) is Nothing),
        spec_shortcut_action(v) == Some(ShortcutAction::NewWindow) ==> spec_shortcut_route(v, label, strip_tab)
            == RouteView::NewSession(false),
{
}

/// The tab-cycling shortcuts act on the tab that sent them: next-tab moves
/// to the tab after the active one (wrapping to the first), prev-tab to the
/// tab before it (wrapping to the last), in a window of `len` tabs.
pub proof fn law_tab_cycling_shortcuts(v: Seq<char>, label: Seq<char>, strip_tab: bool, len: int, active: int)
    requires
        2 <= len,
        0 <= active < len,
    ensures
        spec_shortcut_action(v) == Some(ShortcutAction::NextTab) ==> (spec_shortcut_route(v, label, strip_tab) matches RouteView::CycleTab(
            tab,
            forward,
        ) && tab == label && spec_cycle_index(len, active, forward) == if active + 1 < len {
            active + 1
        } else {
            0
        }),
        spec_shortcut_action(v) == Some(ShortcutAction::PrevTab) ==> (spec_shortcut_route(v, label, strip_tab) matches RouteView::CycleTab(
            tab,
            forward,
        ) && tab == label && spec_cycle_index(len, active, forward) == if active > 0 {
            active - 1
        } else {
            len - 1
        }),
{
    if active + 1 < len {
        assert((active + 1) % len == active + 1) by (nonlinear_arith)
            requires 0 <= active + 1 < len;
    } else {
        assert((active + 1) % len == 0) by (nonlinear_arith)
            requires active + 1 == len, len >= 2;
    }
    if active > 0 {
        assert((active + len - 1) % len == active - 1) by (nonlinear_arith)
            requires 1 <= active < len;
    } else {
        assert((active + len - 1) % len == len - 1) by (nonlinear_arith)
            requires active == 0, len >= 2;
    }
}

/// Where shortcut `v` from webview `label` goes.
pub fn shortcut_route(v: &str, label: &str, strip_tab: bool) -> (r: ShortcutRoute)
    ensures
        route_view(r) == spec_shortcut_route(v@, label@, strip_tab),
{
    match shortcut_action(v) {
        Some(ShortcutAction::NewTab) => {
            if strip_tab {
                match window_of_tab(label) {
                    Some(w) => ShortcutRoute::AddTab { window: w },
                    None => ShortcutRoute::Nothing,
                }
            } else {
                ShortcutRoute::NewSession { as_tab: true }
            }
        },
        Some(ShortcutAction::NewWindow) => ShortcutRoute::NewSession { as_tab: false },
        Some(ShortcutAction::Close) => {
            if strip_tab {
                ShortcutRoute::CloseTab { tab: owned(label) }
            } else {
                ShortcutRoute::CloseWindow { label: owned(label) }
            }
        },
        Some(ShortcutAction::NextTab) => ShortcutRoute::CycleTab { tab: owned(label), forward: true },
        Some(ShortcutAction::PrevTab) => ShortcutRoute::CycleTab { tab: owned(label), forward: false },
        Some(ShortcutAction::ToggleBar) => {
            if strip_tab {
                match window_of_tab(label) {
                    Some(w) => ShortcutRoute::ToggleStrip { window: w },
                    None => ShortcutRoute::Nothing,
                }
            } else {
                ShortcutRoute::Nothing
            }
        },
        Some(ShortcutAction::Prefs) => ShortcutRoute::OpenPrefs,
        Some(ShortcutAction::ZoomIn) => ShortcutRoute::ZoomIn,
        Some(ShortcutAction::ZoomOut) => ShortcutRoute::ZoomOut,
        Some(ShortcutAction::ZoomReset) => ShortcutRoute::ZoomReset,
        None => ShortcutRoute::Nothing,
    }
}

/// What a download message does, given the decode of its data.
pub fn download_action(name: &Option<String>, decoded: Option<Vec<u8>>) -> (a: BridgeAction)
    ensures
        action_view(a) == spec_download_action(opt_view(*name), match decoded {
            Some(b) => Some(b@),
            None => None,
        }),
{
    let n = or_default_exec(name, "download");
    match decoded {
        Some(bytes) => BridgeAction::SaveDownload { name: n, bytes },
        None => BridgeAction::BadDownload { name: n },
    }
}

/// What message `m` does in a shell with strip tabs (`strip`), on macOS
/// (`macos`), with notifications on or off, given `decoded`, the decode of
/// the message's download data.
pub fn action_for(
    m: &BridgeMessage,
    decoded: Option<Vec<u8>>,
    strip: bool,
    macos: bool,
    notifications: bool,
) -> (a: BridgeAction)
    ensures
        action_view(a) == spec_bridge_action(message_view(*m), match decoded {
            Some(b) => Some(b@),
            None => None,
        }, strip, macos, notifications),
{
    let label = or_default_exec(&m.label, "");
    let kind = or_default_exec(&m.kind, "");
    let strip_tab = strip && has_prefix_str(label.as_str(), "tab-");
    let k = kind.as_str();
    if str_eq(k, "theme") {
        match &m.value {
            Some(css) => BridgeAction::Theme { css: css.clone() },
            None => BridgeAction::Ignore,
        }
    } else if str_eq(k, "route") {
        BridgeAction::Route { label, url: m.value.clone(), recapture_profile: strip_tab }
    } else if str_eq(k, "profile") {
        if strip_tab {
            BridgeAction::TabDotProfile { tab: label, name: or_default_exec(&m.value, "") }
        } else {
            BridgeAction::Ignore
        }
    } else if str_eq(k, "mac-profile") {
        if macos && has_prefix_str(label.as_str(), "main-") {
            BridgeAction::WindowProfileName { window: label, name: or_default_exec(&m.value, "") }
        } else {
            BridgeAction::Ignore
        }
    } else if str_eq(k, "notify") {
        if notifications {
            BridgeAction::Notify {
                title: or_default_exec(&m.title, DEFAULT_NOTIFY_TITLE),
                body: or_default_exec(&m.body, DEFAULT_NOTIFY_BODY),
            }
        } else {
            BridgeAction::Ignore
        }
    } else if str_eq(k, "open-external") {
        match &m.value {
            Some(u) => {
                if is_web_url(u.as_str()) {
                    BridgeAction::OpenExternal { url: u.clone() }
                } else {
                    BridgeAction::Ignore
                }
            },
            None => BridgeAction::Ignore,
        }
    } else if str_eq(k, "reconnect") {
        BridgeAction::Reconnect
    } else if str_eq(k, "download") {
        download_action(&m.name, decoded)
    } else if str_eq(k, "download-too-big") {
        let mut body = or_default_exec(&m.name, "file");
        push_str(&mut body, " is too large to save from the app — open Hermes in your browser for this one.");
        BridgeAction::TooLarge { title: owned(TOO_LARGE_TITLE), body }
    } else if str_eq(k, "shortcut") {
        match &m.value {
            Some(v) => BridgeAction::Shortcut { route: shortcut_route(v.as_str(), label.as_str(), strip_tab) },
            None => BridgeAction::Ignore,
        }
    } else {
        BridgeAction::Ignore
    }
}

/// Only a download reads the decode of its data.
proof fn lemma_decode_read_by_downloads_only(
    f: (
        Option<Seq<char>>,
        Option<Seq<char>>,
        Option<Seq<char>>,
        Option<Seq<char>>,
        Option<Seq<char>>,
        Option<Seq<char>>,
        Option<Seq<char>>,
    ),
    d1: Option<Seq<u8>>,
    d2: Option<Seq<u8>>,
    strip: bool,
    macos: bool,
    notifications: bool,
)
    requires
        or_default(f.1, ""@) != "download"@,
    ensures
        spec_bridge_action(f, d1, strip, macos, notifications) == spec_bridge_action(
            f,
            d2,
            strip,
            macos,
            notifications,
        ),
{
}

/// Read a raw bridge payload and decide what it does. A payload that is not
/// JSON is ignored; a download's data is decoded as base64.
pub fn bridge_action(raw: &str, strip: bool, macos: bool, notifications: bool) -> (a: BridgeAction)
    ensures
        json_message_fields(raw@) is None ==> a is Ignore,
        json_message_fields(raw@) matches Some(f) ==> action_view(a) == spec_bridge_action(
            f,
            base64_decoded(or_default(f.6, ""@)),
            strip,
            macos,
            notifications,
        ),
{
    let m = match read_message(raw) {
        Some(m) => m,
        None => {
            return BridgeAction::Ignore;
        },
    };
    let decoded = match &m.kind {
        Some(k) => {
            if str_eq(k.as_str(), "download") {
                let data = or_default_exec(&m.data, "");
                decode_base64(data.as_str())
            } else {
                proof {
                    lemma_decode_read_by_downloads_only(
                        message_view(m),
                        None,
                        base64_decoded(or_default(opt_view(m.data), ""@)),
                        strip,
                        macos,
                        notifications,
                    );
                }
                None
            }
        },
        None => {
            proof {
                reveal_strlit("download");
                reveal_strlit("");
                assert(""@.len() != "download"@.len());
                lemma_decode_read_by_downloads_only(
                    message_view(m),
                    None,
                    base64_decoded(or_default(opt_view(m.data), ""@)),
                    strip,
                    macos,
                    notifications,
                );
            }
            None
        },
    };
    action_for(&m, decoded, strip, macos, notifications)
}

} // verus!
