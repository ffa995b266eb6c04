//! Connection-flow decisions: which ports an ssh run uses, whether existing
//! windows are reused, what a run does once it connected or failed, when the
//! ssh auto-recovery keeps watching and retries, and what a "new window /
//! new tab" request does. Threads, sleeps and the network belong to the
//! application.
use vstd::prelude::*;
use crate::prefs::{port_ok, spec_validate, Prefs};
use crate::state::TunnelStatus;
use crate::windows::{all_modes_match, spec_all_modes_match};
use crate::text::{
    chars_of, owned, parse_unsigned, parse_unsigned_chars, push_str, str_eq, trim, trim_bounds,
};

verus! {

/// Port used when a port field does not parse.
pub const DEFAULT_FORWARD_PORT: u32 = 8787;

/// A port field read as the orchestrator reads it: trimmed and parsed as
/// `u32`, falling back to `default`.
pub open spec fn spec_port_or(s: Seq<char>, default: u32) -> u32 {
    match parse_unsigned(trim(s), u32::MAX as nat) {
        Some(n) => n as u32,
        None => default,
    }
}

/// Parse a port field, falling back to `default`.
pub fn port_or_default(s: &str, default: u32) -> (p: u32)
    ensures
        p == spec_port_or(s@, default),
{
    let v = chars_of(s);
    let (a, b) = trim_bounds(&v);
    let mut t: Vec<char> = Vec::new();
    let mut i = a;
    while i < b
        invariant
            a <= i <= b <= v.len(),
            t@ == v@.subrange(a as int, i as int),
        decreases b - i,
    {
        t.push(v[i]);
        assert(t@ =~= v@.subrange(a as int, i + 1));
        i += 1;
    }
    match parse_unsigned_chars(&t, u32::MAX as u64) {
        Some(n) => n as u32,
        None => default,
    }
}

/// Validated ssh preferences run the tunnel on exactly the ports the user
/// entered, never on the fallback, and those ports are in 1..=65535.
pub proof fn law_validated_ports_are_used(p: Prefs, parsed: Option<(Seq<char>, Option<Seq<char>>, Option<u16>)>, default: u32)
    requires
        spec_validate(p, parsed) is Ok,
        p.connection_mode@ == "ssh"@,
    ensures
        port_ok(p.local_port@) && port_ok(p.remote_port@),
        parse_unsigned(trim(p.local_port@), u32::MAX as nat) == Some(spec_port_or(p.local_port@, default) as nat),
        parse_unsigned(trim(p.remote_port@), u32::MAX as nat) == Some(spec_port_or(p.remote_port@, default) as nat),
        1 <= spec_port_or(p.local_port@, default) <= 65535,
        1 <= spec_port_or(p.remote_port@, default) <= 65535,
{
}

/// Every how many 10-second ticks the ssh recovery retries blindly (port 22
/// may not be the real ssh port).
pub const RECOVERY_BLIND_RETRY_TICKS: u32 = 6;

/// The ssh recovery reconnects when the host's port answers, or blindly on
/// every sixth tick.
pub fn recovery_due(reachable: bool, ticks: u32) -> (due: bool)
    ensures
        due == (reachable || ticks % RECOVERY_BLIND_RETRY_TICKS == 0),
{
    reachable || ticks % RECOVERY_BLIND_RETRY_TICKS == 0
}

/// The error hint when nothing answered at the target in direct mode.
pub fn unreachable_hint(target: &str) -> (hint: String)
    ensures
        hint@ == "Nothing answered at "@ + target@ + ". Is hermes-webui running? (./start.sh)"@,
{
    let mut out = owned("Nothing answered at ");
    push_str(&mut out, target);
    push_str(&mut out, ". Is hermes-webui running? (./start.sh)");
    out
}


/// Reconnect reuses the existing windows (hidden, then reloaded) when there
/// are some and all were built for the current mode; otherwise they are rebuilt.
pub fn reuse_windows(modes: &Vec<Option<String>>, mode: &str) -> (r: bool)
    ensures
        r == (modes@.len() > 0 && spec_all_modes_match(modes@, mode@)),
{
    modes.len() > 0 && all_modes_match(modes, mode)
}

/// What a connection run does once the tunnel or the direct probe answered.
#[derive(Clone, Copy, Debug, PartialEq, Eq, Structural)]
pub struct ConnectFollowUp {
    /// Reload and show again the windows kept by a same-mode reconnect.
    pub reload_kept: bool,
    /// Open a fresh browser window.
    pub open_window: bool,
    /// Destroy the content windows and show the error window.
    pub show_error: bool,
    /// The offline badge once the run is over.
    pub offline_badge: bool,
    /// Start the direct-mode health polling.
    pub health_loop: bool,
    /// Start the direct-mode error-state auto-recovery.
    pub recovery_loop: bool,
}

/// The follow-up of a run that connected (`ok`) or not, that kept the
/// existing windows (`reuse`) or not, in connection mode `mode`.
pub open spec fn spec_follow_up(ok: bool, reuse: bool, mode: Seq<char>) -> ConnectFollowUp {
    ConnectFollowUp {
        reload_kept: ok && reuse,
        open_window: ok && !reuse,
        show_error: !ok,
        offline_badge: !ok,
        health_loop: ok && mode == "direct"@,
        recovery_loop: !ok && mode == "direct"@,
    }
}

/// Decide what a connection run does after connecting or failing.
pub fn connect_follow_up(ok: bool, reuse: bool, mode: &str) -> (f: ConnectFollowUp)
    ensures
        f == spec_follow_up(ok, reuse, mode@),
{
    let direct = str_eq(mode, "direct");
    ConnectFollowUp {
        reload_kept: ok && reuse,
        open_window: ok && !reuse,
        show_error: !ok,
        offline_badge: !ok,
        health_loop: ok && direct,
        recovery_loop: !ok && direct,
    }
}

/// Every run ends in exactly one window outcome (kept windows reloaded, a
/// new window, or the error window), the offline badge is up exactly when
/// the run failed, and health polling and error recovery never run together.
pub proof fn law_follow_up_one_outcome(ok: bool, reuse: bool, mode: Seq<char>)
    ensures
        ({
            let f = spec_follow_up(ok, reuse, mode);
            &&& (f.reload_kept as int) + (f.open_window as int) + (f.show_error as int) == 1
            &&& f.offline_badge == !ok
            &&& !(f.health_loop && f.recovery_loop)
        }),
{
}

/// After a run: an ssh run that left the tunnel down arms the ssh
/// auto-recovery.
pub fn rearm_ssh_recovery(mode: &str, status: TunnelStatus) -> (arm: bool)
    ensures
        arm == (mode@ == "ssh"@ && status == TunnelStatus::Disconnected),
{
    str_eq(mode, "ssh") && status == TunnelStatus::Disconnected
}

/// One tick of the ssh recovery watcher: it keeps watching only while it is
/// still the current watcher, no run is in flight, the tunnel is down and
/// the mode is still ssh.
pub fn recovery_watching(current: bool, connecting: bool, status: TunnelStatus, mode: &str) -> (keep: bool)
    ensures
        keep == (current && !connecting && status == TunnelStatus::Disconnected && mode@ == "ssh"@),
{
    current && !connecting && status == TunnelStatus::Disconnected && str_eq(mode, "ssh")
}

/// Whether a tab may be added to a window: not in ssh mode while the tunnel
/// is not connected, since there is nothing to load then.
pub fn tab_allowed(mode: &str, tunnel: TunnelStatus) -> (ok: bool)
    ensures
        ok == !(mode@ == "ssh"@ && tunnel != TunnelStatus::Connected),
{
    !(str_eq(mode, "ssh") && tunnel != TunnelStatus::Connected)
}

/// What a new-window / new-tab request does.
#[derive(Clone, Copy, Debug, PartialEq, Eq, Structural)]
pub enum NewSessionAction {
    /// The ssh tunnel is not up: nothing to open onto.
    Ignore,
    /// Direct mode with no window at all: run the whole connection flow.
    Reconnect,
    /// Strip mode: add a tab to the focused (or most recent) window.
    AddTab,
    /// Open a new content window.
    OpenWindow,
}

/// The action for a new-session request.
pub open spec fn spec_new_session_action(
    mode: Seq<char>,
    tunnel: TunnelStatus,
    content_windows: nat,
    as_tab: bool,
    strip_enabled: bool,
    has_window: bool,
) -> NewSessionAction {
    if mode == "ssh"@ && tunnel != TunnelStatus::Connected {
        NewSessionAction::Ignore
    } else if mode == "direct"@ && content_windows == 0 {
        NewSessionAction::Reconnect
    } else if as_tab && strip_enabled && has_window {
        NewSessionAction::AddTab
    } else {
        NewSessionAction::OpenWindow
    }
}

/// Decide what a new-window / new-tab request does.
pub fn new_session_action(
    mode: &str,
    tunnel: TunnelStatus,
    content_windows: usize,
    as_tab: bool,
    strip_enabled: bool,
    has_window: bool,
) -> (a: NewSessionAction)
    ensures
        a == spec_new_session_action(mode@, tunnel, content_windows as nat, as_tab, strip_enabled, has_window),
{
    if str_eq(mode, "ssh") && tunnel != TunnelStatus::Connected {
        NewSessionAction::Ignore
    } else if str_eq(mode, "direct") && content_windows == 0 {
        NewSessionAction::Reconnect
    } else if as_tab && strip_enabled && has_window {
        NewSessionAction::AddTab
    } else {
        NewSessionAction::OpenWindow
    }
}

} // verus!
