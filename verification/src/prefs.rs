//! Preferences: the settings record, its defaults, the validation rules of
//! the preferences window, the per-profile dot colors and the persisted
//! first-window frame. Reading and writing the store is the application's.
use vstd::prelude::*;
use crate::text::{
    ascii_lower_seq, char_ascii_lower, chars_of, is_hex_digit, owned, parse_unsigned,
    parse_unsigned_chars, str_eq, string_of_all, trim, trim_bounds, all_digits, dec, is_digit, is_ws,
    lemma_dec_digits, lemma_dec_len, trim_end, trim_start, unsigned_body,
};
use crate::weburl::{parse_url, parts_view, url_parse_result, UrlParts};

verus! {

/// File name of the preferences store.
pub const STORE_FILE: &'static str = "prefs.json";

/// Default target URL (a local hermes-webui).
pub const DEFAULT_TARGET_URL: &'static str = "http://localhost:8787";

/// Default SSH user.
pub const DEFAULT_SSH_USER: &'static str = "hermes";

/// Placeholder SSH host.
pub const DEFAULT_SSH_HOST: &'static str = "your-server.com";

/// Default local and remote forwarded port.
pub const DEFAULT_PORT: &'static str = "8787";

/// Connection settings.
#[derive(Clone, Debug)]
pub struct Prefs {
    /// `"direct"` or `"ssh"`.
    pub connection_mode: String,
    pub target_url: String,
    pub ssh_user: String,
    pub ssh_host: String,
    pub local_port: String,
    pub remote_port: String,
    pub notifications_enabled: bool,
}

impl Default for Prefs {
    fn default() -> (p: Self)
        ensures
            p.connection_mode@ == "direct"@,
            p.target_url@ == DEFAULT_TARGET_URL@,
            p.ssh_user@ == DEFAULT_SSH_USER@,
            p.ssh_host@ == DEFAULT_SSH_HOST@,
            p.local_port@ == DEFAULT_PORT@,
            p.remote_port@ == DEFAULT_PORT@,
            p.notifications_enabled,
    {
        Prefs {
            connection_mode: owned("direct"),
            target_url: owned(DEFAULT_TARGET_URL),
            ssh_user: owned(DEFAULT_SSH_USER),
            ssh_host: owned(DEFAULT_SSH_HOST),
            local_port: owned(DEFAULT_PORT),
            remote_port: owned(DEFAULT_PORT),
            notifications_enabled: true,
        }
    }
}

/// Message for an empty target URL.
pub const MSG_TARGET_EMPTY: &'static str = "Please fill in the Target URL.";

/// Message for a target URL that is not an http(s) URL.
pub const MSG_TARGET_INVALID: &'static str = "Target URL must be a valid http:// or https:// URL.";

/// Message for an incomplete SSH setup.
pub const MSG_SSH_INCOMPLETE: &'static str = "Please fill in all SSH settings.";

/// Message for a bad local port.
pub const MSG_LOCAL_PORT: &'static str = "Local port must be a number between 1 and 65535.";

/// Message for a bad remote port.
pub const MSG_REMOTE_PORT: &'static str = "Remote port must be a number between 1 and 65535.";

/// A port field that `u32` parsing accepts with a value in 1..=65535.
pub open spec fn port_ok(s: Seq<char>) -> bool {
    match parse_unsigned(trim(s), u32::MAX as nat) {
        Some(n) => 1 <= n && n <= 65535,
        None => false,
    }
}

/// The preferences-window rules, given what URL parsing made of the trimmed
/// target: a non-empty target that parses with scheme http or https; in ssh
/// mode also non-blank user, host and ports, each port a number in 1..=65535.
pub open spec fn spec_validate(p: Prefs, parsed: Option<(Seq<char>, Option<Seq<char>>, Option<u16>)>) -> Result<(), Seq<char>> {
    if trim(p.target_url@).len() == 0 {
        Err(MSG_TARGET_EMPTY@)
    } else if parsed is None || ((parsed->0).0 != "http"@ && (parsed->0).0 != "https"@) {
        Err(MSG_TARGET_INVALID@)
    } else if p.connection_mode@ == "ssh"@ {
        if trim(p.ssh_user@).len() == 0 || trim(p.ssh_host@).len() == 0 || trim(p.local_port@).len()
            == 0 || trim(p.remote_port@).len() == 0 {
            Err(MSG_SSH_INCOMPLETE@)
        } else if !port_ok(p.local_port@) {
            Err(MSG_LOCAL_PORT@)
        } else if !port_ok(p.remote_port@) {
            Err(MSG_REMOTE_PORT@)
        } else {
            Ok(())
        }
    } else {
        Ok(())
    }
}

/// Preferences pass validation exactly when the trimmed target parses as an
/// http or https URL and, in ssh mode, the user and host are filled in and
/// both ports are numbers in 1..=65535.
pub proof fn law_validate_accepts(p: Prefs, parsed: Option<(Seq<char>, Option<Seq<char>>, Option<u16>)>)
    ensures
        spec_validate(p, parsed) is Ok <==> {
            &&& trim(p.target_url@).len() > 0
            &&& parsed matches Some((scheme, _, _)) && (scheme == "http"@ || scheme == "https"@)
            &&& p.connection_mode@ == "ssh"@ ==> {
                &&& trim(p.ssh_user@).len() > 0
                &&& trim(p.ssh_host@).len() > 0
                &&& port_ok(p.local_port@)
                &&& port_ok(p.remote_port@)
            }
        },
{
}

/// In ssh mode, with a usable target, a blank user, host or port field is
/// refused with the incomplete-settings message, before any port is read.
pub proof fn law_validate_blank_ssh_field(p: Prefs, parsed: Option<(Seq<char>, Option<Seq<char>>, Option<u16>)>)
    requires
        trim(p.target_url@).len() > 0,
        parsed matches Some((scheme, _, _)) && (scheme == "http"@ || scheme == "https"@),
        p.connection_mode@ == "ssh"@,
        trim(p.ssh_user@).len() == 0 || trim(p.ssh_host@).len() == 0 || trim(p.local_port@).len() == 0
            || trim(p.remote_port@).len() == 0,
    ensures
        spec_validate(p, parsed) == Err::<(), Seq<char>>(MSG_SSH_INCOMPLETE@),
{
}

/// The port fields accept exactly the numbers 1 to 65535: the decimal text
/// of `n` is a valid port when, and only when, `1 <= n <= 65535`.
pub proof fn law_port_range(n: nat)
    ensures
        port_ok(dec(n)) <==> 1 <= n <= 65535,
{
    lemma_dec_digits(n);
    lemma_dec_len(n);
    let d = dec(n);
    assert(is_digit(d[0]));
    lemma_trim_of_digits(d);
    assert(unsigned_body(d) == d);
}

/// Trimming leaves a run of digits as it is.
proof fn lemma_trim_of_digits(d: Seq<char>)
    requires
        all_digits(d),
        d.len() > 0,
    ensures
        trim(d) == d,
{
    assert(is_digit(d[0]));
    assert(!is_ws(d[0]));
    assert(trim_start(d) == d);
    assert(is_digit(d.last()));
    assert(!is_ws(d.last()));
    assert(trim_end(d) == d);
}

/// Which rule refuses a setup, in order: an empty target, then a target
/// that is not an http(s) URL, then (in ssh mode) a blank field, then a bad
/// local port, then a bad remote port.
pub proof fn law_validate_messages(p: Prefs, parsed: Option<(Seq<char>, Option<Seq<char>>, Option<u16>)>)
    ensures
        trim(p.target_url@).len() == 0 ==> spec_validate(p, parsed) == Err::<(), Seq<char>>(MSG_TARGET_EMPTY@),
        trim(p.target_url@).len() > 0 && !(parsed matches Some((scheme, _, _)) && (scheme == "http"@ || scheme
            == "https"@)) ==> spec_validate(p, parsed) == Err::<(), Seq<char>>(MSG_TARGET_INVALID@),
        spec_validate(p, parsed) == Err::<(), Seq<char>>(MSG_LOCAL_PORT@) ==> p.connection_mode@ == "ssh"@ && !port_ok(
            p.local_port@,
        ) && trim(p.local_port@).len() > 0,
        spec_validate(p, parsed) == Err::<(), Seq<char>>(MSG_REMOTE_PORT@) ==> p.connection_mode@ == "ssh"@
            && port_ok(p.local_port@) && !port_ok(p.remote_port@),
        p.connection_mode@ != "ssh"@ ==> (spec_validate(p, parsed) is Ok <==> (trim(p.target_url@).len() > 0
            && (parsed matches Some((scheme, _, _)) && (scheme == "http"@ || scheme == "https"@)))),
{
    reveal_strlit("Please fill in the Target URL.");
    reveal_strlit("Target URL must be a valid http:// or https:// URL.");
    reveal_strlit("Please fill in all SSH settings.");
    reveal_strlit("Local port must be a number between 1 and 65535.");
    reveal_strlit("Remote port must be a number between 1 and 65535.");
    assert(MSG_LOCAL_PORT@[0] != MSG_TARGET_EMPTY@[0]);
    assert(MSG_LOCAL_PORT@[0] != MSG_TARGET_INVALID@[0]);
    assert(MSG_LOCAL_PORT@[0] != MSG_SSH_INCOMPLETE@[0]);
    assert(MSG_LOCAL_PORT@[0] != MSG_REMOTE_PORT@[0]);
    assert(MSG_REMOTE_PORT@[0] != MSG_TARGET_EMPTY@[0]);
    assert(MSG_REMOTE_PORT@[0] != MSG_TARGET_INVALID@[0]);
    assert(MSG_REMOTE_PORT@[0] != MSG_SSH_INCOMPLETE@[0]);
}

/// A validation result, viewed.
pub open spec fn result_view(r: Result<(), String>) -> Result<(), Seq<char>> {
    match r {
        Ok(()) => Ok(()),
        Err(e) => Err(e@),
    }
}

fn is_blank(s: &str) -> (b: bool)
    ensures
        b == (trim(s@).len() == 0),
{
    let v = chars_of(s);
    let (a, b) = trim_bounds(&v);
    a == b
}


fn check_port(s: &str) -> (ok: bool)
    ensures
        ok == port_ok(s@),
{
    let v = chars_of(s);
    let (a, b) = trim_bounds(&v);
    let mut t: Vec<char> = Vec::new();
    let mut i = a;
    while i < b
        invariant
            a <= i <= b <= v.len(),
            t@ == v@.subrange(a as int, i as int),
        decreases b - i,
    {
        t.push(v[i]);
        assert(t@ =~= v@.subrange(a as int, i + 1));
        i += 1;
    }
    match parse_unsigned_chars(&t, u32::MAX as u64) {
        Some(n) => 1 <= n && n <= 65535,
        None => false,
    }
}

/// Validate preferences given the parse of the trimmed target URL.
pub fn validate_parsed(p: &Prefs, parsed: Option<UrlParts>) -> (r: Result<(), String>)
    ensures
        result_view(r) == spec_validate(*p, match parsed {
            Some(x) => Some(parts_view(x)),
            None => None,
        }),
{
    if is_blank(p.target_url.as_str()) {
        return Err(owned(MSG_TARGET_EMPTY));
    }
    match parsed {
        None => {
            return Err(owned(MSG_TARGET_INVALID));
        },
        Some(u) => {
            if !str_eq(u.scheme.as_str(), "http") && !str_eq(u.scheme.as_str(), "https") {
                return Err(owned(MSG_TARGET_INVALID));
            }
        },
    }
    if str_eq(p.connection_mode.as_str(), "ssh") {
        if is_blank(p.ssh_user.as_str()) || is_blank(p.ssh_host.as_str()) || is_blank(
            p.local_port.as_str(),
        ) || is_blank(p.remote_port.as_str()) {
            return Err(owned(MSG_SSH_INCOMPLETE));
        }
        if !check_port(p.local_port.as_str()) {
            return Err(owned(MSG_LOCAL_PORT));
        }
        if !check_port(p.remote_port.as_str()) {
            return Err(owned(MSG_REMOTE_PORT));
        }
    }
    Ok(())
}

/// Validation with the same rules and messages as the preferences window.
pub fn validate(p: &Prefs) -> (r: Result<(), String>)
    ensures
        result_view(r) == spec_validate(*p, url_parse_result(trim(p.target_url@))),
{
    let t = crate::text::trimmed(p.target_url.as_str());
    let parsed = parse_url(t.as_str());
    validate_parsed(p, parsed)
}

// ---------------------------------------------------------------------------
// Profile dot colors
// ---------------------------------------------------------------------------

/// A `#rrggbb` hex color: exactly `#` and six hex digits.
pub open spec fn spec_is_hex_color(s: Seq<char>) -> bool {
    &&& s.len() == 7
    &&& s[0] == '#'
    &&& forall|i: int| 1 <= i < 7 ==> is_hex_digit(#[trigger] s[i])
}

/// `true` for a `#rrggbb` hex string — the only shape stored as a dot color
/// and later injected into the strip's CSS.
pub fn is_hex_color(s: &str) -> (b: bool)
    ensures
        b == spec_is_hex_color(s@),
{
    let v = chars_of(s);
    if v.len() != 7 || v[0] != '#' {
        return false;
    }
    let mut i: usize = 1;
    while i < 7
        invariant
            1 <= i <= 7,
            v@.len() == 7,
            v@ == s@,
            forall|k: int| 1 <= k < i ==> is_hex_digit(#[trigger] v@[k]),
        decreases 7 - i,
    {
        let c = v[i];
        if !(('0' <= c && c <= '9') || ('a' <= c && c <= 'f') || ('A' <= c && c <= 'F')) {
            assert(!is_hex_digit(v@[i as int]));
            return false;
        }
        i += 1;
    }
    true
}

/// What setting a profile's dot color does to the stored overrides.
#[derive(Clone, Debug)]
pub enum ColorUpdate {
    /// No profile named: nothing changes.
    Ignore,
    /// Store this (lowercased) color for the profile.
    Store(String),
    /// Remove the profile's override (back to the automatic palette).
    Clear,
}

/// Setting `color` for profile `name`: a valid `#rrggbb` is stored
/// lowercased, any other value clears the override; an empty name is ignored.
pub open spec fn spec_color_update(name: Seq<char>, color: Seq<char>) -> Option<Option<Seq<char>>> {
    if name.len() == 0 {
        None
    } else if spec_is_hex_color(color) {
        Some(Some(ascii_lower_seq(color)))
    } else {
        Some(None)
    }
}

/// The update of the dot-color overrides for setting `color` on `name`.
pub fn profile_color_update(name: &str, color: &str) -> (u: ColorUpdate)
    ensures
        spec_color_update(name@, color@) is None <==> u is Ignore,
        spec_color_update(name@, color@) == Some(Option::<Seq<char>>::None) <==> u is Clear,
        u matches ColorUpdate::Store(c) ==> spec_color_update(name@, color@) == Some(Some(c@)),
{
    let nv = chars_of(name);
    if nv.len() == 0 {
        return ColorUpdate::Ignore;
    }
    if !is_hex_color(color) {
        return ColorUpdate::Clear;
    }
    let v = chars_of(color);
    let mut out: Vec<char> = Vec::new();
    let mut i: usize = 0;
    while i < v.len()
        invariant
            i <= v.len(),
            out@ == ascii_lower_seq(v@.take(i as int)),
        decreases v.len() - i,
    {
        out.push(char_ascii_lower(v[i]));
        assert(out@ =~= ascii_lower_seq(v@.take(i + 1)));
        i += 1;
    }
    assert(v@.take(i as int) =~= v@);
    ColorUpdate::Store(string_of_all(&out))
}

/// Whatever a dot-color update stores passes the read-side validation, so
/// the strip never receives a value that was accepted on write and
/// dropped (or worse, injected) on read.
pub proof fn law_stored_color_is_valid(name: Seq<char>, color: Seq<char>)
    requires
        spec_color_update(name, color) matches Some(Some(_)),
    ensures
        spec_is_hex_color(spec_color_update(name, color)->0->0),
{
    let c = ascii_lower_seq(color);
    assert forall|i: int| 1 <= i < 7 implies is_hex_digit(#[trigger] c[i]) by {
        assert(is_hex_digit(color[i]));
    }
}

/// The overrides that survive read-side validation: entries whose value is
/// a string holding a valid `#rrggbb`, in their stored order.
pub open spec fn spec_keep_hex_colors(entries: Seq<(String, Option<String>)>) -> Seq<(Seq<char>, Seq<char>)>
    decreases entries.len(),
{
    if entries.len() == 0 {
        Seq::empty()
    } else {
        let rest = spec_keep_hex_colors(entries.drop_last());
        let e = entries.last();
        match e.1 {
            Some(v) if spec_is_hex_color(v@) => rest.push((e.0@, v@)),
            _ => rest,
        }
    }
}

/// Some entry of `entries` is named `name`.
pub open spec fn has_entry_named(entries: Seq<(String, Option<String>)>, name: Seq<char>) -> bool {
    exists|k: int| 0 <= k < entries.len() && (#[trigger] entries[k]).0@ == name
}

/// Every override that survives the read-side check is a valid `#rrggbb`
/// taken from an entry with the same name: a hand-edited store never feeds
/// anything else to the strip.
pub proof fn law_kept_colors_are_valid(entries: Seq<(String, Option<String>)>)
    ensures
        forall|i: int|
            0 <= i < spec_keep_hex_colors(entries).len() ==> #[trigger] spec_is_hex_color(
                spec_keep_hex_colors(entries)[i].1,
            ) && has_entry_named(entries, spec_keep_hex_colors(entries)[i].0),
    decreases entries.len(),
{
    if entries.len() > 0 {
        let init = entries.drop_last();
        law_kept_colors_are_valid(init);
        let rest = spec_keep_hex_colors(init);
        assert forall|i: int| 0 <= i < rest.len() implies has_entry_named(entries, #[trigger] rest[i].0) by {
            assert(spec_is_hex_color(rest[i].1));
            let k = choose|k: int| 0 <= k < init.len() && (#[trigger] init[k]).0@ == rest[i].0;
            assert(entries[k] == init[k]);
        }
        let last = entries.len() - 1;
        assert(entries[last] == entries.last());
    }
}

/// Re-validate stored dot-color overrides on read: keep the entries whose
/// value is a `#rrggbb` string (`Some`), drop the rest.
pub fn keep_hex_colors(entries: &Vec<(String, Option<String>)>) -> (r: Vec<(String, String)>)
    ensures
        r@.map_values(|e: (String, String)| (e.0@, e.1@)) == spec_keep_hex_colors(entries@),
{
    let mut out: Vec<(String, String)> = Vec::new();
    let mut i: usize = 0;
    while i < entries.len()
        invariant
            i <= entries.len(),
            out@.map_values(|e: (String, String)| (e.0@, e.1@)) == spec_keep_hex_colors(entries@.take(i as int)),
        decreases entries.len() - i,
    {
        let ghost before = out@;
        proof {
            assert(entries@.take(i + 1).drop_last() =~= entries@.take(i as int));
            assert(entries@.take(i + 1).last() == entries@[i as int]);
        }
        match &entries[i].1 {
            Some(v) => {
                if is_hex_color(v.as_str()) {
                    out.push((entries[i].0.clone(), v.clone()));
                    assert(out@.map_values(|e: (String, String)| (e.0@, e.1@)) =~= before.map_values(
                        |e: (String, String)| (e.0@, e.1@),
                    ).push((entries@[i as int].0@, v@)));
                }
            },
            None => {},
        }
        i += 1;
    }
    assert(entries@.take(i as int) =~= entries@);
    out
}

// ---------------------------------------------------------------------------
// First-window frame
// ---------------------------------------------------------------------------

/// Smallest persisted window side, in pixels.
pub const MIN_FRAME_SIDE: u32 = 200;

/// The saved frame read back from stored `x`, `y`, `w`, `h` numbers: width
/// and height are truncated to `u32` and must both be at least 200; the
/// position is truncated to `i32`. Any missing value means no saved frame.
pub open spec fn spec_frame(x: Option<i64>, y: Option<i64>, w: Option<u64>, h: Option<u64>) -> Option<(i32, i32, u32, u32)> {
    match (w, h) {
        (Some(w), Some(h)) => if (w as u32) < MIN_FRAME_SIDE || (h as u32) < MIN_FRAME_SIDE {
            None
        } else {
            match (x, y) {
                (Some(x), Some(y)) => Some((x as i32, y as i32, w as u32, h as u32)),
                _ => None,
            }
        },
        _ => None,
    }
}

/// The persisted first-window frame from its stored components.
pub fn frame_from_stored(x: Option<i64>, y: Option<i64>, w: Option<u64>, h: Option<u64>) -> (f: Option<(i32, i32, u32, u32)>)
    ensures
        f == spec_frame(x, y, w, h),
{
    let w = match w {
        Some(v) => v as u32,
        None => {
            return None;
        },
    };
    let h = match h {
        Some(v) => v as u32,
        None => {
            return None;
        },
    };
    if w < MIN_FRAME_SIDE || h < MIN_FRAME_SIDE {
        return None;
    }
    match (x, y) {
        (Some(x), Some(y)) => Some((x as i32, y as i32, w, h)),
        _ => None,
    }
}

} // verus!
