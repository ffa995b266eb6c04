//! SSH tunnel decisions: the `ssh` command line, the readiness URL, the
//! stderr tail kept for diagnosis, and the status and hint a start ends in.
//! The child process itself, its polling and its teardown belong to the
//! application.
use vstd::prelude::*;
use crate::state::TunnelStatus;
use crate::text::{
    after_last, all_ascii, all_digits, before_first, digits_value, is_digit, lemma_after_last_concat,
    lemma_before_first_concat, lemma_dec_digits, ascii_lower_seq, chars_of, contains, contains_chars, dec, dec_string, lowercase, owned, push_chars,
    push_str, trim, trim_bounds, unicode_lowercase,
};

verus! {

/// The argv given to `ssh`: no remote command, accept-new host keys, fail when
/// the forward cannot be set up, and forward `local_port` to `127.0.0.1`
/// (never "localhost", which IPv6-first hosts resolve differently) on the remote.
pub open spec fn spec_ssh_args(user: Seq<char>, host: Seq<char>, local_port: u32, remote_port: u32) -> Seq<Seq<char>> {
    seq![
        "-N"@,
        "-o"@,
        "StrictHostKeyChecking=accept-new"@,
        "-o"@,
        "ExitOnForwardFailure=yes"@,
        "-L"@,
        dec(local_port as nat) + ":127.0.0.1:"@ + dec(remote_port as nat),
        user + "@"@ + host,
    ]
}

/// The `-L` forward names first the local port the app listens on (the one
/// its readiness probe polls) and last the remote port: the digits before
/// its first `:` read as `local_port`, those after its last `:` as
/// `remote_port`, and the probe URL's port is the same text.
pub proof fn law_forward_ports(user: Seq<char>, host: Seq<char>, local_port: u32, remote_port: u32)
    ensures
        spec_ssh_args(user, host, local_port, remote_port).len() == 8,
        spec_ssh_args(user, host, local_port, remote_port)[5] == "-L"@,
        all_digits(before_first(spec_ssh_args(user, host, local_port, remote_port)[6], ':')),
        digits_value(before_first(spec_ssh_args(user, host, local_port, remote_port)[6], ':')) == local_port,
        all_digits(after_last(spec_ssh_args(user, host, local_port, remote_port)[6], ':')),
        digits_value(after_last(spec_ssh_args(user, host, local_port, remote_port)[6], ':')) == remote_port,
        after_last(spec_probe_url(local_port), ':') == before_first(
            spec_ssh_args(user, host, local_port, remote_port)[6],
            ':',
        ) + "/"@,
{
    reveal_strlit(":127.0.0.1:");
    reveal_strlit("http://127.0.0.1:");
    reveal_strlit("/");
    let dl = dec(local_port as nat);
    let dr = dec(remote_port as nat);
    lemma_dec_digits(local_port as nat);
    lemma_dec_digits(remote_port as nat);
    assert forall|i: int| 0 <= i < dl.len() implies dl[i] != ':' && dl[i] != '/' by {
        assert(is_digit(dl[i]));
    }
    assert forall|i: int| 0 <= i < dr.len() implies dr[i] != ':' by {
        assert(is_digit(dr[i]));
    }
    let mid = ":127.0.0.1:"@;
    let f = spec_ssh_args(user, host, local_port, remote_port)[6];
    assert(f == dl + mid + dr);
    assert(f =~= dl + (mid + dr));
    lemma_before_first_concat(dl, mid + dr, ':');
    assert(before_first(mid + dr, ':') =~= Seq::<char>::empty());
    assert(before_first(f, ':') =~= dl);
    lemma_after_last_concat(dl + mid, dr, ':');
    assert((dl + mid).last() == ':');
    assert(after_last(dl + mid, ':') =~= Seq::<char>::empty());
    assert(after_last(f, ':') =~= dr);
    let p = spec_probe_url(local_port);
    assert(p =~= "http://127.0.0.1:"@ + (dl + "/"@));
    assert forall|i: int| 0 <= i < (dl + "/"@).len() implies (dl + "/"@)[i] != ':' by {
        if i < dl.len() {
            assert((dl + "/"@)[i] == dl[i]);
        }
    }
    lemma_after_last_concat("http://127.0.0.1:"@, dl + "/"@, ':');
    assert(after_last("http://127.0.0.1:"@, ':') =~= Seq::<char>::empty());
    assert(after_last(p, ':') =~= dl + "/"@);
}

/// The last argument is the ssh destination: when neither the user nor the
/// host holds an `@`, the text before its first `@` is the user and the text
/// after its last `@` is the host. The options before the forward make ssh
/// run no command, accept a new host key, and fail when the forward cannot
/// be set up.
pub proof fn law_destination(user: Seq<char>, host: Seq<char>, local_port: u32, remote_port: u32)
    requires
        forall|i: int| 0 <= i < user.len() ==> user[i] != '@',
        forall|i: int| 0 <= i < host.len() ==> host[i] != '@',
    ensures
        before_first(spec_ssh_args(user, host, local_port, remote_port)[7], '@') == user,
        after_last(spec_ssh_args(user, host, local_port, remote_port)[7], '@') == host,
        spec_ssh_args(user, host, local_port, remote_port).subrange(0, 5) == seq![
            "-N"@,
            "-o"@,
            "StrictHostKeyChecking=accept-new"@,
            "-o"@,
            "ExitOnForwardFailure=yes"@,
        ],
{
    reveal_strlit("@");
    let d = spec_ssh_args(user, host, local_port, remote_port)[7];
    assert(d =~= user + ("@"@ + host));
    lemma_before_first_concat(user, "@"@ + host, '@');
    assert(before_first("@"@ + host, '@') =~= Seq::<char>::empty());
    assert(user + Seq::<char>::empty() =~= user);
    assert(d =~= (user + "@"@) + host);
    lemma_after_last_concat(user + "@"@, host, '@');
    assert((user + "@"@).last() == '@');
    assert(after_last(user + "@"@, '@') =~= Seq::<char>::empty());
    assert(Seq::<char>::empty() + host =~= host);
    assert(spec_ssh_args(user, host, local_port, remote_port).subrange(0, 5) =~= seq![
        "-N"@,
        "-o"@,
        "StrictHostKeyChecking=accept-new"@,
        "-o"@,
        "ExitOnForwardFailure=yes"@,
    ]);
}

/// The views of a vector of strings.
pub open spec fn views(v: Seq<String>) -> Seq<Seq<char>> {
    v.map_values(|s: String| s@)
}

/// Build the `ssh` argv for a local forward.
pub fn ssh_args(user: &str, host: &str, local_port: u32, remote_port: u32) -> (args: Vec<String>)
    ensures
        views(args@) == spec_ssh_args(user@, host@, local_port, remote_port),
{
    let mut forward = dec_string(local_port as u64);
    push_str(&mut forward, ":127.0.0.1:");
    let rp = dec_string(remote_port as u64);
    push_str(&mut forward, rp.as_str());
    let mut dest = owned(user);
    push_str(&mut dest, "@");
    push_str(&mut dest, host);
    let args = vec![
        owned("-N"),
        owned("-o"),
        owned("StrictHostKeyChecking=accept-new"),
        owned("-o"),
        owned("ExitOnForwardFailure=yes"),
        owned("-L"),
        forward,
        dest,
    ];
    assert(views(args@) =~= spec_ssh_args(user@, host@, local_port, remote_port));
    args
}

/// Hint for an authentication failure.
pub const HINT_AUTH: &'static str = "SSH authentication failed (Permission denied). Key-based auth is required — add your key to ssh-agent or ~/.ssh/config.";

/// Hint for a changed or unknown host key.
pub const HINT_HOST_KEY: &'static str = "Host key verification failed. Connect once from a terminal to inspect/accept the new host key.";

/// Hint for a host name that does not resolve.
pub const HINT_RESOLVE: &'static str = "Could not resolve the SSH host name. Check the Host field in Preferences.";

/// Hint for a refused connection.
pub const HINT_REFUSED: &'static str = "SSH connection refused. Check the host and that sshd is running.";

/// Hint for a timeout.
pub const HINT_TIMEOUT: &'static str = "SSH connection timed out. Check the host, your network, or VPN.";

/// Hint when ssh said nothing yet nothing answered on the forwarded port.
pub const HINT_SILENT: &'static str = "The tunnel connected but nothing answered on the forwarded port. Is hermes-webui running on the remote machine?";

/// Prefix of the fallback hint that quotes ssh's last stderr line.
pub const HINT_REPORTED_PREFIX: &'static str = "ssh reported: ";

/// The hint for an ssh stderr tail `tail` whose lowercase form is `lower`:
/// known failure phrases are matched in the lowercase text, in a fixed order;
/// otherwise ssh's last non-blank output line is quoted.
pub open spec fn spec_hint(tail: Seq<char>, lower: Seq<char>) -> Seq<char> {
    if contains(lower, "permission denied"@) {
        HINT_AUTH@
    } else if contains(lower, "host key verification failed"@) {
        HINT_HOST_KEY@
    } else if contains(lower, "could not resolve"@) {
        HINT_RESOLVE@
    } else if contains(lower, "connection refused"@) {
        HINT_REFUSED@
    } else if contains(lower, "operation timed out"@) || contains(lower, "timed out"@) {
        HINT_TIMEOUT@
    } else if trim(tail).len() == 0 {
        HINT_SILENT@
    } else {
        HINT_REPORTED_PREFIX@ + after_last(trim(tail), '\n')
    }
}

fn lit_contains(hay: &Vec<char>, needle: &str) -> (b: bool)
    ensures
        b == contains(hay@, needle@),
{
    let n = chars_of(needle);
    contains_chars(hay, &n)
}

/// Start of the text after the last `c` in `v[a..b]`.
pub fn after_last_start(v: &Vec<char>, a: usize, b: usize, c: char) -> (j: usize)
    requires
        a <= b <= v.len(),
    ensures
        a <= j <= b,
        after_last(v@.subrange(a as int, b as int), c) == v@.subrange(j as int, b as int),
{
    let mut j = b;
    assert(v@.subrange(a as int, b as int) =~= v@.subrange(a as int, j as int) + v@.subrange(j as int, b as int));
    assert(after_last(v@.subrange(a as int, b as int), c) =~= after_last(v@.subrange(a as int, j as int), c) + v@.subrange(j as int, b as int));
    while j > a && v[j - 1] != c
        invariant
            a <= j <= b <= v.len(),
            after_last(v@.subrange(a as int, b as int), c) == after_last(v@.subrange(a as int, j as int), c) + v@.subrange(j as int, b as int),
        decreases j,
    {
        proof {
            let s = v@.subrange(a as int, j as int);
            assert(s.last() == v@[j - 1]);
            assert(s.drop_last() =~= v@.subrange(a as int, j - 1));
            assert(after_last(s, c) == after_last(s.drop_last(), c).push(s.last()));
            assert(after_last(s.drop_last(), c).push(s.last()) + v@.subrange(j as int, b as int) =~= after_last(s.drop_last(), c) + v@.subrange(j - 1, b as int));
        }
        j -= 1;
    }
    proof {
        let s = v@.subrange(a as int, j as int);
        if j > a {
            assert(s.last() == v@[j - 1]);
        }
        assert(after_last(s, c) =~= Seq::<char>::empty());
    }
    j
}

/// The hint for an ssh stderr tail, given its lowercase form `lower`.
pub fn hint_from_lowered(tail: &str, lower: &str) -> (hint: String)
    ensures
        hint@ == spec_hint(tail@, lower@),
{
    let lv = chars_of(lower);
    if lit_contains(&lv, "permission denied") {
        owned(HINT_AUTH)
    } else if lit_contains(&lv, "host key verification failed") {
        owned(HINT_HOST_KEY)
    } else if lit_contains(&lv, "could not resolve") {
        owned(HINT_RESOLVE)
    } else if lit_contains(&lv, "connection refused") {
        owned(HINT_REFUSED)
    } else if lit_contains(&lv, "operation timed out") || lit_contains(&lv, "timed out") {
        owned(HINT_TIMEOUT)
    } else {
        let tv = chars_of(tail);
        let (a, b) = trim_bounds(&tv);
        if a == b {
            owned(HINT_SILENT)
        } else {
            let j = after_last_start(&tv, a, b, '\n');
            let mut out = owned(HINT_REPORTED_PREFIX);
            push_chars(&mut out, &tv, j, b);
            out
        }
    }
}

/// Map an ssh stderr tail to an actionable hint for the error window.
pub fn hint_from_stderr(tail: &str) -> (hint: String)
    ensures
        hint@ == spec_hint(tail@, unicode_lowercase(tail@)),
        all_ascii(tail@) ==> hint@ == spec_hint(tail@, ascii_lower_seq(tail@)),
{
    let lower = lowercase(tail);
    hint_from_lowered(tail, lower.as_str())
}

/// The URL polled through a freshly started forward: only an HTTP answer
/// proves the forward is usable end to end.
pub open spec fn spec_probe_url(local_port: u32) -> Seq<char> {
    "http://127.0.0.1:"@ + dec(local_port as nat) + "/"@
}

/// The readiness URL for a forward on `local_port`.
pub fn probe_url(local_port: u32) -> (u: String)
    ensures
        u@ == spec_probe_url(local_port),
{
    let mut out = owned("http://127.0.0.1:");
    let d = dec_string(local_port as u64);
    push_str(&mut out, d.as_str());
    push_str(&mut out, "/");
    out
}

/// How long a freshly started forward is given to answer, in milliseconds.
pub const PROBE_DEADLINE_MS: u64 = 5000;

/// How long one readiness probe may take, in milliseconds.
pub const PROBE_TIMEOUT_MS: u64 = 1500;

/// The pause between two readiness probes, in milliseconds.
pub const PROBE_RETRY_MS: u64 = 500;

/// The next move while waiting for a fresh forward to answer.
#[derive(Clone, Copy, Debug, PartialEq, Eq, Structural)]
pub enum ProbeStep {
    /// Probe the forward (for at most `PROBE_TIMEOUT_MS`); on no answer,
    /// pause `PROBE_RETRY_MS` and ask again.
    Probe,
    /// Stop waiting: the deadline has passed or the ssh process has exited.
    GiveUp,
}

/// The move `elapsed_ms` after the wait began, with the ssh process `alive`
/// or not: probe while the deadline has not passed and ssh still runs.
pub fn probe_step(elapsed_ms: u64, alive: bool) -> (step: ProbeStep)
    ensures
        step == (if elapsed_ms < PROBE_DEADLINE_MS && alive { ProbeStep::Probe } else { ProbeStep::GiveUp }),
{
    if elapsed_ms < PROBE_DEADLINE_MS && alive {
        ProbeStep::Probe
    } else {
        ProbeStep::GiveUp
    }
}

/// The hint when the ssh client could not be started; `err` is the spawn
/// error's text.
pub fn spawn_failure_hint(err: &str) -> (hint: String)
    ensures
        hint@ == "Failed to start ssh: "@ + err@ + ". Is the OpenSSH client installed?"@,
{
    let mut out = owned("Failed to start ssh: ");
    push_str(&mut out, err);
    push_str(&mut out, ". Is the OpenSSH client installed?");
    out
}

/// Lines joined by newlines.
pub open spec fn join_lines(lines: Seq<Seq<char>>) -> Seq<char>
    decreases lines.len(),
{
    if lines.len() == 0 {
        Seq::empty()
    } else if lines.len() == 1 {
        lines[0]
    } else {
        join_lines(lines.drop_last()) + "\n"@ + lines.last()
    }
}

/// The stderr tail as one text, lines joined by newlines.
pub fn join_tail(tail: &Vec<String>) -> (text: String)
    ensures
        text@ == join_lines(views(tail@)),
{
    let mut out = String::new();
    let mut i: usize = 0;
    proof {
        reveal_strlit("\n");
    }
    while i < tail.len()
        invariant
            i <= tail.len(),
            "\n"@ == seq!['\n'],
            out@ == join_lines(views(tail@.take(i as int))),
        decreases tail.len() - i,
    {
        proof {
            let w = views(tail@.take(i + 1));
            assert(w.drop_last() =~= views(tail@.take(i as int)));
            assert(w.last() == tail@[i as int]@);
            if i == 0 {
                assert(out@ =~= Seq::<char>::empty());
            }
        }
        if i > 0 {
            push_str(&mut out, "\n");
        }
        push_str(&mut out, tail[i].as_str());
        proof {
            if i == 0 {
                assert(out@ =~= tail@[0]@);
            }
        }
        i += 1;
    }
    assert(tail@.take(i as int) =~= tail@);
    out
}

/// Where a tunnel start ends once the readiness polling stops.
#[derive(Clone, Debug)]
pub struct TunnelOutcome {
    /// The tunnel status to publish.
    pub status: TunnelStatus,
    /// The error hint for the error window, when the tunnel did not come up.
    pub hint: Option<String>,
}

/// Connected when the forward answered; otherwise disconnected, with the
/// hint read from ssh's stderr tail.
pub fn tunnel_outcome(connected: bool, tail: &Vec<String>) -> (r: TunnelOutcome)
    ensures
        connected ==> r.status == TunnelStatus::Connected && r.hint is None,
        !connected ==> r.status == TunnelStatus::Disconnected && (r.hint matches Some(h) && h@
            == spec_hint(join_lines(views(tail@)), unicode_lowercase(join_lines(views(tail@))))),
{
    if connected {
        TunnelOutcome { status: TunnelStatus::Connected, hint: None }
    } else {
        let text = join_tail(tail);
        TunnelOutcome { status: TunnelStatus::Disconnected, hint: Some(hint_from_stderr(text.as_str())) }
    }
}

/// How many ssh stderr lines are kept for the error hint.
pub const STDERR_TAIL_LINES: usize = 12;

/// The stderr tail after recording `line`: the newest lines, at most
/// `STDERR_TAIL_LINES` of them, oldest first.
pub open spec fn spec_push_tail(tail: Seq<String>, line: String) -> Seq<String> {
    let s = tail.push(line);
    if s.len() > STDERR_TAIL_LINES {
        s.skip(s.len() - STDERR_TAIL_LINES)
    } else {
        s
    }
}

/// Record one ssh stderr line, dropping the oldest lines beyond the limit.
pub fn push_stderr_line(tail: &mut Vec<String>, line: String)
    ensures
        final(tail)@ == spec_push_tail(old(tail)@, line),
{
    let ghost s = old(tail)@.push(line);
    let ghost n = tail.len();
    tail.push(line);
    let mut dropped: usize = 0;
    while tail.len() > STDERR_TAIL_LINES
        invariant
            s.len() >= dropped,
            s.len() == n + 1,
            n <= usize::MAX,
            tail@ == s.skip(dropped as int),
            tail.len() == s.len() - dropped,
            dropped > 0 ==> tail.len() >= STDERR_TAIL_LINES,
        decreases tail.len(),
    {
        tail.remove(0);
        assert(s.skip(dropped as int).remove(0) =~= s.skip(dropped + 1));
        dropped += 1;
    }
    proof {
        if s.len() > STDERR_TAIL_LINES {
            assert(dropped == s.len() - STDERR_TAIL_LINES);
        } else {
            assert(dropped == 0);
            assert(s.skip(0) =~= s);
        }
    }
}

/// The stderr tail never holds more than its limit and always ends with the
/// newest line.
pub proof fn law_stderr_tail_bounded(tail: Seq<String>, line: String)
    ensures
        spec_push_tail(tail, line).len() <= STDERR_TAIL_LINES,
        spec_push_tail(tail, line).last() == line,
        tail.len() < STDERR_TAIL_LINES ==> spec_push_tail(tail, line) == tail.push(line),
{
}

} // verus!
