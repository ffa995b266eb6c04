//! Strip-mode label scheme. Every content window is labelled `main-<n>`,
//! and each tab webview inside it `tab-<n>-<m>`, so a tab's label alone names
//! the window that hosts it.
use vstd::prelude::*;
use crate::text::{
    before_first, chars_of, dec, has_prefix, lemma_dec_injective, push_dec, push_str, string_of,
    string_of_all,
};

verus! {

/// The `<n>` of a window label `main-<n>`, or `0` for any other label.
pub open spec fn spec_window_seq(window_label: Seq<char>) -> Seq<char> {
    if has_prefix(window_label, "main-"@) {
        window_label.skip(5)
    } else {
        "0"@
    }
}

/// `tab-<n>-<m>` → `main-<n>`; anything not starting with `tab-` has no window.
pub open spec fn spec_window_of_tab(tab_label: Seq<char>) -> Option<Seq<char>> {
    if has_prefix(tab_label, "tab-"@) {
        Some("main-"@ + before_first(tab_label.skip(4), '-'))
    } else {
        None
    }
}

/// The label of tab number `m` in window `window_label`.
pub open spec fn spec_tab_label(window_label: Seq<char>, m: nat) -> Seq<char> {
    "tab-"@ + spec_window_seq(window_label) + "-"@ + dec(m)
}

/// The window hosting a tab, from the tab's label.
pub fn window_of_tab(tab_label: &str) -> (w: Option<String>)
    ensures
        w matches Some(s) ==> spec_window_of_tab(tab_label@) == Some(s@),
        w is None ==> spec_window_of_tab(tab_label@) is None,
{
    let v = chars_of(tab_label);
    let p = chars_of("tab-");
    if !crate::text::starts_with(&v, &p) {
        return None;
    }
    proof {
        reveal_strlit("tab-");
    }
    let mut j: usize = 4;
    assert(v@.skip(4) =~= v@.subrange(4, v@.len() as int));
    while j < v.len() && v[j] != '-'
        invariant
            4 <= j <= v.len(),
            before_first(v@.skip(4), '-') == v@.subrange(4, j as int) + before_first(v@.skip(j as int), '-'),
        decreases v.len() - j,
    {
        proof {
            let r = v@.skip(j as int);
            assert(r[0] == v@[j as int]);
            assert(r.drop_first() =~= v@.skip(j + 1));
            assert(v@.subrange(4, j as int) + (seq![r[0]] + before_first(r.drop_first(), '-')) =~= v@.subrange(4, j + 1) + before_first(v@.skip(j + 1), '-'));
        }
        j += 1;
    }
    proof {
        let r = v@.skip(j as int);
        if j < v.len() {
            assert(r[0] == '-');
        } else {
            assert(r.len() == 0);
        }
        assert(before_first(r, '-') =~= Seq::<char>::empty());
        assert(v@.subrange(4, j as int) + Seq::<char>::empty() =~= v@.subrange(4, j as int));
    }
    let mut out = crate::text::owned("main-");
    let rest = string_of(&v, 4, j);
    push_str(&mut out, rest.as_str());
    Some(out)
}

/// The `<n>` of a window label `main-<n>` (`"0"` for any other label).
pub fn window_seq(window_label: &str) -> (seq: &str)
    ensures
        seq@ == spec_window_seq(window_label@),
{
    let v = chars_of(window_label);
    let p = chars_of("main-");
    if crate::text::starts_with(&v, &p) {
        proof {
            reveal_strlit("main-");
        }
        window_label.substring_char(5, v.len())
    } else {
        "0"
    }
}

/// The label of tab number `m` in window `window_label`.
pub fn tab_label_for(window_label: &str, m: u64) -> (label: String)
    ensures
        label@ == spec_tab_label(window_label@, m as nat),
{
    let mut out = crate::text::owned("tab-");
    push_str(&mut out, window_seq(window_label));
    push_str(&mut out, "-");
    let mut digits: Vec<char> = Vec::new();
    push_dec(&mut digits, m);
    assert(digits@ =~= dec(m as nat));
    let d = string_of_all(&digits);
    push_str(&mut out, d.as_str());
    out
}

proof fn lemma_before_first_concat(a: Seq<char>, b: Seq<char>)
    requires
        !a.contains('-'),
    ensures
        before_first(a + seq!['-'] + b, '-') == a,
    decreases a.len(),
{
    let s = a + seq!['-'] + b;
    if a.len() == 0 {
        assert(s[0] == '-');
    } else {
        assert(s[0] == a[0]);
        assert(a[0] != '-') by {
            assert(a.contains(a[0]) || true);
            if a[0] == '-' {
                assert(a.contains('-'));
            }
        }
        assert(!a.drop_first().contains('-')) by {
            if a.drop_first().contains('-') {
                let k = choose|k: int| 0 <= k < a.drop_first().len() && a.drop_first()[k] == '-';
                assert(a[k + 1] == '-');
                assert(a.contains('-'));
            }
        }
        lemma_before_first_concat(a.drop_first(), b);
        assert(s.drop_first() =~= a.drop_first() + seq!['-'] + b);
        assert(seq![a[0]] + a.drop_first() =~= a);
    }
}

/// A tab label names its window again: for a window labelled `main-<n>`
/// whose `<n>` holds no `-`, every tab label built for it maps back to it.
pub proof fn law_tab_label_names_its_window(window_label: Seq<char>, m: nat)
    requires
        has_prefix(window_label, "main-"@),
        !window_label.skip(5).contains('-'),
    ensures
        spec_window_of_tab(spec_tab_label(window_label, m)) == Some(window_label),
{
    reveal_strlit("main-");
    reveal_strlit("tab-");
    reveal_strlit("-");
    let n = window_label.skip(5);
    let t = spec_tab_label(window_label, m);
    assert(t =~= "tab-"@ + (n + seq!['-'] + dec(m)));
    assert(t.take(4) =~= "tab-"@);
    assert(has_prefix(t, "tab-"@));
    assert(t.skip(4) =~= n + seq!['-'] + dec(m));
    lemma_before_first_concat(n, dec(m));
    assert("main-"@ + n =~= window_label);
}

/// Tab numbers name distinct tabs: a window's tab labels differ whenever
/// their numbers do, so the counter never hands out a label twice.
pub proof fn law_tab_labels_unique(window_label: Seq<char>, m1: nat, m2: nat)
    requires
        m1 != m2,
    ensures
        spec_tab_label(window_label, m1) != spec_tab_label(window_label, m2),
{
    let p = "tab-"@ + spec_window_seq(window_label) + "-"@;
    let a = spec_tab_label(window_label, m1);
    let b = spec_tab_label(window_label, m2);
    assert(a =~= p + dec(m1));
    assert(b =~= p + dec(m2));
    if a == b {
        assert(a.skip(p.len() as int) =~= dec(m1));
        assert(b.skip(p.len() as int) =~= dec(m2));
        lemma_dec_injective(m1, m2);
    }
}

/// The name of the WebUI's profile-selector cookie.
pub const PROFILE_COOKIE: &'static str = "hermes_profile";

/// The value of the first `hermes_profile` cookie among `(name, value)` pairs.
pub open spec fn spec_profile_from_cookies(cookies: Seq<(String, String)>) -> Option<Seq<char>>
    decreases cookies.len(),
{
    if cookies.len() == 0 {
        None
    } else if cookies[0].0@ == PROFILE_COOKIE@ {
        Some(cookies[0].1@)
    } else {
        spec_profile_from_cookies(cookies.drop_first())
    }
}

/// The tab's WebUI profile from its cookie jar (`None` = default profile,
/// for which the WebUI sets no cookie).
pub fn profile_from_cookies(cookies: &Vec<(String, String)>) -> (p: Option<String>)
    ensures
        p matches Some(s) ==> spec_profile_from_cookies(cookies@) == Some(s@),
        p is None ==> spec_profile_from_cookies(cookies@) is None,
{
    let name = crate::text::owned(PROFILE_COOKIE);
    let mut i: usize = 0;
    assert(cookies@.skip(0) =~= cookies@);
    while i < cookies.len()
        invariant
            i <= cookies.len(),
            name@ == PROFILE_COOKIE@,
            spec_profile_from_cookies(cookies@) == spec_profile_from_cookies(cookies@.skip(i as int)),
        decreases cookies.len() - i,
    {
        assert(cookies@.skip(i as int)[0] == cookies@[i as int]);
        if cookies[i].0 == name {
            return Some(cookies[i].1.clone());
        }
        assert(cookies@.skip(i as int).drop_first() =~= cookies@.skip(i + 1));
        i += 1;
    }
    None
}

/// Title of the notice shown when the tab bar is hidden.
pub const HIDE_HINT_TITLE: &'static str = "Tab bar hidden";

/// Body of the notice shown when the tab bar is hidden.
pub const HIDE_HINT_BODY: &'static str = "Ctrl+Shift+B to show it";

/// What toggling the tab bar does about the "how to bring it back" hint,
/// given whether the bar is now hidden and whether the hint is retired.
#[derive(Clone, Copy, Debug, PartialEq, Eq, Structural)]
pub struct HideHint {
    /// Show the hint now.
    pub notify: bool,
    /// Retire the hint for good.
    pub retire: bool,
}

/// Hiding the bar shows the hint until the user has once brought the bar
/// back; that first return retires it (a dropped notification does not
/// spend the hint).
pub fn hide_hint(now_hidden: bool, retired: bool) -> (h: HideHint)
    ensures
        h.notify == (now_hidden && !retired),
        h.retire == (!now_hidden && !retired),
{
    HideHint { notify: now_hidden && !retired, retire: !now_hidden && !retired }
}

} // verus!
