//! Shell state the decisions run on: the tunnel status and the strip-mode tab
//! registry of one window (ordered tabs, which one is active, the tab-number
//! counter). The registry's operations are the tab-bar actions: add, select,
//! close, cycle, reorder, retitle.
use vstd::prelude::*;
use crate::strip::{spec_tab_label, tab_label_for};

verus! {

/// SSH tunnel status.
#[derive(Clone, Copy, Debug, PartialEq, Eq, Structural)]
pub enum TunnelStatus {
    Connecting,
    Connected,
    Disconnected,
}

/// The lowercase name the pages receive for a tunnel status.
pub open spec fn spec_status_name(s: TunnelStatus) -> Seq<char> {
    match s {
        TunnelStatus::Connecting => "connecting"@,
        TunnelStatus::Connected => "connected"@,
        TunnelStatus::Disconnected => "disconnected"@,
    }
}

impl TunnelStatus {
    /// The lowercase name the pages receive for this status.
    pub fn as_str(&self) -> (s: &'static str)
        ensures
            s@ == spec_status_name(*self),
    {
        match self {
            TunnelStatus::Connecting => "connecting",
            TunnelStatus::Connected => "connected",
            TunnelStatus::Disconnected => "disconnected",
        }
    }
}

/// One tab in a strip-mode window.
#[derive(Clone, Debug)]
pub struct TabEntry {
    /// Webview label, `tab-<n>-<m>`.
    pub label: String,
    /// Display title shown in the strip.
    pub title: String,
    /// The tab's session waits on the user (approval/clarify pending).
    pub attention: bool,
    /// The tab's session is streaming a response.
    pub busy: bool,
    /// Value of the tab's `hermes_profile` cookie (`None` = default profile).
    pub profile: Option<String>,
    /// Active profile name reported by the page, for the strip's dot.
    pub dot_profile: Option<String>,
    /// On-disk data-partition directory name backing the tab's cookie jar.
    pub partition: String,
    /// User-given tab name overriding the page title.
    pub custom_title: Option<String>,
}

/// Title a tab shows until its page reports one.
pub const NEW_TAB_TITLE: &'static str = "New Tab";

impl TabEntry {
    /// A freshly opened tab `label` on profile `profile`, backed by the data
    /// partition of the same name, titled `New Tab` and idle.
    pub fn opened(label: String, profile: Option<String>) -> (t: TabEntry)
        ensures
            t.label@ == label@,
            t.title@ == NEW_TAB_TITLE@,
            !t.attention,
            !t.busy,
            opt_view(t.profile) == opt_view(profile),
            t.dot_profile is None,
            t.partition@ == label@,
            t.custom_title is None,
    {
        let partition = label.clone();
        TabEntry {
            label,
            title: crate::text::owned(NEW_TAB_TITLE),
            attention: false,
            busy: false,
            profile,
            dot_profile: None,
            partition,
            custom_title: None,
        }
    }
}

/// Per-window tab state for strip mode.
#[derive(Clone, Debug)]
pub struct WindowTabs {
    pub tabs: Vec<TabEntry>,
    pub active: usize,
    pub tab_seq: u64,
    /// The strip is hidden so the content fills the window.
    pub strip_hidden: bool,
}

impl Default for WindowTabs {
    fn default() -> (w: Self)
        ensures
            w.tabs@.len() == 0,
            w.active == 0,
            w.tab_seq == 0,
            !w.strip_hidden,
    {
        WindowTabs { tabs: Vec::new(), active: 0, tab_seq: 0, strip_hidden: false }
    }
}

/// Index `i` holds the first tab labelled `l`.
pub open spec fn is_first_with_label(tabs: Seq<TabEntry>, l: Seq<char>, i: int) -> bool {
    &&& 0 <= i < tabs.len()
    &&& tabs[i].label@ == l
    &&& forall|j: int| 0 <= j < i ==> (#[trigger] tabs[j]).label@ != l
}

/// Index of the first tab labelled `l`, if any.
pub open spec fn spec_position(tabs: Seq<TabEntry>, l: Seq<char>) -> Option<int> {
    if exists|i: int| is_first_with_label(tabs, l, i) {
        Some(choose|i: int| is_first_with_label(tabs, l, i))
    } else {
        None
    }
}

/// Label of the tab at index `i`, if there is one.
pub open spec fn label_at(tabs: Seq<TabEntry>, i: int) -> Option<Seq<char>> {
    if 0 <= i < tabs.len() {
        Some(tabs[i].label@)
    } else {
        None
    }
}

/// Labels of all tabs, in order.
pub open spec fn tab_labels(tabs: Seq<TabEntry>) -> Seq<Seq<char>> {
    tabs.map_values(|t: TabEntry| t.label@)
}

/// No two tabs share a label.
pub open spec fn labels_distinct(tabs: Seq<TabEntry>) -> bool {
    forall|i: int, j: int|
        0 <= i < tabs.len() && 0 <= j < tabs.len() && i != j ==> (#[trigger] tabs[i]).label@
            != (#[trigger] tabs[j]).label@
}

/// Index reached by cycling from `active` among `len` tabs.
pub open spec fn spec_cycle_index(len: int, active: int, forward: bool) -> int {
    if forward {
        (active + 1) % len
    } else {
        (active + len - 1) % len
    }
}

/// What closing a tab did.
#[derive(Clone, Debug)]
pub enum CloseOutcome {
    /// It was the window's only tab: the whole window closes instead.
    CloseWindow,
    /// No tab has that label; nothing changed.
    NotFound,
    /// The tab was removed; `next_active` is the tab to show now.
    Closed { next_active: String },
}

/// Active index after removing index `idx` from `len` tabs (`len >= 2`).
pub open spec fn spec_active_after_close(len: int, active: int, idx: int) -> int {
    if active >= len - 1 {
        len - 2
    } else if idx < active {
        active - 1
    } else {
        active
    }
}

proof fn lemma_position_unique(tabs: Seq<TabEntry>, l: Seq<char>, i: int)
    requires
        is_first_with_label(tabs, l, i),
    ensures
        spec_position(tabs, l) == Some(i),
{
    let k = choose|k: int| is_first_with_label(tabs, l, k);
    if k < i {
        assert(tabs[k].label@ != l);
    } else if i < k {
        assert(tabs[i].label@ != l);
    }
}

proof fn lemma_exists_first(tabs: Seq<TabEntry>, l: Seq<char>, k: int)
    requires
        0 <= k < tabs.len(),
        tabs[k].label@ == l,
    ensures
        spec_position(tabs, l) is Some,
    decreases k,
{
    if exists|j: int| 0 <= j < k && (#[trigger] tabs[j]).label@ == l {
        let j = choose|j: int| 0 <= j < k && (#[trigger] tabs[j]).label@ == l;
        lemma_exists_first(tabs, l, j);
    } else {
        assert(is_first_with_label(tabs, l, k));
    }
}

proof fn lemma_position_distinct(tabs: Seq<TabEntry>, i: int)
    requires
        labels_distinct(tabs),
        0 <= i < tabs.len(),
    ensures
        spec_position(tabs, tabs[i].label@) == Some(i),
{
    assert forall|j: int| 0 <= j < i implies (#[trigger] tabs[j]).label@ != tabs[i].label@ by {
    }
    lemma_position_unique(tabs, tabs[i].label@, i);
}

impl WindowTabs {
    /// Well-formed: while there are tabs, `active` indexes one of them.
    pub open spec fn wf(&self) -> bool {
        self.tabs@.len() > 0 ==> self.active < self.tabs@.len()
    }

    /// Label of the active tab, if `active` indexes a tab.
    pub open spec fn spec_active_label(&self) -> Option<Seq<char>> {
        label_at(self.tabs@, self.active as int)
    }

    /// Index of the first tab labelled `label`.
    pub fn position_of(&self, label: &str) -> (r: Option<usize>)
        ensures
            r matches Some(i) ==> spec_position(self.tabs@, label@) == Some(i as int),
            r is None ==> spec_position(self.tabs@, label@) is None,
    {
        let l = crate::text::owned(label);
        let mut i: usize = 0;
        while i < self.tabs.len()
            invariant
                i <= self.tabs.len(),
                l@ == label@,
                forall|j: int| 0 <= j < i ==> (#[trigger] self.tabs@[j]).label@ != label@,
            decreases self.tabs.len() - i,
        {
            if self.tabs[i].label == l {
                proof {
                    lemma_position_unique(self.tabs@, label@, i as int);
                }
                return Some(i);
            }
            i += 1;
        }
        assert(!exists|k: int| is_first_with_label(self.tabs@, label@, k));
        None
    }

    /// Label of the active tab.
    pub fn active_label(&self) -> (r: Option<String>)
        ensures
            r matches Some(s) ==> self.spec_active_label() == Some(s@),
            r is None ==> self.spec_active_label() is None,
    {
        if self.active < self.tabs.len() {
            Some(self.tabs[self.active].label.clone())
        } else {
            None
        }
    }

    /// Labels of all tabs, in order.
    pub fn labels(&self) -> (r: Vec<String>)
        ensures
            r@.map_values(|s: String| s@) == tab_labels(self.tabs@),
    {
        let mut out: Vec<String> = Vec::new();
        let mut i: usize = 0;
        while i < self.tabs.len()
            invariant
                i <= self.tabs.len(),
                out@.len() == i,
                forall|k: int| 0 <= k < i ==> (#[trigger] out@[k])@ == self.tabs@[k].label@,
            decreases self.tabs.len() - i,
        {
            out.push(self.tabs[i].label.clone());
            i += 1;
        }
        assert(out@.map_values(|s: String| s@) =~= tab_labels(self.tabs@));
        out
    }

    /// Advance the tab counter and return the new tab's label, `tab-<n>-<m>`.
    pub fn next_tab_label(&mut self, window_label: &str) -> (label: String)
        requires
            old(self).tab_seq < u64::MAX,
        ensures
            final(self).tab_seq == old(self).tab_seq + 1,
            final(self).tabs@ == old(self).tabs@,
            final(self).active == old(self).active,
            final(self).strip_hidden == old(self).strip_hidden,
            label@ == spec_tab_label(window_label@, final(self).tab_seq as nat),
    {
        self.tab_seq = self.tab_seq + 1;
        tab_label_for(window_label, self.tab_seq)
    }

    /// Append a tab and make it active; returns the label of the tab that was
    /// active before (which the caller hides).
    pub fn push_tab(&mut self, entry: TabEntry) -> (prev: Option<String>)
        requires
            old(self).tabs@.len() < usize::MAX,
        ensures
            final(self).tabs@ == old(self).tabs@.push(entry),
            final(self).active == old(self).tabs@.len(),
            final(self).tab_seq == old(self).tab_seq,
            final(self).strip_hidden == old(self).strip_hidden,
            final(self).wf(),
            prev matches Some(s) ==> old(self).spec_active_label() == Some(s@),
            prev is None ==> old(self).spec_active_label() is None,
    {
        let prev = self.active_label();
        self.tabs.push(entry);
        self.active = self.tabs.len() - 1;
        prev
    }

    /// Make the first tab labelled `tab_label` active. `None` when there is no
    /// such tab (nothing changes); otherwise `Some` of the previously active
    /// tab's label (which the caller hides).
    pub fn select(&mut self, tab_label: &str) -> (r: Option<Option<String>>)
        ensures
            final(self).tabs@ == old(self).tabs@,
            final(self).tab_seq == old(self).tab_seq,
            final(self).strip_hidden == old(self).strip_hidden,
            spec_position(old(self).tabs@, tab_label@) is None ==> r is None && final(self).active
                == old(self).active,
            spec_position(old(self).tabs@, tab_label@) matches Some(i) ==> {
                &&& final(self).active == i
                &&& r matches Some(prev) && (prev matches Some(p) ==> old(
                    self,
                ).spec_active_label() == Some(p@)) && (prev is None ==> old(
                    self,
                ).spec_active_label() is None)
            },
            r is Some ==> final(self).spec_active_label() == Some(tab_label@),
            final(self).wf() || !old(self).wf() && r is None,
    {
        match self.position_of(tab_label) {
            None => None,
            Some(idx) => {
                let prev = self.active_label();
                self.active = idx;
                Some(prev)
            },
        }
    }

    /// Close the first tab labelled `tab_label`. The last remaining tab is
    /// never removed: closing it closes the whole window. When the closed tab
    /// sat before the active one, the same tab stays active; when the active
    /// tab itself closes, the one after it (or the new last tab) takes over.
    pub fn close(&mut self, tab_label: &str) -> (r: CloseOutcome)
        ensures
            old(self).tabs@.len() <= 1 ==> r is CloseWindow && *final(self) == *old(self),
            old(self).tabs@.len() > 1 && spec_position(old(self).tabs@, tab_label@) is None ==> r is NotFound
                && *final(self) == *old(self),
            old(self).tabs@.len() > 1 && spec_position(old(self).tabs@, tab_label@) is Some ==> {
                let idx = spec_position(old(self).tabs@, tab_label@)->0;
                &&& final(self).tabs@ == old(self).tabs@.remove(idx)
                &&& final(self).active == spec_active_after_close(
                    old(self).tabs@.len() as int,
                    old(self).active as int,
                    idx,
                )
                &&& final(self).tab_seq == old(self).tab_seq
                &&& final(self).strip_hidden == old(self).strip_hidden
                &&& final(self).wf()
                &&& r matches CloseOutcome::Closed { next_active } && final(self).spec_active_label()
                    == Some(next_active@)
                &&& (old(self).wf() && idx != old(self).active) ==> final(self).spec_active_label()
                    == old(self).spec_active_label()
            },
    {
        if self.tabs.len() <= 1 {
            return CloseOutcome::CloseWindow;
        }
        let idx = match self.position_of(tab_label) {
            None => {
                return CloseOutcome::NotFound;
            },
            Some(i) => i,
        };
        let ghost old_tabs = self.tabs@;
        let ghost old_active = self.active;
        self.tabs.remove(idx);
        if self.active >= self.tabs.len() {
            self.active = self.tabs.len() - 1;
        } else if idx < self.active {
            self.active = self.active - 1;
        }
        proof {
            if old_active < old_tabs.len() && idx != old_active {
                if idx < old_active {
                    assert(self.tabs@[self.active as int] == old_tabs[old_active as int]);
                } else {
                    assert(self.tabs@[self.active as int] == old_tabs[old_active as int]);
                }
            }
        }
        let next = self.tabs[self.active].label.clone();
        CloseOutcome::Closed { next_active: next }
    }

    /// The label the tab bar cycles to (`Ctrl+Tab` / `Ctrl+Shift+Tab`); `None`
    /// with fewer than two tabs.
    pub fn cycle_target(&self, forward: bool) -> (r: Option<String>)
        requires
            forward && self.tabs@.len() >= 2 ==> self.active < usize::MAX,
            !forward && self.tabs@.len() >= 2 ==> self.active + self.tabs@.len() <= usize::MAX,
        ensures
            self.tabs@.len() < 2 ==> r is None,
            self.tabs@.len() >= 2 ==> (r matches Some(s) && s@ == self.tabs@[spec_cycle_index(
                self.tabs@.len() as int,
                self.active as int,
                forward,
            )].label@),
    {
        let len = self.tabs.len();
        if len < 2 {
            return None;
        }
        let idx = if forward {
            (self.active + 1) % len
        } else {
            (self.active + len - 1) % len
        };
        Some(self.tabs[idx].label.clone())
    }

    /// Move the first tab labelled `tab_label` to `new_index` (clamped to the
    /// last slot); the same tab stays active. Returns whether anything moved.
    pub fn reorder(&mut self, tab_label: &str, new_index: usize) -> (moved: bool)
        ensures
            final(self).tab_seq == old(self).tab_seq,
            final(self).strip_hidden == old(self).strip_hidden,
            !moved ==> *final(self) == *old(self),
            moved <==> (old(self).tabs@.len() > 0 && spec_position(old(self).tabs@, tab_label@) is Some
                && spec_position(old(self).tabs@, tab_label@)->0 != (if new_index < old(self).tabs@.len() {
                new_index as int
            } else {
                old(self).tabs@.len() - 1
            })),
            moved ==> ({
                let from = spec_position(old(self).tabs@, tab_label@)->0;
                let to = if new_index < old(self).tabs@.len() {
                    new_index as int
                } else {
                    old(self).tabs@.len() - 1
                };
                final(self).tabs@ == old(self).tabs@.remove(from).insert(to, old(self).tabs@[from])
            }),
            moved ==> final(self).tabs@.to_multiset() == old(self).tabs@.to_multiset(),
            moved && old(self).wf() ==> final(self).wf() && final(self).spec_active_label() == old(
                self,
            ).spec_active_label(),
            moved && !old(self).wf() ==> final(self).active == old(self).active,
    {
        if self.tabs.len() == 0 {
            return false;
        }
        let from = match self.position_of(tab_label) {
            None => {
                return false;
            },
            Some(i) => i,
        };
        let to = if new_index < self.tabs.len() - 1 {
            new_index
        } else {
            self.tabs.len() - 1
        };
        if from == to {
            return false;
        }
        let ghost old_tabs = self.tabs@;
        let active_label = self.active_label();
        let tab = self.tabs.remove(from);
        self.tabs.insert(to, tab);
        proof {
            let x = old_tabs[from as int];
            vstd::seq_lib::to_multiset_remove(old_tabs, from as int);
            vstd::seq_lib::to_multiset_insert(old_tabs.remove(from as int), to as int, x);
            broadcast use vstd::multiset::group_multiset_axioms;
            vstd::seq_lib::to_multiset_contains(old_tabs, x);
            assert(old_tabs.to_multiset().count(x) > 0);
            assert(old_tabs.to_multiset().remove(x).insert(x) =~= old_tabs.to_multiset());
        }
        match active_label {
            Some(al) => {
                proof {
                    let a = self.active as int;
                    let k = if a == from as int {
                        to as int
                    } else {
                        let r = if a < from as int {
                            a
                        } else {
                            a - 1
                        };
                        if r < to as int {
                            r
                        } else {
                            r + 1
                        }
                    };
                    assert(self.tabs@[k] == old_tabs[a]);
                    lemma_exists_first(self.tabs@, al@, k);
                }
                let p = self.position_of(al.as_str());
                if let Some(idx) = p {
                    self.active = idx;
                }
            },
            None => {},
        }
        true
    }

    /// Set the display title and attention flag of the first tab labelled
    /// `tab_label`. Returns whether such a tab exists.
    pub fn set_title(&mut self, tab_label: &str, title: String, attention: bool) -> (found: bool)
        ensures
            final(self).active == old(self).active,
            final(self).tab_seq == old(self).tab_seq,
            final(self).strip_hidden == old(self).strip_hidden,
            found == spec_position(old(self).tabs@, tab_label@) is Some,
            !found ==> final(self).tabs@ == old(self).tabs@,
            found ==> ({
                let i = spec_position(old(self).tabs@, tab_label@)->0;
                final(self).tabs@ == old(self).tabs@.update(
                    i,
                    TabEntry { title, attention, ..old(self).tabs@[i] },
                )
            }),
    {
        match self.position_of(tab_label) {
            None => false,
            Some(i) => {
                let mut t = self.tabs.remove(i);
                t.title = title;
                t.attention = attention;
                self.tabs.insert(i, t);
                proof {
                    assert(self.tabs@ =~= old(self).tabs@.update(
                        i as int,
                        TabEntry { title: t.title, attention, ..old(self).tabs@[i as int] },
                    ));
                }
                true
            },
        }
    }
}


impl WindowTabs {


    /// The tab to select when a saved window is restored: the saved active
    /// index, clamped to the last tab; `None` when the window has no tabs.
    pub fn restore_target(&self, saved_active: usize) -> (r: Option<String>)
        ensures
            self.tabs@.len() == 0 ==> r is None,
            self.tabs@.len() > 0 ==> (r matches Some(s) && s@ == self.tabs@[if (saved_active as int)
                < self.tabs@.len() {
                saved_active as int
            } else {
                self.tabs@.len() - 1
            }].label@),
    {
        if self.tabs.len() == 0 {
            return None;
        }
        let last = self.tabs.len() - 1;
        let i = if saved_active < last {
            saved_active
        } else {
            last
        };
        Some(self.tabs[i].label.clone())
    }
}

impl WindowTabs {
    /// Record the profile read from the first tab labelled `tab_label`'s
    /// cookie jar. Returns whether it changed (the strip repaints and the
    /// session is saved only then).
    pub fn set_profile(&mut self, tab_label: &str, profile: Option<String>) -> (changed: bool)
        ensures
            final(self).active == old(self).active,
            final(self).tab_seq == old(self).tab_seq,
            final(self).strip_hidden == old(self).strip_hidden,
            changed <==> (spec_position(old(self).tabs@, tab_label@) is Some && opt_view(
                old(self).tabs@[spec_position(old(self).tabs@, tab_label@)->0].profile,
            ) != opt_view(profile)),
            !changed ==> final(self).tabs@ == old(self).tabs@,
            changed ==> ({
                let i = spec_position(old(self).tabs@, tab_label@)->0;
                final(self).tabs@ == old(self).tabs@.update(i, TabEntry { profile, ..old(self).tabs@[i] })
            }),
    {
        match self.position_of(tab_label) {
            None => false,
            Some(i) => {
                let same = match (&self.tabs[i].profile, &profile) {
                    (Some(a), Some(b)) => crate::text::str_eq(a.as_str(), b.as_str()),
                    (None, None) => true,
                    _ => false,
                };
                if same {
                    return false;
                }
                let mut t = self.tabs.remove(i);
                t.profile = profile;
                self.tabs.insert(i, t);
                assert(self.tabs@ =~= old(self).tabs@.update(
                    i as int,
                    TabEntry { profile: t.profile, ..old(self).tabs@[i as int] },
                ));
                true
            },
        }
    }
}

impl WindowTabs {
    /// Record the active-profile name a strip tab's page reported, for its
    /// dot (`None` for an empty name). Returns whether a tab has that label.
    pub fn set_dot_profile(&mut self, tab_label: &str, name: &str) -> (found: bool)
        ensures
            final(self).active == old(self).active,
            final(self).tab_seq == old(self).tab_seq,
            final(self).strip_hidden == old(self).strip_hidden,
            found == spec_position(old(self).tabs@, tab_label@) is Some,
            !found ==> final(self).tabs@ == old(self).tabs@,
            found ==> ({
                let i = spec_position(old(self).tabs@, tab_label@)->0;
                &&& final(self).tabs@.len() == old(self).tabs@.len()
                &&& forall|j: int| 0 <= j < old(self).tabs@.len() && j != i ==> final(self).tabs@[j] == old(self).tabs@[j]
                &&& opt_view(final(self).tabs@[i].dot_profile) == (if name@.len() == 0 {
                    None
                } else {
                    Some(name@)
                })
                &&& final(self).tabs@[i] == TabEntry { dot_profile: final(self).tabs@[i].dot_profile, ..old(self).tabs@[i] }
            }),
    {
        match self.position_of(tab_label) {
            None => false,
            Some(i) => {
                let nv = crate::text::chars_of(name);
                let dot = if nv.len() == 0 {
                    None
                } else {
                    Some(crate::text::owned(name))
                };
                let mut t = self.tabs.remove(i);
                t.dot_profile = dot;
                self.tabs.insert(i, t);
                assert(self.tabs@ =~= old(self).tabs@.update(i as int, t));
                true
            },
        }
    }

    /// Show or hide the strip; returns whether it is hidden now.
    pub fn toggle_strip(&mut self) -> (hidden: bool)
        ensures
            hidden == !old(self).strip_hidden,
            final(self).strip_hidden == hidden,
            final(self).tabs@ == old(self).tabs@,
            final(self).active == old(self).active,
            final(self).tab_seq == old(self).tab_seq,
    {
        self.strip_hidden = !self.strip_hidden;
        self.strip_hidden
    }
}

/// An optional string, viewed.
pub open spec fn opt_view(o: Option<String>) -> Option<Seq<char>> {
    match o {
        Some(s) => Some(s@),
        None => None,
    }
}

/// Which tab shows after a close: closing the active tab hands over to the
/// tab that followed it, or to the one before it when it was the last tab;
/// closing any other tab keeps the same tab active. The new active index
/// always points into the shortened list.
pub proof fn law_close_hands_over(tabs: Seq<TabEntry>, active: int, idx: int)
    requires
        tabs.len() >= 2,
        0 <= active < tabs.len(),
        0 <= idx < tabs.len(),
    ensures
        0 <= spec_active_after_close(tabs.len() as int, active, idx) < tabs.len() - 1,
        idx == active && active + 1 < tabs.len() ==> tabs.remove(idx)[spec_active_after_close(
            tabs.len() as int,
            active,
            idx,
        )] == tabs[idx + 1],
        idx == active && active + 1 == tabs.len() ==> tabs.remove(idx)[spec_active_after_close(
            tabs.len() as int,
            active,
            idx,
        )] == tabs[idx - 1],
        idx != active ==> tabs.remove(idx)[spec_active_after_close(tabs.len() as int, active, idx)] == tabs[active],
{
}

/// Cycling forward and then back (or back and then forward) returns to the
/// tab that was active: with distinct labels, selecting the cycle target
/// lands exactly on the cycled index, and cycling the other way from there
/// yields the starting index.
pub proof fn law_cycle_round_trip(tabs: Seq<TabEntry>, active: int, forward: bool)
    requires
        labels_distinct(tabs),
        tabs.len() >= 2,
        0 <= active < tabs.len(),
    ensures
        ({
            let n = tabs.len() as int;
            let t = spec_cycle_index(n, active, forward);
            &&& 0 <= t < n
            &&& spec_position(tabs, tabs[t].label@) == Some(t)
            &&& spec_cycle_index(n, t, !forward) == active
        }),
{
    let n = tabs.len() as int;
    let t = spec_cycle_index(n, active, forward);
    if forward {
        if active + 1 < n {
            assert((active + 1) % n == active + 1) by (nonlinear_arith)
                requires 0 <= active + 1 < n;
            assert((active + 1 + n - 1) % n == active) by (nonlinear_arith)
                requires 0 <= active < n, n >= 2;
        } else {
            assert((active + 1) % n == 0) by (nonlinear_arith)
                requires active + 1 == n, n >= 2;
            assert((0 + n - 1) % n == n - 1) by (nonlinear_arith)
                requires n >= 2;
        }
    } else {
        if active >= 1 {
            assert((active + n - 1) % n == active - 1) by (nonlinear_arith)
                requires 1 <= active < n;
            assert((active - 1 + 1) % n == active) by (nonlinear_arith)
                requires 1 <= active < n;
        } else {
            assert((active + n - 1) % n == n - 1) by (nonlinear_arith)
                requires active == 0, n >= 2;
            assert((n - 1 + 1) % n == 0) by (nonlinear_arith)
                requires n >= 2;
        }
    }
    lemma_position_distinct(tabs, t);
}

/// Every tab of a window labelled `window` carries a number from 1 to `seq`.
pub open spec fn numbered_up_to(tabs: Seq<TabEntry>, window: Seq<char>, seq: nat) -> bool {
    forall|i: int|
        0 <= i < tabs.len() ==> exists|m: nat| 1 <= m <= seq && (#[trigger] tabs[i]).label@ == spec_tab_label(window, m)
}

/// The tab-number counter never reuses a label: when every tab of a window
/// carries a number up to the counter, the next label is new, and adding it
/// keeps the labels distinct and numbered up to the advanced counter.
pub proof fn law_next_tab_label_is_fresh(tabs: Seq<TabEntry>, window: Seq<char>, seq: nat, entry: TabEntry)
    requires
        numbered_up_to(tabs, window, seq),
        labels_distinct(tabs),
        entry.label@ == spec_tab_label(window, seq + 1),
    ensures
        forall|i: int| 0 <= i < tabs.len() ==> (#[trigger] tabs[i]).label@ != spec_tab_label(window, seq + 1),
        labels_distinct(tabs.push(entry)),
        numbered_up_to(tabs.push(entry), window, seq + 1),
{
    assert forall|i: int| 0 <= i < tabs.len() implies (#[trigger] tabs[i]).label@ != spec_tab_label(window, seq + 1) by {
        let m = choose|m: nat| 1 <= m <= seq && tabs[i].label@ == spec_tab_label(window, m);
        crate::strip::law_tab_labels_unique(window, m, seq + 1);
    }
    let t = tabs.push(entry);
    assert forall|i: int, j: int|
        0 <= i < t.len() && 0 <= j < t.len() && i != j implies (#[trigger] t[i]).label@ != (#[trigger] t[j]).label@ by {
        if i < tabs.len() && j < tabs.len() {
            assert(t[i] == tabs[i] && t[j] == tabs[j]);
        } else if i < tabs.len() {
            assert(t[i] == tabs[i]);
        } else {
            assert(t[j] == tabs[j]);
        }
    }
    assert forall|i: int| 0 <= i < t.len() implies exists|m: nat|
        1 <= m <= seq + 1 && (#[trigger] t[i]).label@ == spec_tab_label(window, m) by {
        if i < tabs.len() {
            assert(t[i] == tabs[i]);
            let m = choose|m: nat| 1 <= m <= seq && tabs[i].label@ == spec_tab_label(window, m);
            assert(1 <= m <= seq + 1 && t[i].label@ == spec_tab_label(window, m));
        } else {
            assert(t[i] == entry);
            assert(t[i].label@ == spec_tab_label(window, seq + 1));
        }
    }
}

/// Closing and reordering keep the labels of a window distinct.
pub proof fn law_close_and_reorder_keep_labels_distinct(tabs: Seq<TabEntry>, idx: int, to: int)
    requires
        labels_distinct(tabs),
        0 <= idx < tabs.len(),
        0 <= to < tabs.len(),
    ensures
        labels_distinct(tabs.remove(idx)),
        labels_distinct(tabs.remove(idx).insert(to, tabs[idx])),
{
    let r = tabs.remove(idx);
    tabs.remove_ensures(idx);
    assert forall|i: int, j: int|
        0 <= i < r.len() && 0 <= j < r.len() && i != j implies (#[trigger] r[i]).label@ != (#[trigger] r[j]).label@ by {
        let oi = if i < idx { i } else { i + 1 };
        let oj = if j < idx { j } else { j + 1 };
        assert(r[i] == tabs[oi] && r[j] == tabs[oj]);
    }
    let q = r.insert(to, tabs[idx]);
    r.insert_ensures(to, tabs[idx]);
    assert forall|i: int, j: int|
        0 <= i < q.len() && 0 <= j < q.len() && i != j implies (#[trigger] q[i]).label@ != (#[trigger] q[j]).label@ by {
        let oi = if i < to { i } else if i == to { -1 } else { i - 1 };
        let oj = if j < to { j } else if j == to { -1 } else { j - 1 };
        let ti = if oi < 0 { idx } else if oi < idx { oi } else { oi + 1 };
        let tj = if oj < 0 { idx } else if oj < idx { oj } else { oj + 1 };
        assert(q[i] == tabs[ti] && q[j] == tabs[tj]);
    }
}

/// Dragging a tab back undoes a drag: with distinct labels, after moving the
/// tab at `from` to `to` the tab is found at `to`, and moving it from there
/// back to `from` restores the original order.
pub proof fn law_reorder_round_trip(tabs: Seq<TabEntry>, from: int, to: int)
    requires
        labels_distinct(tabs),
        0 <= from < tabs.len(),
        0 <= to < tabs.len(),
    ensures
        ({
            let moved = tabs.remove(from).insert(to, tabs[from]);
            &&& spec_position(moved, tabs[from].label@) == Some(to)
            &&& moved.remove(to).insert(from, moved[to]) == tabs
        }),
{
    let r = tabs.remove(from);
    let moved = r.insert(to, tabs[from]);
    r.insert_ensures(to, tabs[from]);
    law_close_and_reorder_keep_labels_distinct(tabs, from, to);
    lemma_position_distinct(moved, to);
    let back = moved.remove(to);
    assert(back =~= r);
    let restored = back.insert(from, moved[to]);
    assert(restored =~= tabs);
}

} // verus!
