//! Menus: the layout of the macOS menu bar and of the strip's "⋯" menu, and
//! what each menu command id does. Building the native menus from these
//! layouts belongs to the application.
use vstd::prelude::*;
use crate::state::opt_view;
use crate::text::{owned, push_str, str_eq};

verus! {

/// A platform-provided menu item.
#[derive(Clone, Copy, Debug, PartialEq, Eq, Structural)]
pub enum NativeItem {
    About,
    Quit,
    CloseWindow,
    Undo,
    Redo,
    Cut,
    Copy,
    SelectAll,
    Minimize,
}

/// One entry of a menu.
#[derive(Clone, Debug)]
pub enum MenuEntry {
    /// A command item: its id (what `menu_action` reads), its text, its
    /// accelerator and whether it can be chosen.
    Item { id: String, text: String, accelerator: Option<String>, enabled: bool },
    /// A platform item, with its text when it is not the platform's own.
    Native { item: NativeItem, text: Option<String> },
    /// A separator line.
    Separator,
}

/// A titled submenu of the menu bar.
#[derive(Clone, Debug)]
pub struct Submenu {
    pub title: String,
    pub entries: Vec<MenuEntry>,
}

/// A menu entry, viewed.
pub enum EntryView {
    Item(Seq<char>, Seq<char>, Option<Seq<char>>, bool),
    Native(NativeItem, Option<Seq<char>>),
    Separator,
}


/// The view of a menu entry.
pub open spec fn entry_view(e: MenuEntry) -> EntryView {
    match e {
        MenuEntry::Item { id, text, accelerator, enabled } => EntryView::Item(
            id@,
            text@,
            opt_view(accelerator),
            enabled,
        ),
        MenuEntry::Native { item, text } => EntryView::Native(item, opt_view(text)),
        MenuEntry::Separator => EntryView::Separator,
    }
}

/// The views of a list of entries.
pub open spec fn entries_view(v: Seq<MenuEntry>) -> Seq<EntryView> {
    v.map_values(|e: MenuEntry| entry_view(e))
}

/// The views of a list of submenus: title and entries.
pub open spec fn submenus_view(v: Seq<Submenu>) -> Seq<(Seq<char>, Seq<EntryView>)> {
    v.map_values(|m: Submenu| (m.title@, entries_view(m.entries@)))
}

/// An enabled command item, viewed.
pub open spec fn command_view(id: Seq<char>, text: Seq<char>) -> EntryView {
    EntryView::Item(id, text, None, true)
}

/// An enabled command item with an accelerator, viewed.
pub open spec fn accel_view(id: Seq<char>, text: Seq<char>, accelerator: Seq<char>) -> EntryView {
    EntryView::Item(id, text, Some(accelerator), true)
}

/// A platform item with its own text, viewed.
pub open spec fn native_view(item: NativeItem) -> EntryView {
    EntryView::Native(item, None)
}

/// The macOS menu bar: the application, File, Edit, View and Window menus.
pub open spec fn spec_app_menu() -> Seq<(Seq<char>, Seq<EntryView>)> {
    seq![
        (
            "Hermes WebUI Desktop"@,
            seq![
                native_view(NativeItem::About),
                EntryView::Separator,
                command_view("check_updates"@, "Check for Updates…"@),
                command_view("whats_new"@, "What's New"@),
                command_view("reveal_logs"@, "Reveal Log File"@),
                EntryView::Separator,
                accel_view("preferences"@, "Preferences…"@, "CmdOrCtrl+,"@),
                EntryView::Separator,
                native_view(NativeItem::Quit),
            ],
        ),
        (
            "File"@,
            seq![
                accel_view("new_window"@, "New Window"@, "CmdOrCtrl+N"@),
                accel_view("new_tab"@, "New Tab"@, "CmdOrCtrl+T"@),
                EntryView::Separator,
                EntryView::Native(NativeItem::CloseWindow, Some("Close Window"@)),
            ],
        ),
        (
            "Edit"@,
            seq![
                native_view(NativeItem::Undo),
                native_view(NativeItem::Redo),
                EntryView::Separator,
                native_view(NativeItem::Cut),
                native_view(NativeItem::Copy),
                accel_view("paste"@, "Paste"@, "CmdOrCtrl+V"@),
                native_view(NativeItem::SelectAll),
                EntryView::Separator,
                accel_view("find"@, "Find…"@, "CmdOrCtrl+F"@),
                accel_view("find_next"@, "Find Next"@, "CmdOrCtrl+G"@),
                accel_view("find_prev"@, "Find Previous"@, "CmdOrCtrl+Shift+G"@),
            ],
        ),
        (
            "View"@,
            seq![
                accel_view("reload"@, "Reload"@, "CmdOrCtrl+R"@),
                EntryView::Separator,
                accel_view("zoom_in"@, "Zoom In"@, "CmdOrCtrl+="@),
                accel_view("zoom_out"@, "Zoom Out"@, "CmdOrCtrl+-"@),
                accel_view("zoom_reset"@, "Actual Size"@, "CmdOrCtrl+0"@),
                EntryView::Separator,
                command_view("open_browser"@, "Open in Browser"@),
            ],
        ),
        (
            "Window"@,
            seq![
                accel_view("show_main"@, "Show Hermes"@, "CmdOrCtrl+Shift+H"@),
                EntryView::Separator,
                native_view(NativeItem::Minimize),
            ],
        ),
    ]
}

/// The strip's "⋯" menu; the tab-bar toggle is left out on Linux, and the
/// version line (`Hermes WebUI Desktop v<version>`) cannot be chosen.
pub open spec fn spec_strip_menu(is_linux: bool, version: Seq<char>) -> Seq<EntryView> {
    seq![command_view("new_tab"@, "New Tab\tCtrl+T"@), command_view("new_window"@, "New Window\tCtrl+N"@)] + (if is_linux {
        Seq::empty()
    } else {
        seq![command_view("toggle_strip"@, "Hide Tab Bar\tCtrl+Shift+B"@)]
    }) + seq![
        EntryView::Separator,
        command_view("reload"@, "Reload\tCtrl+R"@),
        command_view("find"@, "Find in Page…\tCtrl+F"@),
        EntryView::Separator,
        command_view("zoom_in"@, "Zoom In\tCtrl+="@),
        command_view("zoom_out"@, "Zoom Out\tCtrl+-"@),
        command_view("zoom_reset"@, "Actual Size\tCtrl+0"@),
        EntryView::Separator,
        command_view("preferences"@, "Preferences…\tCtrl+,"@),
        command_view("open_browser"@, "Open in Browser"@),
        EntryView::Separator,
        EntryView::Item("about_version"@, "Hermes WebUI Desktop v"@ + version, None, false),
        command_view("whats_new"@, "What's New"@),
        command_view("check_updates"@, "Check for Updates…"@),
        command_view("reveal_logs"@, "Reveal Log File"@),
        command_view("quit"@, "Quit"@),
    ]
}

fn item(id: &str, text: &str) -> (e: MenuEntry)
    ensures
        entry_view(e) == command_view(id@, text@),
{
    MenuEntry::Item { id: owned(id), text: owned(text), accelerator: None, enabled: true }
}

fn item_acc(id: &str, text: &str, accelerator: &str) -> (e: MenuEntry)
    ensures
        entry_view(e) == accel_view(id@, text@, accelerator@),
{
    MenuEntry::Item { id: owned(id), text: owned(text), accelerator: Some(owned(accelerator)), enabled: true }
}

fn native(item: NativeItem) -> (e: MenuEntry)
    ensures
        entry_view(e) == native_view(item),
{
    MenuEntry::Native { item, text: None }
}

fn app_submenu() -> (m: Submenu)
    ensures
        (m.title@, entries_view(m.entries@)) == spec_app_menu()[0],
{
    let mut v: Vec<MenuEntry> = Vec::new();
    v.push(native(NativeItem::About));
    v.push(MenuEntry::Separator);
    v.push(item("check_updates", "Check for Updates…"));
    v.push(item("whats_new", "What's New"));
    v.push(item("reveal_logs", "Reveal Log File"));
    v.push(MenuEntry::Separator);
    v.push(item_acc("preferences", "Preferences…", "CmdOrCtrl+,"));
    v.push(MenuEntry::Separator);
    v.push(native(NativeItem::Quit));
    assert(entries_view(v@) =~= spec_app_menu()[0].1);
    Submenu { title: owned("Hermes WebUI Desktop"), entries: v }
}

fn file_submenu() -> (m: Submenu)
    ensures
        (m.title@, entries_view(m.entries@)) == spec_app_menu()[1],
{
    let mut v: Vec<MenuEntry> = Vec::new();
    v.push(item_acc("new_window", "New Window", "CmdOrCtrl+N"));
    v.push(item_acc("new_tab", "New Tab", "CmdOrCtrl+T"));
    v.push(MenuEntry::Separator);
    v.push(MenuEntry::Native { item: NativeItem::CloseWindow, text: Some(owned("Close Window")) });
    assert(entries_view(v@) =~= spec_app_menu()[1].1);
    Submenu { title: owned("File"), entries: v }
}

fn edit_submenu() -> (m: Submenu)
    ensures
        (m.title@, entries_view(m.entries@)) == spec_app_menu()[2],
{
    let mut v: Vec<MenuEntry> = Vec::new();
    v.push(native(NativeItem::Undo));
    v.push(native(NativeItem::Redo));
    v.push(MenuEntry::Separator);
    v.push(native(NativeItem::Cut));
    v.push(native(NativeItem::Copy));
    v.push(item_acc("paste", "Paste", "CmdOrCtrl+V"));
    v.push(native(NativeItem::SelectAll));
    v.push(MenuEntry::Separator);
    v.push(item_acc("find", "Find…", "CmdOrCtrl+F"));
    v.push(item_acc("find_next", "Find Next", "CmdOrCtrl+G"));
    v.push(item_acc("find_prev", "Find Previous", "CmdOrCtrl+Shift+G"));
    assert(entries_view(v@) =~= spec_app_menu()[2].1);
    Submenu { title: owned("Edit"), entries: v }
}

fn view_submenu() -> (m: Submenu)
    ensures
        (m.title@, entries_view(m.entries@)) == spec_app_menu()[3],
{
    let mut v: Vec<MenuEntry> = Vec::new();
    v.push(item_acc("reload", "Reload", "CmdOrCtrl+R"));
    v.push(MenuEntry::Separator);
    v.push(item_acc("zoom_in", "Zoom In", "CmdOrCtrl+="));
    v.push(item_acc("zoom_out", "Zoom Out", "CmdOrCtrl+-"));
    v.push(item_acc("zoom_reset", "Actual Size", "CmdOrCtrl+0"));
    v.push(MenuEntry::Separator);
    v.push(item("open_browser", "Open in Browser"));
    assert(entries_view(v@) =~= spec_app_menu()[3].1);
    Submenu { title: owned("View"), entries: v }
}

fn window_submenu() -> (m: Submenu)
    ensures
        (m.title@, entries_view(m.entries@)) == spec_app_menu()[4],
{
    let mut v: Vec<MenuEntry> = Vec::new();
    v.push(item_acc("show_main", "Show Hermes", "CmdOrCtrl+Shift+H"));
    v.push(MenuEntry::Separator);
    v.push(native(NativeItem::Minimize));
    assert(entries_view(v@) =~= spec_app_menu()[4].1);
    Submenu { title: owned("Window"), entries: v }
}

/// The macOS menu bar layout.
pub fn app_menu() -> (menus: Vec<Submenu>)
    ensures
        submenus_view(menus@) == spec_app_menu(),
{
    let mut v: Vec<Submenu> = Vec::new();
    v.push(app_submenu());
    v.push(file_submenu());
    v.push(edit_submenu());
    v.push(view_submenu());
    v.push(window_submenu());
    assert(submenus_view(v@) =~= spec_app_menu());
    v
}

/// The strip's "⋯" menu layout for the running platform and version.
pub fn strip_menu(is_linux: bool, version: &str) -> (entries: Vec<MenuEntry>)
    ensures
        entries_view(entries@) == spec_strip_menu(is_linux, version@),
{
    let mut v: Vec<MenuEntry> = Vec::new();
    v.push(item("new_tab", "New Tab\tCtrl+T"));
    v.push(item("new_window", "New Window\tCtrl+N"));
    if !is_linux {
        v.push(item("toggle_strip", "Hide Tab Bar\tCtrl+Shift+B"));
    }
    v.push(MenuEntry::Separator);
    v.push(item("reload", "Reload\tCtrl+R"));
    v.push(item("find", "Find in Page…\tCtrl+F"));
    v.push(MenuEntry::Separator);
    v.push(item("zoom_in", "Zoom In\tCtrl+="));
    v.push(item("zoom_out", "Zoom Out\tCtrl+-"));
    v.push(item("zoom_reset", "Actual Size\tCtrl+0"));
    v.push(MenuEntry::Separator);
    v.push(item("preferences", "Preferences…\tCtrl+,"));
    v.push(item("open_browser", "Open in Browser"));
    v.push(MenuEntry::Separator);
    let mut about = owned("Hermes WebUI Desktop v");
    push_str(&mut about, version);
    v.push(MenuEntry::Item { id: owned("about_version"), text: about, accelerator: None, enabled: false });
    v.push(item("whats_new", "What's New"));
    v.push(item("check_updates", "Check for Updates…"));
    v.push(item("reveal_logs", "Reveal Log File"));
    v.push(item("quit", "Quit"));
    assert(entries_view(v@) =~= spec_strip_menu(is_linux, version@));
    v
}

/// What a chosen menu command does.
#[derive(Clone, Copy, Debug, PartialEq, Eq, Structural)]
pub enum MenuAction {
    Preferences,
    NewWindow,
    NewTab,
    Paste,
    Reload,
    Quit,
    CheckUpdates,
    RevealLogs,
    ZoomIn,
    ZoomOut,
    ZoomReset,
    Find,
    FindNext,
    FindPrev,
    OpenInBrowser,
    ShowMain,
}

/// The command a menu id names; ids without a command do nothing.
pub open spec fn spec_menu_action(id: Seq<char>) -> Option<MenuAction> {
    if id == "preferences"@ {
        Some(MenuAction::Preferences)
    } else if id == "new_window"@ {
        Some(MenuAction::NewWindow)
    } else if id == "new_tab"@ {
        Some(MenuAction::NewTab)
    } else if id == "paste"@ {
        Some(MenuAction::Paste)
    } else if id == "reload"@ {
        Some(MenuAction::Reload)
    } else if id == "quit"@ {
        Some(MenuAction::Quit)
    } else if id == "check_updates"@ {
        Some(MenuAction::CheckUpdates)
    } else if id == "reveal_logs"@ {
        Some(MenuAction::RevealLogs)
    } else if id == "zoom_in"@ {
        Some(MenuAction::ZoomIn)
    } else if id == "zoom_out"@ {
        Some(MenuAction::ZoomOut)
    } else if id == "zoom_reset"@ {
        Some(MenuAction::ZoomReset)
    } else if id == "find"@ {
        Some(MenuAction::Find)
    } else if id == "find_next"@ {
        Some(MenuAction::FindNext)
    } else if id == "find_prev"@ {
        Some(MenuAction::FindPrev)
    } else if id == "open_browser"@ {
        Some(MenuAction::OpenInBrowser)
    } else if id == "show_main"@ {
        Some(MenuAction::ShowMain)
    } else {
        None
    }
}

/// The id a command is bound to in the menus.
pub open spec fn command_id(a: MenuAction) -> Seq<char> {
    match a {
        MenuAction::Preferences => "preferences"@,
        MenuAction::NewWindow => "new_window"@,
        MenuAction::NewTab => "new_tab"@,
        MenuAction::Paste => "paste"@,
        MenuAction::Reload => "reload"@,
        MenuAction::Quit => "quit"@,
        MenuAction::CheckUpdates => "check_updates"@,
        MenuAction::RevealLogs => "reveal_logs"@,
        MenuAction::ZoomIn => "zoom_in"@,
        MenuAction::ZoomOut => "zoom_out"@,
        MenuAction::ZoomReset => "zoom_reset"@,
        MenuAction::Find => "find"@,
        MenuAction::FindNext => "find_next"@,
        MenuAction::FindPrev => "find_prev"@,
        MenuAction::OpenInBrowser => "open_browser"@,
        MenuAction::ShowMain => "show_main"@,
    }
}

/// Every command is reached through its own id: decoding the id it is bound
/// to gives back that command.
pub proof fn law_menu_ids_round_trip(a: MenuAction)
    ensures
        spec_menu_action(command_id(a)) == Some(a),
{
    reveal_strlit("preferences");
    reveal_strlit("new_window");
    reveal_strlit("new_tab");
    reveal_strlit("paste");
    reveal_strlit("reload");
    reveal_strlit("quit");
    reveal_strlit("check_updates");
    reveal_strlit("reveal_logs");
    reveal_strlit("zoom_in");
    reveal_strlit("zoom_out");
    reveal_strlit("zoom_reset");
    reveal_strlit("find");
    reveal_strlit("find_next");
    reveal_strlit("find_prev");
    reveal_strlit("open_browser");
    reveal_strlit("show_main");
    assert("preferences"@.len() == 11);
    assert("new_window"@.len() == 10);
    assert("new_tab"@.len() == 7);
    assert("paste"@.len() == 5);
    assert("reload"@.len() == 6);
    assert("quit"@.len() == 4);
    assert("check_updates"@.len() == 13);
    assert("reveal_logs"@.len() == 11);
    assert("zoom_in"@.len() == 7);
    assert("zoom_out"@.len() == 8);
    assert("zoom_reset"@.len() == 10);
    assert("find"@.len() == 4);
    assert("find_next"@.len() == 9);
    assert("find_prev"@.len() == 9);
    assert("open_browser"@.len() == 12);
    assert("show_main"@.len() == 9);
    assert("find"@[0] == 'f');
    assert("find_next"@[0] == 'f');
    assert("find_next"@[5] == 'n');
    assert("find_prev"@[0] == 'f');
    assert("find_prev"@[5] == 'p');
    assert("new_tab"@[0] == 'n');
    assert("new_window"@[0] == 'n');
    assert("preferences"@[0] == 'p');
    assert("quit"@[0] == 'q');
    assert("reveal_logs"@[0] == 'r');
    assert("show_main"@[0] == 's');
    assert("zoom_in"@[0] == 'z');
    assert("zoom_reset"@[0] == 'z');
    match a {
        MenuAction::Preferences => {},
        MenuAction::NewWindow => {},
        MenuAction::NewTab => {},
        MenuAction::Paste => {},
        MenuAction::Reload => {},
        MenuAction::Quit => {},
        MenuAction::CheckUpdates => {},
        MenuAction::RevealLogs => {},
        MenuAction::ZoomIn => {},
        MenuAction::ZoomOut => {},
        MenuAction::ZoomReset => {},
        MenuAction::Find => {},
        MenuAction::FindNext => {},
        MenuAction::FindPrev => {},
        MenuAction::OpenInBrowser => {},
        MenuAction::ShowMain => {},
    }
}

/// Distinct ids never decode to the same command.
pub proof fn law_menu_action_injective(x: Seq<char>, y: Seq<char>)
    requires
        spec_menu_action(x) is Some,
        spec_menu_action(x) == spec_menu_action(y),
    ensures
        x == y,
{
    reveal_strlit("preferences");
    reveal_strlit("new_window");
    reveal_strlit("new_tab");
    reveal_strlit("paste");
    reveal_strlit("reload");
    reveal_strlit("quit");
    reveal_strlit("check_updates");
    reveal_strlit("reveal_logs");
    reveal_strlit("zoom_in");
    reveal_strlit("zoom_out");
    reveal_strlit("zoom_reset");
    reveal_strlit("find");
    reveal_strlit("find_next");
    reveal_strlit("find_prev");
    reveal_strlit("open_browser");
    reveal_strlit("show_main");
}

/// Entry `j` of `entries` is an enabled command item with id `id`.
pub open spec fn offers_command(entries: Seq<EntryView>, id: Seq<char>, j: int) -> bool {
    0 <= j < entries.len() && (entries[j] matches EntryView::Item(i, _, _, true) && i == id)
}

/// Every command can be chosen from the menus: its id is an enabled item of
/// the macOS menu bar or of the strip's menu.
pub proof fn law_commands_are_offered(a: MenuAction, is_linux: bool, version: Seq<char>)
    ensures
        (exists|k: int, j: int| 0 <= k < spec_app_menu().len() && #[trigger] offers_command(spec_app_menu()[k].1, command_id(a), j))
            || (exists|j: int| #[trigger] offers_command(spec_strip_menu(is_linux, version), command_id(a), j)),
{
    match a {
        MenuAction::Preferences => {
            assert(offers_command(spec_app_menu()[0].1, command_id(a), 6));
        },
        MenuAction::NewWindow => {
            assert(offers_command(spec_app_menu()[1].1, command_id(a), 0));
        },
        MenuAction::NewTab => {
            assert(offers_command(spec_app_menu()[1].1, command_id(a), 1));
        },
        MenuAction::Paste => {
            assert(offers_command(spec_app_menu()[2].1, command_id(a), 5));
        },
        MenuAction::Reload => {
            assert(offers_command(spec_app_menu()[3].1, command_id(a), 0));
        },
        MenuAction::CheckUpdates => {
            assert(offers_command(spec_app_menu()[0].1, command_id(a), 2));
        },
        MenuAction::RevealLogs => {
            assert(offers_command(spec_app_menu()[0].1, command_id(a), 4));
        },
        MenuAction::ZoomIn => {
            assert(offers_command(spec_app_menu()[3].1, command_id(a), 2));
        },
        MenuAction::ZoomOut => {
            assert(offers_command(spec_app_menu()[3].1, command_id(a), 3));
        },
        MenuAction::ZoomReset => {
            assert(offers_command(spec_app_menu()[3].1, command_id(a), 4));
        },
        MenuAction::Find => {
            assert(offers_command(spec_app_menu()[2].1, command_id(a), 8));
        },
        MenuAction::FindNext => {
            assert(offers_command(spec_app_menu()[2].1, command_id(a), 9));
        },
        MenuAction::FindPrev => {
            assert(offers_command(spec_app_menu()[2].1, command_id(a), 10));
        },
        MenuAction::OpenInBrowser => {
            assert(offers_command(spec_app_menu()[3].1, command_id(a), 6));
        },
        MenuAction::ShowMain => {
            assert(offers_command(spec_app_menu()[4].1, command_id(a), 0));
        },
        MenuAction::Quit => {
            let m = spec_strip_menu(is_linux, version);
            assert(offers_command(m, command_id(a), m.len() - 1));
        },
    }
}

/// Decode a chosen menu id.
pub fn menu_action(id: &str) -> (a: Option<MenuAction>)
    ensures
        a == spec_menu_action(id@),
{
    if str_eq(id, "preferences") {
        Some(MenuAction::Preferences)
    } else if str_eq(id, "new_window") {
        Some(MenuAction::NewWindow)
    } else if str_eq(id, "new_tab") {
        Some(MenuAction::NewTab)
    } else if str_eq(id, "paste") {
        Some(MenuAction::Paste)
    } else if str_eq(id, "reload") {
        Some(MenuAction::Reload)
    } else if str_eq(id, "quit") {
        Some(MenuAction::Quit)
    } else if str_eq(id, "check_updates") {
        Some(MenuAction::CheckUpdates)
    } else if str_eq(id, "reveal_logs") {
        Some(MenuAction::RevealLogs)
    } else if str_eq(id, "zoom_in") {
        Some(MenuAction::ZoomIn)
    } else if str_eq(id, "zoom_out") {
        Some(MenuAction::ZoomOut)
    } else if str_eq(id, "zoom_reset") {
        Some(MenuAction::ZoomReset)
    } else if str_eq(id, "find") {
        Some(MenuAction::Find)
    } else if str_eq(id, "find_next") {
        Some(MenuAction::FindNext)
    } else if str_eq(id, "find_prev") {
        Some(MenuAction::FindPrev)
    } else if str_eq(id, "open_browser") {
        Some(MenuAction::OpenInBrowser)
    } else if str_eq(id, "show_main") {
        Some(MenuAction::ShowMain)
    } else {
        None
    }
}

/// Reloads the active page.
pub const RELOAD_EVAL: &'static str = "location.reload();";

/// Opens or closes the in-page find bar.
pub const FIND_TOGGLE_EVAL: &'static str = "window.__hermesFindToggle && window.__hermesFindToggle();";

/// Jumps to the next find match.
pub const FIND_NEXT_EVAL: &'static str = "window.__hermesFindNext && window.__hermesFindNext(true);";

/// Jumps to the previous find match.
pub const FIND_PREV_EVAL: &'static str = "window.__hermesFindNext && window.__hermesFindNext(false);";

/// The script a command runs in the active page, for the commands that are one.
pub fn active_page_script(a: MenuAction) -> (js: Option<&'static str>)
    ensures
        a == MenuAction::Reload ==> js == Some(RELOAD_EVAL),
        a == MenuAction::Find ==> js == Some(FIND_TOGGLE_EVAL),
        a == MenuAction::FindNext ==> js == Some(FIND_NEXT_EVAL),
        a == MenuAction::FindPrev ==> js == Some(FIND_PREV_EVAL),
        !(a == MenuAction::Reload || a == MenuAction::Find || a == MenuAction::FindNext || a
            == MenuAction::FindPrev) ==> js is None,
{
    match a {
        MenuAction::Reload => Some(RELOAD_EVAL),
        MenuAction::Find => Some(FIND_TOGGLE_EVAL),
        MenuAction::FindNext => Some(FIND_NEXT_EVAL),
        MenuAction::FindPrev => Some(FIND_PREV_EVAL),
        _ => None,
    }
}

} // verus!
