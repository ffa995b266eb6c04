use hermes_webui_desktop::bridge::{download_file_name, download_saved_body};
use hermes_webui_desktop::conn::{
    connect_follow_up, port_or_default, rearm_ssh_recovery, recovery_watching, ConnectFollowUp,
    DEFAULT_FORWARD_PORT,
};
use hermes_webui_desktop::prefs::{validate, Prefs};
use hermes_webui_desktop::events::{
    action_for, bridge_action, download_action, shortcut_route, BridgeAction, BridgeMessage,
    ShortcutRoute, TOO_LARGE_TITLE,
};
use hermes_webui_desktop::menu::{
    active_page_script, app_menu, menu_action, strip_menu, MenuAction, MenuEntry, NativeItem,
    FIND_NEXT_EVAL, RELOAD_EVAL,
};
use hermes_webui_desktop::paste::{
    image_paste_script, image_paste_script_b64, insert_text_script, text_paste_script,
    PASTE_IMAGE_JS,
};
use hermes_webui_desktop::session::{
    capture_strip_window, profile_cookie, restore_seed, restore_source, restored_focus,
    RestoreSource,
};
use hermes_webui_desktop::state::{TabEntry, TunnelStatus, WindowTabs, NEW_TAB_TITLE};
use hermes_webui_desktop::strip::tab_label_for;
use hermes_webui_desktop::tunnel::{
    hint_from_stderr, join_tail, probe_step, probe_url, spawn_failure_hint, tunnel_outcome,
    ProbeStep, HINT_REFUSED, PROBE_DEADLINE_MS, PROBE_RETRY_MS, PROBE_TIMEOUT_MS,
};
use hermes_webui_desktop::updater::{
    update_action, UpdateAction, UpdateEvent, NOT_APPIMAGE_MESSAGE, PORTABLE_MESSAGE,
    UNREACHABLE_MESSAGE, UPDATES_TITLE, UP_TO_DATE_TITLE,
};
use hermes_webui_desktop::windows::{
    browser_placement, chrome_update, close_only_hides, content_window_order, focused_or_last,
    quit_after_close, restored_frame, strip_placement, window_title, Placement,
};

fn strings(v: &[&str]) -> Vec<String> {
    v.iter().map(|s| s.to_string()).collect()
}

fn message(label: &str, kind: &str, value: Option<&str>) -> BridgeMessage {
    BridgeMessage {
        label: Some(label.to_string()),
        kind: Some(kind.to_string()),
        value: value.map(String::from),
        title: None,
        body: None,
        name: None,
        data: None,
    }
}

#[test]
fn profile_cookie_matches_webui_attrs() {
    let c = profile_cookie("work");
    assert_eq!(c.name(), "hermes_profile");
    assert_eq!(c.value(), "work");
    assert_eq!(c.path(), Some("/"));
    assert_eq!(c.http_only(), Some(true));
    assert_eq!(c.domain(), None);
}

#[test]
fn restored_tabs_reseed_only_their_profile() {
    assert!(restore_seed(&None).is_empty());
    let seed = restore_seed(&Some("home".to_string()));
    assert_eq!(seed.len(), 1);
    assert_eq!(seed[0].name(), "hermes_profile");
    assert_eq!(seed[0].value(), "home");
}

#[test]
fn restore_url_fallbacks() {
    assert_eq!(restore_source("http://h/c/1", "http://h"), RestoreSource::Saved);
    assert_eq!(restore_source("not a url", "http://h"), RestoreSource::Target);
    assert_eq!(restore_source("not a url", "also not"), RestoreSource::Skip);
    assert_eq!(restored_focus(1, 3), Some(1));
    assert_eq!(restored_focus(7, 3), Some(2));
    assert_eq!(restored_focus(0, 0), None);
}

#[test]
fn strip_window_capture() {
    let mut w = WindowTabs::default();
    let a = w.next_tab_label("main-2");
    w.push_tab(TabEntry::opened(a.clone(), Some("work".to_string())));
    let b = w.next_tab_label("main-2");
    w.push_tab(TabEntry::opened(b.clone(), None));
    w.tabs[1].custom_title = Some("Mine".to_string());
    w.active = 5;
    let urls = vec![Some("http://h/c/1".to_string()), None];
    let sw = capture_strip_window(&w, &urls, "http://h", Some([1, 2, 800, 600])).unwrap();
    assert_eq!(sw.active, 1);
    assert_eq!(sw.frame, Some([1, 2, 800, 600]));
    assert_eq!(sw.tabs.len(), 2);
    assert_eq!(sw.tabs[0].url, "http://h/c/1");
    assert_eq!(sw.tabs[0].profile.as_deref(), Some("work"));
    assert_eq!(sw.tabs[0].partition.as_deref(), Some("tab-2-1"));
    assert_eq!(sw.tabs[1].url, "http://h");
    assert_eq!(sw.tabs[1].custom_title.as_deref(), Some("Mine"));
    let empty = WindowTabs::default();
    assert!(capture_strip_window(&empty, &Vec::new(), "http://h", None).is_none());
}

#[test]
fn opened_tab_defaults() {
    let t = TabEntry::opened("tab-1-4".to_string(), Some("work".to_string()));
    assert_eq!(t.label, "tab-1-4");
    assert_eq!(t.title, NEW_TAB_TITLE);
    assert_eq!(t.partition, "tab-1-4");
    assert_eq!(t.profile.as_deref(), Some("work"));
    assert!(!t.attention && !t.busy);
    assert!(t.dot_profile.is_none() && t.custom_title.is_none());
}

#[test]
fn connection_follow_up() {
    assert_eq!(
        connect_follow_up(true, true, "ssh"),
        ConnectFollowUp {
            reload_kept: true,
            open_window: false,
            show_error: false,
            offline_badge: false,
            health_loop: false,
            recovery_loop: false,
        }
    );
    let direct_ok = connect_follow_up(true, false, "direct");
    assert!(direct_ok.open_window && direct_ok.health_loop && !direct_ok.recovery_loop);
    let direct_fail = connect_follow_up(false, true, "direct");
    assert!(direct_fail.show_error && direct_fail.offline_badge && direct_fail.recovery_loop);
    assert!(!direct_fail.reload_kept && !direct_fail.health_loop);
    let ssh_fail = connect_follow_up(false, false, "ssh");
    assert!(ssh_fail.show_error && !ssh_fail.recovery_loop);
}

#[test]
fn ssh_recovery_arming() {
    assert!(rearm_ssh_recovery("ssh", TunnelStatus::Disconnected));
    assert!(!rearm_ssh_recovery("ssh", TunnelStatus::Connected));
    assert!(!rearm_ssh_recovery("direct", TunnelStatus::Disconnected));
    assert!(recovery_watching(true, false, TunnelStatus::Disconnected, "ssh"));
    assert!(!recovery_watching(false, false, TunnelStatus::Disconnected, "ssh"));
    assert!(!recovery_watching(true, true, TunnelStatus::Disconnected, "ssh"));
    assert!(!recovery_watching(true, false, TunnelStatus::Connecting, "ssh"));
    assert!(!recovery_watching(true, false, TunnelStatus::Disconnected, "direct"));
}

#[test]
fn tunnel_start_outcomes() {
    assert_eq!(probe_url(8787), "http://127.0.0.1:8787/");
    assert_eq!(probe_url(0), "http://127.0.0.1:0/");
    assert_eq!(
        spawn_failure_hint("No such file or directory (os error 2)"),
        "Failed to start ssh: No such file or directory (os error 2). Is the OpenSSH client installed?"
    );
    let tail = strings(&["debug1: x", "ssh: connect to host h port 22: Connection refused"]);
    assert_eq!(
        join_tail(&tail),
        "debug1: x\nssh: connect to host h port 22: Connection refused"
    );
    assert_eq!(join_tail(&Vec::new()), "");
    let up = tunnel_outcome(true, &tail);
    assert_eq!(up.status, TunnelStatus::Connected);
    assert!(up.hint.is_none());
    let down = tunnel_outcome(false, &tail);
    assert_eq!(down.status, TunnelStatus::Disconnected);
    assert_eq!(down.hint.as_deref(), Some(HINT_REFUSED));
    let quiet = tunnel_outcome(false, &strings(&["a", "last line"]));
    assert_eq!(quiet.hint, Some(hint_from_stderr("a\nlast line")));
    assert_eq!(quiet.hint.as_deref(), Some("ssh reported: last line"));
}

fn inform(a: UpdateAction) -> (String, String) {
    match a {
        UpdateAction::Inform { title, message } => (title, message),
        other => panic!("unexpected {other:?}"),
    }
}

fn fail(a: UpdateAction) -> String {
    match a {
        UpdateAction::Fail { message } => message,
        other => panic!("unexpected {other:?}"),
    }
}

#[test]
fn update_dialogs() {
    assert_eq!(
        inform(update_action(&UpdateEvent::PortableBuild, true)),
        (UPDATES_TITLE.to_string(), PORTABLE_MESSAGE.to_string())
    );
    assert_eq!(
        inform(update_action(&UpdateEvent::NotAppImage, true)),
        (UPDATES_TITLE.to_string(), NOT_APPIMAGE_MESSAGE.to_string())
    );
    assert!(PORTABLE_MESSAGE.contains(":\ndownload"));
    assert_eq!(
        fail(update_action(
            &UpdateEvent::UpdaterUnavailable { error: "no pubkey".to_string() },
            true
        )),
        "The updater isn't available: no pubkey"
    );
    match update_action(
        &UpdateEvent::Available { current: "0.5.0".to_string(), next: "0.6.0".to_string() },
        false,
    ) {
        UpdateAction::AskInstall { message } => assert_eq!(
            message,
            "Hermes WebUI Desktop 0.6.0 is available (you have 0.5.0).\n\nDownload and install it now?"
        ),
        other => panic!("unexpected {other:?}"),
    }
    assert_eq!(
        inform(update_action(&UpdateEvent::UpToDate { current: "0.5.0".to_string() }, true)),
        (UP_TO_DATE_TITLE.to_string(), "You're on the latest version (v0.5.0).".to_string())
    );
    assert_eq!(fail(update_action(&UpdateEvent::CheckFailed, true)), UNREACHABLE_MESSAGE);
    assert!(matches!(update_action(&UpdateEvent::Installed, false), UpdateAction::Relaunch));
    assert_eq!(
        fail(update_action(&UpdateEvent::InstallFailed { error: "disk full".to_string() }, false)),
        "The update couldn't be installed: disk full"
    );
}

#[test]
fn passive_update_checks_stay_quiet() {
    for e in [
        UpdateEvent::PortableBuild,
        UpdateEvent::NotAppImage,
        UpdateEvent::UpdaterUnavailable { error: "x".to_string() },
        UpdateEvent::UpToDate { current: "1".to_string() },
        UpdateEvent::CheckFailed,
    ] {
        assert!(matches!(update_action(&e, false), UpdateAction::Nothing));
    }
}

#[test]
fn menu_bar_layout() {
    let menus = app_menu();
    let titles: Vec<&str> = menus.iter().map(|m| m.title.as_str()).collect();
    assert_eq!(titles, vec!["Hermes WebUI Desktop", "File", "Edit", "View", "Window"]);
    assert_eq!(menus[0].entries.len(), 9);
    assert!(matches!(
        menus[0].entries[0],
        MenuEntry::Native { item: NativeItem::About, text: None }
    ));
    match &menus[1].entries[1] {
        MenuEntry::Item { id, text, accelerator, enabled } => {
            assert_eq!((id.as_str(), text.as_str()), ("new_tab", "New Tab"));
            assert_eq!(accelerator.as_deref(), Some("CmdOrCtrl+T"));
            assert!(*enabled);
        }
        other => panic!("unexpected {other:?}"),
    }
    assert_eq!(menus[2].entries.len(), 11);
    assert_eq!(menus[3].entries.len(), 7);
    assert!(matches!(
        menus[4].entries[2],
        MenuEntry::Native { item: NativeItem::Minimize, .. }
    ));
}

#[test]
fn strip_menu_layout() {
    let full = strip_menu(false, "0.6.1");
    let linux = strip_menu(true, "0.6.1");
    assert_eq!(full.len(), 19);
    assert_eq!(linux.len(), 18);
    match &full[2] {
        MenuEntry::Item { id, .. } => assert_eq!(id, "toggle_strip"),
        other => panic!("unexpected {other:?}"),
    }
    match &full[14] {
        MenuEntry::Item { id, text, enabled, .. } => {
            assert_eq!(id, "about_version");
            assert_eq!(text, "Hermes WebUI Desktop v0.6.1");
            assert!(!enabled);
        }
        other => panic!("unexpected {other:?}"),
    }
    assert!(matches!(full[3], MenuEntry::Separator));
}

#[test]
fn menu_commands() {
    assert_eq!(menu_action("new_tab"), Some(MenuAction::NewTab));
    assert_eq!(menu_action("find_prev"), Some(MenuAction::FindPrev));
    assert_eq!(menu_action("open_browser"), Some(MenuAction::OpenInBrowser));
    assert_eq!(menu_action("whats_new"), None);
    assert_eq!(menu_action("bogus"), None);
    assert_eq!(active_page_script(MenuAction::Reload), Some(RELOAD_EVAL));
    assert_eq!(active_page_script(MenuAction::FindNext), Some(FIND_NEXT_EVAL));
    assert_eq!(active_page_script(MenuAction::Quit), None);
}

#[test]
fn bridge_payloads() {
    assert!(matches!(bridge_action("not json", true, false, true), BridgeAction::Ignore));
    match bridge_action(
        r#"{"label":"tab-1-2","kind":"notify","value":{"title":"Done"}}"#,
        true,
        false,
        true,
    ) {
        BridgeAction::Notify { title, body } => {
            assert_eq!(title, "Done");
            assert_eq!(body, "Your response is ready");
        }
        other => panic!("unexpected {other:?}"),
    }
    assert!(matches!(
        bridge_action(r#"{"label":"tab-1-2","kind":"notify","value":{}}"#, true, false, false),
        BridgeAction::Ignore
    ));
    match bridge_action(
        r#"{"label":"main-1","kind":"download","value":{"name":"a.txt","data":"aGVsbG8="}}"#,
        false,
        true,
        true,
    ) {
        BridgeAction::SaveDownload { name, bytes } => {
            assert_eq!(name, "a.txt");
            assert_eq!(bytes, b"hello".to_vec());
        }
        other => panic!("unexpected {other:?}"),
    }
    match bridge_action(
        r#"{"label":"main-1","kind":"download","value":{"data":"@@@"}}"#,
        false,
        true,
        true,
    ) {
        BridgeAction::BadDownload { name } => assert_eq!(name, "download"),
        other => panic!("unexpected {other:?}"),
    }
    match bridge_action(
        r#"{"label":"main-1","kind":"download-too-big","value":{}}"#,
        false,
        true,
        true,
    ) {
        BridgeAction::TooLarge { title, body } => {
            assert_eq!(title, TOO_LARGE_TITLE);
            assert_eq!(
                body,
                "file is too large to save from the app — open Hermes in your browser for this one."
            );
        }
        other => panic!("unexpected {other:?}"),
    }
    match bridge_action(
        r#"{"label":"tab-3-1","kind":"shortcut","value":"new-tab"}"#,
        true,
        false,
        true,
    ) {
        BridgeAction::Shortcut { route: ShortcutRoute::AddTab { window } } => {
            assert_eq!(window, "main-3")
        }
        other => panic!("unexpected {other:?}"),
    }
}

#[test]
fn bridge_kinds() {
    match action_for(&message("main-1", "theme", Some("#1a1a1a")), None, false, true, true) {
        BridgeAction::Theme { css } => assert_eq!(css, "#1a1a1a"),
        other => panic!("unexpected {other:?}"),
    }
    match action_for(&message("tab-1-1", "route", Some("http://h/c/2")), None, true, false, true) {
        BridgeAction::Route { label, url, recapture_profile } => {
            assert_eq!(label, "tab-1-1");
            assert_eq!(url.as_deref(), Some("http://h/c/2"));
            assert!(recapture_profile);
        }
        other => panic!("unexpected {other:?}"),
    }
    match action_for(&message("main-1", "route", None), None, true, false, true) {
        BridgeAction::Route { label, url, recapture_profile } => {
            assert_eq!(label, "main-1");
            assert!(url.is_none());
            assert!(!recapture_profile);
        }
        other => panic!("unexpected {other:?}"),
    }
    match action_for(&message("tab-1-1", "profile", None), None, true, false, true) {
        BridgeAction::TabDotProfile { tab, name } => {
            assert_eq!(tab, "tab-1-1");
            assert_eq!(name, "");
        }
        other => panic!("unexpected {other:?}"),
    }
    assert!(matches!(
        action_for(&message("main-1", "profile", Some("work")), None, true, false, true),
        BridgeAction::Ignore
    ));
    match action_for(&message("main-2", "mac-profile", Some("Work")), None, false, true, true) {
        BridgeAction::WindowProfileName { window, name } => {
            assert_eq!(window, "main-2");
            assert_eq!(name, "Work");
        }
        other => panic!("unexpected {other:?}"),
    }
    assert!(matches!(
        action_for(&message("main-2", "mac-profile", Some("Work")), None, true, false, true),
        BridgeAction::Ignore
    ));
    match action_for(&message("main-1", "open-external", Some("https://x.org")), None, false, true, true) {
        BridgeAction::OpenExternal { url } => assert_eq!(url, "https://x.org"),
        other => panic!("unexpected {other:?}"),
    }
    assert!(matches!(
        action_for(&message("main-1", "open-external", Some("file:///etc")), None, false, true, true),
        BridgeAction::Ignore
    ));
    assert!(matches!(
        action_for(&message("main-1", "reconnect", None), None, false, true, true),
        BridgeAction::Reconnect
    ));
    assert!(matches!(
        action_for(&message("main-1", "title", Some("x")), None, false, true, true),
        BridgeAction::Ignore
    ));
    match download_action(&Some("x.bin".to_string()), Some(vec![1, 2])) {
        BridgeAction::SaveDownload { name, bytes } => {
            assert_eq!(name, "x.bin");
            assert_eq!(bytes, vec![1, 2]);
        }
        other => panic!("unexpected {other:?}"),
    }
}

#[test]
fn shortcut_routes() {
    assert!(matches!(
        shortcut_route("new-tab", "main-1", false),
        ShortcutRoute::NewSession { as_tab: true }
    ));
    assert!(matches!(
        shortcut_route("new-window", "tab-1-1", true),
        ShortcutRoute::NewSession { as_tab: false }
    ));
    match shortcut_route("close", "tab-4-2", true) {
        ShortcutRoute::CloseTab { tab } => assert_eq!(tab, "tab-4-2"),
        other => panic!("unexpected {other:?}"),
    }
    match shortcut_route("close", "main-4", false) {
        ShortcutRoute::CloseWindow { label } => assert_eq!(label, "main-4"),
        other => panic!("unexpected {other:?}"),
    }
    match shortcut_route("prev-tab", "tab-4-2", true) {
        ShortcutRoute::CycleTab { tab, forward } => {
            assert_eq!(tab, "tab-4-2");
            assert!(!forward);
        }
        other => panic!("unexpected {other:?}"),
    }
    match shortcut_route("toggle-bar", "tab-4-2", true) {
        ShortcutRoute::ToggleStrip { window } => assert_eq!(window, "main-4"),
        other => panic!("unexpected {other:?}"),
    }
    assert!(matches!(shortcut_route("toggle-bar", "main-4", false), ShortcutRoute::Nothing));
    assert!(matches!(shortcut_route("zoom-out", "main-4", false), ShortcutRoute::ZoomOut));
    assert!(matches!(shortcut_route("explode", "main-4", false), ShortcutRoute::Nothing));
}

#[test]
fn download_file_names() {
    assert_eq!(download_file_name("report.pdf", 0), "report.pdf");
    assert_eq!(download_file_name("report.pdf", 1), "report (1).pdf");
    assert_eq!(download_file_name("archive.tar.gz", 2), "archive.tar (2).gz");
    assert_eq!(download_file_name("README", 1), "README (1)");
    assert_eq!(download_file_name("..", 1), "download (1)");
    assert_eq!(download_file_name("a.", 3), "a (3).");
    assert_eq!(download_file_name("dir/x.txt", 1), "dir_x (1).txt");
    assert_eq!(download_saved_body("a (1).txt"), "Saved a (1).txt to Downloads");
}

#[test]
fn paste_scripts() {
    let js = image_paste_script(&b"hi".to_vec());
    assert!(js.contains("const base64 = 'aGk=';"));
    assert!(!js.contains("__B64__"));
    assert_eq!(image_paste_script_b64("QQ=="), PASTE_IMAGE_JS.replace("__B64__", "QQ=="));
    let three = image_paste_script(&vec![0xfb, 0xff, 0x00]);
    assert!(three.contains("'+/8A'"));
    assert_eq!(
        text_paste_script("a\"b\n\u{1}é"),
        Some("document.execCommand('insertText', false, \"a\\\"b\\n\\u0001é\");".to_string())
    );
    assert_eq!(insert_text_script("\"x\""), "document.execCommand('insertText', false, \"x\");");
}

#[test]
fn window_placement() {
    assert_eq!(
        browser_placement(true, false, true, Some((1, 2, 800, 600)), None),
        Placement::Frame { x: 1, y: 2, w: 800, h: 600 }
    );
    assert_eq!(browser_placement(true, true, true, None, None), Placement::Center);
    assert_eq!(
        browser_placement(false, true, true, None, Some((10, 20))),
        Placement::JoinHostTabs
    );
    assert_eq!(
        browser_placement(false, true, false, None, Some((10, 20))),
        Placement::At { x: 38, y: 48 }
    );
    assert_eq!(browser_placement(false, false, true, None, None), Placement::Stay);
    assert_eq!(
        strip_placement(Some([5, 6, 900, 700]), true, Some((1, 2, 800, 600)), None),
        Placement::Frame { x: 5, y: 6, w: 900, h: 700 }
    );
    assert_eq!(
        strip_placement(Some([5, 6, 100, 700]), true, Some((1, 2, 800, 600)), None),
        Placement::Frame { x: 1, y: 2, w: 800, h: 600 }
    );
    assert_eq!(strip_placement(None, true, None, Some((0, 0))), Placement::Center);
    assert_eq!(
        strip_placement(None, false, None, Some((-50, 0))),
        Placement::At { x: -22, y: 28 }
    );
    assert_eq!(
        strip_placement(None, false, None, Some((i32::MAX, 5))),
        Placement::At { x: i32::MIN + 27, y: 33 }
    );
    assert_eq!(restored_frame(Some([1, 2, 200, 200])), Some((1, 2, 200, 200)));
    assert_eq!(restored_frame(Some([1, 2, 199, 200])), None);
    assert_eq!(restored_frame(None), None);
}

#[test]
fn macos_chrome_updates() {
    let first = chrome_update(None, true, false, true);
    assert_eq!(
        first.script.as_deref(),
        Some("if (document.body) document.body.classList.add('hermes-mac-tabbed'); document.documentElement.style.setProperty('--traffic-light-width', '80px');")
    );
    assert_eq!(first.save_fullscreen, None);
    let same = chrome_update(Some((true, false)), true, false, true);
    assert!(same.script.is_none() && same.save_fullscreen.is_none());
    let fs = chrome_update(Some((true, false)), false, true, true);
    assert_eq!(
        fs.script.as_deref(),
        Some("if (document.body) document.body.classList.remove('hermes-mac-tabbed'); document.documentElement.style.setProperty('--traffic-light-width', '0px');")
    );
    assert_eq!(fs.save_fullscreen, Some(true));
    let other = chrome_update(Some((true, false)), true, true, false);
    assert_eq!(other.save_fullscreen, None);
}

#[test]
fn window_lifetime_rules() {
    assert!(close_only_hides("main-1", 1, true));
    assert!(!close_only_hides("main-1", 2, true));
    assert!(!close_only_hides("main-1", 1, false));
    assert!(!close_only_hides("prefs", 0, true));
    assert!(quit_after_close(false, false, 0, false, false, false));
    assert!(!quit_after_close(true, false, 0, false, false, false));
    assert!(!quit_after_close(false, true, 0, false, false, false));
    assert!(!quit_after_close(false, false, 1, false, false, false));
    assert!(!quit_after_close(false, false, 0, true, false, false));
    assert!(!quit_after_close(false, false, 0, false, false, true));
}

#[test]
fn content_windows_in_sequence_order() {
    let labels = strings(&["main-10", "prefs", "main-2", "strip-1", "main-x", "main-2", "main-1"]);
    assert_eq!(content_window_order(&labels), vec![4, 6, 2, 5, 0]);
    assert!(content_window_order(&strings(&["splash", "error"])).is_empty());
    assert_eq!(focused_or_last(&vec![false, true, true]), Some(1));
    assert_eq!(focused_or_last(&vec![false, false]), Some(1));
    assert_eq!(focused_or_last(&Vec::new()), None);
}

#[test]
fn download_candidates_never_repeat() {
    for name in ["report.pdf", "..", "a.", "README", ".bashrc", "x.tar.gz"] {
        let names: Vec<String> = (0..25).map(|n| download_file_name(name, n)).collect();
        for i in 0..names.len() {
            for j in (i + 1)..names.len() {
                assert_ne!(names[i], names[j], "{name}: {i} vs {j}");
            }
        }
    }
}

#[test]
fn tab_numbers_give_distinct_labels() {
    let mut w = WindowTabs::default();
    let mut seen: Vec<String> = Vec::new();
    for _ in 0..30 {
        let l = w.next_tab_label("main-1");
        assert!(!seen.contains(&l));
        assert!(w.position_of(&l).is_none());
        w.push_tab(TabEntry::opened(l.clone(), None));
        seen.push(l);
    }
    assert_ne!(tab_label_for("main-1", 1), tab_label_for("main-1", 11));
    let mut r = w.clone();
    assert!(r.reorder("tab-1-3", 20));
    let mut labels = r.labels();
    labels.sort();
    labels.dedup();
    assert_eq!(labels.len(), 30);
}

#[test]
fn native_window_titles() {
    assert_eq!(
        window_title("● Plans — Hermes", Some("ssh"), "http://h", true, None, Some((false, true))),
        "● ● Plans"
    );
    assert_eq!(
        window_title("Plans — Hermes", None, "http://h:9/", false, Some("work"), None),
        "work · Plans"
    );
    assert_eq!(
        window_title("", None, "http://h:9/", false, Some("work"), Some((true, false))),
        "⟳ work · Hermes WebUI  ○ h:9"
    );
    assert_eq!(window_title("", Some("ssh"), "http://h", true, None, None), "Hermes WebUI");
}

#[test]
fn validated_ports_are_the_ones_used() {
    let mut p = Prefs::default();
    p.connection_mode = "ssh".to_string();
    p.ssh_host = "example.com".to_string();
    p.local_port = " 9000 ".to_string();
    p.remote_port = "+8080".to_string();
    assert_eq!(validate(&p), Ok(()));
    assert_eq!(port_or_default(&p.local_port, DEFAULT_FORWARD_PORT), 9000);
    assert_eq!(port_or_default(&p.remote_port, DEFAULT_FORWARD_PORT), 8080);
}

#[test]
fn readiness_wait_steps() {
    assert_eq!((PROBE_DEADLINE_MS, PROBE_TIMEOUT_MS, PROBE_RETRY_MS), (5000, 1500, 500));
    assert_eq!(probe_step(0, true), ProbeStep::Probe);
    assert_eq!(probe_step(4999, true), ProbeStep::Probe);
    assert_eq!(probe_step(5000, true), ProbeStep::GiveUp);
    assert_eq!(probe_step(100, false), ProbeStep::GiveUp);
}
