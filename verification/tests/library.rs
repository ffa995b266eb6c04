use hermes_webui_desktop::bridge::{
    download_candidate_name, footer_tint_script, init_script, is_web_url, safe_download_name,
    shortcut_action, ShortcutAction, TargetOs, MACOS_TITLEBAR, PASTE_SUPPRESS, SHORTCUT_FORWARDER,
    SSH_FOOTER,
};
use hermes_webui_desktop::conn::{
    new_session_action, port_or_default, recovery_due, reuse_windows, tab_allowed,
    unreachable_hint, NewSessionAction,
};
use hermes_webui_desktop::health::{
    health_url, reachable_from_outcome, ready_from_outcome, ready_from_status, ProbeOutcome,
};
use hermes_webui_desktop::prefs::{
    frame_from_stored, is_hex_color, keep_hex_colors, profile_color_update, validate,
    ColorUpdate, Prefs, MSG_LOCAL_PORT, MSG_REMOTE_PORT, MSG_SSH_INCOMPLETE, MSG_TARGET_EMPTY,
    MSG_TARGET_INVALID,
};
use hermes_webui_desktop::session::{
    frame_of_window, navigated_url, needs_write, should_restore, Session, SessionTab,
    SessionWindow,
};
use hermes_webui_desktop::state::{CloseOutcome, TabEntry, TunnelStatus, WindowTabs};
use hermes_webui_desktop::strip::{profile_from_cookies, tab_label_for, window_of_tab, window_seq};
use hermes_webui_desktop::theme::{parse_css_color_parts, CssColor};
use hermes_webui_desktop::tunnel::{
    hint_from_stderr, push_stderr_line, HINT_AUTH, HINT_HOST_KEY, HINT_REFUSED, HINT_RESOLVE,
    HINT_SILENT, HINT_TIMEOUT, STDERR_TAIL_LINES,
};
use hermes_webui_desktop::windows::{
    adorned_title, all_modes_match, allowed_host, clean_title, content_window_key, display_title, navigation_decision,
    next_indicator, offline_badge_for, route_reported_title, should_persist_frame,
    tunnel_status_script, NavDecision, TitleReport,
};

fn tab(label: &str) -> TabEntry {
    TabEntry {
        label: label.to_string(),
        title: String::new(),
        attention: false,
        busy: false,
        profile: None,
        dot_profile: None,
        partition: format!("p-{label}"),
        custom_title: None,
    }
}

fn three_tabs() -> WindowTabs {
    let mut w = WindowTabs::default();
    for _ in 0..3 {
        let l = w.next_tab_label("main-1");
        w.push_tab(tab(&l));
    }
    w
}

fn labels(w: &WindowTabs) -> Vec<String> {
    w.labels()
}

fn ssh_prefs() -> Prefs {
    let mut p = Prefs::default();
    p.connection_mode = "ssh".to_string();
    p.ssh_host = "example.com".to_string();
    p
}

#[test]
fn ready_is_stricter_than_reachable() {
    assert!(reachable_from_outcome(ProbeOutcome::Status(503)));
    assert!(!ready_from_outcome(ProbeOutcome::Status(503)));
    assert!(reachable_from_outcome(ProbeOutcome::Status(404)));
    assert!(ready_from_outcome(ProbeOutcome::Status(404)));
    assert!(reachable_from_outcome(ProbeOutcome::Success));
    assert!(ready_from_outcome(ProbeOutcome::Success));
    assert!(!reachable_from_outcome(ProbeOutcome::Transport));
    assert!(!ready_from_outcome(ProbeOutcome::Transport));
    assert!(ready_from_status(501));
    assert!(!ready_from_status(502));
}

#[test]
fn health_url_absorbs_one_trailing_slash() {
    assert_eq!(health_url("http://h:8787/"), health_url("http://h:8787"));
    assert_eq!(health_url("http://h:8787//"), "http://h:8787//health");
    assert_eq!(health_url(""), "/health");
}

#[test]
fn stderr_tail_keeps_newest_lines() {
    let mut tail: Vec<String> = Vec::new();
    for i in 0..15 {
        push_stderr_line(&mut tail, format!("line {i}"));
        assert!(tail.len() <= STDERR_TAIL_LINES);
    }
    assert_eq!(tail.len(), 12);
    assert_eq!(tail[0], "line 3");
    assert_eq!(tail[11], "line 14");
}

#[test]
fn hint_matches_phrases_in_any_case() {
    assert_eq!(hint_from_stderr("user@h: PERMISSION DENIED (publickey)."), HINT_AUTH);
    assert_eq!(hint_from_stderr("Host key verification failed."), HINT_HOST_KEY);
    assert_eq!(
        hint_from_stderr("ssh: Could not resolve hostname nope: nodename nor servname"),
        HINT_RESOLVE
    );
    assert_eq!(
        hint_from_stderr("ssh: connect to host h port 22: Connection refused"),
        HINT_REFUSED
    );
    assert_eq!(
        hint_from_stderr("ssh: connect to host h port 22: Operation timed out"),
        HINT_TIMEOUT
    );
    assert_eq!(hint_from_stderr("Connection Timed Out"), HINT_TIMEOUT);
}

#[test]
fn hint_falls_back_to_last_line() {
    assert_eq!(hint_from_stderr(""), HINT_SILENT);
    assert_eq!(hint_from_stderr("  \n\t "), HINT_SILENT);
    assert_eq!(
        hint_from_stderr("debug one\nkex_exchange_identification: read: reset\n"),
        "ssh reported: kex_exchange_identification: read: reset"
    );
    // The auth phrase wins over anything later in the tail.
    assert_eq!(
        hint_from_stderr("Connection refused\nPermission denied"),
        HINT_AUTH
    );
}

#[test]
fn tab_labels_name_their_window() {
    let l = tab_label_for("main-3", 7);
    assert_eq!(l, "tab-3-7");
    assert_eq!(window_of_tab(&l), Some("main-3".to_string()));
    assert_eq!(window_of_tab("main-3"), None);
    assert_eq!(window_of_tab("tab-12"), Some("main-12".to_string()));
    assert_eq!(window_seq("main-12"), "12");
    assert_eq!(window_seq("strip-1"), "0");
    assert_eq!(tab_label_for("other", 2), "tab-0-2");
}

#[test]
fn first_profile_cookie_wins() {
    let jar = vec![
        ("theme".to_string(), "dark".to_string()),
        ("hermes_profile".to_string(), "work".to_string()),
        ("hermes_profile".to_string(), "home".to_string()),
    ];
    assert_eq!(profile_from_cookies(&jar), Some("work".to_string()));
    let none = vec![("theme".to_string(), "dark".to_string())];
    assert_eq!(profile_from_cookies(&none), None);
}

#[test]
fn tabs_push_and_select() {
    let mut w = WindowTabs::default();
    let a = w.next_tab_label("main-1");
    assert_eq!(a, "tab-1-1");
    assert_eq!(w.tab_seq, 1);
    assert_eq!(w.push_tab(tab(&a)), None);
    let b = w.next_tab_label("main-1");
    assert_eq!(b, "tab-1-2");
    assert_eq!(w.push_tab(tab(&b)), Some("tab-1-1".to_string()));
    assert_eq!(w.active, 1);
    assert_eq!(w.select("tab-1-1"), Some(Some("tab-1-2".to_string())));
    assert_eq!(w.active, 0);
    assert_eq!(w.active_label(), Some("tab-1-1".to_string()));
    assert_eq!(w.select("tab-9-9"), None);
    assert_eq!(w.active, 0);
    assert_eq!(w.position_of("tab-1-2"), Some(1));
    assert_eq!(w.position_of("tab-1-3"), None);
}

#[test]
fn cycling_wraps_and_returns() {
    let mut w = three_tabs();
    w.select("tab-1-1");
    assert_eq!(w.cycle_target(true), Some("tab-1-2".to_string()));
    assert_eq!(w.cycle_target(false), Some("tab-1-3".to_string()));
    let next = w.cycle_target(false).unwrap();
    w.select(&next);
    assert_eq!(w.cycle_target(true), Some("tab-1-1".to_string()));
    let mut single = WindowTabs::default();
    let l = single.next_tab_label("main-1");
    single.push_tab(tab(&l));
    assert_eq!(single.cycle_target(true), None);
}

#[test]
fn closing_tabs() {
    let mut w = three_tabs();
    assert_eq!(w.active, 2);
    assert!(matches!(w.close("tab-7-7"), CloseOutcome::NotFound));
    assert_eq!(labels(&w).len(), 3);
    match w.close("tab-1-3") {
        CloseOutcome::Closed { next_active } => assert_eq!(next_active, "tab-1-2"),
        other => panic!("unexpected {other:?}"),
    }
    assert_eq!(w.active, 1);
    w.select("tab-1-2");
    match w.close("tab-1-1") {
        CloseOutcome::Closed { next_active } => assert_eq!(next_active, "tab-1-2"),
        other => panic!("unexpected {other:?}"),
    }
    assert_eq!(w.active, 0);
    assert_eq!(labels(&w), vec!["tab-1-2".to_string()]);
    assert!(matches!(w.close("tab-1-2"), CloseOutcome::CloseWindow));
    assert_eq!(labels(&w), vec!["tab-1-2".to_string()]);
}

#[test]
fn closing_a_background_tab_keeps_the_active_one() {
    let mut w = three_tabs();
    w.select("tab-1-2");
    match w.close("tab-1-1") {
        CloseOutcome::Closed { next_active } => assert_eq!(next_active, "tab-1-2"),
        other => panic!("unexpected {other:?}"),
    }
    assert_eq!(w.active_label(), Some("tab-1-2".to_string()));
}

#[test]
fn reordering_keeps_tabs_and_active() {
    let mut w = three_tabs();
    w.select("tab-1-2");
    assert!(w.reorder("tab-1-1", 99));
    assert_eq!(labels(&w), vec!["tab-1-2", "tab-1-3", "tab-1-1"]);
    assert_eq!(w.active_label(), Some("tab-1-2".to_string()));
    assert!(!w.reorder("tab-1-1", 2));
    assert!(!w.reorder("tab-5-5", 0));
    assert!(w.reorder("tab-1-1", 0));
    assert_eq!(labels(&w), vec!["tab-1-1", "tab-1-2", "tab-1-3"]);
    assert_eq!(w.active_label(), Some("tab-1-2".to_string()));
}

#[test]
fn retitle_and_profile() {
    let mut w = three_tabs();
    assert!(w.set_title("tab-1-2", "Plans".to_string(), true));
    assert_eq!(w.tabs[1].title, "Plans");
    assert!(w.tabs[1].attention);
    assert!(!w.set_title("tab-4-4", "X".to_string(), false));
    assert!(w.set_profile("tab-1-1", Some("work".to_string())));
    assert!(!w.set_profile("tab-1-1", Some("work".to_string())));
    assert!(w.set_profile("tab-1-1", None));
    assert_eq!(w.tabs[0].profile, None);
    assert!(!w.set_profile("tab-4-4", None));
}

#[test]
fn restored_active_tab_is_clamped() {
    let w = three_tabs();
    assert_eq!(w.restore_target(1), Some("tab-1-2".to_string()));
    assert_eq!(w.restore_target(40), Some("tab-1-3".to_string()));
    assert_eq!(WindowTabs::default().restore_target(0), None);
}

#[test]
fn tunnel_status_names() {
    assert_eq!(TunnelStatus::Connecting.as_str(), "connecting");
    assert_eq!(TunnelStatus::Connected.as_str(), "connected");
    assert_eq!(TunnelStatus::Disconnected.as_str(), "disconnected");
}

#[test]
fn default_prefs_validate() {
    let p = Prefs::default();
    assert_eq!(p.connection_mode, "direct");
    assert_eq!(p.target_url, "http://localhost:8787");
    assert_eq!(validate(&p), Ok(()));
    assert_eq!(validate(&ssh_prefs()), Ok(()));
}

#[test]
fn validation_errors() {
    let mut p = Prefs::default();
    p.target_url = "   ".to_string();
    assert_eq!(validate(&p), Err(MSG_TARGET_EMPTY.to_string()));
    p.target_url = "ftp://example.com".to_string();
    assert_eq!(validate(&p), Err(MSG_TARGET_INVALID.to_string()));
    p.target_url = "not a url".to_string();
    assert_eq!(validate(&p), Err(MSG_TARGET_INVALID.to_string()));
    p.target_url = " https://example.com/ ".to_string();
    assert_eq!(validate(&p), Ok(()));

    let mut s = ssh_prefs();
    s.ssh_user = " ".to_string();
    assert_eq!(validate(&s), Err(MSG_SSH_INCOMPLETE.to_string()));
    let mut s = ssh_prefs();
    s.local_port = "0".to_string();
    assert_eq!(validate(&s), Err(MSG_LOCAL_PORT.to_string()));
    s.local_port = "70000".to_string();
    assert_eq!(validate(&s), Err(MSG_LOCAL_PORT.to_string()));
    s.local_port = " 2222 ".to_string();
    s.remote_port = "http".to_string();
    assert_eq!(validate(&s), Err(MSG_REMOTE_PORT.to_string()));
    s.remote_port = "+8787".to_string();
    assert_eq!(validate(&s), Ok(()));
}

#[test]
fn host_label_comes_from_the_url_parser() {
    assert_eq!(
        display_title("", "direct", "https://Example.com:8443/x", true),
        "Hermes WebUI  ● example.com:8443"
    );
    assert_eq!(
        display_title("", "direct", "http://example.com:80/", true),
        "Hermes WebUI  ● example.com"
    );
    assert_eq!(
        display_title("", "direct", "http://[::1]:9000", true),
        "Hermes WebUI  ● [::1]:9000"
    );
}

#[test]
fn dot_color_updates() {
    assert!(matches!(profile_color_update("", "#ABCDEF"), ColorUpdate::Ignore));
    match profile_color_update("work", "#ABCDEF") {
        ColorUpdate::Store(c) => {
            assert_eq!(c, "#abcdef");
            assert!(is_hex_color(&c));
        }
        other => panic!("unexpected {other:?}"),
    }
    assert!(matches!(profile_color_update("work", "red"), ColorUpdate::Clear));
    assert!(matches!(profile_color_update("work", "#abc"), ColorUpdate::Clear));
}

#[test]
fn stored_colors_are_revalidated() {
    let stored = vec![
        ("work".to_string(), Some("#112233".to_string())),
        ("bad".to_string(), Some("#1122".to_string())),
        ("num".to_string(), None),
        ("home".to_string(), Some("#AABBCC".to_string())),
    ];
    assert_eq!(
        keep_hex_colors(&stored),
        vec![
            ("work".to_string(), "#112233".to_string()),
            ("home".to_string(), "#AABBCC".to_string()),
        ]
    );
}

#[test]
fn stored_frame_rules() {
    assert_eq!(
        frame_from_stored(Some(10), Some(-20), Some(800), Some(600)),
        Some((10, -20, 800, 600))
    );
    assert_eq!(frame_from_stored(Some(10), Some(20), Some(199), Some(600)), None);
    assert_eq!(frame_from_stored(None, Some(20), Some(800), Some(600)), None);
    assert_eq!(frame_from_stored(Some(1), Some(2), None, Some(600)), None);
    assert_eq!(
        frame_from_stored(Some(1), Some(2), Some((1u64 << 32) + 300), Some(400)),
        Some((1, 2, 300, 400))
    );
}

#[test]
fn session_restore_rules() {
    let saved = Session {
        mode: "direct".to_string(),
        target: "http://localhost:8787/".to_string(),
        windows: vec![SessionWindow {
            tabs: vec![SessionTab {
                url: "http://localhost:8787/chat".to_string(),
                profile: None,
                partition: None,
                custom_title: None,
            }],
            active: 0,
            frame: None,
        }],
    };
    assert!(should_restore(&saved, "direct", "http://localhost:8787"));
    assert!(should_restore(&saved, "direct", "http://localhost:8787//"));
    assert!(!should_restore(&saved, "ssh", "http://localhost:8787"));
    assert!(!should_restore(&saved, "direct", "http://localhost:9000"));
    let empty = Session { windows: Vec::new(), ..saved };
    assert!(!should_restore(&empty, "direct", "http://localhost:8787"));
}

#[test]
fn window_frames_and_writes() {
    assert_eq!(
        frame_of_window(false, false, Some((5, 6)), Some((800, 600))),
        Some([5, 6, 800, 600])
    );
    assert_eq!(frame_of_window(true, false, Some((5, 6)), Some((800, 600))), None);
    assert_eq!(frame_of_window(false, true, Some((5, 6)), Some((800, 600))), None);
    assert_eq!(frame_of_window(false, false, Some((5, 6)), Some((100, 600))), None);
    assert_eq!(frame_of_window(false, false, None, Some((800, 600))), None);
    assert!(needs_write(1, "a", "b"));
    assert!(!needs_write(1, "a", "a"));
    assert!(!needs_write(0, "a", "b"));
}

#[test]
fn navigated_urls() {
    assert_eq!(
        navigated_url(Some("http://h/x".to_string())),
        Some("http://h/x".to_string())
    );
    assert_eq!(navigated_url(None), None);
}

#[test]
fn port_fields_and_recovery() {
    assert_eq!(port_or_default(" 2222 ", 8787), 2222);
    assert_eq!(port_or_default("+22", 8787), 22);
    assert_eq!(port_or_default("ssh", 8787), 8787);
    assert_eq!(port_or_default("", 8787), 8787);
    assert!(recovery_due(true, 5));
    assert!(recovery_due(false, 6));
    assert!(recovery_due(false, 0));
    assert!(!recovery_due(false, 5));
    assert_eq!(
        unreachable_hint("http://h:1"),
        "Nothing answered at http://h:1. Is hermes-webui running? (./start.sh)"
    );
}

#[test]
fn reconnect_window_reuse() {
    let same = vec![Some("ssh".to_string()), Some("ssh".to_string())];
    let mixed = vec![Some("ssh".to_string()), None];
    let none: Vec<Option<String>> = Vec::new();
    assert!(all_modes_match(&same, "ssh"));
    assert!(!all_modes_match(&mixed, "ssh"));
    assert!(all_modes_match(&none, "ssh"));
    assert!(reuse_windows(&same, "ssh"));
    assert!(!reuse_windows(&same, "direct"));
    assert!(!reuse_windows(&none, "ssh"));
}

#[test]
fn new_session_requests() {
    assert_eq!(
        new_session_action("ssh", TunnelStatus::Connecting, 1, true, true, true),
        NewSessionAction::Ignore
    );
    assert_eq!(
        new_session_action("direct", TunnelStatus::Disconnected, 0, true, true, true),
        NewSessionAction::Reconnect
    );
    assert_eq!(
        new_session_action("ssh", TunnelStatus::Connected, 0, true, true, true),
        NewSessionAction::AddTab
    );
    assert_eq!(
        new_session_action("direct", TunnelStatus::Disconnected, 2, true, false, true),
        NewSessionAction::OpenWindow
    );
    assert_eq!(
        new_session_action("direct", TunnelStatus::Disconnected, 2, true, true, false),
        NewSessionAction::OpenWindow
    );
}

#[test]
fn init_script_parts_by_platform() {
    let js = init_script("main-7", "#1A1A1A", true, TargetOs::MacOs);
    assert!(js.starts_with("(function () {\n"));
    assert!(js.ends_with("\n})();"));
    assert!(!js.contains("__LABEL__"));
    assert!(!js.contains("__HEX__"));
    assert!(js.contains("label: 'main-7'"));
    assert!(js.contains("background = '#1A1A1A'"));
    assert!(js.contains("hermes-ssh-footer"));
    assert!(js.contains(PASTE_SUPPRESS));
    assert!(js.contains(MACOS_TITLEBAR));
    assert!(!js.contains(SHORTCUT_FORWARDER));

    let other = init_script("main-2", "#FFFFFF", false, TargetOs::Other);
    assert!(!other.contains("hermes-ssh-footer"));
    assert!(!other.contains(PASTE_SUPPRESS));
    assert!(!other.contains(MACOS_TITLEBAR));
    assert!(other.contains(SHORTCUT_FORWARDER));

    let linux = init_script("main-3", "#000000", false, TargetOs::Linux);
    assert!(linux.contains(PASTE_SUPPRESS));
    assert!(linux.contains(SHORTCUT_FORWARDER));
}

#[test]
fn ssh_script_is_plain_script_with_footer() {
    for os in [TargetOs::MacOs, TargetOs::Linux, TargetOs::Other] {
        let plain = init_script("main-4", "#202020", false, os);
        let ssh = init_script("main-4", "#202020", true, os);
        let head = plain.strip_suffix("\n})();").unwrap();
        let footer = SSH_FOOTER.replace("__LABEL__", "main-4").replace("__HEX__", "#202020");
        assert_eq!(ssh, format!("{head}{footer}\n}})();"));
        assert!(ssh.contains("hermes-ssh-footer"));
        assert!(ssh.contains("__hermesSetTunnelStatus"));
        assert!(!plain.contains("hermes-ssh-footer"));
        assert!(!plain.contains("__hermesSetTunnelStatus"));
    }
}

#[test]
fn tabs_need_a_connected_tunnel_in_ssh_mode() {
    assert!(!tab_allowed("ssh", TunnelStatus::Disconnected));
    assert!(!tab_allowed("ssh", TunnelStatus::Connecting));
    assert!(tab_allowed("ssh", TunnelStatus::Connected));
    assert!(tab_allowed("direct", TunnelStatus::Disconnected));
}

#[test]
fn footer_tint() {
    assert_eq!(
        footer_tint_script("#123456"),
        "if (document.getElementById('hermes-ssh-footer')) document.getElementById('hermes-ssh-footer').style.background = '#123456';"
    );
}

#[test]
fn downloads_and_links() {
    assert!(is_web_url("https://example.com"));
    assert!(is_web_url("http://x"));
    assert!(!is_web_url("file:///etc/passwd"));
    assert!(!is_web_url("javascript:alert(1)"));
    assert_eq!(safe_download_name("../a/b:c.txt"), "_a_b_c.txt");
    assert_eq!(safe_download_name("  ...  "), "download");
    assert_eq!(safe_download_name(" .hidden "), "hidden");
    assert_eq!(safe_download_name("a\\b"), "a_b");
    assert_eq!(download_candidate_name("report", 2, Some("pdf")), "report (2).pdf");
    assert_eq!(download_candidate_name("report", 10, None), "report (10)");
}

#[test]
fn shortcut_values() {
    assert_eq!(shortcut_action("new-tab"), Some(ShortcutAction::NewTab));
    assert_eq!(shortcut_action("zoom-reset"), Some(ShortcutAction::ZoomReset));
    assert_eq!(shortcut_action("prev-tab"), Some(ShortcutAction::PrevTab));
    assert_eq!(shortcut_action("New-Tab"), None);
    assert_eq!(shortcut_action(""), None);
}

#[test]
fn title_cleaning() {
    assert_eq!(clean_title("  Notes | Work  "), "Notes");
    assert_eq!(clean_title("a-b"), "a-b");
    assert_eq!(clean_title("—"), "");
    assert_eq!(clean_title("Chat · Hermes"), "Chat");
}

#[test]
fn display_title_fallbacks_and_truncation() {
    assert_eq!(
        display_title("", "direct", "https://example.com", false),
        "Hermes WebUI  ○ example.com"
    );
    assert_eq!(
        display_title("", "direct", "http://localhost:9000/", true),
        "Hermes WebUI  ● localhost:9000"
    );
    assert_eq!(
        display_title("", "direct", "garbage", true),
        "Hermes WebUI  ● garbage"
    );
    let forty = "y".repeat(40);
    assert_eq!(display_title(&forty, "ssh", "x", true), forty);
    let long = "z".repeat(41);
    let t = display_title(&long, "ssh", "x", true);
    assert_eq!(t, format!("{}…", "z".repeat(38)));
    assert!(t.chars().count() <= 40);
}

#[test]
fn native_tab_adornment() {
    assert_eq!(adorned_title("Chat", Some("work"), true, false), "⟳ work · Chat");
    assert_eq!(adorned_title("Chat", Some("work"), true, true), "● work · Chat");
    assert_eq!(adorned_title("Chat", Some(""), false, false), "Chat");
    assert_eq!(adorned_title("Chat", None, false, true), "● Chat");
    assert_eq!(next_indicator((false, false), Some(true), None), ((true, false), true));
    assert_eq!(next_indicator((true, false), Some(true), Some(false)), ((true, false), false));
    assert_eq!(next_indicator((true, true), None, None), ((true, true), false));
}

#[test]
fn reported_titles_route_by_label() {
    match route_reported_title("tab-1-2", "● Plans — Hermes") {
        TitleReport::Tab { title, attention } => {
            assert_eq!(title, "Plans — Hermes");
            assert!(attention);
        }
        other => panic!("unexpected {other:?}"),
    }
    match route_reported_title("main-1", "Plans — Hermes") {
        TitleReport::Window { title, attention } => {
            assert_eq!(title, "Plans — Hermes");
            assert!(!attention);
        }
        other => panic!("unexpected {other:?}"),
    }
    assert!(matches!(route_reported_title("tab-1-2", " — Hermes"), TitleReport::Ignore));
    assert!(matches!(route_reported_title("main-1", "●  "), TitleReport::Ignore));
}

#[test]
fn badges_and_frames() {
    assert_eq!(offline_badge_for(TunnelStatus::Disconnected), Some(true));
    assert_eq!(offline_badge_for(TunnelStatus::Connected), Some(false));
    assert_eq!(offline_badge_for(TunnelStatus::Connecting), None);
    assert!(should_persist_frame("main-1", Some("main-1"), false, false));
    assert!(!should_persist_frame("main-2", Some("main-1"), false, false));
    assert!(!should_persist_frame("main-1", Some("main-1"), true, false));
    assert!(!should_persist_frame("main-1", Some("main-1"), false, true));
    assert!(!should_persist_frame("prefs", Some("prefs"), false, false));
    assert!(!should_persist_frame("main-1", None, false, false));
}

#[test]
fn tunnel_status_script_quotes_safely() {
    assert_eq!(
        tunnel_status_script(TunnelStatus::Connected, "ex'am\\ple.com", "8787"),
        "if (window.__hermesSetTunnelStatus) window.__hermesSetTunnelStatus('connected', 'example.com', '8787');"
    );
}

#[test]
fn navigation_policy() {
    assert_eq!(navigation_decision("file", None, None), NavDecision::Block);
    assert_eq!(navigation_decision("about", None, Some("example.com")), NavDecision::Allow);
    assert_eq!(navigation_decision("blob", Some("x"), None), NavDecision::Allow);
    assert_eq!(navigation_decision("https", Some("LOCALHOST"), None), NavDecision::Allow);
    assert_eq!(navigation_decision("http", Some("[::1]"), None), NavDecision::Allow);
    assert_eq!(navigation_decision("http", Some("127.0.0.1"), None), NavDecision::Allow);
    assert_eq!(
        navigation_decision("https", Some("Example.COM"), Some("example.com")),
        NavDecision::Allow
    );
    assert_eq!(
        navigation_decision("https", Some("evil.com"), Some("example.com")),
        NavDecision::OpenExternally
    );
    assert_eq!(navigation_decision("https", None, None), NavDecision::OpenExternally);
}

#[test]
fn content_window_order_keys() {
    assert_eq!(content_window_key("main-12"), Some(12));
    assert_eq!(content_window_key("main-main-3"), Some(3));
    assert_eq!(content_window_key("main-x"), Some(0));
    assert_eq!(content_window_key("main-"), Some(0));
    assert_eq!(content_window_key("strip-1"), None);
    assert_eq!(content_window_key("prefs"), None);
}

#[test]
fn css_color_syntax() {
    assert!(matches!(parse_css_color_parts("#1a1a1a"), Some(CssColor::Hex(26, 26, 26))));
    assert!(matches!(parse_css_color_parts(" #fff "), Some(CssColor::Hex(255, 255, 255))));
    assert!(matches!(parse_css_color_parts("#0A0B0C"), Some(CssColor::Hex(10, 11, 12))));
    match parse_css_color_parts("rgb(26, 26, 26)") {
        Some(CssColor::Rgb(r, g, b)) => {
            assert_eq!((r.as_str(), g.as_str(), b.as_str()), ("26", "26", "26"));
        }
        other => panic!("unexpected {other:?}"),
    }
    match parse_css_color_parts("rgba(1 2 3 / 0.5)") {
        Some(CssColor::Rgb(r, g, b)) => {
            assert_eq!((r.as_str(), g.as_str(), b.as_str()), ("1", "2", "3"));
        }
        other => panic!("unexpected {other:?}"),
    }
    assert!(parse_css_color_parts("var(--bg)").is_none());
    assert!(parse_css_color_parts("#12345").is_none());
    assert!(parse_css_color_parts("#ggg").is_none());
    assert!(parse_css_color_parts("rgb(1, 2)").is_none());
    assert!(parse_css_color_parts("rgb 1 2 3").is_none());
}

#[test]
fn css_hex_with_multibyte_characters() {
    // Six bytes whose second slot starts inside a two-byte character.
    assert!(parse_css_color_parts("#aé123").is_none());
    assert!(parse_css_color_parts("#aééb").is_none());
    // Six bytes with a two-byte character filling the first slot.
    assert!(parse_css_color_parts("#é1234").is_none());
    assert!(matches!(parse_css_color_parts("#1a1a1a"), Some(CssColor::Hex(26, 26, 26))));
}

#[test]
fn allowed_host_is_the_lowercased_target_host() {
    assert_eq!(allowed_host("http://LocalHost:8787/x"), Some("localhost".to_string()));
    assert_eq!(allowed_host("https://Example.COM"), Some("example.com".to_string()));
    assert_eq!(allowed_host("not a url"), None);
    assert_eq!(allowed_host("mailto:someone@example.com"), None);
}

#[test]
fn clean_title_keeps_a_leading_part() {
    let raw = "  Plan for Q3: budget, hiring  ";
    assert_eq!(clean_title(raw), "Plan for Q3: budget, hiring");
    let t = clean_title("  Retro notes — Hermes  ");
    assert_eq!(t, "Retro notes");
    assert!("Retro notes — Hermes".starts_with(t.as_str()));
    assert_eq!(clean_title("a — b — c"), "a — b");
}
