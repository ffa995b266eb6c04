use hermes_webui_desktop::health::{health_url, ready_from_status};
use hermes_webui_desktop::prefs::is_hex_color;
use hermes_webui_desktop::tunnel::ssh_args;
use hermes_webui_desktop::windows::{clean_title, display_title, split_attention};

#[test]
fn gateway_codes_are_not_ready() {
    for code in [502u16, 503, 504] {
        assert!(!ready_from_status(code), "{code} should be NOT ready");
    }
}

#[test]
fn present_server_statuses_are_ready() {
    for code in [
        200u16, 204, 301, 302, 400, 401, 403, 404, 405, 418, 500, 501, 505,
    ] {
        assert!(ready_from_status(code), "{code} should be ready");
    }
}

#[test]
fn health_url_joins_with_one_slash() {
    assert_eq!(health_url("http://h:8787"), "http://h:8787/health");
    assert_eq!(health_url("http://h:8787/"), "http://h:8787/health");
}

#[test]
fn hex_color_validation_is_strict() {
    assert!(is_hex_color("#4f9dff"));
    assert!(is_hex_color("#000000"));
    assert!(is_hex_color("#FFFFFF"));
    assert!(!is_hex_color("4f9dff"));
    assert!(!is_hex_color("#4f9df"));
    assert!(!is_hex_color("#4f9dfff"));
    assert!(!is_hex_color("#12345g"));
    assert!(!is_hex_color(""));
    assert!(!is_hex_color("#fff"));
    assert!(!is_hex_color("red"));
    assert!(!is_hex_color("#000;}body{x"));
}

#[test]
fn ssh_args_frozen() {
    assert_eq!(
        ssh_args("hermes", "example.com", 8787, 8787),
        vec![
            "-N",
            "-o",
            "StrictHostKeyChecking=accept-new",
            "-o",
            "ExitOnForwardFailure=yes",
            "-L",
            "8787:127.0.0.1:8787",
            "hermes@example.com",
        ]
    );
}

#[test]
fn splits_pending_attention_marker() {
    assert_eq!(
        split_attention("● My session — Hermes"),
        (true, "My session — Hermes")
    );
    assert_eq!(
        split_attention("My session — Hermes"),
        (false, "My session — Hermes")
    );
    let (attn, body) = split_attention("● Untitled — Hermes");
    assert!(attn);
    assert_eq!(
        display_title(body, "ssh", "http://localhost:8787", true),
        "Untitled"
    );
}

#[test]
fn strips_hermes_suffix_and_truncates() {
    assert_eq!(
        display_title(
            "Planning chat — Hermes",
            "ssh",
            "http://localhost:8787",
            true
        ),
        "Planning chat"
    );
    assert_eq!(
        display_title("Notes - Hermes Agent", "ssh", "http://localhost:8787", true),
        "Notes"
    );
    let long = format!("{} — Hermes", "x".repeat(60));
    let t = display_title(&long, "ssh", "http://localhost:8787", true);
    assert_eq!(t.chars().count(), 39);
}

#[test]
fn strips_non_hermes_suffix() {
    assert_eq!(
        display_title(
            "Daily standup — Aria",
            "ssh",
            "http://localhost:8787",
            true
        ),
        "Daily standup"
    );
    assert_eq!(
        display_title("Budget review — Work", "ssh", "http://localhost:8787", true),
        "Budget review"
    );
    assert_eq!(
        display_title(
            "Plan A — Phase 1 — Hermes",
            "ssh",
            "http://localhost:8787",
            true
        ),
        "Plan A — Phase 1"
    );
}

#[test]
fn clean_title_empty_for_transient_states() {
    assert_eq!(clean_title(""), "");
    assert_eq!(clean_title("   "), "");
    assert_eq!(clean_title(" — Hermes"), "");
    assert_eq!(clean_title("Hermes"), "Hermes");
}

#[test]
fn fallback_titles() {
    assert_eq!(
        display_title("", "direct", "http://localhost:8787", true),
        "Hermes WebUI  ● localhost:8787"
    );
    assert_eq!(
        display_title("", "direct", "http://localhost:8787", false),
        "Hermes WebUI  ○ localhost:8787"
    );
    assert_eq!(
        display_title("", "ssh", "http://localhost:8787", true),
        "Hermes WebUI"
    );
}
