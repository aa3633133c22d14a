use messenger::script::{
    assemble_initialization_script, initialization_script, BRIDGE_JS, DEBUG_REPORTER_JS,
};
use messenger::shell::{badge_count, menu_command, start_url, user_agent, ZoomCommand};

#[test]
fn badge_shows_positive_counts_only() {
    assert_eq!(badge_count(3), Some(3));
    assert_eq!(badge_count(1), Some(1));
    assert_eq!(badge_count(0), None);
    assert_eq!(badge_count(-5), None);
}

#[test]
fn menu_items_map_to_zoom_commands() {
    assert_eq!(menu_command("zoom_in"), Some(ZoomCommand::In));
    assert_eq!(menu_command("zoom_out"), Some(ZoomCommand::Out));
    assert_eq!(menu_command("zoom_reset"), Some(ZoomCommand::Reset));
    assert_eq!(menu_command("quit"), None);
    assert_eq!(menu_command("zoom_in "), None);
}

#[test]
fn start_page_and_user_agent_defaults_and_overrides() {
    assert_eq!(start_url(None), "https://www.facebook.com/messages");
    assert_eq!(start_url(Some("https://x.test/".to_string())), "https://x.test/");
    assert!(user_agent(None).ends_with("Version/26.6 Safari/605.1.15"));
    assert!(user_agent(None).starts_with("Mozilla/5.0 (Macintosh; Intel Mac OS X 10_15_7) AppleWebKit"));
    assert_eq!(user_agent(Some("UA".to_string())), "UA");
}

#[test]
fn script_embeds_css_as_json_string() {
    let s = initialization_script("a { content: \"x\" }\n", false);
    let expected = format!(
        "globalThis.__MESSENGER_CSS__ = {};\n{}",
        "\"a { content: \\\"x\\\" }\\n\"", BRIDGE_JS
    );
    assert_eq!(s, expected);
}

#[test]
fn script_appends_debug_reporter_only_when_asked() {
    let plain = initialization_script("", false);
    let debug = initialization_script("", true);
    assert_eq!(debug, format!("{}{}", plain, DEBUG_REPORTER_JS));
    assert!(plain.starts_with("globalThis.__MESSENGER_CSS__ = \"\";\n"));
}

#[test]
fn assembled_script_falls_back_to_empty_stylesheet() {
    let s = assemble_initialization_script(None, false);
    assert_eq!(s, format!("globalThis.__MESSENGER_CSS__ = \"\";\n{}", BRIDGE_JS));
}

#[test]
fn stylesheet_literal_escapes_quotes_backslashes_and_controls() {
    let s = initialization_script("a\"b\\c\u{1}\td\re\u{c}\u{8}\u{1f}é", false);
    let expected = format!(
        "globalThis.__MESSENGER_CSS__ = {};\n{}",
        "\"a\\\"b\\\\c\\u0001\\td\\re\\f\\b\\u001fé\"", BRIDGE_JS
    );
    assert_eq!(s, expected);
}

#[test]
fn embedded_stylesheet_has_no_raw_line_break_and_reads_back() {
    let css = "body {\n  color: red;\n}\n/* \"quoted\" */";
    let s = initialization_script(css, true);
    let rest = s.strip_prefix("globalThis.__MESSENGER_CSS__ = ").expect("prefix");
    let end = rest.find(";\n").expect("statement end");
    let literal = &rest[..end];
    assert!(!literal.contains('\n'));
    assert!(literal.starts_with('"') && literal.ends_with('"'));
    assert_eq!(serde_json::from_str::<String>(literal).unwrap(), css);
    assert!(s.contains(DEBUG_REPORTER_JS));
    assert!(!initialization_script(css, false).contains(DEBUG_REPORTER_JS));
}
