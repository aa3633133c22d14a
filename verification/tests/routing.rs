use messenger::navigation::{
    is_internal, is_local_app, is_login_challenge, route_new_window, route_page_load, shim_target,
    unwrap_link_shim, web_destination, NewWindowAction, PageLoadAction,
};
use messenger::url_model::ParsedUrl;

fn url(s: &str) -> ParsedUrl {
    ParsedUrl::parse(s).expect("valid url")
}

#[test]
fn messenger_and_login_flow_stay_in_app() {
    assert!(is_internal(&url("https://www.messenger.com/t/12345")));
    assert!(is_internal(&url("https://messenger.com/")));
    // Login, 2FA and checkpoint bounce through facebook.com.
    assert!(is_internal(&url("https://www.facebook.com/login.php")));
    assert!(is_internal(&url("https://www.facebook.com/checkpoint/")));
}

#[test]
fn recaptcha_stays_in_app() {
    assert!(is_internal(&url(
        "https://www.google.com/recaptcha/api2/anchor?k=abc"
    )));
    assert!(is_internal(&url(
        "https://www.google.com/recaptcha/api2/bframe?hl=en"
    )));
    assert!(is_internal(&url(
        "https://www.gstatic.com/recaptcha/releases/x/recaptcha__en.js"
    )));
    assert!(is_internal(&url(
        "https://www.recaptcha.net/recaptcha/api.js"
    )));
}

#[test]
fn ordinary_google_links_still_open_externally() {
    assert!(!is_internal(&url("https://www.google.com/search?q=cats")));
    assert!(!is_internal(&url("https://maps.google.com/")));
    assert!(!is_internal(&url("https://mail.google.com/mail/u/0")));
}

#[test]
fn two_step_verification_captcha_stays_in_app() {
    assert!(is_internal(&url(
        "https://www.fbsbx.com/captcha/recaptcha/iframe/?referer=https%3A%2F%2Fwww.facebook.com"
    )));
    assert!(is_internal(&url("https://fbsbx.com/captcha/")));
    assert!(is_internal(&url(
        "https://connect.facebook.net/en_US/sdk.js"
    )));
}

#[test]
fn chat_links_unwrap_to_the_real_destination() {
    let shim = url(
        "https://l.facebook.com/l.php?u=https%3A%2F%2Fcarsandbids.com%2Fauctions%2F3qbLmvj1&h=AT1",
    );
    let real = unwrap_link_shim(&shim).expect("unwraps");
    assert_eq!(real.as_str(), "https://carsandbids.com/auctions/3qbLmvj1");
    // The shim itself looks internal; the destination must not.
    assert!(is_internal(&shim));
    assert!(!is_internal(&real));
}

#[test]
fn link_shim_variants_and_non_shims() {
    assert!(unwrap_link_shim(&url(
        "https://lm.facebook.com/l.php?u=https%3A%2F%2Fexample.com%2F"
    ))
    .is_some());
    // Not the shim path.
    assert!(unwrap_link_shim(&url(
        "https://www.facebook.com/l.php?u=https%3A%2F%2Fexample.com"
    ))
    .is_none());
    // No destination parameter.
    assert!(unwrap_link_shim(&url("https://l.facebook.com/l.php?h=AT1")).is_none());
    // Refuse to hand a non-http scheme to the OS.
    assert!(
        unwrap_link_shim(&url("https://l.facebook.com/l.php?u=javascript%3Aalert(1)"))
            .is_none()
    );
    // A genuine Messenger page is untouched.
    assert!(unwrap_link_shim(&url("https://www.facebook.com/messages")).is_none());
}

#[test]
fn off_site_links_open_externally() {
    assert!(!is_internal(&url("https://example.com/")));
    assert!(!is_internal(&url("https://news.ycombinator.com/")));
}

#[test]
fn lookalike_domains_are_not_internal() {
    assert!(!is_internal(&url("https://evil-facebook.com/")));
    assert!(!is_internal(&url("https://facebook.com.attacker.net/")));
    assert!(!is_internal(&url("https://notgoogle.com/recaptcha/api.js")));
    assert!(!is_internal(&url("https://messenger.com.evil.co/")));
    assert!(!is_internal(&url("https://fbsbx.com.evil.co/captcha/")));
    assert!(!is_internal(&url("https://notfbsbx.com/captcha/")));
}

#[test]
fn local_app_origin_works_in_dev_and_bundled() {
    assert!(is_local_app(&url("tauri://localhost/index.html")));
    assert!(is_local_app(&url("http://127.0.0.1:1430/")));
    assert!(is_local_app(&url("http://tauri.localhost/")));
    assert!(!is_local_app(&url("https://www.messenger.com/")));
}

// ---------------------------------------------------------------------------

#[test]
fn parse_copies_out_the_components() {
    let u = url("https://Sub.Example.com/a/b?x=1&u=two+words%21#frag");
    assert_eq!(u.scheme, "https");
    assert_eq!(u.host.as_deref(), Some("sub.example.com"));
    assert_eq!(u.path, "/a/b");
    assert_eq!(
        u.query_pairs,
        vec![
            ("x".to_string(), "1".to_string()),
            ("u".to_string(), "two words!".to_string())
        ]
    );
    assert_eq!(u.as_str(), "https://sub.example.com/a/b?x=1&u=two+words%21#frag");
}

#[test]
fn parse_rejects_relative_and_garbage_input() {
    assert!(ParsedUrl::parse("/relative/path").is_none());
    assert!(ParsedUrl::parse("not a url").is_none());
    assert!(ParsedUrl::parse("").is_none());
}

#[test]
fn url_without_host_is_not_internal_over_http_like_schemes() {
    let u = url("mailto:someone@facebook.com");
    assert_eq!(u.host, None);
    assert!(!is_internal(&u));
}

#[test]
fn inline_content_stays_in_app() {
    assert!(is_internal(&url("data:text/plain,hello")));
    assert!(is_internal(&url("about:blank")));
    assert!(is_internal(&url("blob:https://www.facebook.com/1234")));
}

#[test]
fn app_scheme_is_local() {
    assert!(is_local_app(&url("asset://localhost/x.png")));
    assert!(is_internal(&url("asset://localhost/x.png")));
    assert!(!is_local_app(&url("https://localhost.evil.com/")));
    assert!(!is_local_app(&url("ftp://localhost/")));
}

#[test]
fn subdomains_of_internal_domains_stay_in_app() {
    assert!(is_internal(&url("https://static.xx.fbcdn.net/rsrc.php")));
    assert!(is_internal(&url("https://fb.com/")));
    assert!(is_internal(&url("http://a.b.facebook.net/")));
    assert!(!is_internal(&url("ftp://www.facebook.com/")));
}

#[test]
fn login_challenge_needs_captcha_path_and_host() {
    assert!(is_login_challenge(&url("https://google.com/recaptcha/api.js")));
    assert!(!is_login_challenge(&url("https://google.com/search?q=recaptcha")));
    assert!(!is_login_challenge(&url("https://google.co.uk/recaptcha/api.js")));
}

#[test]
fn shim_target_takes_the_first_u_parameter() {
    let u = url("https://l.messenger.com/l.php?h=1&u=https%3A%2F%2Fa.example%2F&u=https%3A%2F%2Fb.example%2F");
    assert_eq!(shim_target(&u), Some("https://a.example/"));
    let real = unwrap_link_shim(&u).expect("unwraps");
    assert_eq!(real.as_str(), "https://a.example/");
    assert_eq!(shim_target(&url("https://l.facebook.com/other.php?u=x")), None);
}

#[test]
fn unparsable_shim_destination_is_dropped() {
    assert!(unwrap_link_shim(&url("https://l.facebook.com/l.php?u=not%20a%20url")).is_none());
}

#[test]
fn web_destination_keeps_only_http_and_https() {
    assert!(web_destination(Some(url("http://example.com/"))).is_some());
    assert!(web_destination(Some(url("file:///etc/passwd"))).is_none());
    assert!(web_destination(None).is_none());
}

#[test]
fn new_window_routing() {
    assert!(matches!(
        route_new_window(url("https://www.messenger.com/t/1")),
        NewWindowAction::Allow
    ));
    match route_new_window(url(
        "https://l.facebook.com/l.php?u=https%3A%2F%2Fexample.com%2Fpage&h=AT1",
    )) {
        NewWindowAction::OpenInBrowser(s) => assert_eq!(s, "https://example.com/page"),
        other => panic!("unexpected {:?}", other),
    }
    match route_new_window(url("mailto:a@b.c")) {
        NewWindowAction::OpenInBrowser(s) => assert_eq!(s, "mailto:a@b.c"),
        other => panic!("unexpected {:?}", other),
    }
}

#[test]
fn page_load_routing() {
    assert!(matches!(
        route_page_load(false, url("https://example.com/")),
        PageLoadAction::Ignore
    ));
    assert!(matches!(
        route_page_load(true, url("tauri://localhost/index.html")),
        PageLoadAction::ShowMessenger
    ));
    assert!(matches!(
        route_page_load(true, url("https://www.facebook.com/messages")),
        PageLoadAction::Stay
    ));
    match route_page_load(true, url("https://news.ycombinator.com/item?id=1")) {
        PageLoadAction::LeaveToBrowser(s) => assert_eq!(s, "https://news.ycombinator.com/item?id=1"),
        other => panic!("unexpected {:?}", other),
    }
}
