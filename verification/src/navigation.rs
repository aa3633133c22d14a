//! Which URLs stay inside the app window and which go to the user's browser.
use vstd::prelude::*;
use vstd::string::*;
use crate::text::{seq_contains, seq_ends_with, str_contains, str_ends_with, str_eq};
use crate::url_model::{parsed_url, ParsedUrl, UrlView, url_option_view};

verus! {

// ---------------------------------------------------------------------------
// Specification
// ---------------------------------------------------------------------------

pub open spec fn is_web_scheme(s: Seq<char>) -> bool {
    s == "http"@ || s == "https"@
}

/// Schemes under which the app serves its own bundled pages.
pub open spec fn is_app_scheme(s: Seq<char>) -> bool {
    s == "tauri"@ || s == "asset"@
}

/// Content that the webview renders inline.
pub open spec fn is_inline_scheme(s: Seq<char>) -> bool {
    s == "data"@ || s == "blob"@ || s == "about"@
}

/// Hosts of the development server and of the bundled origin.
pub open spec fn is_local_host(h: Seq<char>) -> bool {
    h == "tauri.localhost"@ || h == "localhost"@ || h == "127.0.0.1"@
}

/// The app's own splash page, in a bundled build or under the dev server.
pub open spec fn spec_is_local_app(u: UrlView) -> bool {
    is_app_scheme(u.scheme) || (is_web_scheme(u.scheme) && (u.host matches Some(h) && is_local_host(h)))
}

/// Hosts that serve the reCAPTCHA used during login.
pub open spec fn is_challenge_host(h: Seq<char>) -> bool {
    ||| h == "google.com"@
    ||| h == "recaptcha.net"@
    ||| h == "gstatic.com"@
    ||| seq_ends_with(h, ".google.com"@)
    ||| seq_ends_with(h, ".recaptcha.net"@)
    ||| seq_ends_with(h, ".gstatic.com"@)
}

/// A reCAPTCHA page or script: a challenge host and a path that mentions `/recaptcha`.
pub open spec fn spec_is_login_challenge(u: UrlView) -> bool {
    &&& u.host matches Some(h)
    &&& is_challenge_host(h)
    &&& seq_contains(u.path, "/recaptcha"@)
}

/// The domains whose hosts, and the subdomains of them, stay in the app.
pub open spec fn internal_domains() -> Seq<Seq<char>> {
    seq!["messenger.com"@, "facebook.com"@, "fbcdn.net"@, "fb.com"@, "fbsbx.com"@, "facebook.net"@]
}

/// `host` is `domain` itself or a subdomain of it.
pub open spec fn host_matches_domain(host: Seq<char>, domain: Seq<char>) -> bool {
    host == domain || seq_ends_with(host, "."@ + domain)
}

pub open spec fn is_internal_host(host: Seq<char>) -> bool {
    exists|i: int| 0 <= i < internal_domains().len() && #[trigger] host_matches_domain(host, internal_domains()[i])
}

/// Whether the URL stays inside the app window.
pub open spec fn spec_is_internal(u: UrlView) -> bool {
    ||| spec_is_local_app(u)
    ||| spec_is_login_challenge(u)
    ||| is_inline_scheme(u.scheme)
    ||| (is_web_scheme(u.scheme) && (u.host matches Some(h) && is_internal_host(h)))
}

/// Hosts of Facebook's outbound-link redirector.
pub open spec fn is_shim_host(h: Seq<char>) -> bool {
    ||| h == "l.facebook.com"@
    ||| h == "lm.facebook.com"@
    ||| h == "l.messenger.com"@
    ||| h == "lm.messenger.com"@
}

/// `https://l.facebook.com/l.php?u=<real url>&h=...` and its variants.
pub open spec fn spec_is_link_shim(u: UrlView) -> bool {
    &&& u.host matches Some(h)
    &&& is_shim_host(h)
    &&& u.path == "/l.php"@
}

/// The value of the first pair named `key`.
pub open spec fn first_value_for(pairs: Seq<(Seq<char>, Seq<char>)>, key: Seq<char>) -> Option<Seq<char>>
    decreases pairs.len(),
{
    if pairs.len() == 0 {
        None
    } else if pairs[0].0 == key {
        Some(pairs[0].1)
    } else {
        first_value_for(pairs.drop_first(), key)
    }
}

/// The destination text that a redirector URL carries in its `u` parameter.
pub open spec fn spec_shim_target(u: UrlView) -> Option<Seq<char>> {
    if spec_is_link_shim(u) {
        first_value_for(u.query_pairs, "u"@)
    } else {
        None
    }
}

/// A parsed destination is kept only when it is an `http` or `https` URL.
pub open spec fn spec_web_destination(p: Option<UrlView>) -> Option<UrlView> {
    match p {
        Some(v) => if is_web_scheme(v.scheme) { Some(v) } else { None },
        None => None,
    }
}

/// The real destination behind a redirector URL, if any.
pub open spec fn spec_unwrap_link_shim(u: UrlView) -> Option<UrlView> {
    match spec_shim_target(u) {
        Some(t) => spec_web_destination(parsed_url(t)),
        None => None,
    }
}

/// The URL that a navigation is judged by: the unwrapped destination, or the URL itself.
pub open spec fn spec_link_target(u: UrlView) -> UrlView {
    match spec_unwrap_link_shim(u) {
        Some(t) => t,
        None => u,
    }
}

// ---------------------------------------------------------------------------
// Implementation
// ---------------------------------------------------------------------------

fn is_web_scheme_str(s: &str) -> (r: bool)
    ensures
        r == is_web_scheme(s@),
{
    str_eq(s, "http") || str_eq(s, "https")
}

/// The app's own splash page. Its origin differs between a bundled build
/// (`tauri://localhost`) and the dev server (plain HTTP on localhost); both count.
pub fn is_local_app(url: &ParsedUrl) -> (r: bool)
    ensures
        r == spec_is_local_app(url@),
{
    let scheme = url.scheme.as_str();
    if str_eq(scheme, "tauri") || str_eq(scheme, "asset") {
        true
    } else if is_web_scheme_str(scheme) {
        match &url.host {
            Some(h) => {
                let h = h.as_str();
                str_eq(h, "tauri.localhost") || str_eq(h, "localhost") || str_eq(h, "127.0.0.1")
            },
            None => false,
        }
    } else {
        false
    }
}

/// Login sometimes throws a reCAPTCHA, loaded from google.com, recaptcha.net or
/// gstatic.com. Only the captcha paths count: an ordinary google.com link still
/// opens in the browser.
pub fn is_login_challenge(url: &ParsedUrl) -> (r: bool)
    ensures
        r == spec_is_login_challenge(url@),
{
    let host = match &url.host {
        Some(h) => h.as_str(),
        None => {
            return false;
        },
    };
    let challenge_host = str_eq(host, "google.com") || str_eq(host, "recaptcha.net") || str_eq(
        host,
        "gstatic.com",
    ) || str_ends_with(host, ".google.com") || str_ends_with(host, ".recaptcha.net")
        || str_ends_with(host, ".gstatic.com");
    challenge_host && str_contains(url.path.as_str(), "/recaptcha")
}

/// The internal domains, in order.
fn internal_domain_list() -> (r: Vec<&'static str>)
    ensures
        r@.len() == internal_domains().len(),
        forall|i: int| 0 <= i < r@.len() ==> #[trigger] r@[i]@ == internal_domains()[i],
{
    let r = vec!["messenger.com", "facebook.com", "fbcdn.net", "fb.com", "fbsbx.com", "facebook.net"];
    r
}

/// `host` is `domain` or ends with `.domain`.
fn host_matches(host: &str, domain: &str) -> (r: bool)
    ensures
        r == host_matches_domain(host@, domain@),
{
    if str_eq(host, domain) {
        return true;
    }
    let mut dotted = String::new();
    dotted.append(".");
    dotted.append(domain);
    str_ends_with(host, dotted.as_str())
}

fn is_internal_host_str(host: &str) -> (r: bool)
    ensures
        r == is_internal_host(host@),
{
    let domains = internal_domain_list();
    let mut i: usize = 0;
    while i < domains.len()
        invariant
            domains@.len() == internal_domains().len(),
            forall|j: int| 0 <= j < domains@.len() ==> #[trigger] domains@[j]@ == internal_domains()[j],
            i <= domains@.len(),
            forall|j: int| 0 <= j < i ==> !#[trigger] host_matches_domain(host@, internal_domains()[j]),
        decreases domains@.len() - i,
    {
        if host_matches(host, domains[i]) {
            assert(host_matches_domain(host@, internal_domains()[i as int]));
            return true;
        }
        i = i + 1;
    }
    false
}

/// Whether the URL stays inside the app window.
pub fn is_internal(url: &ParsedUrl) -> (r: bool)
    ensures
        r == spec_is_internal(url@),
{
    if is_local_app(url) || is_login_challenge(url) {
        return true;
    }
    let scheme = url.scheme.as_str();
    if str_eq(scheme, "data") || str_eq(scheme, "blob") || str_eq(scheme, "about") {
        return true;
    }
    if !is_web_scheme_str(scheme) {
        return false;
    }
    match &url.host {
        Some(h) => is_internal_host_str(h.as_str()),
        None => false,
    }
}

pub open spec fn str_option_view(o: Option<&str>) -> Option<Seq<char>> {
    match o {
        Some(s) => Some(s@),
        None => None,
    }
}

proof fn lemma_first_value_skip(pairs: Seq<(Seq<char>, Seq<char>)>, key: Seq<char>, i: int)
    requires
        0 <= i < pairs.len(),
    ensures
        first_value_for(pairs.skip(i), key) == if pairs[i].0 == key {
            Some(pairs[i].1)
        } else {
            first_value_for(pairs.skip(i + 1), key)
        },
{
    assert(pairs.skip(i).drop_first() =~= pairs.skip(i + 1));
}

fn is_link_shim(url: &ParsedUrl) -> (r: bool)
    ensures
        r == spec_is_link_shim(url@),
{
    match &url.host {
        Some(h) => {
            let h = h.as_str();
            (str_eq(h, "l.facebook.com") || str_eq(h, "lm.facebook.com") || str_eq(h, "l.messenger.com")
                || str_eq(h, "lm.messenger.com")) && str_eq(url.path.as_str(), "/l.php")
        },
        None => false,
    }
}

/// For a redirector URL, the (decoded) value of its first `u` parameter.
pub fn shim_target(url: &ParsedUrl) -> (r: Option<&str>)
    ensures
        str_option_view(r) == spec_shim_target(url@),
{
    if !is_link_shim(url) {
        return None;
    }
    let pairs = &url.query_pairs;
    let ghost pv = url@.query_pairs;
    let mut i: usize = 0;
    proof {
        assert(pv.skip(0) =~= pv);
    }
    while i < pairs.len()
        invariant
            spec_is_link_shim(url@),
            pairs == &url.query_pairs,
            pv == url@.query_pairs,
            pv == crate::url_model::pairs_view(pairs@),
            pv.len() == pairs@.len(),
            i <= pairs@.len(),
            first_value_for(pv, "u"@) == first_value_for(pv.skip(i as int), "u"@),
        decreases pairs@.len() - i,
    {
        proof {
            lemma_first_value_skip(pv, "u"@, i as int);
        }
        assert(pv[i as int] == (pairs@[i as int].0@, pairs@[i as int].1@));
        if str_eq(pairs[i].0.as_str(), "u") {
            return Some(pairs[i].1.as_str());
        }
        i = i + 1;
    }
    proof {
        assert(pv.skip(i as int).len() == 0);
    }
    None
}

/// Keeps a parsed destination only when it is an `http` or `https` URL:
/// no other scheme is ever handed to the operating system.
pub fn web_destination(parsed: Option<ParsedUrl>) -> (r: Option<ParsedUrl>)
    ensures
        url_option_view(r) == spec_web_destination(url_option_view(parsed)),
{
    match parsed {
        Some(p) => {
            if is_web_scheme_str(p.scheme.as_str()) {
                Some(p)
            } else {
                None
            }
        },
        None => None,
    }
}

/// Facebook rewrites links in messages through a redirector
/// (`https://l.facebook.com/l.php?u=<real url>&h=...`). For such a URL this is
/// the real destination, when that parses as an `http`/`https` URL.
pub fn unwrap_link_shim(url: &ParsedUrl) -> (r: Option<ParsedUrl>)
    ensures
        url_option_view(r) == spec_unwrap_link_shim(url@),
        r matches Some(d) ==> is_web_scheme(d@.scheme) && spec_is_link_shim(url@),
{
    match shim_target(url) {
        Some(t) => web_destination(ParsedUrl::parse(t)),
        None => None,
    }
}

/// What to do with a page's request to open a new window (links with `target="_blank"`).
#[derive(Debug)]
pub enum NewWindowAction {
    /// Let the webview open it in the app.
    Allow,
    /// Refuse the window and open this URL in the default browser.
    OpenInBrowser(String),
}

/// Decides a new-window request: the (unwrapped) target stays in the app when it
/// is internal, and is otherwise handed to the browser.
pub fn route_new_window(url: ParsedUrl) -> (r: NewWindowAction)
    ensures
        match r {
            NewWindowAction::Allow => spec_is_internal(spec_link_target(url@)),
            NewWindowAction::OpenInBrowser(s) => !spec_is_internal(spec_link_target(url@)) && s@
                == spec_link_target(url@).serialization,
        },
{
    let target = match unwrap_link_shim(&url) {
        Some(t) => t,
        None => url,
    };
    if is_internal(&target) {
        NewWindowAction::Allow
    } else {
        NewWindowAction::OpenInBrowser(target.serialization)
    }
}

/// What to do when a main-frame page has loaded.
#[derive(Debug)]
pub enum PageLoadAction {
    /// Not a finished load: nothing to do.
    Ignore,
    /// The local splash page has painted: navigate to Messenger.
    ShowMessenger,
    /// A page of the app has settled: restore the zoom and stay.
    Stay,
    /// A foreign page took over the window: restore the zoom, open this URL in
    /// the browser and step back.
    LeaveToBrowser(String),
}

/// Decides what follows a main-frame page load.
pub fn route_page_load(finished: bool, url: ParsedUrl) -> (r: PageLoadAction)
    ensures
        match r {
            PageLoadAction::Ignore => !finished,
            PageLoadAction::ShowMessenger => finished && spec_is_local_app(url@),
            PageLoadAction::Stay => finished && !spec_is_local_app(url@) && spec_is_internal(
                spec_link_target(url@),
            ),
            PageLoadAction::LeaveToBrowser(s) => finished && !spec_is_local_app(url@)
                && !spec_is_internal(spec_link_target(url@)) && s@ == spec_link_target(
                url@,
            ).serialization,
        },
{
    if !finished {
        return PageLoadAction::Ignore;
    }
    if is_local_app(&url) {
        return PageLoadAction::ShowMessenger;
    }
    match route_new_window(url) {
        NewWindowAction::Allow => PageLoadAction::Stay,
        NewWindowAction::OpenInBrowser(s) => PageLoadAction::LeaveToBrowser(s),
    }
}

} // verus!
