//! Properties of the routing rules that hold for every URL.
use vstd::prelude::*;
use crate::text::{seq_contains, seq_ends_with};
use crate::navigation::{
    host_matches_domain, internal_domains, is_app_scheme, is_challenge_host, is_inline_scheme,
    is_internal_host, is_web_scheme, spec_is_internal, spec_is_link_shim, spec_is_local_app,
    spec_is_login_challenge, spec_link_target, spec_unwrap_link_shim, first_value_for,
};
use crate::url_model::{parsed_url, UrlView};

verus! {

/// The app's own splash page always stays in the window.
pub proof fn lemma_local_app_stays_in_app(u: UrlView)
    requires
        spec_is_local_app(u),
    ensures
        spec_is_internal(u),
{
}

/// A login reCAPTCHA always stays in the window.
pub proof fn lemma_login_challenge_stays_in_app(u: UrlView)
    requires
        spec_is_login_challenge(u),
    ensures
        spec_is_internal(u),
{
}

/// `data:`, `blob:` and `about:` content always stays in the window.
pub proof fn lemma_inline_content_stays_in_app(u: UrlView)
    requires
        is_inline_scheme(u.scheme),
    ensures
        spec_is_internal(u),
{
}

/// The captcha exemption only covers paths that mention `/recaptcha`, on a captcha host.
pub proof fn lemma_login_challenge_needs_captcha_path(u: UrlView)
    requires
        spec_is_login_challenge(u),
    ensures
        seq_contains(u.path, "/recaptcha"@),
        u.host matches Some(h) && is_challenge_host(h),
{
}

/// Every subdomain of an internal host is internal too.
pub proof fn lemma_subdomain_of_internal_host(host: Seq<char>, label: Seq<char>)
    requires
        is_internal_host(host),
    ensures
        is_internal_host(label + "."@ + host),
{
    let i = choose|i: int| 0 <= i < internal_domains().len() && #[trigger] host_matches_domain(host, internal_domains()[i]);
    let d = internal_domains()[i];
    let sub = label + "."@ + host;
    let dotted = "."@ + d;
    if host == d {
        assert(sub.subrange(sub.len() - dotted.len(), sub.len() as int) =~= dotted);
    } else {
        assert(seq_ends_with(host, dotted));
        assert(sub.subrange(sub.len() - dotted.len(), sub.len() as int) =~= host.subrange(
            host.len() - dotted.len(),
            host.len() as int,
        ));
    }
    assert(host_matches_domain(sub, internal_domains()[i]));
}

/// An `http`/`https` URL on a subdomain of an internal host stays in the window.
pub proof fn lemma_subdomain_url_stays_in_app(u: UrlView, label: Seq<char>, host: Seq<char>)
    requires
        is_web_scheme(u.scheme),
        is_internal_host(host),
        u.host == Some(label + "."@ + host),
    ensures
        spec_is_internal(u),
{
    lemma_subdomain_of_internal_host(host, label);
}

/// An `http`/`https` URL whose host is neither an internal domain nor ends with
/// `.` followed by one (a lookalike such as `evil-facebook.com` or
/// `facebook.com.attacker.net`) leaves the app, unless it is the app's own page
/// or a login captcha.
pub proof fn lemma_lookalike_leaves_app(u: UrlView, host: Seq<char>)
    requires
        is_web_scheme(u.scheme),
        u.host == Some(host),
        !spec_is_local_app(u),
        !spec_is_login_challenge(u),
        forall|i: int| 0 <= i < internal_domains().len() ==> !#[trigger] host_matches_domain(host, internal_domains()[i]),
    ensures
        !spec_is_internal(u),
{
    reveal_strlit("http");
    reveal_strlit("https");
    reveal_strlit("data");
    reveal_strlit("blob");
    reveal_strlit("about");
    assert(!is_inline_scheme(u.scheme)) by {
        assert(u.scheme[0] == 'h');
    }
    assert(!is_internal_host(host));
}

/// A URL of any scheme other than `http`, `https`, the app's own and the inline
/// ones leaves the app unless it is a login captcha.
pub proof fn lemma_other_schemes_leave_app(u: UrlView)
    requires
        !is_web_scheme(u.scheme),
        !is_app_scheme(u.scheme),
        !is_inline_scheme(u.scheme),
        !spec_is_login_challenge(u),
    ensures
        !spec_is_internal(u),
{
}

/// Unwrapping only ever yields an `http`/`https` destination, and only from a redirector URL.
pub proof fn lemma_unwrapped_destination_is_web(u: UrlView)
    ensures
        spec_unwrap_link_shim(u) matches Some(d) ==> is_web_scheme(d.scheme) && spec_is_link_shim(u),
{
}

/// A URL that is not a redirector is judged as it is.
pub proof fn lemma_non_shim_judged_as_is(u: UrlView)
    requires
        !spec_is_link_shim(u),
    ensures
        spec_link_target(u) == u,
{
}

/// The Messenger and Facebook domains, written out.
proof fn lemma_listed_domain_is_internal_host(d: Seq<char>)
    requires
        d == "messenger.com"@ || d == "facebook.com"@ || d == "fbcdn.net"@ || d == "fb.com"@
            || d == "fbsbx.com"@ || d == "facebook.net"@,
    ensures
        is_internal_host(d),
{
    if d == "messenger.com"@ {
        assert(host_matches_domain(d, internal_domains()[0]));
    } else if d == "facebook.com"@ {
        assert(host_matches_domain(d, internal_domains()[1]));
    } else if d == "fbcdn.net"@ {
        assert(host_matches_domain(d, internal_domains()[2]));
    } else if d == "fb.com"@ {
        assert(host_matches_domain(d, internal_domains()[3]));
    } else if d == "fbsbx.com"@ {
        assert(host_matches_domain(d, internal_domains()[4]));
    } else {
        assert(host_matches_domain(d, internal_domains()[5]));
    }
}

/// An `http`/`https` URL whose host is exactly messenger.com, facebook.com,
/// fbcdn.net, fb.com, fbsbx.com or facebook.net stays in the window, and so does
/// one on any subdomain of them (`<label>.<domain>`).
pub proof fn lemma_meta_domains_stay_in_app(u: UrlView, label: Seq<char>, d: Seq<char>)
    requires
        u.scheme == "http"@ || u.scheme == "https"@,
        d == "messenger.com"@ || d == "facebook.com"@ || d == "fbcdn.net"@ || d == "fb.com"@
            || d == "fbsbx.com"@ || d == "facebook.net"@,
        u.host == Some(d) || u.host == Some(label + "."@ + d),
    ensures
        spec_is_internal(u),
{
    lemma_listed_domain_is_internal_host(d);
    if u.host != Some(d) {
        lemma_subdomain_of_internal_host(d, label);
    }
}

/// The hosts that serve the app's splash page: `tauri:` and `asset:` URLs, and
/// `http`/`https` URLs on tauri.localhost, localhost or 127.0.0.1 (any port or
/// path) are the local app and stay in the window.
pub proof fn lemma_splash_origins_are_local(u: UrlView)
    requires
        (u.scheme == "tauri"@ || u.scheme == "asset"@) || ((u.scheme == "http"@ || u.scheme == "https"@)
            && (u.host == Some("tauri.localhost"@) || u.host == Some("localhost"@) || u.host == Some(
            "127.0.0.1"@,
        ))),
    ensures
        spec_is_local_app(u),
        spec_is_internal(u),
{
}

/// The login captcha: a URL on google.com, recaptcha.net or gstatic.com, or on
/// any subdomain of them, whose path contains `/recaptcha`, is a login challenge
/// and stays in the window.
pub proof fn lemma_captcha_hosts_are_login_challenges(
    u: UrlView,
    label: Seq<char>,
    d: Seq<char>,
    before: Seq<char>,
    after: Seq<char>,
)
    requires
        d == "google.com"@ || d == "recaptcha.net"@ || d == "gstatic.com"@,
        u.host == Some(d) || u.host == Some(label + "."@ + d),
        u.path == before + "/recaptcha"@ + after,
    ensures
        spec_is_login_challenge(u),
        spec_is_internal(u),
{
    let pat = "/recaptcha"@;
    assert(u.path.subrange(before.len() as int, (before.len() + pat.len()) as int) =~= pat);
    assert(seq_contains(u.path, pat));
    if u.host != Some(d) {
        let h = label + "."@ + d;
        let dotted = "."@ + d;
        assert(h.subrange(h.len() - dotted.len(), h.len() as int) =~= dotted);
        if d == "google.com"@ {
            reveal_strlit(".google.com");
            reveal_strlit(".");
            reveal_strlit("google.com");
            assert(dotted =~= ".google.com"@);
        } else if d == "recaptcha.net"@ {
            reveal_strlit(".recaptcha.net");
            reveal_strlit(".");
            reveal_strlit("recaptcha.net");
            assert(dotted =~= ".recaptcha.net"@);
        } else {
            reveal_strlit(".gstatic.com");
            reveal_strlit(".");
            reveal_strlit("gstatic.com");
            assert(dotted =~= ".gstatic.com"@);
        }
    }
}

/// Reading the first `key` pair: it is the value of the pair at `k` when that
/// pair is named `key` and none before it is.
proof fn lemma_first_value_at(pairs: Seq<(Seq<char>, Seq<char>)>, key: Seq<char>, k: int)
    requires
        0 <= k < pairs.len(),
        pairs[k].0 == key,
        forall|j: int| 0 <= j < k ==> #[trigger] pairs[j].0 != key,
    ensures
        first_value_for(pairs, key) == Some(pairs[k].1),
    decreases k,
{
    if k > 0 {
        let rest = pairs.drop_first();
        assert forall|j: int| 0 <= j < k - 1 implies #[trigger] rest[j].0 != key by {
            assert(rest[j] == pairs[j + 1]);
        }
        lemma_first_value_at(rest, key, k - 1);
        assert(pairs[0].0 != key);
    }
}

/// Every redirector URL unwraps: on l.facebook.com, lm.facebook.com,
/// l.messenger.com or lm.messenger.com, with path `/l.php`, whose first `u`
/// parameter parses as an `http`/`https` URL, the destination is that URL, and
/// a navigation to the redirector is judged by it.
pub proof fn lemma_redirectors_unwrap(u: UrlView, k: int, dest: UrlView)
    requires
        u.host == Some("l.facebook.com"@) || u.host == Some("lm.facebook.com"@) || u.host == Some(
            "l.messenger.com"@,
        ) || u.host == Some("lm.messenger.com"@),
        u.path == "/l.php"@,
        0 <= k < u.query_pairs.len(),
        u.query_pairs[k].0 == "u"@,
        forall|j: int| 0 <= j < k ==> #[trigger] u.query_pairs[j].0 != "u"@,
        parsed_url(u.query_pairs[k].1) == Some(dest),
        dest.scheme == "http"@ || dest.scheme == "https"@,
    ensures
        spec_unwrap_link_shim(u) == Some(dest),
        spec_link_target(u) == dest,
{
    lemma_first_value_at(u.query_pairs, "u"@, k);
}

/// `data:`, `blob:` and `about:` URLs, whatever they hold, stay in the window.
pub proof fn lemma_inline_schemes_listed(u: UrlView)
    requires
        u.scheme == "data"@ || u.scheme == "blob"@ || u.scheme == "about"@,
    ensures
        spec_is_internal(u),
{
}

/// `host` is neither `d` nor a subdomain of it.
pub open spec fn outside_domain(host: Seq<char>, d: Seq<char>) -> bool {
    host != d && !seq_ends_with(host, "."@ + d)
}

/// An `http`/`https` URL on any other host leaves the window: a host that is not
/// messenger.com, facebook.com, fbcdn.net, fb.com, fbsbx.com, facebook.net,
/// google.com, recaptcha.net or gstatic.com, nor a subdomain of one, nor
/// tauri.localhost, localhost or 127.0.0.1.
pub proof fn lemma_other_hosts_leave_app(u: UrlView, h: Seq<char>)
    requires
        u.scheme == "http"@ || u.scheme == "https"@,
        u.host == Some(h),
        outside_domain(h, "messenger.com"@),
        outside_domain(h, "facebook.com"@),
        outside_domain(h, "fbcdn.net"@),
        outside_domain(h, "fb.com"@),
        outside_domain(h, "fbsbx.com"@),
        outside_domain(h, "facebook.net"@),
        outside_domain(h, "google.com"@),
        outside_domain(h, "recaptcha.net"@),
        outside_domain(h, "gstatic.com"@),
        h != "tauri.localhost"@,
        h != "localhost"@,
        h != "127.0.0.1"@,
    ensures
        !spec_is_internal(u),
{
    reveal_strlit(".");
    reveal_strlit("google.com");
    reveal_strlit(".google.com");
    reveal_strlit("recaptcha.net");
    reveal_strlit(".recaptcha.net");
    reveal_strlit("gstatic.com");
    reveal_strlit(".gstatic.com");
    assert("."@ + "google.com"@ =~= ".google.com"@);
    assert("."@ + "recaptcha.net"@ =~= ".recaptcha.net"@);
    assert("."@ + "gstatic.com"@ =~= ".gstatic.com"@);
    assert(!is_challenge_host(h));
    assert forall|i: int| 0 <= i < internal_domains().len() implies !#[trigger] host_matches_domain(
        h,
        internal_domains()[i],
    ) by {}
    reveal_strlit("http");
    reveal_strlit("https");
    reveal_strlit("data");
    reveal_strlit("blob");
    reveal_strlit("about");
    reveal_strlit("tauri");
    reveal_strlit("asset");
    assert(u.scheme[0] == 'h');
}

/// Only the listed splash origins are the local app: a `tauri:` or `asset:` URL,
/// or an `http`/`https` URL on tauri.localhost, localhost or 127.0.0.1.
pub proof fn lemma_local_app_origins_only(u: UrlView)
    requires
        spec_is_local_app(u),
    ensures
        (u.scheme == "tauri"@ || u.scheme == "asset"@) || ((u.scheme == "http"@ || u.scheme == "https"@)
            && (u.host == Some("tauri.localhost"@) || u.host == Some("localhost"@) || u.host == Some(
            "127.0.0.1"@,
        ))),
{
}

/// Only captcha URLs are login challenges: the host is google.com, recaptcha.net
/// or gstatic.com or a subdomain of one, and `/recaptcha` occurs in the path.
pub proof fn lemma_login_challenge_only_captcha(u: UrlView)
    requires
        spec_is_login_challenge(u),
    ensures
        exists|i: int|
            0 <= i && i + "/recaptcha"@.len() <= u.path.len() && #[trigger] u.path.subrange(
                i,
                i + "/recaptcha"@.len(),
            ) == "/recaptcha"@,
        u.host matches Some(h) && (!outside_domain(h, "google.com"@) || !outside_domain(
            h,
            "recaptcha.net"@,
        ) || !outside_domain(h, "gstatic.com"@)),
{
    reveal_strlit(".");
    reveal_strlit("google.com");
    reveal_strlit(".google.com");
    reveal_strlit("recaptcha.net");
    reveal_strlit(".recaptcha.net");
    reveal_strlit("gstatic.com");
    reveal_strlit(".gstatic.com");
    assert("."@ + "google.com"@ =~= ".google.com"@);
    assert("."@ + "recaptcha.net"@ =~= ".recaptcha.net"@);
    assert("."@ + "gstatic.com"@ =~= ".gstatic.com"@);
}

/// Only the listed redirectors are unwrapped, and only to an `http`/`https`
/// destination parsed from their `u` parameter: any other host, or any other
/// path, is judged as it is.
pub proof fn lemma_only_redirectors_unwrap(u: UrlView)
    ensures
        spec_unwrap_link_shim(u) matches Some(d) ==> {
            &&& (u.host == Some("l.facebook.com"@) || u.host == Some("lm.facebook.com"@) || u.host
                == Some("l.messenger.com"@) || u.host == Some("lm.messenger.com"@))
            &&& u.path == "/l.php"@
            &&& (d.scheme == "http"@ || d.scheme == "https"@)
            &&& exists|k: int|
                0 <= k < u.query_pairs.len() && #[trigger] u.query_pairs[k].0 == "u"@ && parsed_url(
                    u.query_pairs[k].1,
                ) == Some(d)
        },
        spec_unwrap_link_shim(u) is None ==> spec_link_target(u) == u,
{
    if spec_unwrap_link_shim(u) is Some {
        lemma_first_value_found(u.query_pairs, "u"@);
    }
}

/// A value read by `first_value_for` comes from a pair named `key`.
proof fn lemma_first_value_found(pairs: Seq<(Seq<char>, Seq<char>)>, key: Seq<char>)
    ensures
        first_value_for(pairs, key) matches Some(v) ==> exists|k: int|
            0 <= k < pairs.len() && #[trigger] pairs[k].0 == key && pairs[k].1 == v,
    decreases pairs.len(),
{
    if pairs.len() > 0 && pairs[0].0 != key {
        let rest = pairs.drop_first();
        lemma_first_value_found(rest, key);
        if first_value_for(rest, key) is Some {
            let k = choose|k: int| 0 <= k < rest.len() && #[trigger] rest[k].0 == key && rest[k].1
                == first_value_for(rest, key)->0;
            assert(pairs[k + 1] == rest[k]);
        }
    }
}

} // verus!
