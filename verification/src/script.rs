//! The script injected into every page before it is parsed.
use vstd::prelude::*;
use vstd::string::*;
use crate::json::{json_encode_str, json_string_literal, has_no_line_feed, lemma_json_literal_round_trip};
use crate::text::seq_contains;

verus! {

/// Start of the script: the stylesheet is handed to the bridge as a global.
pub const CSS_GLOBAL_PREFIX: &'static str = "globalThis.__MESSENGER_CSS__ = ";

/// Ends the statement that defines the stylesheet global.
pub const STATEMENT_END: &'static str = ";\n";

/// The literal used for the stylesheet when it cannot be encoded.
pub const EMPTY_JSON_STRING: &'static str = "\"\"";

/// Injected before the page is parsed. Two jobs: apply `custom.css`, and
/// mirror the unread count in the page title onto the dock icon.
pub const BRIDGE_JS: &'static str = r#"
(function () {
  if (!/(^|\.)(messenger|facebook)\.com$/.test(location.hostname)) return;

  function invoke(cmd, args) {
    var core = window.__TAURI__ && window.__TAURI__.core;
    if (core && core.invoke) return core.invoke(cmd, args);
    var internals = window.__TAURI_INTERNALS__;
    if (internals && internals.invoke) return internals.invoke(cmd, args);
    return Promise.reject(new Error("Tauri IPC unavailable"));
  }

  function injectCss() {
    var css = globalThis.__MESSENGER_CSS__;
    if (!css || !css.trim()) return;
    var style = document.createElement("style");
    style.textContent = css;
    (document.head || document.documentElement).appendChild(style);
  }

  var lastCount = -1;
  function syncBadge() {
    var match = document.title.match(/\((\d+)\)/);
    var count = match ? parseInt(match[1], 10) : 0;
    if (count === lastCount) return;
    lastCount = count;
    invoke("update_badge", { count: count }).catch(function (err) {
      console.error("[Messenger] badge update failed:", err);
    });
  }

  function start() {
    injectCss();
    syncBadge();
    // Messenger is a SPA that replaces the <title> node wholesale, so poll
    // instead of binding an observer to an element that gets swapped out.
    // The lastCount guard keeps this to one IPC call per actual change.
    setInterval(syncBadge, 1000);
  }

  if (document.readyState === "loading") {
    document.addEventListener("DOMContentLoaded", start);
  } else {
    start();
  }
})();
"#;

/// Reports the rendered page state back over IPC. Only injected when
/// MESSENGER_DEBUG is set; catches client-side routing that never fires a
/// main-frame navigation.
pub const DEBUG_REPORTER_JS: &'static str = r#"
(function () {
  function inv(cmd, args) {
    var c = window.__TAURI__ && window.__TAURI__.core;
    if (c && c.invoke) return c.invoke(cmd, args);
    var i = window.__TAURI_INTERNALS__;
    if (i && i.invoke) return i.invoke(cmd, args);
    return Promise.reject(new Error("no ipc"));
  }
  var last = "";
  function tick() {
    var body = document.body ? document.body.innerText.replace(/\s+/g, " ").slice(0, 160) : "(no body)";
    var msg = "url=" + location.href + " | vw=" + window.innerWidth + "x" + window.innerHeight +
              " | title=" + document.title + " | body=" + body;
    if (msg !== last) {
      last = msg;
      inv("debug_report", { what: msg }).catch(function () {});
    }
  }
  function probeLinks() {
    var main = document.querySelector("[role=main]") || document.body;
    var as = main ? main.querySelectorAll("a[href]") : [];
    var seen = {}, out = [];
    Array.prototype.forEach.call(as, function (a) {
      var h = a.getAttribute("href") || "";
      if (h.indexOf("http") !== 0) return;
      var host = "";
      try { host = new URL(a.href).hostname; } catch (e) { host = "?"; }
      var key = host + "|" + (a.getAttribute("target") || "-");
      if (seen[key]) return;
      seen[key] = 1;
      out.push(host + " target=" + (a.getAttribute("target") || "-") + " href=" + a.href.slice(0, 90));
    });
    inv("debug_report", { what: "links(" + as.length + ") " + (out.join(" ;; ") || "none") })
      .catch(function () {});
  }
  setInterval(tick, 4000);
  setTimeout(tick, 2500);
  setTimeout(probeLinks, 12000);

})();
"#;

/// The injected script for a given JSON string literal of the stylesheet.
pub open spec fn spec_script(css_literal: Seq<char>, with_debug_reporter: bool) -> Seq<char> {
    CSS_GLOBAL_PREFIX@ + css_literal + STATEMENT_END@ + BRIDGE_JS@ + if with_debug_reporter {
        DEBUG_REPORTER_JS@
    } else {
        Seq::<char>::empty()
    }
}

/// Puts the script together from the stylesheet's JSON literal (`None` when it
/// could not be encoded, which then stands as an empty string), the bridge, and
/// the debug reporter when asked for.
pub fn assemble_initialization_script(css_literal: Option<&str>, with_debug_reporter: bool) -> (r:
    String)
    ensures
        r@ == spec_script(
            match css_literal {
                Some(c) => c@,
                None => EMPTY_JSON_STRING@,
            },
            with_debug_reporter,
        ),
{
    let mut script = String::new();
    script.append(CSS_GLOBAL_PREFIX);
    match css_literal {
        Some(c) => script.append(c),
        None => script.append(EMPTY_JSON_STRING),
    }
    script.append(STATEMENT_END);
    script.append(BRIDGE_JS);
    if with_debug_reporter {
        script.append(DEBUG_REPORTER_JS);
    }
    script
}

/// The script injected before each page is parsed: the stylesheet as a JSON
/// string in a global, then the bridge, then, when debugging, the page reporter.
pub fn initialization_script(custom_css: &str, with_debug_reporter: bool) -> (r: String)
    ensures
        r@ == spec_script(json_string_literal(custom_css@), with_debug_reporter),
{
    match json_encode_str(custom_css) {
        Ok(j) => assemble_initialization_script(Some(j.as_str()), with_debug_reporter),
        Err(_) => assemble_initialization_script(None, with_debug_reporter),
    }
}

/// With the debug reporter, the script is the plain script followed by the reporter.
pub proof fn lemma_debug_reporter_appended(css_literal: Seq<char>)
    ensures
        spec_script(css_literal, true) == spec_script(css_literal, false) + DEBUG_REPORTER_JS@,
{
    assert(spec_script(css_literal, false) =~= CSS_GLOBAL_PREFIX@ + css_literal + STATEMENT_END@ + BRIDGE_JS@);
}

/// In every script the stylesheet's literal stands right after the prefix, the
/// bridge is present, and the debug reporter is present exactly when asked for.
pub proof fn lemma_script_parts(css: Seq<char>, with_debug_reporter: bool)
    ensures
        spec_script(json_string_literal(css), with_debug_reporter).subrange(
            CSS_GLOBAL_PREFIX@.len() as int,
            (CSS_GLOBAL_PREFIX@.len() + json_string_literal(css).len()) as int,
        ) == json_string_literal(css),
        seq_contains(spec_script(json_string_literal(css), with_debug_reporter), BRIDGE_JS@),
        seq_contains(spec_script(json_string_literal(css), with_debug_reporter), DEBUG_REPORTER_JS@)
            == with_debug_reporter,
{
    // The facts below need the text of each constant, which only its literal reveals.
    reveal_strlit("globalThis.__MESSENGER_CSS__ = ");
    reveal_strlit(";\n");
    reveal_strlit(r#"
(function () {
  if (!/(^|\.)(messenger|facebook)\.com$/.test(location.hostname)) return;

  function invoke(cmd, args) {
    var core = window.__TAURI__ && window.__TAURI__.core;
    if (core && core.invoke) return core.invoke(cmd, args);
    var internals = window.__TAURI_INTERNALS__;
    if (internals && internals.invoke) return internals.invoke(cmd, args);
    return Promise.reject(new Error("Tauri IPC unavailable"));
  }

  function injectCss() {
    var css = globalThis.__MESSENGER_CSS__;
    if (!css || !css.trim()) return;
    var style = document.createElement("style");
    style.textContent = css;
    (document.head || document.documentElement).appendChild(style);
  }

  var lastCount = -1;
  function syncBadge() {
    var match = document.title.match(/\((\d+)\)/);
    var count = match ? parseInt(match[1], 10) : 0;
    if (count === lastCount) return;
    lastCount = count;
    invoke("update_badge", { count: count }).catch(function (err) {
      console.error("[Messenger] badge update failed:", err);
    });
  }

  function start() {
    injectCss();
    syncBadge();
    // Messenger is a SPA that replaces the <title> node wholesale, so poll
    // instead of binding an observer to an element that gets swapped out.
    // The lastCount guard keeps this to one IPC call per actual change.
    setInterval(syncBadge, 1000);
  }

  if (document.readyState === "loading") {
    document.addEventListener("DOMContentLoaded", start);
  } else {
    start();
  }
})();
"#);
    reveal_strlit(r#"
(function () {
  function inv(cmd, args) {
    var c = window.__TAURI__ && window.__TAURI__.core;
    if (c && c.invoke) return c.invoke(cmd, args);
    var i = window.__TAURI_INTERNALS__;
    if (i && i.invoke) return i.invoke(cmd, args);
    return Promise.reject(new Error("no ipc"));
  }
  var last = "";
  function tick() {
    var body = document.body ? document.body.innerText.replace(/\s+/g, " ").slice(0, 160) : "(no body)";
    var msg = "url=" + location.href + " | vw=" + window.innerWidth + "x" + window.innerHeight +
              " | title=" + document.title + " | body=" + body;
    if (msg !== last) {
      last = msg;
      inv("debug_report", { what: msg }).catch(function () {});
    }
  }
  function probeLinks() {
    var main = document.querySelector("[role=main]") || document.body;
    var as = main ? main.querySelectorAll("a[href]") : [];
    var seen = {}, out = [];
    Array.prototype.forEach.call(as, function (a) {
      var h = a.getAttribute("href") || "";
      if (h.indexOf("http") !== 0) return;
      var host = "";
      try { host = new URL(a.href).hostname; } catch (e) { host = "?"; }
      var key = host + "|" + (a.getAttribute("target") || "-");
      if (seen[key]) return;
      seen[key] = 1;
      out.push(host + " target=" + (a.getAttribute("target") || "-") + " href=" + a.href.slice(0, 90));
    });
    inv("debug_report", { what: "links(" + as.length + ") " + (out.join(" ;; ") || "none") })
      .catch(function () {});
  }
  setInterval(tick, 4000);
  setTimeout(tick, 2500);
  setTimeout(probeLinks, 12000);

})();
"#);
    let lit = json_string_literal(css);
    lemma_json_literal_round_trip(css);
    let p = CSS_GLOBAL_PREFIX@;
    let e = STATEMENT_END@;
    let b = BRIDGE_JS@;
    let d = DEBUG_REPORTER_JS@;
    assert(d.len() > b.len() && d[0] == '\n' && d[1] == '(' && b[0] == '\n');
    assert(e == seq![';', '\n']);
    assert(has_no_line_feed(p));
    let base = p + lit + e + b;
    let script = spec_script(lit, with_debug_reporter);
    assert(spec_script(lit, false) =~= base);
    assert(spec_script(lit, true) =~= base + d);
    assert(script.subrange(p.len() as int, (p.len() + lit.len()) as int) =~= lit);
    let off = p.len() + lit.len() + e.len();
    assert(script.subrange(off as int, (off + b.len()) as int) =~= b);
    if with_debug_reporter {
        assert(script.subrange(base.len() as int, (base.len() + d.len()) as int) =~= d);
    } else {
        assert forall|i: int| 0 <= i && i + d.len() <= base.len() implies #[trigger] base.subrange(
            i,
            i + d.len(),
        ) != d by {
            if base.subrange(i, i + d.len()) == d {
                assert(base.subrange(i, i + d.len())[0] == base[i]);
                assert(base.subrange(i, i + d.len())[1] == base[i + 1]);
                if i < p.len() {
                    assert(base[i] == p[i]);
                } else if i < p.len() + lit.len() {
                    assert(base[i] == lit[i - p.len()]);
                } else if i == p.len() + lit.len() {
                    assert(base[i] == e[0]);
                } else if i == p.len() + lit.len() + 1 {
                    assert(base[i + 1] == b[0]);
                }
            }
        }
    }
}

} // verus!
