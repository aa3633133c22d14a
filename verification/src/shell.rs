//! Small decisions of the desktop shell: start page, user agent, menu commands, dock badge.
use vstd::prelude::*;
use crate::text::str_eq;

verus! {

/// facebook.com/messages rather than messenger.com: messenger.com keeps a separate
/// session whose sign-in handoff is broken, while this page works with the
/// ordinary Facebook session.
pub const MESSENGER_URL: &'static str = "https://www.facebook.com/messages";

/// A plain macOS Safari identity: the engine really is WebKit, and Facebook
/// refuses the bare WKWebView user agent as an unsupported browser.
pub const USER_AGENT: &'static str = "Mozilla/5.0 (Macintosh; Intel Mac OS X 10_15_7) AppleWebKit/605.1.15 (KHTML, like Gecko) Version/26.6 Safari/605.1.15";

pub open spec fn text_or(o: Option<String>, default: Seq<char>) -> Seq<char> {
    match o {
        Some(s) => s@,
        None => default,
    }
}

/// The start page: the override (the `MESSENGER_URL` environment variable, when
/// set) or facebook.com/messages.
pub fn start_url(override_value: Option<String>) -> (r: String)
    ensures
        r@ == text_or(override_value, MESSENGER_URL@),
        override_value matches Some(s) ==> r@ == s@,
        override_value is None ==> r@ == MESSENGER_URL@,
{
    match override_value {
        Some(s) => s,
        None => String::from_str(MESSENGER_URL),
    }
}

/// The user agent: the override (the `MESSENGER_UA` environment variable, when
/// set) or the Safari identity.
pub fn user_agent(override_value: Option<String>) -> (r: String)
    ensures
        r@ == text_or(override_value, USER_AGENT@),
        override_value matches Some(s) ==> r@ == s@,
        override_value is None ==> r@ == USER_AGENT@,
{
    match override_value {
        Some(s) => s,
        None => String::from_str(USER_AGENT),
    }
}

/// Zoom commands of the View menu.
#[derive(Debug, Clone, Copy, PartialEq, Eq, Structural)]
pub enum ZoomCommand {
    /// Cmd+= : one step larger.
    In,
    /// Cmd+- : one step smaller.
    Out,
    /// Cmd+0 : back to 100%.
    Reset,
}

pub open spec fn spec_menu_command(id: Seq<char>) -> Option<ZoomCommand> {
    if id == "zoom_in"@ {
        Some(ZoomCommand::In)
    } else if id == "zoom_out"@ {
        Some(ZoomCommand::Out)
    } else if id == "zoom_reset"@ {
        Some(ZoomCommand::Reset)
    } else {
        None
    }
}

/// The zoom command behind a menu item id; other menu items carry none.
pub fn menu_command(id: &str) -> (r: Option<ZoomCommand>)
    ensures
        r == spec_menu_command(id@),
{
    if str_eq(id, "zoom_in") {
        Some(ZoomCommand::In)
    } else if str_eq(id, "zoom_out") {
        Some(ZoomCommand::Out)
    } else if str_eq(id, "zoom_reset") {
        Some(ZoomCommand::Reset)
    } else {
        None
    }
}

/// The dock badge for an unread count: the count when positive; no badge for
/// zero or less.
pub fn badge_count(count: i64) -> (r: Option<i64>)
    ensures
        r == (if count > 0 { Some(count) } else { None::<i64> }),
{
    if count > 0 {
        Some(count)
    } else {
        None
    }
}

/// An override always wins, whatever text it holds; without one the default stands.
pub proof fn lemma_override_wins(s: String, default: Seq<char>)
    ensures
        text_or(Some(s), default) == s@,
        text_or(None, default) == default,
{
}

/// Each View-menu item id maps to its own zoom command, and no other id maps to one.
pub proof fn lemma_menu_ids(id: Seq<char>)
    ensures
        spec_menu_command(id) == Some(ZoomCommand::In) <==> id == "zoom_in"@,
        spec_menu_command(id) == Some(ZoomCommand::Out) <==> id == "zoom_out"@,
        spec_menu_command(id) == Some(ZoomCommand::Reset) <==> id == "zoom_reset"@,
{
    reveal_strlit("zoom_in");
    reveal_strlit("zoom_out");
    reveal_strlit("zoom_reset");
    assert("zoom_in"@.len() == 7 && "zoom_out"@.len() == 8 && "zoom_reset"@.len() == 10);
}

} // verus!
