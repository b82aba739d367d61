use vstd::prelude::*;

use crate::text::{
    all_ascii_digits, decimal, decimal_string, decimal_value, lemma_decimal_roundtrip, push_decimal,
    str_equal,
};

verus! {

/// The application's shared state.
#[derive(Debug, Clone, Copy, PartialEq, Eq, Structural)]
pub struct AppState {
    /// The user asked to quit: closing the window must then exit.
    pub is_quitting: bool,
    /// The privacy blur is on.
    pub privacy_enabled: bool,
    /// The tray icon was created, so closing the window may hide it.
    pub tray_available: bool,
    /// The unread count last shown.
    pub unread: u32,
}

impl Default for AppState {
    fn default() -> (s: Self)
        ensures
            s == (AppState {
                is_quitting: false,
                privacy_enabled: false,
                tray_available: false,
                unread: 0,
            }),
    {
        AppState { is_quitting: false, privacy_enabled: false, tray_available: false, unread: 0 }
    }
}

/// What the window title, the tray tooltip and the tray title show for an unread count.
pub struct UnreadDisplay {
    /// The unread count to draw on the icons.
    pub count: u32,
    /// The window title.
    pub title: String,
    /// The tray tooltip.
    pub tooltip: String,
    /// The text next to the tray icon, where the desktop shows one: the count, or nothing.
    pub tray_title: Option<String>,
}

/// The window title for `count` unread chats.
pub open spec fn unread_title(count: nat) -> Seq<char> {
    if count == 0 {
        "WhatsApp Linux"@
    } else {
        "WhatsApp Linux ("@ + decimal(count) + " unread)"@
    }
}

/// The tray tooltip for `count` unread chats.
pub open spec fn unread_tooltip(count: nat) -> Seq<char> {
    if count == 0 {
        "WhatsApp Linux"@
    } else {
        "WhatsApp \u{2014} "@ + decimal(count) + " unread"@
    }
}

/// The tray title for `count` unread chats.
pub open spec fn unread_tray_title(count: nat) -> Option<Seq<char>> {
    if count == 0 {
        None
    } else {
        Some(decimal(count))
    }
}

/// `d` is what is shown for `count` unread chats.
pub open spec fn displays(d: UnreadDisplay, count: u32) -> bool {
    &&& d.count == count
    &&& d.title@ == unread_title(count as nat)
    &&& d.tooltip@ == unread_tooltip(count as nat)
    &&& match d.tray_title {
        Some(t) => unread_tray_title(count as nat) == Some(t@),
        None => unread_tray_title(count as nat) is None,
    }
}

/// The state after the privacy blur is switched.
pub open spec fn privacy_toggled(s: AppState) -> AppState {
    AppState { privacy_enabled: !s.privacy_enabled, ..s }
}

/// Closing the window hides it rather than exiting: the user did not ask to quit and the tray
/// icon can bring the window back.
pub open spec fn close_hides(s: AppState) -> bool {
    !s.is_quitting && s.tray_available
}

/// The window title, tray tooltip and tray title for `count` unread chats.
pub fn unread_display(count: u32) -> (d: UnreadDisplay)
    ensures
        displays(d, count),
{
    proof {
        reveal_strlit("WhatsApp Linux");
    }
    if count == 0 {
        return UnreadDisplay {
            count,
            title: String::from_str("WhatsApp Linux"),
            tooltip: String::from_str("WhatsApp Linux"),
            tray_title: None,
        };
    }
    let mut title = String::from_str("WhatsApp Linux (");
    push_decimal(&mut title, count);
    title.append(" unread)");
    let mut tooltip = String::from_str("WhatsApp \u{2014} ");
    push_decimal(&mut tooltip, count);
    tooltip.append(" unread");
    UnreadDisplay { count, title, tooltip, tray_title: Some(decimal_string(count)) }
}

/// What the tray menu item with identifier `id` does.
#[derive(Debug, Clone, Copy, PartialEq, Eq, Structural)]
pub enum MenuAction {
    ToggleWindow,
    TogglePrivacy,
    Quit,
}

/// The action of the tray menu item `id`; `None` for an identifier that is not the library's.
pub open spec fn menu_action_spec(id: Seq<char>) -> Option<MenuAction> {
    if id == "toggle-window"@ {
        Some(MenuAction::ToggleWindow)
    } else if id == "toggle-privacy"@ {
        Some(MenuAction::TogglePrivacy)
    } else if id == "quit"@ {
        Some(MenuAction::Quit)
    } else {
        None
    }
}

/// The identifier of the tray menu item that shows or hides the window.
pub const MENU_TOGGLE: &'static str = "toggle-window";

/// The identifier of the tray menu item that switches the privacy blur.
pub const MENU_PRIVACY: &'static str = "toggle-privacy";

/// The identifier of the tray menu item that quits.
pub const MENU_QUIT: &'static str = "quit";

/// The action of the tray menu item `id`.
pub fn menu_action(id: &str) -> (res: Option<MenuAction>)
    ensures
        res == menu_action_spec(id@),
{
    if str_equal(id, MENU_TOGGLE) {
        Some(MenuAction::ToggleWindow)
    } else if str_equal(id, MENU_PRIVACY) {
        Some(MenuAction::TogglePrivacy)
    } else if str_equal(id, MENU_QUIT) {
        Some(MenuAction::Quit)
    } else {
        None
    }
}

/// What toggling the main window does.
#[derive(Debug, Clone, Copy, PartialEq, Eq, Structural)]
pub enum WindowAction {
    Hide,
    Show,
}

/// Toggling hides a visible window and shows (restores and focuses) any other.
pub fn toggle_window_action(is_visible: bool) -> (res: WindowAction)
    ensures
        res == (if is_visible {
            WindowAction::Hide
        } else {
            WindowAction::Show
        }),
{
    if is_visible {
        WindowAction::Hide
    } else {
        WindowAction::Show
    }
}

/// The command-line flag that asks for the Chromium user agent.
pub const CHROMIUM_USER_AGENT_FLAG: &'static str = "--chromium-user-agent";

/// The user agent sent in place of WebKit's own when the command line asks for it.
pub const CHROMIUM_USER_AGENT: &'static str = "Mozilla/5.0 (X11; Linux x86_64) AppleWebKit/537.36 (KHTML, like Gecko) Chrome/131.0.0.0 Safari/537.36";

/// Whether one of the command-line arguments `args` is `--chromium-user-agent`.
pub fn wants_chromium_user_agent(args: &Vec<String>) -> (res: bool)
    ensures
        res == exists|i: int| 0 <= i < args@.len() && #[trigger] args@[i]@ == "--chromium-user-agent"@,
{
    let mut i: usize = 0;
    while i < args.len()
        invariant
            i <= args@.len(),
            forall|j: int| 0 <= j < i ==> #[trigger] args@[j]@ != "--chromium-user-agent"@,
        decreases args@.len() - i,
    {
        if str_equal(args[i].as_str(), CHROMIUM_USER_AGENT_FLAG) {
            return true;
        }
        i = i + 1;
    }
    false
}

/// The GStreamer plugin directory of the host system.
pub const HOST_GST_PLUGIN_PATH: &'static str = "/usr/lib/gstreamer-1.0";

/// The value to give `GST_PLUGIN_PATH` at start-up: the host's plugin directory when the
/// variable is unset, and nothing (the user's own setting stays) when it is set.
pub fn configure_linux_runtime(gst_plugin_path_is_set: bool) -> (res: Option<&'static str>)
    ensures
        res is Some <==> !gst_plugin_path_is_set,
        res matches Some(p) ==> p@ == "/usr/lib/gstreamer-1.0"@,
{
    if gst_plugin_path_is_set {
        None
    } else {
        Some(HOST_GST_PLUGIN_PATH)
    }
}

impl AppState {
    /// Records that the tray icon was created.
    pub fn set_tray_available(&mut self)
        ensures
            *final(self) == (AppState { tray_available: true, ..*old(self) }),
    {
        self.tray_available = true;
    }

    /// Records that the user asked to quit.
    pub fn begin_quit(&mut self)
        ensures
            *final(self) == (AppState { is_quitting: true, ..*old(self) }),
    {
        self.is_quitting = true;
    }

    /// Whether closing the window should hide it instead of exiting.
    pub fn close_hides_window(&self) -> (res: bool)
        ensures
            res == close_hides(*self),
    {
        !self.is_quitting && self.tray_available
    }

    /// Switches the privacy blur and returns whether it is now on.
    pub fn toggle_privacy(&mut self) -> (enabled: bool)
        ensures
            *final(self) == privacy_toggled(*old(self)),
            enabled == final(self).privacy_enabled,
    {
        self.privacy_enabled = !self.privacy_enabled;
        self.privacy_enabled
    }

    /// Records `count` as the unread count; returns what to show for it, or `None` where it
    /// is the count already shown.
    pub fn update_unread(&mut self, count: u32) -> (res: Option<UnreadDisplay>)
        ensures
            *final(self) == (AppState { unread: count, ..*old(self) }),
            res is None <==> old(self).unread == count,
            res matches Some(d) ==> displays(d, count),
    {
        let previous = self.unread;
        self.unread = count;
        if previous == count {
            None
        } else {
            Some(unread_display(count))
        }
    }
}

/// Switching the privacy blur twice leaves the state as it was.
pub proof fn law_privacy_toggle_is_an_involution(s: AppState)
    ensures
        privacy_toggled(privacy_toggled(s)) == s,
        privacy_toggled(s).privacy_enabled != s.privacy_enabled,
{
}

/// Once the user asks to quit, closing the window exits, whatever else the state holds.
pub proof fn law_quitting_closes(s: AppState)
    ensures
        !close_hides(AppState { is_quitting: true, ..s }),
        !s.tray_available ==> !close_hides(s),
{
}

/// The window title and tray tooltip for zero unread chats are the plain application name,
/// and every other count shows up in both.
pub proof fn law_zero_resets_title(count: nat)
    ensures
        count == 0 ==> unread_title(count) == "WhatsApp Linux"@ && unread_tooltip(count)
            == "WhatsApp Linux"@ && unread_tray_title(count) is None,
        count > 0 ==> unread_title(count) != unread_title(0),
{
    reveal_strlit("WhatsApp Linux");
    reveal_strlit("WhatsApp Linux (");
    reveal_strlit(" unread)");
    if count > 0 {
        crate::text::lemma_decimal_roundtrip(count);
        assert(unread_title(count).len() > unread_title(0).len());
    }
}

/// For every count above zero the window title and the tray tooltip carry the count in
/// decimal between their fixed text: the title is `WhatsApp Linux (` + count + ` unread)` and
/// the tooltip `WhatsApp \u{2014} ` + count + ` unread`, with digits that read back as the count.
pub proof fn law_unread_texts_carry_the_count(count: nat)
    requires
        count > 0,
    ensures
        unread_title(count).subrange(0, 16) == "WhatsApp Linux ("@,
        unread_title(count).subrange(unread_title(count).len() - 8, unread_title(count).len() as int)
            == " unread)"@,
        all_ascii_digits(unread_title(count).subrange(16, unread_title(count).len() - 8)),
        decimal_value(unread_title(count).subrange(16, unread_title(count).len() - 8)) == count,
        unread_tooltip(count).subrange(0, 11) == "WhatsApp \u{2014} "@,
        unread_tooltip(count).subrange(
            unread_tooltip(count).len() - 7,
            unread_tooltip(count).len() as int,
        ) == " unread"@,
        all_ascii_digits(unread_tooltip(count).subrange(11, unread_tooltip(count).len() - 7)),
        decimal_value(unread_tooltip(count).subrange(11, unread_tooltip(count).len() - 7))
            == count,
        unread_tray_title(count) == Some(decimal(count)),
{
    reveal_strlit("WhatsApp Linux (");
    reveal_strlit(" unread)");
    reveal_strlit("WhatsApp \u{2014} ");
    reveal_strlit(" unread");
    lemma_decimal_roundtrip(count);
    let d = decimal(count);
    let t = unread_title(count);
    assert(t.subrange(0, 16) =~= "WhatsApp Linux ("@);
    assert(t.subrange(t.len() - 8, t.len() as int) =~= " unread)"@);
    assert(t.subrange(16, t.len() - 8) =~= d);
    let p = unread_tooltip(count);
    assert(p.subrange(0, 11) =~= "WhatsApp \u{2014} "@);
    assert(p.subrange(p.len() - 7, p.len() as int) =~= " unread"@);
    assert(p.subrange(11, p.len() - 7) =~= d);
}

/// Different unread counts never share a window title, a tray tooltip or a tray title; in
/// particular no count above zero looks like zero.
pub proof fn law_unread_texts_tell_counts_apart(n: nat, m: nat)
    requires
        n != m,
    ensures
        unread_title(n) != unread_title(m),
        unread_tooltip(n) != unread_tooltip(m),
        unread_tray_title(n) != unread_tray_title(m),
{
    reveal_strlit("WhatsApp Linux");
    reveal_strlit("WhatsApp Linux (");
    reveal_strlit(" unread)");
    reveal_strlit("WhatsApp \u{2014} ");
    reveal_strlit(" unread");
    lemma_decimal_roundtrip(n);
    lemma_decimal_roundtrip(m);
    if n > 0 && m > 0 {
        law_unread_texts_carry_the_count(n);
        law_unread_texts_carry_the_count(m);
    } else if n > 0 {
        assert(unread_title(n).len() > unread_title(m).len());
        assert(unread_tooltip(n).len() > unread_tooltip(m).len());
    } else {
        assert(unread_title(m).len() > unread_title(n).len());
        assert(unread_tooltip(m).len() > unread_tooltip(n).len());
    }
}

} // verus!
