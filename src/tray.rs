//! The tray event router: turns tray input into presentation work, outbound
//! notifications or process exit.
use vstd::prelude::*;
use crate::dispatcher::UiTask;
use crate::presentation::{ButtonState, MouseButton};

verus! {

/// One unit of tray input.
pub enum TraySignal {
    /// A click on the tray icon.
    Click(MouseButton, ButtonState),
    /// Selection of the menu item with this id.
    MenuSelect(String),
}

/// A named event with a fixed string payload, for listeners outside the core.
pub struct Notification {
    pub channel: String,
    pub payload: String,
}

/// What the application does in response to one tray signal.
pub enum TrayAction {
    /// Terminate the process with this exit code.
    Quit(i32),
    /// Publish a notification.
    Emit(Notification),
    /// Hand this work to the UI thread.
    Present(UiTask),
    /// Nothing.
    Ignore,
}

/// The menu item that ends the process.
pub open spec fn is_quit_id(id: Seq<char>) -> bool {
    id == "quit"@
}

/// Channel and payload emitted for a theme or accent menu item, if `id` is one.
pub open spec fn menu_notification(id: Seq<char>) -> Option<(Seq<char>, Seq<char>)> {
    if id == "theme_system"@ {
        Some(("settings://theme"@, "system"@))
    } else if id == "theme_light"@ {
        Some(("settings://theme"@, "light"@))
    } else if id == "theme_dark"@ {
        Some(("settings://theme"@, "dark"@))
    } else if id == "accent_pink"@ {
        Some(("settings://accent"@, "#d4a5c1"@))
    } else if id == "accent_purple"@ {
        Some(("settings://accent"@, "#8e44ad"@))
    } else if id == "accent_blue"@ {
        Some(("settings://accent"@, "#2d7ff9"@))
    } else if id == "accent_gray"@ {
        Some(("settings://accent"@, "#4b4b4b"@))
    } else {
        None
    }
}

/// Whether two strings hold the same characters.
pub fn same_text(a: &str, b: &str) -> (r: bool)
    ensures
        r == (a@ == b@),
{
    let n = a.unicode_len();
    if n != b.unicode_len() {
        return false;
    }
    let mut i: usize = 0;
    while i < n
        invariant
            n == a@.len(),
            n == b@.len(),
            i <= n,
            a@.subrange(0, i as int) == b@.subrange(0, i as int),
        decreases n - i,
    {
        if a.get_char(i) != b.get_char(i) {
            return false;
        }
        proof {
            assert(a@.subrange(0, i + 1) == a@.subrange(0, i as int).push(a@[i as int]));
            assert(b@.subrange(0, i + 1) == b@.subrange(0, i as int).push(b@[i as int]));
        }
        i = i + 1;
    }
    proof {
        assert(a@.subrange(0, n as int) == a@);
        assert(b@.subrange(0, n as int) == b@);
    }
    true
}

fn notify(channel: &str, payload: &str) -> (r: TrayAction)
    ensures
        r matches TrayAction::Emit(n) && n.channel@ == channel@ && n.payload@ == payload@,
{
    TrayAction::Emit(
        Notification { channel: String::from_str(channel), payload: String::from_str(payload) },
    )
}

/// What selecting the menu item `id` does: `quit` ends the process with code
/// 0, a theme or accent item emits its notification, any other id does nothing.
pub fn route_menu(id: &str) -> (r: TrayAction)
    ensures
        is_quit_id(id@) ==> r == TrayAction::Quit(0),
        menu_notification(id@) matches Some(cp) ==> r matches TrayAction::Emit(n) && n.channel@
            == cp.0 && n.payload@ == cp.1,
        !is_quit_id(id@) && menu_notification(id@) is None ==> r is Ignore,
{
    if same_text(id, "quit") {
        proof {
            reveal_strlit("quit");
            reveal_strlit("theme_system");
            reveal_strlit("theme_light");
            reveal_strlit("theme_dark");
            reveal_strlit("accent_pink");
            reveal_strlit("accent_purple");
            reveal_strlit("accent_blue");
            reveal_strlit("accent_gray");
            assert("quit"@.len() == 4);
            assert(id@ != "theme_system"@ && id@ != "theme_light"@ && id@ != "theme_dark"@);
            assert(id@ != "accent_pink"@ && id@ != "accent_purple"@ && id@ != "accent_blue"@);
            assert(id@ != "accent_gray"@);
        }
        TrayAction::Quit(0)
    } else if same_text(id, "theme_system") {
        notify("settings://theme", "system")
    } else if same_text(id, "theme_light") {
        notify("settings://theme", "light")
    } else if same_text(id, "theme_dark") {
        notify("settings://theme", "dark")
    } else if same_text(id, "accent_pink") {
        notify("settings://accent", "#d4a5c1")
    } else if same_text(id, "accent_purple") {
        notify("settings://accent", "#8e44ad")
    } else if same_text(id, "accent_blue") {
        notify("settings://accent", "#2d7ff9")
    } else if same_text(id, "accent_gray") {
        notify("settings://accent", "#4b4b4b")
    } else {
        TrayAction::Ignore
    }
}

/// What one tray signal does: a click is forwarded to the presentation state
/// machine, a menu selection is routed by its id.
pub fn route(signal: &TraySignal) -> (r: TrayAction)
    ensures
        *signal matches TraySignal::Click(b, s) ==> r == TrayAction::Present(UiTask::Click(b, s)),
        *signal matches TraySignal::MenuSelect(id) ==> {
            &&& is_quit_id(id@) ==> r == TrayAction::Quit(0)
            &&& menu_notification(id@) matches Some(cp) ==> r matches TrayAction::Emit(n)
                && n.channel@ == cp.0 && n.payload@ == cp.1
            &&& !is_quit_id(id@) && menu_notification(id@) is None ==> r is Ignore
        },
{
    match signal {
        TraySignal::Click(b, s) => TrayAction::Present(UiTask::Click(*b, *s)),
        TraySignal::MenuSelect(id) => route_menu(id.as_str()),
    }
}

/// A static tray menu item.
pub struct TrayMenuItem {
    pub id: String,
    pub label: String,
    pub enabled: bool,
}

/// One line of the tray menu.
pub enum MenuEntry {
    Item(TrayMenuItem),
    Separator,
}

/// Id, label and whether enabled, of an item; `None` for a separator.
pub open spec fn entry_view(e: MenuEntry) -> Option<(Seq<char>, Seq<char>, bool)> {
    match e {
        MenuEntry::Item(i) => Some((i.id@, i.label@, i.enabled)),
        MenuEntry::Separator => None,
    }
}

/// The tray menu, top to bottom: the disabled version line, the three theme
/// items, the four accent items and quit, in groups set apart by separators.
pub open spec fn menu_layout(version: Seq<char>) -> Seq<Option<(Seq<char>, Seq<char>, bool)>> {
    seq![
        Some(("version"@, "Version "@ + version, false)),
        None,
        Some(("theme_system"@, "Theme: System"@, true)),
        Some(("theme_light"@, "Theme: Light"@, true)),
        Some(("theme_dark"@, "Theme: Dark"@, true)),
        None,
        Some(("accent_pink"@, "Accent: Pink"@, true)),
        Some(("accent_purple"@, "Accent: Purple"@, true)),
        Some(("accent_blue"@, "Accent: Blue"@, true)),
        Some(("accent_gray"@, "Accent: Gray"@, true)),
        None,
        Some(("quit"@, "Quit"@, true)),
    ]
}

fn menu_item(id: &str, label: String, enabled: bool) -> (r: MenuEntry)
    ensures
        entry_view(r) == Some((id@, label@, enabled)),
{
    MenuEntry::Item(TrayMenuItem { id: String::from_str(id), label, enabled })
}

/// The tray menu for an application of the given version.
pub fn menu_entries(version: &str) -> (r: Vec<MenuEntry>)
    ensures
        r@.map_values(|e: MenuEntry| entry_view(e)) == menu_layout(version@),
{
    let mut r: Vec<MenuEntry> = Vec::new();
    r.push(menu_item("version", String::from_str("Version ").concat(version), false));
    r.push(MenuEntry::Separator);
    r.push(menu_item("theme_system", String::from_str("Theme: System"), true));
    r.push(menu_item("theme_light", String::from_str("Theme: Light"), true));
    r.push(menu_item("theme_dark", String::from_str("Theme: Dark"), true));
    r.push(MenuEntry::Separator);
    r.push(menu_item("accent_pink", String::from_str("Accent: Pink"), true));
    r.push(menu_item("accent_purple", String::from_str("Accent: Purple"), true));
    r.push(menu_item("accent_blue", String::from_str("Accent: Blue"), true));
    r.push(menu_item("accent_gray", String::from_str("Accent: Gray"), true));
    r.push(MenuEntry::Separator);
    r.push(menu_item("quit", String::from_str("Quit"), true));
    assert(r@.map_values(|e: MenuEntry| entry_view(e)) =~= menu_layout(version@));
    r
}

} // verus!
