//! The tray menu builder: the static menu attached to the system tray icon
//! (Show, Hide, a separator, Quit — in that order), and the mapping between
//! menu items and the id strings under which the host reports clicks.

use vstd::prelude::*;
use vstd::string::*;
use crate::lifecycle::TrayMenuId;
use crate::text::str_eq;

verus! {

/// One entry of the tray menu: a clickable item with an id and a label, or
/// a separator line.
#[derive(Debug, PartialEq, Eq)]
pub enum TrayMenuEntry {
    Item { id: TrayMenuId, label: String },
    Separator,
}

/// The tray icon's menu. It is built once at startup and never changes for
/// the lifetime of the process.
#[derive(Debug, PartialEq, Eq)]
pub struct SystemTrayMenu {
    pub entries: Vec<TrayMenuEntry>,
}

/// The id string under which each menu item is registered with the host.
pub open spec fn spec_menu_id_str(id: TrayMenuId) -> Seq<char> {
    match id {
        TrayMenuId::Show => "show"@,
        TrayMenuId::Hide => "hide"@,
        TrayMenuId::Quit => "quit"@,
        TrayMenuId::Other => ""@,
    }
}

/// The id string of a menu item, for registering it with the host.
pub fn menu_id_str(id: TrayMenuId) -> (r: String)
    ensures
        r@ == spec_menu_id_str(id),
{
    match id {
        TrayMenuId::Show => String::from_str("show"),
        TrayMenuId::Hide => String::from_str("hide"),
        TrayMenuId::Quit => String::from_str("quit"),
        TrayMenuId::Other => String::from_str(""),
    }
}

/// The menu item a reported id string names; ids outside the fixed menu
/// map to `Other`, which the controller ignores.
pub open spec fn spec_parse_menu_id(s: Seq<char>) -> TrayMenuId {
    if s == "quit"@ {
        TrayMenuId::Quit
    } else if s == "show"@ {
        TrayMenuId::Show
    } else if s == "hide"@ {
        TrayMenuId::Hide
    } else {
        TrayMenuId::Other
    }
}

/// Maps a menu id string reported by the host back to the menu item it
/// names.
pub fn parse_menu_id(s: &str) -> (r: TrayMenuId)
    ensures
        r == spec_parse_menu_id(s@),
{
    if str_eq(s, "quit") {
        TrayMenuId::Quit
    } else if str_eq(s, "show") {
        TrayMenuId::Show
    } else if str_eq(s, "hide") {
        TrayMenuId::Hide
    } else {
        TrayMenuId::Other
    }
}

/// The fixed shape of the tray menu: show, hide, a separator and quit, in
/// that order, with the application's labels.
pub open spec fn spec_tray_menu_wf(t: SystemTrayMenu) -> bool {
    &&& t.entries@.len() == 4
    &&& (t.entries@[0] matches TrayMenuEntry::Item { id, label } && id == TrayMenuId::Show
        && label@ == "Show Axie Studio"@)
    &&& (t.entries@[1] matches TrayMenuEntry::Item { id, label } && id == TrayMenuId::Hide
        && label@ == "Hide Axie Studio"@)
    &&& t.entries@[2] is Separator
    &&& (t.entries@[3] matches TrayMenuEntry::Item { id, label } && id == TrayMenuId::Quit
        && label@ == "Quit Axie Studio"@)
}

/// Builds the static tray menu. Pure construction from static strings; it
/// cannot fail, and the result always has the fixed shape.
pub fn create_system_tray() -> (t: SystemTrayMenu)
    ensures
        spec_tray_menu_wf(t),
{
    let show = TrayMenuEntry::Item {
        id: TrayMenuId::Show,
        label: String::from_str("Show Axie Studio"),
    };
    let hidden = TrayMenuEntry::Item {
        id: TrayMenuId::Hide,
        label: String::from_str("Hide Axie Studio"),
    };
    let quit = TrayMenuEntry::Item {
        id: TrayMenuId::Quit,
        label: String::from_str("Quit Axie Studio"),
    };
    let mut entries: Vec<TrayMenuEntry> = Vec::new();
    entries.push(show);
    entries.push(hidden);
    entries.push(TrayMenuEntry::Separator);
    entries.push(quit);
    SystemTrayMenu { entries }
}

} // verus!
