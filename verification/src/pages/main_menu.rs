//! The main menu.

use crate::Page;
use vstd::prelude::*;

verus! {

/// One entry of the menu: what it says and where it leads.
#[derive(Debug, Clone, Copy, PartialEq, Eq)]
pub struct MenuEntry {
    pub label: &'static str,
    pub target: Page,
}

/// The screens that the menu leads to, from top to bottom.
pub open spec fn menu_targets() -> Seq<Page> {
    seq![Page::Registry, Page::ImageFind, Page::VideoFind, Page::WebcamFind, Page::SignIn]
}

/// Whether `entries` is the menu: one entry for each screen it leads to, in
/// order, under its own label.
pub open spec fn menu_shows(entries: Seq<MenuEntry>) -> bool {
    &&& entries.len() == menu_targets().len()
    &&& forall|i: int| 0 <= i < entries.len() ==> (#[trigger] entries[i]).target == menu_targets()[i]
    &&& entries[0].label@ == "1. Criminal Registry"@
    &&& entries[1].label@ == "2. Image Search / Recognition"@
    &&& entries[2].label@ == "3. Video Analytics / Tracking"@
    &&& entries[3].label@ == "4. Webcam Search"@
    &&& entries[4].label@ == "4. Operator Sign-In / Logs"@
}

/// The main menu. It has no state.
#[derive(Debug, Clone, Copy, PartialEq, Eq)]
pub struct MainMenu;

impl MainMenu {
    /// The entries of the menu, from top to bottom.
    pub fn view() -> (entries: Vec<MenuEntry>)
        ensures
            menu_shows(entries@),
    {
        let mut entries: Vec<MenuEntry> = Vec::new();
        entries.push(MenuEntry { label: "1. Criminal Registry", target: Page::Registry });
        entries.push(MenuEntry { label: "2. Image Search / Recognition", target: Page::ImageFind });
        entries.push(MenuEntry { label: "3. Video Analytics / Tracking", target: Page::VideoFind });
        entries.push(MenuEntry { label: "4. Webcam Search", target: Page::WebcamFind });
        entries.push(MenuEntry { label: "4. Operator Sign-In / Logs", target: Page::SignIn });
        entries
    }
}

} // verus!
