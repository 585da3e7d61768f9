use vstd::prelude::*;

use crate::gui::settings_panel::SettingsPanel;

verus! {

/// The menu bar; it owns the settings form it opens.
pub struct MenuBar {
    pub settings_panel: SettingsPanel,
}

impl MenuBar {
    /// A menu bar with a fresh settings form.
    pub fn new() -> (r: Self) {
        MenuBar { settings_panel: SettingsPanel::new() }
    }
}

impl Default for MenuBar {
    /// The same menu bar `new` builds.
    fn default() -> (r: Self) {
        MenuBar::new()
    }
}

} // verus!
