use vstd::prelude::*;

verus! {

/// The settings form; its state lives entirely in the `AppSettings` value
/// it edits, so the panel itself carries nothing.
pub struct SettingsPanel {}

impl SettingsPanel {
    /// A fresh settings form.
    pub fn new() -> (r: Self) {
        SettingsPanel {  }
    }
}

} // verus!
