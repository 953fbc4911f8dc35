use vstd::prelude::*;

verus! {

/// What one part of the interface asks of another.
pub enum Event {
    /// Open (`opened == true`) or close the settings window.
    ToggleSettingsWindow { opened: bool },
    /// Ask for new paystubs to be scanned.
    ImportPaystubs,
}

} // verus!
