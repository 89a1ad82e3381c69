use vstd::prelude::*;

verus! {

/// The feedback sounds that accompany a change of focus or of menu.
///
/// The host decides which sample is played for each of them.
#[derive(Copy, Clone, Debug, PartialEq, Eq, Structural)]
pub enum Sound {
    /// The highlighted entry changed without being chosen.
    SelectChanged,
    /// An entry was chosen.
    SelectItem,
    /// Another menu became the visible one.
    SwitchMenu,
    /// A request was refused or a popup answered "no".
    Deny,
    /// An edit was cancelled.
    Cancel,
    /// An edit was confirmed.
    Confirm,
    /// Focus moved to the previous region or entry.
    SelectPrev,
    /// Focus moved to the next region or entry.
    SelectNext,
}

} // verus!
