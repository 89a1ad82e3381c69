use vstd::prelude::*;

verus! {

/// What a yes/no popup made of one input event.
#[derive(Copy, Clone, Debug, PartialEq, Eq, Structural)]
pub enum ConfirmResult {
    Nothing,
    Cancel,
    Accept,
}

/// What an input popup made of one input event.
#[derive(Copy, Clone, Debug, PartialEq, Eq)]
pub enum InputResult<T> {
    Nothing,
    Cancel,
    Accept(T),
}

/// What a list or a table made of one input event.
#[derive(Copy, Clone, Debug, PartialEq, Eq, Structural)]
pub enum SelectResult {
    /// The event was not used.
    Nothing,
    /// The list was left backwards.
    Cancel,
    /// The selection tried to move above the first row.
    Up,
    /// The selection tried to move below the last row.
    Down,
    /// The selection moved or the view scrolled; the selection now.
    Select(Option<usize>),
    /// A row was activated.
    Accept(usize),
    /// The context menu of a row was asked for.
    ContextMenu(usize),
}

} // verus!

verus! {

impl SelectResult {
    /// What a menu does with a list's result: an activated row becomes
    /// whatever `f` makes of it, leaving the list goes back.
    pub fn to_control<M, F: FnOnce(usize) -> crate::ui::Control<M>>(self, f: F) -> (r: crate::ui::Control<
        M,
    >)
        requires
            self matches SelectResult::Accept(i) ==> f.requires((i,)),
        ensures
            self matches SelectResult::Accept(i) ==> f.ensures((i,), r),
            self is Cancel ==> r is Back,
            !(self is Accept) && !(self is Cancel) ==> r is Nothing,
    {
        match self {
            SelectResult::Accept(i) => f(i),
            SelectResult::Cancel => crate::ui::Control::Back,
            _ => crate::ui::Control::Nothing,
        }
    }
}

} // verus!
