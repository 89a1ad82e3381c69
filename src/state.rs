use vstd::prelude::*;

use crate::sound::Sound;

verus! {

/// Which region of a screen owns input, changed only together with the
/// feedback sound that says why it changed.
#[derive(Copy, Clone, Default, PartialEq, Eq)]
pub struct State<T> {
    focus: T,
}

impl<T> State<T> {
    /// The focus held.
    pub closed spec fn view(&self) -> T {
        self.focus
    }

    pub fn new(focus: T) -> (r: Self)
        ensures
            r@ == focus,
    {
        State { focus }
    }

    pub fn focus(&self) -> (r: &T)
        ensures
            *r == self@,
    {
        &self.focus
    }

    /// Changes the focus silently.
    pub fn set(&mut self, focus: T)
        ensures
            final(self)@ == focus,
    {
        self.focus = focus;
    }

    /// Returns to the default focus silently.
    pub fn reset(&mut self)
        where
            T: Default,
        ensures
            call_ensures(T::default, (), final(self)@),
    {
        self.set(T::default())
    }
    /// Moves focus on after a confirmed choice.
    pub fn confirm(&mut self, focus: T) -> (s: Sound)
        ensures
            final(self)@ == focus,
            s == Sound::Confirm,
    {
        self.set(focus);
        Sound::Confirm
    }

    /// Returns to the default focus after a confirmed choice.
    pub fn confirm_default(&mut self) -> (s: Sound)
        where
            T: Default,
        ensures
            call_ensures(T::default, (), final(self)@),
            s == Sound::Confirm,
    {
        self.confirm(T::default())
    }

    /// Moves focus on after a refusal.
    pub fn deny(&mut self, focus: T) -> (s: Sound)
        ensures
            final(self)@ == focus,
            s == Sound::Deny,
    {
        self.set(focus);
        Sound::Deny
    }

    /// Returns to the default focus after a refusal.
    pub fn deny_default(&mut self) -> (s: Sound)
        where
            T: Default,
        ensures
            call_ensures(T::default, (), final(self)@),
            s == Sound::Deny,
    {
        self.deny(T::default())
    }

    /// Moves focus to a region that was chosen.
    pub fn select(&mut self, focus: T) -> (s: Sound)
        ensures
            final(self)@ == focus,
            s == Sound::SelectItem,
    {
        self.set(focus);
        Sound::SelectItem
    }

    /// Moves focus on after an edit was cancelled.
    pub fn cancel(&mut self, focus: T) -> (s: Sound)
        ensures
            final(self)@ == focus,
            s == Sound::Cancel,
    {
        self.set(focus);
        Sound::Cancel
    }

    /// Returns to the default focus after an edit was cancelled.
    pub fn cancel_default(&mut self) -> (s: Sound)
        where
            T: Default,
        ensures
            call_ensures(T::default, (), final(self)@),
            s == Sound::Cancel,
    {
        self.cancel(T::default())
    }

    /// Moves focus to the previous region.
    pub fn prev(&mut self, focus: T) -> (s: Sound)
        ensures
            final(self)@ == focus,
            s == Sound::SelectPrev,
    {
        self.set(focus);
        Sound::SelectPrev
    }

    /// Moves focus to the next region.
    pub fn next(&mut self, focus: T) -> (s: Sound)
        ensures
            final(self)@ == focus,
            s == Sound::SelectNext,
    {
        self.set(focus);
        Sound::SelectNext
    }
}

} // verus!
