use vstd::prelude::*;

use crate::geometry::Rect;
use crate::input::{Key, KeyEvent};
use crate::input_field::{edit, Input};
use crate::pointer::Pointer;
use crate::sound::Sound;
use crate::state::State;
use crate::widgets::{ConfirmResult, InputResult};

verus! {

/// The button of an input popup that has focus.
#[derive(Copy, Clone, Debug, PartialEq, Eq, Structural)]
pub enum InputFocus {
    Cancel,
    Yes,
}

impl Default for InputFocus {
    fn default() -> (r: Self)
        ensures
            r == InputFocus::Yes,
    {
        InputFocus::Yes
    }
}

/// A question answered with a line of text.
pub struct InputPopup {
    state: State<InputFocus>,
    title: String,
    input: Input,
    /// Where the cancel button was last drawn.
    pub cancel_area: Rect,
    /// Where the yes button was last drawn.
    pub yes_area: Rect,
    sound: Option<Sound>,
}

impl InputPopup {
    pub closed spec fn spec_focus(&self) -> InputFocus {
        self.state@
    }

    pub closed spec fn spec_input(&self) -> Input {
        self.input
    }

    pub closed spec fn spec_cancel_area(&self) -> Rect {
        self.cancel_area
    }

    pub closed spec fn spec_yes_area(&self) -> Rect {
        self.yes_area
    }

    pub closed spec fn spec_sound(&self) -> Option<Sound> {
        self.sound
    }

    pub open spec fn wf(&self) -> bool {
        self.spec_input().wf()
    }

    /// A popup asking `title`, answered in `input`, focus on "yes".
    pub fn new(title: String, input: Input) -> (r: Self)
        requires
            input.wf(),
        ensures
            r.wf(),
            r.spec_focus() == InputFocus::Yes,
            r.spec_input() == input,
    {
        InputPopup {
            state: State::new(InputFocus::Yes),
            title,
            input,
            cancel_area: Rect { x: 0, y: 0, width: 0, height: 0 },
            yes_area: Rect { x: 0, y: 0, width: 0, height: 0 },
            sound: None,
        }
    }

    pub fn new_text(title: String) -> (r: Self)
        ensures
            r.wf(),
            !r.spec_input().spec_password(),
    {
        Self::new(title, Input::new())
    }

    pub fn new_password(title: String) -> (r: Self)
        ensures
            r.wf(),
            r.spec_input().spec_password(),
    {
        Self::new(title, Input::password())
    }

    pub fn title(&self) -> (r: &str) {
        self.title.as_str()
    }

    pub fn input(&self) -> (r: &Input)
        ensures
            *r == self.spec_input(),
    {
        &self.input
    }

    pub fn focus(&self) -> (r: InputFocus)
        ensures
            r == self.spec_focus(),
    {
        *self.state.focus()
    }

    pub fn clear(&mut self)
        ensures
            final(self).wf(),
            final(self).spec_input().spec_text().len() == 0,
            final(self).spec_focus() == old(self).spec_focus(),
    {
        self.input.clear();
    }

    /// Takes the sound that the last event asked for.
    pub fn take_sound(&mut self) -> (r: Option<Sound>)
        ensures
            r == old(self).spec_sound(),
            final(self).spec_sound() is None,
            final(self).spec_focus() == old(self).spec_focus(),
            final(self).spec_input() == old(self).spec_input(),
    {
        let r = self.sound;
        self.sound = None;
        r
    }

    /// Tab moves between the buttons, a click on a button answers, and the
    /// rest edits the text: Enter answers as the focused button says,
    /// Escape cancels.
    pub fn key_event(&mut self, backend: &Pointer, event: KeyEvent) -> (r: InputResult<String>)
        requires
            old(self).wf(),
        ensures
            final(self).wf(),
            event.spec_key() == Key::Tab ==> {
                &&& r is Nothing
                &&& final(self).spec_focus() == (if old(self).spec_focus() == InputFocus::Cancel {
                    InputFocus::Yes
                } else {
                    InputFocus::Cancel
                })
                &&& final(self).spec_sound() == Some(Sound::SelectItem)
            },
            event.spec_key() == Key::Mouse(0) ==> {
                let cursor = backend.spec_cursor();
                &&& old(self).spec_cancel_area().spec_contains(cursor) ==> r is Cancel
                    && final(self).spec_focus() == InputFocus::Yes
                &&& !old(self).spec_cancel_area().spec_contains(cursor)
                    && old(self).spec_yes_area().spec_contains(cursor) ==> (r matches InputResult::Accept(
                    s,
                ) && s@ == old(self).spec_input().spec_text()) && final(self).spec_focus() == InputFocus::Yes
                &&& !old(self).spec_cancel_area().spec_contains(cursor)
                    && !old(self).spec_yes_area().spec_contains(cursor) ==> r is Nothing
            },
            event.spec_key() != Key::Tab && event.spec_key() != Key::Mouse(0) ==> {
                let (text, cursor, answer) = edit(
                    old(self).spec_input().spec_text(),
                    old(self).spec_input().spec_cursor() as int,
                    event,
                );
                &&& final(self).spec_input().spec_text() == text
                &&& final(self).spec_focus() == old(self).spec_focus()
                &&& answer == ConfirmResult::Accept && old(self).spec_focus() == InputFocus::Yes ==> (
                r matches InputResult::Accept(s) && s@ == text)
                &&& answer == ConfirmResult::Accept && old(self).spec_focus() == InputFocus::Cancel
                    ==> r is Cancel
                &&& answer == ConfirmResult::Cancel ==> r is Cancel
                &&& answer == ConfirmResult::Nothing ==> r is Nothing
            },
    {
        self.sound = None;
        let key = event.key();
        if key == Key::Tab {
            if *self.state.focus() == InputFocus::Cancel {
                self.sound = Some(self.state.select(InputFocus::Yes));
            } else {
                self.sound = Some(self.state.select(InputFocus::Cancel));
            }
            return InputResult::Nothing;
        }
        if key == Key::Mouse(0) {
            let cursor = backend.cursor_position();
            if self.cancel_area.contains(cursor) {
                self.state.reset();
                return InputResult::Cancel;
            } else if self.yes_area.contains(cursor) {
                self.state.reset();
                return InputResult::Accept(self.input.text().to_owned());
            }
            return InputResult::Nothing;
        }
        match self.input.key_event(event) {
            ConfirmResult::Accept => {
                if *self.state.focus() == InputFocus::Yes {
                    InputResult::Accept(self.input.text().to_owned())
                } else {
                    InputResult::Cancel
                }
            },
            ConfirmResult::Cancel => InputResult::Cancel,
            ConfirmResult::Nothing => InputResult::Nothing,
        }
    }

    /// Moves focus to the button under the pointer; returns whether there
    /// is one.
    pub fn mouse_event(&mut self, backend: &Pointer) -> (r: bool)
        ensures
            r == (old(self).spec_cancel_area().spec_contains(backend.spec_cursor())
                || old(self).spec_yes_area().spec_contains(backend.spec_cursor())),
            final(self).spec_input() == old(self).spec_input(),
    {
        let cursor = backend.cursor_position();
        if self.cancel_area.contains(cursor) {
            self.state.set(InputFocus::Cancel);
            true
        } else if self.yes_area.contains(cursor) {
            self.state.set(InputFocus::Yes);
            true
        } else {
            false
        }
    }
}

} // verus!
