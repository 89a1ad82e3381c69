use vstd::prelude::*;

use crate::geometry::{Position, Rect};
use crate::input::{Key, KeyEvent};
use crate::pointer::Pointer;
use crate::sound::Sound;
use crate::state::State;
use crate::text::{str_width, text_width};
use crate::widgets::ConfirmResult;

verus! {

/// The button of a yes/no popup that has focus.
#[derive(Copy, Clone, Debug, PartialEq, Eq, Structural)]
pub enum PopupFocus {
    Cancel,
    Yes,
}

impl Default for PopupFocus {
    fn default() -> (r: Self)
        ensures
            r == PopupFocus::Cancel,
    {
        PopupFocus::Cancel
    }
}

/// A question answered with "cancel" or "yes".
pub struct ConfirmPopup {
    state: State<PopupFocus>,
    /// Where the cancel button was last drawn.
    pub cancel_area: Rect,
    /// Where the yes button was last drawn.
    pub yes_area: Rect,
    title: String,
    content: String,
    content_width: u16,
    sound: Option<Sound>,
}

/// How a yes/no popup with `focus` answers key `key`, the pointer over cell
/// `cursor`: the focus after it, the answer, and the sound to play.
pub open spec fn confirm_step(
    focus: PopupFocus,
    cancel_area: Rect,
    yes_area: Rect,
    cursor: Position,
    key: Key,
) -> (PopupFocus, ConfirmResult, Option<Sound>) {
    let (next, res, sound) = match key {
        Key::Enter => (focus, if focus == PopupFocus::Cancel {
            ConfirmResult::Cancel
        } else {
            ConfirmResult::Accept
        }, None),
        Key::Tab => (if focus == PopupFocus::Cancel {
            PopupFocus::Yes
        } else {
            PopupFocus::Cancel
        }, ConfirmResult::Nothing, Some(Sound::SelectItem)),
        Key::Char(c) => if c == 'n' as u8 {
            (focus, ConfirmResult::Cancel, None)
        } else if c == 'y' as u8 {
            (focus, ConfirmResult::Accept, None)
        } else if c == 'h' as u8 {
            (PopupFocus::Cancel, ConfirmResult::Nothing, Some(Sound::SelectItem))
        } else if c == 'l' as u8 {
            (PopupFocus::Yes, ConfirmResult::Nothing, Some(Sound::SelectItem))
        } else {
            (focus, ConfirmResult::Nothing, None)
        },
        Key::ArrowLeft => (PopupFocus::Cancel, ConfirmResult::Nothing, Some(Sound::SelectItem)),
        Key::ArrowRight => (PopupFocus::Yes, ConfirmResult::Nothing, Some(Sound::SelectItem)),
        Key::Mouse(b) => if b == 0 && cancel_area.spec_contains(cursor) {
            (focus, ConfirmResult::Cancel, None)
        } else if b == 0 && yes_area.spec_contains(cursor) {
            (focus, ConfirmResult::Accept, None)
        } else {
            (focus, ConfirmResult::Nothing, None)
        },
        _ => (focus, ConfirmResult::Nothing, None),
    };
    // an answer puts the focus back on "cancel" for the next time
    (if res != ConfirmResult::Nothing {
        PopupFocus::Cancel
    } else {
        next
    }, res, sound)
}

impl ConfirmPopup {
    pub closed spec fn spec_focus(&self) -> PopupFocus {
        self.state@
    }

    pub closed spec fn spec_cancel_area(&self) -> Rect {
        self.cancel_area
    }

    pub closed spec fn spec_yes_area(&self) -> Rect {
        self.yes_area
    }

    pub closed spec fn spec_title(&self) -> Seq<char> {
        self.title@
    }

    pub closed spec fn spec_content(&self) -> Seq<char> {
        self.content@
    }

    pub closed spec fn spec_content_width(&self) -> u16 {
        self.content_width
    }

    /// The sound that the last event asked for.
    pub closed spec fn spec_sound(&self) -> Option<Sound> {
        self.sound
    }

    /// A popup asking `content` under `title`, focus on "cancel".
    pub fn with_title(title: String, content: String) -> (r: Self)
        ensures
            r.spec_focus() == PopupFocus::Cancel,
            r.spec_title() == title@,
            r.spec_content() == content@,
            r.spec_content_width() == text_width(content@) as u16,
            r.spec_cancel_area() == Rect::zero_spec(),
            r.spec_yes_area() == Rect::zero_spec(),
            r.spec_sound() is None,
    {
        let content_width = str_width(content.as_str()) as u16;
        ConfirmPopup {
            state: State::new(PopupFocus::Cancel),
            cancel_area: Rect { x: 0, y: 0, width: 0, height: 0 },
            yes_area: Rect { x: 0, y: 0, width: 0, height: 0 },
            title,
            content,
            content_width,
            sound: None,
        }
    }

    pub fn focus(&self) -> (r: PopupFocus)
        ensures
            r == self.spec_focus(),
    {
        *self.state.focus()
    }

    pub fn title(&self) -> (r: &str)
        ensures
            r@ == self.spec_title(),
    {
        self.title.as_str()
    }

    pub fn content(&self) -> (r: &str)
        ensures
            r@ == self.spec_content(),
    {
        self.content.as_str()
    }

    /// Columns that the question takes.
    pub fn content_width(&self) -> (r: u16)
        ensures
            r == self.spec_content_width(),
    {
        self.content_width
    }

    /// Takes the sound that the last event asked for.
    pub fn take_sound(&mut self) -> (r: Option<Sound>)
        ensures
            r == old(self).spec_sound(),
            final(self).spec_sound() is None,
            final(self).spec_focus() == old(self).spec_focus(),
            final(self).spec_cancel_area() == old(self).spec_cancel_area(),
            final(self).spec_yes_area() == old(self).spec_yes_area(),
    {
        let r = self.sound;
        self.sound = None;
        r
    }

    /// Answers one input event as `confirm_step` says.
    pub fn key_event(&mut self, backend: &Pointer, event: KeyEvent) -> (r: ConfirmResult)
        ensures
            ({
                let (focus, res, sound) = confirm_step(
                    old(self).spec_focus(),
                    old(self).spec_cancel_area(),
                    old(self).spec_yes_area(),
                    backend.spec_cursor(),
                    event.spec_key(),
                );
                &&& r == res
                &&& final(self).spec_focus() == focus
                &&& final(self).spec_sound() == sound
            }),
            final(self).spec_cancel_area() == old(self).spec_cancel_area(),
            final(self).spec_yes_area() == old(self).spec_yes_area(),
            final(self).spec_title() == old(self).spec_title(),
            final(self).spec_content() == old(self).spec_content(),
            final(self).spec_content_width() == old(self).spec_content_width(),
    {
        self.sound = None;
        let mut ret = ConfirmResult::Nothing;
        match event.key() {
            Key::Enter => {
                if *self.state.focus() == PopupFocus::Cancel {
                    ret = ConfirmResult::Cancel;
                } else {
                    ret = ConfirmResult::Accept;
                }
            },
            Key::Tab => {
                if *self.state.focus() == PopupFocus::Cancel {
                    self.sound = Some(self.state.select(PopupFocus::Yes));
                } else {
                    self.sound = Some(self.state.select(PopupFocus::Cancel));
                }
            },
            Key::Char(c) => {
                if c == 'n' as u8 {
                    ret = ConfirmResult::Cancel;
                } else if c == 'y' as u8 {
                    ret = ConfirmResult::Accept;
                } else if c == 'h' as u8 {
                    self.sound = Some(self.state.select(PopupFocus::Cancel));
                } else if c == 'l' as u8 {
                    self.sound = Some(self.state.select(PopupFocus::Yes));
                }
            },
            Key::ArrowLeft => {
                self.sound = Some(self.state.select(PopupFocus::Cancel));
            },
            Key::ArrowRight => {
                self.sound = Some(self.state.select(PopupFocus::Yes));
            },
            Key::Mouse(b) => {
                if b == 0 {
                    let cursor = backend.cursor_position();
                    if self.cancel_area.contains(cursor) {
                        ret = ConfirmResult::Cancel;
                    } else if self.yes_area.contains(cursor) {
                        ret = ConfirmResult::Accept;
                    }
                }
            },
            _ => {},
        }
        if ret != ConfirmResult::Nothing {
            self.state.reset();
        }
        ret
    }

    /// Moves focus to the button under the pointer; returns whether there
    /// is one.
    pub fn mouse_event(&mut self, backend: &Pointer) -> (r: bool)
        ensures
            r == (old(self).spec_cancel_area().spec_contains(backend.spec_cursor())
                || old(self).spec_yes_area().spec_contains(backend.spec_cursor())),
            final(self).spec_focus() == (if old(self).spec_cancel_area().spec_contains(
                backend.spec_cursor(),
            ) {
                PopupFocus::Cancel
            } else if old(self).spec_yes_area().spec_contains(backend.spec_cursor()) {
                PopupFocus::Yes
            } else {
                old(self).spec_focus()
            }),
            final(self).spec_sound() == old(self).spec_sound(),
            final(self).spec_cancel_area() == old(self).spec_cancel_area(),
            final(self).spec_yes_area() == old(self).spec_yes_area(),
    {
        let cursor = backend.cursor_position();
        if self.cancel_area.contains(cursor) {
            self.state.set(PopupFocus::Cancel);
            true
        } else if self.yes_area.contains(cursor) {
            self.state.set(PopupFocus::Yes);
            true
        } else {
            false
        }
    }
}

} // verus!
