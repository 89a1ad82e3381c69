use vstd::prelude::*;

use crate::geometry::Position;

verus! {

/// Raw key codes of the host engine.
pub const K_TAB: u8 = 9;
pub const K_ENTER: u8 = 13;
pub const K_ESCAPE: u8 = 27;
pub const K_BACKSPACE: u8 = 127;
pub const K_UPARROW: u8 = 128;
pub const K_DOWNARROW: u8 = 129;
pub const K_LEFTARROW: u8 = 130;
pub const K_RIGHTARROW: u8 = 131;
pub const K_ALT: u8 = 132;
pub const K_CTRL: u8 = 133;
pub const K_SHIFT: u8 = 134;
pub const K_DEL: u8 = 148;
pub const K_PGDN: u8 = 149;
pub const K_PGUP: u8 = 150;
pub const K_HOME: u8 = 151;
pub const K_END: u8 = 152;
pub const K_MWHEELDOWN: u8 = 239;
pub const K_MWHEELUP: u8 = 240;
pub const K_MOUSE1: u8 = 241;
pub const K_MOUSE5: u8 = 245;

/// One normalized input: a key, a mouse button, a wheel step or a touch gesture.
#[derive(Copy, Clone, Debug, PartialEq, Eq, Structural)]
pub enum Key {
    Ctrl,
    Alt,
    Shift,
    ArrowUp,
    ArrowDown,
    ArrowLeft,
    ArrowRight,
    Enter,
    Escape,
    PageUp,
    PageDown,
    Home,
    End,
    Delete,
    Backspace,
    Tab,
    Char(u8),
    Mouse(u8),
    MouseWheelUp(u16),
    MouseWheelDown(u16),
    /// Emulated from a horizontal drag.
    MouseWheelLeft(u16),
    /// Emulated from a horizontal drag.
    MouseWheelRight(u16),
    /// A drag began at this cell.
    TouchStart(Position),
    /// The pointer moved by this many pixels while dragging.
    Touch(i32, i32),
    /// A drag ended at this pixel position.
    TouchStop(Position),
}

/// The key that raw code `c` stands for.
pub open spec fn key_of(c: u8) -> Key {
    if c == K_CTRL {
        Key::Ctrl
    } else if c == K_ALT {
        Key::Alt
    } else if c == K_SHIFT {
        Key::Shift
    } else if c == K_RIGHTARROW {
        Key::ArrowRight
    } else if c == K_UPARROW {
        Key::ArrowUp
    } else if c == K_DOWNARROW {
        Key::ArrowDown
    } else if c == K_LEFTARROW {
        Key::ArrowLeft
    } else if c == K_ENTER {
        Key::Enter
    } else if c == K_ESCAPE {
        Key::Escape
    } else if c == K_PGUP {
        Key::PageUp
    } else if c == K_PGDN {
        Key::PageDown
    } else if c == K_HOME {
        Key::Home
    } else if c == K_END {
        Key::End
    } else if c == K_DEL {
        Key::Delete
    } else if c == K_BACKSPACE {
        Key::Backspace
    } else if c == K_TAB {
        Key::Tab
    } else if K_MOUSE1 <= c <= K_MOUSE5 {
        Key::Mouse((c - K_MOUSE1) as u8)
    } else if c == K_MWHEELUP {
        Key::MouseWheelUp(1)
    } else if c == K_MWHEELDOWN {
        Key::MouseWheelDown(1)
    } else {
        Key::Char(c)
    }
}

impl Key {
    /// Keys that activate the selected entry.
    pub open spec fn spec_is_exec(self) -> bool {
        self == Key::Char('l' as u8) || self == Key::ArrowRight || self == Key::Enter
    }

    /// Keys that leave the current region or menu.
    pub open spec fn spec_is_back(self) -> bool {
        ||| self == Key::Char('h' as u8)
        ||| self == Key::Char('q' as u8)
        ||| self == Key::ArrowLeft
        ||| self == Key::Escape
    }

    /// Keys that move to the previous entry.
    pub open spec fn spec_is_prev(self) -> bool {
        self == Key::Char('k' as u8) || self == Key::ArrowUp
    }

    /// Keys that move to the next entry.
    pub open spec fn spec_is_next(self) -> bool {
        self == Key::Char('j' as u8) || self == Key::ArrowDown
    }

    pub fn is_exec(&self) -> (r: bool)
        ensures
            r == self.spec_is_exec(),
    {
        match self {
            Key::Char(c) => *c == 'l' as u8,
            Key::ArrowRight | Key::Enter => true,
            _ => false,
        }
    }

    pub fn is_back(&self) -> (r: bool)
        ensures
            r == self.spec_is_back(),
    {
        match self {
            Key::Char(c) => *c == 'h' as u8 || *c == 'q' as u8,
            Key::ArrowLeft | Key::Escape => true,
            _ => false,
        }
    }

    pub fn is_prev(&self) -> (r: bool)
        ensures
            r == self.spec_is_prev(),
    {
        match self {
            Key::Char(c) => *c == 'k' as u8,
            Key::ArrowUp => true,
            _ => false,
        }
    }

    pub fn is_next(&self) -> (r: bool)
        ensures
            r == self.spec_is_next(),
    {
        match self {
            Key::Char(c) => *c == 'j' as u8,
            Key::ArrowDown => true,
            _ => false,
        }
    }
}

impl From<u8> for Key {
    fn from(c: u8) -> (r: Key) {
        if c == K_CTRL {
            Key::Ctrl
        } else if c == K_ALT {
            Key::Alt
        } else if c == K_SHIFT {
            Key::Shift
        } else if c == K_RIGHTARROW {
            Key::ArrowRight
        } else if c == K_UPARROW {
            Key::ArrowUp
        } else if c == K_DOWNARROW {
            Key::ArrowDown
        } else if c == K_LEFTARROW {
            Key::ArrowLeft
        } else if c == K_ENTER {
            Key::Enter
        } else if c == K_ESCAPE {
            Key::Escape
        } else if c == K_PGUP {
            Key::PageUp
        } else if c == K_PGDN {
            Key::PageDown
        } else if c == K_HOME {
            Key::Home
        } else if c == K_END {
            Key::End
        } else if c == K_DEL {
            Key::Delete
        } else if c == K_BACKSPACE {
            Key::Backspace
        } else if c == K_TAB {
            Key::Tab
        } else if K_MOUSE1 <= c && c <= K_MOUSE5 {
            Key::Mouse(c - K_MOUSE1)
        } else if c == K_MWHEELUP {
            Key::MouseWheelUp(1)
        } else if c == K_MWHEELDOWN {
            Key::MouseWheelDown(1)
        } else {
            Key::Char(c)
        }
    }
}

impl vstd::std_specs::convert::FromSpecImpl<u8> for Key {
    open spec fn obeys_from_spec() -> bool {
        true
    }

    open spec fn from_spec(c: u8) -> Key {
        key_of(c)
    }
}

/// The modifier keys held down.
#[derive(Copy, Clone, Debug, Default, PartialEq, Eq, Structural)]
pub struct Modifier {
    pub ctrl: bool,
    pub shift: bool,
    pub alt: bool,
}

/// A key together with its raw code, whether it was pressed or released,
/// and the modifiers held at that moment.
#[derive(Copy, Clone, Debug, PartialEq, Eq, Structural)]
pub struct KeyEvent {
    raw: u8,
    down: bool,
    ctrl: bool,
    shift: bool,
    alt: bool,
    key: Key,
}

impl KeyEvent {
    /// The event of `key` with raw code `raw`, pressed when `down`, with the
    /// modifiers `modifier` held.
    pub closed spec fn spec_with_key(raw: u8, modifier: Modifier, down: bool, key: Key) -> KeyEvent {
        KeyEvent { raw, down, ctrl: modifier.ctrl, shift: modifier.shift, alt: modifier.alt, key }
    }

    pub closed spec fn spec_raw(self) -> u8 {
        self.raw
    }

    pub closed spec fn spec_is_down(self) -> bool {
        self.down
    }

    pub closed spec fn spec_modifier(self) -> Modifier {
        Modifier { ctrl: self.ctrl, shift: self.shift, alt: self.alt }
    }

    pub closed spec fn spec_key(self) -> Key {
        self.key
    }

    pub fn with_key(raw: u8, modifier: Modifier, down: bool, key: Key) -> (r: Self)
        ensures
            r == Self::spec_with_key(raw, modifier, down, key),
            r.spec_raw() == raw,
            r.spec_modifier() == modifier,
            r.spec_is_down() == down,
            r.spec_key() == key,
    {
        KeyEvent { raw, down, ctrl: modifier.ctrl, shift: modifier.shift, alt: modifier.alt, key }
    }

    /// The event for raw code `raw`.
    pub fn new(raw: u8, modifier: Modifier, down: bool) -> (r: Self)
        ensures
            r == Self::spec_with_key(raw, modifier, down, key_of(raw)),
            r.spec_raw() == raw,
            r.spec_modifier() == modifier,
            r.spec_is_down() == down,
            r.spec_key() == key_of(raw),
    {
        Self::with_key(raw, modifier, down, Key::from(raw))
    }

    /// A synthesized pressed event with no raw code.
    pub fn new_touch(modifier: Modifier, key: Key) -> (r: Self)
        ensures
            r == Self::spec_with_key(0, modifier, true, key),
            r.spec_raw() == 0,
            r.spec_modifier() == modifier,
            r.spec_is_down(),
            r.spec_key() == key,
    {
        Self::with_key(0, modifier, true, key)
    }

    pub fn raw(&self) -> (r: u8)
        ensures
            r == self.spec_raw(),
    {
        self.raw
    }

    pub fn is_down(&self) -> (r: bool)
        ensures
            r == self.spec_is_down(),
    {
        self.down
    }

    pub fn is_up(&self) -> (r: bool)
        ensures
            r == !self.spec_is_down(),
    {
        !self.down
    }

    pub fn ctrl(&self) -> (r: bool)
        ensures
            r == self.spec_modifier().ctrl,
    {
        self.ctrl
    }

    pub fn shift(&self) -> (r: bool)
        ensures
            r == self.spec_modifier().shift,
    {
        self.shift
    }

    pub fn alt(&self) -> (r: bool)
        ensures
            r == self.spec_modifier().alt,
    {
        self.alt
    }

    pub fn key(&self) -> (r: Key)
        ensures
            r == self.spec_key(),
    {
        self.key
    }
}

} // verus!
