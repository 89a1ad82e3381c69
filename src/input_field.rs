use vstd::prelude::*;

use crate::config::Value;
use crate::input::{Key, KeyEvent};
use crate::text::{chars_of, string_of};
use crate::widgets::ConfirmResult;

verus! {

pub open spec fn is_ascii_ws(c: char) -> bool {
    c == ' ' || c == '\t' || c == '\n' || c == '\x0C' || c == '\r'
}

/// Characters that typing inserts: ASCII white space and visible ASCII.
pub open spec fn is_typable(c: u8) -> bool {
    c == 32 || c == 9 || c == 10 || c == 12 || c == 13 || (33 <= c && c <= 126)
}

/// The character that `c` types with Shift held, on a US layout.
pub open spec fn shifted(c: u8) -> u8 {
    if 'a' as u8 <= c && c <= 'z' as u8 {
        (c - 32) as u8
    } else if c == '1' as u8 { '!' as u8 }
    else if c == '2' as u8 { '@' as u8 }
    else if c == '3' as u8 { '#' as u8 }
    else if c == '4' as u8 { '$' as u8 }
    else if c == '5' as u8 { '%' as u8 }
    else if c == '6' as u8 { '^' as u8 }
    else if c == '7' as u8 { '&' as u8 }
    else if c == '8' as u8 { '*' as u8 }
    else if c == '9' as u8 { '(' as u8 }
    else if c == '0' as u8 { ')' as u8 }
    else if c == '-' as u8 { '_' as u8 }
    else if c == '=' as u8 { '+' as u8 }
    else if c == '\\' as u8 { '|' as u8 }
    else if c == '[' as u8 { '{' as u8 }
    else if c == ']' as u8 { '}' as u8 }
    else if c == '\'' as u8 { '"' as u8 }
    else if c == ',' as u8 { '<' as u8 }
    else if c == '.' as u8 { '>' as u8 }
    else if c == '/' as u8 { '?' as u8 }
    else if c == '`' as u8 { '~' as u8 }
    else if c == ';' as u8 { ':' as u8 }
    else { c }
}

fn shift_char(c: u8) -> (r: u8)
    ensures
        r == shifted(c),
{
    if 'a' as u8 <= c && c <= 'z' as u8 {
        c - 32
    } else if c == '1' as u8 { '!' as u8 }
    else if c == '2' as u8 { '@' as u8 }
    else if c == '3' as u8 { '#' as u8 }
    else if c == '4' as u8 { '$' as u8 }
    else if c == '5' as u8 { '%' as u8 }
    else if c == '6' as u8 { '^' as u8 }
    else if c == '7' as u8 { '&' as u8 }
    else if c == '8' as u8 { '*' as u8 }
    else if c == '9' as u8 { '(' as u8 }
    else if c == '0' as u8 { ')' as u8 }
    else if c == '-' as u8 { '_' as u8 }
    else if c == '=' as u8 { '+' as u8 }
    else if c == '\\' as u8 { '|' as u8 }
    else if c == '[' as u8 { '{' as u8 }
    else if c == ']' as u8 { '}' as u8 }
    else if c == '\'' as u8 { '"' as u8 }
    else if c == ',' as u8 { '<' as u8 }
    else if c == '.' as u8 { '>' as u8 }
    else if c == '/' as u8 { '?' as u8 }
    else if c == '`' as u8 { '~' as u8 }
    else if c == ';' as u8 { ':' as u8 }
    else { c }
}

/// Where the word before `end` starts for Ctrl+W: at the last ASCII blank
/// before `end`, which goes with it, or at the beginning.
pub open spec fn word_start(v: Seq<char>, end: int) -> int
    decreases end,
{
    if end <= 0 {
        0
    } else if is_ascii_ws(v[end - 1]) {
        end - 1
    } else {
        word_start(v, end - 1)
    }
}

/// `v` without its characters from `start` up to `end`.
pub open spec fn cut(v: Seq<char>, start: int, end: int) -> Seq<char> {
    v.subrange(0, start) + v.subrange(end, v.len() as int)
}

/// A one-line text field with a cursor.
pub struct Input {
    value: String,
    cursor: u16,
    password: bool,
    show_cursor: bool,
}

/// How text `v` with the cursor before character `cur` answers `event`:
/// the new text, the new cursor and the result.
pub open spec fn edit(v: Seq<char>, cur: int, event: KeyEvent) -> (Seq<char>, int, ConfirmResult) {
    let key = event.spec_key();
    let m = event.spec_modifier();
    let len = v.len() as int;
    let end = if len < u16::MAX { len } else { u16::MAX as int };
    match key {
        Key::Enter => (v, cur, ConfirmResult::Accept),
        Key::Escape => (v, cur, ConfirmResult::Cancel),
        Key::Home => (v, 0, ConfirmResult::Nothing),
        Key::End => (v, end, ConfirmResult::Nothing),
        Key::ArrowLeft => (v, if cur > 0 { cur - 1 } else { 0 }, ConfirmResult::Nothing),
        Key::ArrowRight => (v, if cur + 1 < end { cur + 1 } else { end }, ConfirmResult::Nothing),
        Key::Backspace => if cur > 0 {
            (v.remove(cur - 1), cur - 1, ConfirmResult::Nothing)
        } else {
            (v, cur, ConfirmResult::Nothing)
        },
        Key::Delete => if cur < len {
            (v.remove(cur), cur, ConfirmResult::Nothing)
        } else {
            (v, cur, ConfirmResult::Nothing)
        },
        _ => if m.alt {
            (v, cur, ConfirmResult::Nothing)
        } else if m.ctrl {
            if key == Key::Char('a' as u8) {
                (v, 0, ConfirmResult::Nothing)
            } else if key == Key::Char('e' as u8) {
                (v, end, ConfirmResult::Nothing)
            } else if key == Key::Char('w' as u8) {
                (cut(v, word_start(v, cur), cur), word_start(v, cur), ConfirmResult::Nothing)
            } else if key == Key::Char('u' as u8) {
                (cut(v, 0, cur), 0, ConfirmResult::Nothing)
            } else {
                (v, cur, ConfirmResult::Nothing)
            }
        } else {
            match key {
                Key::Char(c) => if is_typable(c) && len < u16::MAX {
                    let t = if m.shift { shifted(c) } else { c };
                    (v.insert(cur, t as char), cur + 1, ConfirmResult::Nothing)
                } else {
                    (v, cur, ConfirmResult::Nothing)
                },
                _ => (v, cur, ConfirmResult::Nothing),
            }
        },
    }
}

impl Input {
    pub closed spec fn spec_text(&self) -> Seq<char> {
        self.value@
    }

    pub closed spec fn spec_cursor(&self) -> u16 {
        self.cursor
    }

    pub closed spec fn spec_password(&self) -> bool {
        self.password
    }

    pub closed spec fn spec_show_cursor(&self) -> bool {
        self.show_cursor
    }

    /// The cursor stands within the text.
    pub open spec fn wf(&self) -> bool {
        self.spec_cursor() <= self.spec_text().len()
    }

    /// Whether the cursor stands within the text.
    pub fn cursor_in_text(&self) -> (r: bool)
        ensures
            r == self.wf(),
    {
        (self.cursor as usize) <= self.value.as_str().unicode_len()
    }

    /// An empty field.
    pub fn new() -> (r: Self)
        ensures
            r.wf(),
            r.spec_text().len() == 0,
            r.spec_cursor() == 0,
            !r.spec_password(),
    {
        Input { value: String::new(), cursor: 0, password: false, show_cursor: false }
    }

    /// An empty field whose text is drawn as stars.
    pub fn password() -> (r: Self)
        ensures
            r.wf(),
            r.spec_text().len() == 0,
            r.spec_cursor() == 0,
            r.spec_password(),
    {
        Input { value: String::new(), cursor: 0, password: true, show_cursor: false }
    }

    pub fn text(&self) -> (r: &str)
        ensures
            r@ == self.spec_text(),
    {
        self.value.as_str()
    }

    pub fn cursor(&self) -> (r: u16)
        ensures
            r == self.spec_cursor(),
    {
        self.cursor
    }

    pub fn is_password(&self) -> (r: bool)
        ensures
            r == self.spec_password(),
    {
        self.password
    }

    pub fn is_cursor_shown(&self) -> (r: bool)
        ensures
            r == self.spec_show_cursor(),
    {
        self.show_cursor
    }

    pub fn show_cursor(&mut self, show: bool)
        ensures
            final(self).spec_text() == old(self).spec_text(),
            final(self).spec_cursor() == old(self).spec_cursor(),
            final(self).spec_password() == old(self).spec_password(),
            final(self).spec_show_cursor() == show,
    {
        self.show_cursor = show;
    }

    /// Empties the field.
    pub fn clear(&mut self)
        ensures
            final(self).wf(),
            final(self).spec_text().len() == 0,
            final(self).spec_cursor() == 0,
            final(self).spec_password() == old(self).spec_password(),
    {
        self.value = String::new();
        self.cursor = 0;
    }

    /// Types `c` before the cursor.
    pub fn push(&mut self, c: char)
        requires
            old(self).wf(),
            old(self).spec_text().len() < u16::MAX,
        ensures
            final(self).wf(),
            final(self).spec_text() == old(self).spec_text().insert(old(self).spec_cursor() as int, c),
            final(self).spec_cursor() == old(self).spec_cursor() + 1,
            final(self).spec_password() == old(self).spec_password(),
            final(self).spec_show_cursor() == old(self).spec_show_cursor(),
    {
        let mut cs = chars_of(self.value.as_str());
        cs.insert(self.cursor as usize, c);
        self.value = string_of(cs.as_slice());
        self.cursor = self.cursor + 1;
    }

    /// Types each character of `text` before the cursor while the field has
    /// room, as a paste does.
    pub fn paste(&mut self, text: &str)
        requires
            old(self).wf(),
        ensures
            final(self).wf(),
            final(self).spec_password() == old(self).spec_password(),
    {
        let cs = chars_of(text);
        let mut i: usize = 0;
        while i < cs.len()
            invariant
                self.wf(),
                self.spec_password() == old(self).spec_password(),
            decreases cs@.len() - i,
        {
            if self.value.as_str().unicode_len() < 65535 {
                self.push(cs[i]);
            }
            i += 1;
        }
    }

    /// Edits the text as `edit` says. Ctrl+V does nothing here: the caller
    /// pastes with `paste`.
    #[verifier::rlimit(100)]
    pub fn key_event(&mut self, event: KeyEvent) -> (r: ConfirmResult)
        requires
            old(self).wf(),
        ensures
            final(self).wf(),
            (final(self).spec_text(), final(self).spec_cursor() as int, r) == edit(
                old(self).spec_text(),
                old(self).spec_cursor() as int,
                event,
            ),
            final(self).spec_password() == old(self).spec_password(),
            final(self).spec_show_cursor() == old(self).spec_show_cursor(),
    {
        let key = event.key();
        let mut cs = chars_of(self.value.as_str());
        let len = cs.len();
        let end: u16 = if len < 65535 { len as u16 } else { 65535 };
        let cur = self.cursor as usize;
        match key {
            Key::Enter => return ConfirmResult::Accept,
            Key::Escape => return ConfirmResult::Cancel,
            Key::Home => {
                self.cursor = 0;
            },
            Key::End => {
                self.cursor = end;
            },
            Key::ArrowLeft => {
                self.cursor = if self.cursor > 0 { self.cursor - 1 } else { 0 };
            },
            Key::ArrowRight => {
                self.cursor = if (self.cursor as usize) + 1 < end as usize { self.cursor + 1 } else { end };
            },
            Key::Backspace => {
                if cur > 0 {
                    cs.remove(cur - 1);
                    self.value = string_of(cs.as_slice());
                    self.cursor = self.cursor - 1;
                }
            },
            Key::Delete => {
                if cur < len {
                    cs.remove(cur);
                    self.value = string_of(cs.as_slice());
                }
            },
            _ => {
                if event.alt() {
                } else if event.ctrl() {
                    if key == Key::Char('a' as u8) {
                        self.cursor = 0;
                    } else if key == Key::Char('e' as u8) {
                        self.cursor = end;
                    } else if key == Key::Char('w' as u8) {
                        let mut start: usize = cur;
                        let mut found = false;
                        while start > 0 && !found
                            invariant
                                cs@ == old(self).value@,
                                cur <= cs@.len(),
                                start <= cur,
                                found ==> start == word_start(cs@, cur as int),
                                !found ==> word_start(cs@, start as int) == word_start(cs@, cur as int),
                            decreases start + (if found { 0int } else { 1int }),
                        {
                            let c = cs[start - 1];
                            if c == ' ' || c == '\t' || c == '\n' || c == '\x0C' || c == '\r' {
                                start = start - 1;
                                found = true;
                            } else {
                                start = start - 1;
                            }
                        }
                        let mut out: Vec<char> = Vec::new();
                        let mut i: usize = 0;
                        while i < cs.len()
                            invariant
                                start <= cur <= cs@.len(),
                                i <= cs@.len(),
                                out@ == cut(cs@.subrange(0, i as int), (if i < start { i } else { start }) as int, (if i < cur { i } else { cur }) as int),
                            decreases cs@.len() - i,
                        {
                            if i < start || i >= cur {
                                out.push(cs[i]);
                            }
                            i += 1;
                            assert(out@ =~= cut(cs@.subrange(0, i as int), (if i < start { i } else { start }) as int, (if i < cur { i } else { cur }) as int));
                        }
                        assert(cs@.subrange(0, cs@.len() as int) =~= cs@);
                        self.value = string_of(out.as_slice());
                        self.cursor = start as u16;
                    } else if key == Key::Char('u' as u8) {
                        let mut out: Vec<char> = Vec::new();
                        let mut i: usize = cur;
                        while i < cs.len()
                            invariant
                                cur <= i <= cs@.len(),
                                out@ == cs@.subrange(cur as int, i as int),
                            decreases cs@.len() - i,
                        {
                            out.push(cs[i]);
                            i += 1;
                            assert(out@ =~= cs@.subrange(cur as int, i as int));
                        }
                        assert(out@ =~= cut(cs@, 0, cur as int));
                        self.value = string_of(out.as_slice());
                        self.cursor = 0;
                    }
                } else if let Key::Char(c) = key {
                    let typable = c == 32 || c == 9 || c == 10 || c == 12 || c == 13 || (33 <= c && c <= 126);
                    if typable && len < 65535 {
                        let t = if event.shift() { shift_char(c) } else { c };
                        cs.insert(cur, t as char);
                        self.value = string_of(cs.as_slice());
                        self.cursor = self.cursor + 1;
                    }
                }
            },
        }
        ConfirmResult::Nothing
    }
}

impl Value<String> for Input {
    closed spec fn spec_value(&self) -> String {
        self.value
    }

    fn value(&self) -> (r: String) {
        self.value.clone()
    }

    fn set_value(&mut self, value: String) {
        self.value = value;
        let n = self.value.as_str().unicode_len();
        self.cursor = if n < 65535 { n as u16 } else { 65535 };
    }
}

} // verus!

verus! {

impl<M, B: crate::config::ConfigBackend<String>> crate::config::ConfigItem<M> for crate::config::ConfigEntry<
    String,
    Input,
    B,
> {
    /// Activating an enabled row starts editing, which holds all input.
    open spec fn spec_answer(
        &self,
        backend: crate::pointer::Pointer,
        event: KeyEvent,
    ) -> crate::config::ConfigAction<M> {
        if self.spec_backend().spec_enabled() && (event.spec_key().spec_is_exec() || event.spec_key()
            == Key::Mouse(0)) {
            crate::config::ConfigAction::Grab
        } else {
            crate::config::ConfigAction::Nothing
        }
    }

    /// Enter ends editing with a confirm; nothing else ends it.
    open spec fn spec_grab_answer(
        &self,
        backend: crate::pointer::Pointer,
        event: KeyEvent,
    ) -> crate::config::ConfigAction<M> {
        let field = self.spec_widget();
        if field.wf() && edit(field.spec_text(), field.spec_cursor() as int, event).2
            == ConfirmResult::Accept {
            crate::config::ConfigAction::Confirm
        } else {
            crate::config::ConfigAction::Nothing
        }
    }

    fn get_hint(&self) -> (r: Option<String>) {
        self.hint_text()
    }

    /// Activating the row starts editing.
    fn item_key_event(
        &mut self,
        backend: &crate::pointer::Pointer,
        event: KeyEvent,
    ) -> (r: crate::config::ConfigAction<M>) {
        let key = event.key();
        if self.is_enabled() && (key.is_exec() || key == Key::Mouse(0)) {
            self.inner_mut().show_cursor(true);
            crate::config::ConfigAction::Grab
        } else {
            crate::config::ConfigAction::Nothing
        }
    }

    /// Enter writes the text to the backend and ends editing.
    fn item_key_event_grab(
        &mut self,
        backend: &crate::pointer::Pointer,
        event: KeyEvent,
    ) -> (r: crate::config::ConfigAction<M>) {
        let field = self.inner_mut();
        if !field.cursor_in_text() {
            return crate::config::ConfigAction::Nothing;
        }
        match field.key_event(event) {
            ConfirmResult::Accept => {
                let text = self.inner().value();
                self.write_backend(text);
                self.inner_mut().show_cursor(false);
                crate::config::ConfigAction::Confirm
            },
            _ => crate::config::ConfigAction::Nothing,
        }
    }

    fn item_mouse_event(&mut self, backend: &crate::pointer::Pointer) -> (r: bool) {
        false
    }

    fn take_sound(&mut self) -> (r: Option<crate::sound::Sound>) {
        None
    }
}

} // verus!
