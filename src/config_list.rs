use vstd::prelude::*;

use crate::config::{ConfigAction, ConfigItem};
use crate::geometry::Rect;
use crate::input::{Key, KeyEvent};
use crate::list_state::{max_offset, min, ListState};
use crate::pointer::Pointer;
use crate::sound::Sound;
use crate::state::State;
use crate::ui::Control;

verus! {

/// Who receives the input of a settings list.
#[derive(Copy, Clone, Debug, PartialEq, Eq, Structural)]
pub enum ListFocus {
    /// The list moves between rows.
    Main,
    /// This row holds all input.
    Grab(usize),
}

impl Default for ListFocus {
    fn default() -> (r: Self)
        ensures
            r == ListFocus::Main,
    {
        ListFocus::Main
    }
}

/// What follows when row `g`, holding all input, answers `action`, the
/// list having asked for `sounds` so far: the focus after it, the sounds
/// then, and the list's result. A confirm, a cancel or a control ends the
/// grab; the first two with their sound.
pub open spec fn grab_outcome<M>(
    g: usize,
    action: ConfigAction<M>,
    sounds: Seq<Sound>,
    focus: ListFocus,
    sounds_after: Seq<Sound>,
    r: Control<M>,
) -> bool {
    match action {
        ConfigAction::Control(c) => r == c && focus == ListFocus::Main && sounds_after == sounds,
        ConfigAction::Confirm => r is Nothing && focus == ListFocus::Main && sounds_after == sounds.push(
            Sound::Confirm,
        ),
        ConfigAction::Cancel => r is Nothing && focus == ListFocus::Main && sounds_after == sounds.push(
            Sound::Cancel,
        ),
        _ => r is Nothing && focus == ListFocus::Grab(g) && sounds_after == sounds,
    }
}

/// What follows when row `i`, selected while the list moves between rows,
/// answers `action`, the list having asked for `sounds` so far: the focus
/// after it, the sounds then, and the list's result. A grab gives the row
/// all input with the select sound; a control is passed on.
pub open spec fn follow_outcome<M>(
    i: usize,
    action: ConfigAction<M>,
    sounds: Seq<Sound>,
    focus: ListFocus,
    sounds_after: Seq<Sound>,
    r: Control<M>,
) -> bool {
    match action {
        ConfigAction::Control(c) => r == c && focus == ListFocus::Main && sounds_after == sounds,
        ConfigAction::Grab => r is Nothing && focus == ListFocus::Grab(i) && sounds_after == sounds.push(
            Sound::SelectItem,
        ),
        _ => r is Nothing && focus == ListFocus::Main && sounds_after == sounds,
    }
}

/// A titled list of settings rows of which one may hold all input.
pub struct ConfigList<M, I> {
    title: String,
    state: State<ListFocus>,
    list_state: ListState,
    items: Vec<I>,
    list_area: Rect,
    sounds: Vec<Sound>,
    _menu: std::marker::PhantomData<M>,
}

impl<M, I: ConfigItem<M>> ConfigList<M, I> {
    pub closed spec fn spec_items(&self) -> Seq<I> {
        self.items@
    }

    pub closed spec fn spec_focus(&self) -> ListFocus {
        self.state@
    }

    pub closed spec fn spec_list_state(&self) -> ListState {
        self.list_state
    }

    pub closed spec fn spec_list_area(&self) -> Rect {
        self.list_area
    }

    pub closed spec fn spec_title(&self) -> Seq<char> {
        self.title@
    }

    /// The sounds asked for and not taken yet, oldest first.
    pub closed spec fn spec_sounds(&self) -> Seq<Sound> {
        self.sounds@
    }

    /// A grabbing row exists.
    pub open spec fn wf(&self) -> bool {
        match self.spec_focus() {
            ListFocus::Grab(i) => i < self.spec_items().len(),
            ListFocus::Main => true,
        }
    }

    /// An empty list titled `title`, its first row selected.
    pub fn new(title: String) -> (r: Self)
        ensures
            r.wf(),
            r.spec_items().len() == 0,
            r.spec_title() == title@,
            r.spec_focus() == ListFocus::Main,
            r.spec_list_state() == (ListState { offset: 0, selected: Some(0), last: None }),
            r.spec_sounds().len() == 0,
    {
        ConfigList {
            title,
            state: State::new(ListFocus::Main),
            list_state: ListState::new_first(),
            items: Vec::new(),
            list_area: Rect { x: 0, y: 0, width: 0, height: 0 },
            sounds: Vec::new(),
            _menu: std::marker::PhantomData,
        }
    }

    /// A list titled `title` whose first row is `back`, the row that leaves.
    pub fn with_back(title: String, back: I) -> (r: Self)
        ensures
            r.wf(),
            r.spec_items() == seq![back],
            r.spec_title() == title@,
            r.spec_focus() == ListFocus::Main,
            r.spec_list_state() == (ListState { offset: 0, selected: Some(0), last: None }),
    {
        let mut ret = Self::new(title);
        ret.add(back);
        proof {
            assert(ret.items@ =~= seq![back]);
        }
        ret
    }

    /// Appends a row.
    pub fn add(&mut self, item: I)
        requires
            old(self).wf(),
        ensures
            final(self).wf(),
            final(self).spec_items() == old(self).spec_items().push(item),
            final(self).spec_focus() == old(self).spec_focus(),
            final(self).spec_list_state() == old(self).spec_list_state(),
            final(self).spec_title() == old(self).spec_title(),
            final(self).spec_sounds() == old(self).spec_sounds(),
    {
        self.items.push(item);
    }

    pub fn len(&self) -> (r: usize)
        ensures
            r == self.spec_items().len(),
    {
        self.items.len()
    }

    pub fn title(&self) -> (r: &str)
        ensures
            r@ == self.spec_title(),
    {
        self.title.as_str()
    }

    pub fn focus(&self) -> (r: ListFocus)
        ensures
            r == self.spec_focus(),
    {
        *self.state.focus()
    }

    pub fn list_state(&self) -> (r: ListState)
        ensures
            r == self.spec_list_state(),
    {
        self.list_state
    }

    pub fn item(&self, i: usize) -> (r: Option<&I>)
        ensures
            i < self.spec_items().len() ==> r == Some(&self.spec_items()[i as int]),
            i >= self.spec_items().len() ==> r is None,
    {
        if i < self.items.len() {
            Some(&self.items[i])
        } else {
            None
        }
    }

    /// Row `i`, to draw it.
    pub fn item_mut(&mut self, i: usize) -> (r: Option<&mut I>)
        ensures
            (r is Some) == (i < old(self).spec_items().len()),
    {
        if i < self.items.len() {
            Some(&mut self.items[i])
        } else {
            None
        }
    }

    /// Where the rows were last laid out.
    pub fn list_area(&self) -> (r: Rect)
        ensures
            r == self.spec_list_area(),
    {
        self.list_area
    }

    /// Takes the sounds asked for, oldest first.
    pub fn take_sounds(&mut self) -> (r: Vec<Sound>)
        ensures
            r@ == old(self).spec_sounds(),
            final(self).spec_sounds().len() == 0,
            final(self).spec_items() == old(self).spec_items(),
            final(self).spec_focus() == old(self).spec_focus(),
            final(self).spec_list_state() == old(self).spec_list_state(),
            final(self).spec_list_area() == old(self).spec_list_area(),
    {
        let mut r = Vec::new();
        std::mem::swap(&mut r, &mut self.sounds);
        r
    }

    /// The row under the cursor.
    fn cursor_to_menu_item(&self, backend: &Pointer) -> (r: Option<usize>)
        ensures
            r == self.list_state.spec_cursor_to_index(backend, self.list_area, self.items@.len() as usize),
            r matches Some(i) ==> i < self.items@.len(),
    {
        self.list_state.cursor_to_index(backend, self.list_area, self.items.len())
    }

    /// Lays the rows out in `area`: the width loses a column for the
    /// scrollbar when the rows overflow, the selection is brought back into
    /// the list, and the view scrolls as little as needed to show it.
    pub fn set_list_area(&mut self, area: Rect)
        ensures
            final(self).spec_items() == old(self).spec_items(),
            final(self).spec_focus() == old(self).spec_focus(),
            final(self).spec_list_area() == (if area.height > 4 && area.height + 1 < old(self).spec_items().len() {
                Rect { width: (if area.width > 0 { area.width - 1 } else { 0 }) as u16, ..area }
            } else {
                area
            }),
            ({
                let len = old(self).spec_items().len();
                let st = old(self).spec_list_state();
                let h = final(self).spec_list_area().height;
                match st.selected {
                    None => final(self).spec_list_state() == st,
                    Some(s0) => {
                        let s = if s0 >= len {
                            (if len > 0 { len - 1 } else { 0 }) as usize
                        } else {
                            s0
                        };
                        &&& final(self).spec_list_state().selected == Some(s)
                        &&& final(self).spec_list_state().last == st.last
                        &&& final(self).spec_list_state().offset == (if s >= st.offset + h {
                            (if s >= h { s - h } else { 0 }) + 1
                        } else if st.offset > s {
                            s as int
                        } else {
                            st.offset as int
                        })
                    },
                }
            }),
    {
        let mut area = area;
        let len = self.items.len();
        if area.height > 4 && (area.height as usize) + 1 < len {
            area.width = area.width.saturating_sub(1);
        }
        if let Some(selected) = self.list_state.selected {
            let mut selected = selected;
            if selected >= len {
                selected = len.saturating_sub(1);
                self.list_state.select(Some(selected));
            }
            let height = area.height as usize;
            let start = self.list_state.offset;
            if selected >= start && selected - start >= height {
                self.list_state.offset = selected.saturating_sub(height) + 1;
            } else if start > selected {
                self.list_state.offset = selected;
            }
        }
        self.list_area = area;
    }

    /// Hands `action` of row `i` on: a control goes to the menu, a grab
    /// gives the row all input.
    fn follow(&mut self, i: usize, action: ConfigAction<M>) -> (r: Control<M>)
        requires
            old(self).wf(),
            i < old(self).spec_items().len(),
            old(self).spec_focus() == ListFocus::Main,
        ensures
            final(self).wf(),
            final(self).spec_items() == old(self).spec_items(),
            final(self).spec_list_state() == old(self).spec_list_state(),
            final(self).spec_list_area() == old(self).spec_list_area(),
            follow_outcome(i, action, old(self).spec_sounds(), final(self).spec_focus(), final(self).spec_sounds(), r),
    {
        match action {
            ConfigAction::Control(control) => control,
            ConfigAction::Grab => {
                let s = self.state.select(ListFocus::Grab(i));
                self.sounds.push(s);
                Control::Nothing
            },
            _ => Control::Nothing,
        }
    }

    fn collect_sound(&mut self, i: usize)
        requires
            i < old(self).spec_items().len(),
        ensures
            final(self).spec_items().len() == old(self).spec_items().len(),
            forall|j: int|
                0 <= j < old(self).spec_items().len() && j != i ==> final(self).spec_items()[j]
                    == old(self).spec_items()[j],
            final(self).spec_focus() == old(self).spec_focus(),
            final(self).spec_list_state() == old(self).spec_list_state(),
            final(self).spec_list_area() == old(self).spec_list_area(),
            exists|heard: Seq<Sound>| final(self).spec_sounds() == old(self).spec_sounds() + heard,
    {
        if let Some(s) = self.items[i].take_sound() {
            self.sounds.push(s);
            assert(self.spec_sounds() =~= old(self).spec_sounds() + seq![s]);
        } else {
            assert(self.spec_sounds() =~= old(self).spec_sounds() + Seq::<Sound>::empty());
        }
    }

    /// What the list does with `action`, the answer of row `g` that holds
    /// all input.
    fn after_grab(&mut self, g: usize, action: ConfigAction<M>) -> (r: Control<M>)
        requires
            old(self).wf(),
            old(self).spec_focus() == ListFocus::Grab(g),
        ensures
            final(self).wf(),
            final(self).spec_items() == old(self).spec_items(),
            final(self).spec_list_state() == old(self).spec_list_state(),
            final(self).spec_list_area() == old(self).spec_list_area(),
            grab_outcome(g, action, old(self).spec_sounds(), final(self).spec_focus(), final(self).spec_sounds(), r),
    {
        match action {
            ConfigAction::Control(control) => {
                self.state.set(ListFocus::Main);
                control
            },
            ConfigAction::Confirm => {
                let s = self.state.confirm_default();
                self.sounds.push(s);
                Control::Nothing
            },
            ConfigAction::Cancel => {
                let s = self.state.cancel_default();
                self.sounds.push(s);
                Control::Nothing
            },
            _ => Control::Nothing,
        }
    }

    /// One input event. While a row holds all input the event goes to that
    /// row alone, and what the row answers decides as `after_grab` says:
    /// a confirm, a cancel or a control ends the grab. Otherwise the keys
    /// move between rows and activate the selected one.
    pub fn key_event(&mut self, backend: &Pointer, event: KeyEvent) -> (r: Control<M>)
        requires
            old(self).wf(),
        ensures
            final(self).wf(),
            final(self).spec_items().len() == old(self).spec_items().len(),
            final(self).spec_list_area() == old(self).spec_list_area(),
            old(self).spec_focus() matches ListFocus::Grab(g) ==> {
                &&& forall|j: int|
                    0 <= j < old(self).spec_items().len() && j != g ==> final(self).spec_items()[j]
                        == old(self).spec_items()[j]
                &&& final(self).spec_list_state() == old(self).spec_list_state()
                &&& exists|heard: Seq<Sound>|
                    grab_outcome(
                        g,
                        old(self).spec_items()[g as int].spec_grab_answer(*backend, event),
                        old(self).spec_sounds() + heard,
                        final(self).spec_focus(),
                        final(self).spec_sounds(),
                        r,
                    )
            },
            old(self).spec_focus() is Main ==> {
                let key = event.spec_key();
                let st = old(self).spec_list_state();
                let len = old(self).spec_items().len();
                let idx = st.spec_cursor_to_index(backend, old(self).spec_list_area(), len as usize);
                &&& key.spec_is_exec() && st.selected is Some && st.selected->0 < len ==> {
                    let i = st.selected->0;
                    &&& final(self).spec_list_state() == st
                    &&& exists|heard: Seq<Sound>|
                        follow_outcome(
                            i,
                            old(self).spec_items()[i as int].spec_answer(*backend, event),
                            old(self).spec_sounds() + heard,
                            final(self).spec_focus(),
                            final(self).spec_sounds(),
                            r,
                        )
                }
                &&& key.spec_is_exec() && !(st.selected is Some && st.selected->0 < len) ==> {
                    &&& r is Nothing
                    &&& final(self).spec_focus() == ListFocus::Main
                    &&& final(self).spec_list_state() == st
                    &&& final(self).spec_items() == old(self).spec_items()
                    &&& final(self).spec_sounds() == old(self).spec_sounds()
                }
                &&& key == Key::Mouse(0) && idx is Some ==> {
                    &&& final(self).spec_list_state() == st.selecting(idx)
                    &&& exists|heard: Seq<Sound>|
                        follow_outcome(
                            idx->0,
                            old(self).spec_items()[idx->0 as int].spec_answer(*backend, event),
                            old(self).spec_sounds() + heard,
                            final(self).spec_focus(),
                            final(self).spec_sounds(),
                            r,
                        )
                }
                &&& key == Key::Mouse(0) && idx is None ==> {
                    &&& r is Nothing
                    &&& final(self).spec_focus() == ListFocus::Main
                    &&& final(self).spec_list_state() == st
                    &&& final(self).spec_items() == old(self).spec_items()
                }
                &&& key is TouchStart && idx is Some ==> {
                    let i = idx->0;
                    let answer = old(self).spec_items()[i as int].spec_answer(*backend, event);
                    &&& r is Nothing
                    &&& answer is Grab ==> final(self).spec_focus() == ListFocus::Grab(i)
                        && final(self).spec_list_state() == st.selecting(idx)
                        && exists|heard: Seq<Sound>|
                        final(self).spec_sounds() == old(self).spec_sounds() + heard + seq![Sound::SelectItem]
                    &&& !(answer is Grab) ==> final(self).spec_focus() == ListFocus::Main
                        && final(self).spec_list_state() == st
                }
                &&& key.spec_is_prev() && !key.spec_is_exec() ==> {
                    &&& final(self).spec_list_state() == st.moved_prev()
                    &&& final(self).spec_items() == old(self).spec_items()
                    &&& final(self).spec_focus() == ListFocus::Main
                    &&& r is Nothing
                }
                &&& key.spec_is_next() && !key.spec_is_exec() ==> {
                    &&& final(self).spec_list_state() == (match st.selected {
                        Some(i) => if i + 1 < len {
                            st.moved_next()
                        } else {
                            st
                        },
                        None => st,
                    })
                    &&& final(self).spec_items() == old(self).spec_items()
                    &&& final(self).spec_focus() == ListFocus::Main
                    &&& r is Nothing
                }
                &&& key.spec_is_back() && !key.spec_is_exec() && !key.spec_is_prev()
                    && !key.spec_is_next() ==> {
                    &&& r is Back
                    &&& final(self).spec_items() == old(self).spec_items()
                    &&& final(self).spec_focus() == ListFocus::Main
                }
                &&& key.spec_is_exec() ==> {
                    &&& final(self).spec_list_state() == st
                    &&& forall|j: int|
                        0 <= j < len && Some(j as usize) != st.selected ==> final(self).spec_items()[j]
                            == old(self).spec_items()[j]
                    &&& final(self).spec_focus() is Main || final(self).spec_focus() == ListFocus::Grab(
                        st.selected->0,
                    )
                }
                &&& key matches Key::MouseWheelUp(n) ==> {
                    &&& final(self).spec_list_state() == (ListState {
                        offset: (if st.offset >= n { st.offset - n } else { 0 }) as usize,
                        ..st
                    })
                    &&& final(self).spec_items() == old(self).spec_items()
                    &&& r is Nothing
                }
                &&& key matches Key::MouseWheelDown(n) ==> {
                    &&& final(self).spec_list_state() == (ListState {
                        offset: min(
                            st.offset + n,
                            max_offset(len as usize, old(self).spec_list_area().height, 0),
                        ) as usize,
                        ..st
                    })
                    &&& final(self).spec_items() == old(self).spec_items()
                    &&& r is Nothing
                }
            },
    {
        let key = event.key();
        let len = self.items.len();
        match *self.state.focus() {
            ListFocus::Main => {
                if key.is_exec() {
                    if let Some(i) = self.list_state.selected {
                        if i < len {
                            let action = self.items[i].item_key_event(backend, event);
                            assert(self.spec_sounds() == old(self).spec_sounds());
                            self.collect_sound(i);
                            let ghost before = self.spec_sounds();
                            let r = self.follow(i, action);
                            assert(exists|heard: Seq<Sound>| before == old(self).spec_sounds() + heard);
                            return r;
                        }
                    }
                } else if key.is_prev() {
                    if let Some(s) = self.list_state.prev() {
                        self.sounds.push(s);
                    }
                } else if key.is_next() {
                    let movable = match self.list_state.selected {
                        Some(i) => i < len && len - i > 1,
                        None => false,
                    };
                    if movable {
                        if let Some(s) = self.list_state.next() {
                            self.sounds.push(s);
                        }
                    }
                } else if key.is_back() {
                    return Control::Back;
                } else {
                    match key {
                        Key::MouseWheelUp(n) => self.list_state.scroll_up(n),
                        Key::MouseWheelDown(n) => {
                            let area = self.list_area;
                            self.list_state.scroll_down(n, len, area, 0);
                        },
                        Key::TouchStart(_) => {
                            if let Some(i) = self.cursor_to_menu_item(backend) {
                                let action = self.items[i].item_key_event(backend, event);
                                assert(self.spec_sounds() == old(self).spec_sounds());
                                self.collect_sound(i);
                                let ghost before = self.spec_sounds();
                                if let ConfigAction::Grab = action {
                                    self.list_state.select(Some(i));
                                    let s = self.state.select(ListFocus::Grab(i));
                                    self.sounds.push(s);
                                    assert(exists|heard: Seq<Sound>| before == old(self).spec_sounds() + heard);
                                    assert(self.spec_sounds() == before + seq![Sound::SelectItem]);
                                }
                            }
                        },
                        Key::Mouse(b) => {
                            if b == 0 {
                                if let Some(i) = self.cursor_to_menu_item(backend) {
                                    self.list_state.select(Some(i));
                                    let action = self.items[i].item_key_event(backend, event);
                                    assert(self.spec_sounds() == old(self).spec_sounds());
                                    self.collect_sound(i);
                                    let ghost before = self.spec_sounds();
                                    let r = self.follow(i, action);
                                    assert(exists|heard: Seq<Sound>| before == old(self).spec_sounds() + heard);
                                    return r;
                                }
                            }
                        },
                        _ => {},
                    }
                }
            },
            ListFocus::Grab(i) => {
                let action = self.items[i].item_key_event_grab(backend, event);
                assert(self.spec_sounds() == old(self).spec_sounds());
                self.collect_sound(i);
                let ghost answer = action;
                let ghost heard_before = self.sounds@;
                let r = self.after_grab(i, action);
                assert(exists|heard: Seq<Sound>| heard_before == old(self).spec_sounds() + heard);
                return r;
            },
        }
        Control::Nothing
    }

    /// The pointer moved: the row under it is selected, or the grabbing row
    /// gets the motion.
    pub fn mouse_event(&mut self, backend: &Pointer) -> (r: bool)
        requires
            old(self).wf(),
        ensures
            final(self).wf(),
            final(self).spec_items().len() == old(self).spec_items().len(),
            final(self).spec_focus() == old(self).spec_focus(),
            old(self).spec_focus() is Main ==> {
                let idx = old(self).spec_list_state().spec_cursor_to_index(
                    backend,
                    old(self).spec_list_area(),
                    old(self).spec_items().len() as usize,
                );
                &&& r == idx is Some
                &&& final(self).spec_items() == old(self).spec_items()
                &&& final(self).spec_list_state() == (if r {
                    old(self).spec_list_state().selecting(idx)
                } else {
                    old(self).spec_list_state()
                })
            },
            old(self).spec_focus() matches ListFocus::Grab(g) ==> {
                &&& forall|j: int|
                    0 <= j < old(self).spec_items().len() && j != g ==> final(self).spec_items()[j]
                        == old(self).spec_items()[j]
                &&& final(self).spec_list_state() == old(self).spec_list_state()
            },
    {
        match *self.state.focus() {
            ListFocus::Main => {
                match self.cursor_to_menu_item(backend) {
                    Some(i) => {
                        self.list_state.select(Some(i));
                        true
                    },
                    None => false,
                }
            },
            ListFocus::Grab(i) => self.items[i].item_mouse_event(backend),
        }
    }
}

} // verus!
