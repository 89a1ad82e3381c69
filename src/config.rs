use vstd::prelude::*;

use crate::input::{Key, KeyEvent};
use crate::pointer::Pointer;
use crate::sound::Sound;
use crate::ui::Control;
use crate::widgets::ConfirmResult;

verus! {

/// What a settings row made of one input event.
pub enum ConfigAction<M> {
    /// Nothing for the list to do.
    Nothing,
    /// The row takes all input until it lets go.
    Grab,
    /// The row lets go of input, its edit dropped.
    Cancel,
    /// The row lets go of input, its edit kept.
    Confirm,
    /// The menu should do this.
    Control(Control<M>),
}

/// One row of a settings list.
///
/// Its spec functions say what the row answers; a row that proves its
/// contract defines them.
pub trait ConfigItem<M> {
    /// What the row answers to `event`, the pointer at `backend`, while it is
    /// selected.
    open spec fn spec_answer(&self, backend: Pointer, event: KeyEvent) -> ConfigAction<M> {
        arbitrary()
    }

    /// What the row answers to `event`, the pointer at `backend`, while it
    /// holds all input.
    open spec fn spec_grab_answer(&self, backend: Pointer, event: KeyEvent) -> ConfigAction<M> {
        arbitrary()
    }

    /// A line that explains the row.
    fn get_hint(&self) -> Option<String>;

    /// An input event while the row is selected.
    fn item_key_event(&mut self, backend: &Pointer, event: KeyEvent) -> (r: ConfigAction<M>)
        ensures
            r == old(self).spec_answer(*backend, event),
    ;

    /// An input event while the row holds all input.
    fn item_key_event_grab(&mut self, backend: &Pointer, event: KeyEvent) -> (r: ConfigAction<M>)
        ensures
            r == old(self).spec_grab_answer(*backend, event),
    ;

    /// The pointer moved while the row holds all input.
    fn item_mouse_event(&mut self, backend: &Pointer) -> bool;

    /// Takes the sound that the row's last event asked for.
    fn take_sound(&mut self) -> Option<Sound>;
}

/// A widget that edits a value of type `T`.
pub trait Value<T> {
    /// The value shown; a widget that proves its contract defines it.
    open spec fn spec_value(&self) -> T {
        arbitrary()
    }

    fn value(&self) -> (r: T)
        ensures
            r == self.spec_value(),
    ;

    fn set_value(&mut self, value: T)
        ensures
            final(self).spec_value() == value,
    ;
}

/// Where a settings row reads its value from and writes it to.
pub trait ConfigBackend<V> {
    /// Whether the row can be edited now; a backend that proves its
    /// contract defines it, as it does the two below.
    open spec fn spec_enabled(&self) -> bool {
        arbitrary()
    }

    /// What reading gives now; nothing means "keep the value shown".
    open spec fn spec_read(&self) -> Option<V> {
        arbitrary()
    }

    /// What reading gives after `value` is written.
    open spec fn spec_after_write(&self, value: V) -> Option<V> {
        arbitrary()
    }

    fn is_enabled(&self) -> (r: bool)
        ensures
            r == self.spec_enabled(),
    ;

    fn read(&self) -> (r: Option<V>)
        ensures
            r == self.spec_read(),
    ;

    fn write(&mut self, value: V)
        ensures
            final(self).spec_read() == old(self).spec_after_write(value),
    ;
}

/// A two-state box.
pub struct Checkbox {
    value: bool,
}

impl Checkbox {
    pub fn new() -> (r: Self)
        ensures
            !r.spec_value(),
    {
        Checkbox { value: false }
    }

    pub fn toggle(&mut self)
        ensures
            final(self).spec_value() == !old(self).spec_value(),
    {
        self.value = !self.value;
    }

    /// Toggles on the keys that activate; gives up on the keys that go back.
    pub fn key_event(&mut self, event: KeyEvent) -> (r: ConfirmResult)
        ensures
            event.spec_key().spec_is_exec() ==> r == ConfirmResult::Accept && final(self).spec_value() == !old(self).spec_value(),
            !event.spec_key().spec_is_exec() ==> final(self).spec_value() == old(self).spec_value(),
            !event.spec_key().spec_is_exec() && event.spec_key().spec_is_back() ==> r
                == ConfirmResult::Cancel,
            !event.spec_key().spec_is_exec() && !event.spec_key().spec_is_back() ==> r
                == ConfirmResult::Nothing,
    {
        let key = event.key();
        if key.is_exec() {
            self.toggle();
            ConfirmResult::Accept
        } else if key.is_back() {
            ConfirmResult::Cancel
        } else {
            ConfirmResult::Nothing
        }
    }
}

impl Value<bool> for Checkbox {
    closed spec fn spec_value(&self) -> bool {
        self.value
    }

    fn value(&self) -> (r: bool) {
        self.value
    }

    fn set_value(&mut self, value: bool) {
        self.value = value;
    }
}

/// The texts of a settings row and the widget that will edit it.
pub struct ConfigEntryBuilder<W> {
    label: Option<String>,
    hint: Option<String>,
    note: Option<String>,
    widget: W,
    fixed_value: Option<String>,
}

impl<W> ConfigEntryBuilder<W> {
    pub closed spec fn spec_widget(&self) -> W {
        self.widget
    }

    pub fn new(widget: W) -> (r: Self)
        ensures
            r.spec_widget() == widget,
    {
        ConfigEntryBuilder { label: None, hint: None, note: None, widget, fixed_value: None }
    }

    pub fn label(self, label: String) -> (r: Self)
        ensures
            r.spec_widget() == self.spec_widget(),
    {
        ConfigEntryBuilder { label: Some(label), ..self }
    }

    pub fn note(self, note: String) -> (r: Self)
        ensures
            r.spec_widget() == self.spec_widget(),
    {
        ConfigEntryBuilder { note: Some(note), ..self }
    }

    pub fn hint(self, hint: String) -> (r: Self)
        ensures
            r.spec_widget() == self.spec_widget(),
    {
        ConfigEntryBuilder { hint: Some(hint), ..self }
    }

    /// Shows `value` in place of what the widget holds.
    pub fn fixed_value(self, value: String) -> (r: Self)
        ensures
            r.spec_widget() == self.spec_widget(),
    {
        ConfigEntryBuilder { fixed_value: Some(value), ..self }
    }

    /// The row bound to `backend`, its widget showing what the backend
    /// reads, if it reads anything.
    pub fn build<V, B: ConfigBackend<V>>(self, backend: B) -> (r: ConfigEntry<V, W, B>)
        where
            W: Value<V>,
        ensures
            r.spec_backend() == backend,
            r.spec_sound() is None,
            match backend.spec_read() {
                Some(v) => r.spec_widget().spec_value() == v,
                None => r.spec_widget() == self.spec_widget(),
            },
    {
        let value = backend.read();
        let mut ret = ConfigEntry {
            label: self.label,
            hint: self.hint,
            note: self.note,
            widget: self.widget,
            backend,
            fixed_value: self.fixed_value,
            sound: None,
            _value: std::marker::PhantomData,
        };
        if let Some(value) = value {
            ret.widget.set_value(value);
        }
        ret
    }
}

/// A settings row: a widget that edits a value kept by a backend.
pub struct ConfigEntry<V, W, B> {
    label: Option<String>,
    hint: Option<String>,
    note: Option<String>,
    widget: W,
    backend: B,
    fixed_value: Option<String>,
    sound: Option<Sound>,
    _value: std::marker::PhantomData<V>,
}

impl<V, W: Value<V>, B: ConfigBackend<V>> ConfigEntry<V, W, B> {
    pub closed spec fn spec_widget(&self) -> W {
        self.widget
    }

    pub closed spec fn spec_backend(&self) -> B {
        self.backend
    }

    pub closed spec fn spec_label(&self) -> Option<Seq<char>> {
        match self.label {
            Some(s) => Some(s@),
            None => None,
        }
    }

    pub closed spec fn spec_note(&self) -> Option<Seq<char>> {
        match self.note {
            Some(s) => Some(s@),
            None => None,
        }
    }

    pub closed spec fn spec_fixed_value(&self) -> Option<Seq<char>> {
        match self.fixed_value {
            Some(s) => Some(s@),
            None => None,
        }
    }

    /// The sound that the last event asked for.
    pub closed spec fn spec_sound(&self) -> Option<Sound> {
        self.sound
    }

    pub fn inner(&self) -> (r: &W)
        ensures
            *r == self.spec_widget(),
    {
        &self.widget
    }

    pub fn inner_mut(&mut self) -> (r: &mut W)
        ensures
            *r == old(self).spec_widget(),
            final(self).spec_widget() == *final(r),
            final(self).spec_backend() == old(self).spec_backend(),
            final(self).spec_sound() == old(self).spec_sound(),
    {
        &mut self.widget
    }

    /// What the backend reads now.
    pub fn backend_read(&self) -> (r: Option<V>)
        ensures
            r == self.spec_backend().spec_read(),
    {
        self.backend.read()
    }

    /// Writes `value` to the backend, the widget left as it is.
    pub fn write_backend(&mut self, value: V)
        ensures
            final(self).spec_backend().spec_read() == old(self).spec_backend().spec_after_write(value),
            final(self).spec_widget() == old(self).spec_widget(),
            final(self).spec_sound() == old(self).spec_sound(),
    {
        self.backend.write(value);
    }

    pub fn hint_text(&self) -> (r: Option<String>) {
        self.hint.clone()
    }

    pub fn label_text(&self) -> (r: Option<&str>)
        ensures
            r matches Some(t) ==> self.spec_label() == Some(t@),
            r is None ==> self.spec_label() is None,
    {
        match &self.label {
            Some(s) => Some(s.as_str()),
            None => None,
        }
    }

    pub fn note(&self) -> (r: Option<&str>)
        ensures
            r matches Some(t) ==> self.spec_note() == Some(t@),
            r is None ==> self.spec_note() is None,
    {
        match &self.note {
            Some(s) => Some(s.as_str()),
            None => None,
        }
    }

    /// The text shown in place of the widget's value, if any.
    pub fn fixed_value(&self) -> (r: Option<&str>)
        ensures
            r matches Some(t) ==> self.spec_fixed_value() == Some(t@),
            r is None ==> self.spec_fixed_value() is None,
    {
        match &self.fixed_value {
            Some(s) => Some(s.as_str()),
            None => None,
        }
    }

    pub fn is_enabled(&self) -> (r: bool)
        ensures
            r == self.spec_backend().spec_enabled(),
    {
        self.backend.is_enabled()
    }

    /// Commits `value`: the widget shows it and the backend is written,
    /// unless the row is disabled.
    pub fn set(&mut self, value: V)
        where
            V: Copy,
        ensures
            old(self).spec_backend().spec_enabled() ==> {
                &&& final(self).spec_widget().spec_value() == value
                &&& final(self).spec_backend().spec_read() == old(self).spec_backend().spec_after_write(value)
            },
            !old(self).spec_backend().spec_enabled() ==> final(self).spec_widget() == old(self).spec_widget() && final(self).spec_backend() == old(self).spec_backend(),
            final(self).spec_sound() == old(self).spec_sound(),
    {
        if self.backend.is_enabled() {
            self.widget.set_value(value);
            self.backend.write(value);
        }
    }
}

impl<B: ConfigBackend<bool>> ConfigEntry<bool, Checkbox, B> {
    /// Flips the box and commits the new value, unless the row is disabled.
    pub fn toggle(&mut self)
        ensures
            old(self).spec_backend().spec_enabled() ==> {
                &&& final(self).spec_widget().spec_value() == !old(self).spec_widget().spec_value()
                &&& final(self).spec_backend().spec_read() == old(self).spec_backend().spec_after_write(!old(self).spec_widget().spec_value())
                &&& final(self).spec_sound() == Some(Sound::SelectChanged)
            },
            !old(self).spec_backend().spec_enabled() ==> *final(self) == *old(self),
    {
        if self.backend.is_enabled() {
            self.widget.toggle();
            let v = self.widget.value();
            self.backend.write(v);
            self.sound = Some(Sound::SelectChanged);
        }
    }
}

impl<M, B: ConfigBackend<bool>> ConfigItem<M> for ConfigEntry<bool, Checkbox, B> {
    /// Activating the row toggles the box; it never takes all input.
    open spec fn spec_answer(&self, backend: Pointer, event: KeyEvent) -> ConfigAction<M> {
        ConfigAction::Nothing
    }

    open spec fn spec_grab_answer(&self, backend: Pointer, event: KeyEvent) -> ConfigAction<M> {
        ConfigAction::Nothing
    }

    fn get_hint(&self) -> (r: Option<String>) {
        self.hint.clone()
    }

    fn item_key_event(&mut self, backend: &Pointer, event: KeyEvent) -> (r: ConfigAction<M>) {
        let key = event.key();
        if key.is_exec() || key == Key::Mouse(0) {
            self.toggle();
        }
        ConfigAction::Nothing
    }

    fn item_key_event_grab(&mut self, backend: &Pointer, event: KeyEvent) -> (r: ConfigAction<M>) {
        ConfigAction::Nothing
    }

    fn item_mouse_event(&mut self, backend: &Pointer) -> (r: bool) {
        false
    }

    fn take_sound(&mut self) -> (r: Option<Sound>) {
        let r = self.sound;
        self.sound = None;
        r
    }
}

/// The row that leaves the settings list.
pub struct BackButton {
    hint: String,
}

impl BackButton {
    /// A back row explained by `hint`.
    pub fn new(hint: String) -> (r: Self)
        ensures
            r.spec_hint() == hint@,
    {
        BackButton { hint }
    }

    pub closed spec fn spec_hint(&self) -> Seq<char> {
        self.hint@
    }
}

impl<M> ConfigItem<M> for BackButton {
    /// Activating the row goes back.
    open spec fn spec_answer(&self, backend: Pointer, event: KeyEvent) -> ConfigAction<M> {
        if event.spec_key().spec_is_exec() || event.spec_key() == Key::Mouse(0) {
            ConfigAction::Control(Control::Back)
        } else {
            ConfigAction::Nothing
        }
    }

    open spec fn spec_grab_answer(&self, backend: Pointer, event: KeyEvent) -> ConfigAction<M> {
        ConfigAction::Nothing
    }

    fn get_hint(&self) -> (r: Option<String>) {
        Some(self.hint.clone())
    }

    fn item_key_event(&mut self, backend: &Pointer, event: KeyEvent) -> (r: ConfigAction<M>) {
        let key = event.key();
        if key.is_exec() || key == Key::Mouse(0) {
            ConfigAction::Control(Control::Back)
        } else {
            ConfigAction::Nothing
        }
    }

    fn item_key_event_grab(&mut self, backend: &Pointer, event: KeyEvent) -> (r: ConfigAction<M>) {
        ConfigAction::Nothing
    }

    fn item_mouse_event(&mut self, backend: &Pointer) -> (r: bool) {
        false
    }

    fn take_sound(&mut self) -> (r: Option<Sound>) {
        None
    }
}

/// A row of plain text.
pub struct Label {
    label: String,
}

impl Label {
    pub fn new(label: String) -> (r: Self)
        ensures
            r.spec_text() == label@,
    {
        Label { label }
    }

    pub closed spec fn spec_text(&self) -> Seq<char> {
        self.label@
    }

    pub fn text(&self) -> (r: &str)
        ensures
            r@ == self.spec_text(),
    {
        self.label.as_str()
    }
}

impl<M> ConfigItem<M> for Label {
    open spec fn spec_answer(&self, backend: Pointer, event: KeyEvent) -> ConfigAction<M> {
        ConfigAction::Nothing
    }

    open spec fn spec_grab_answer(&self, backend: Pointer, event: KeyEvent) -> ConfigAction<M> {
        ConfigAction::Nothing
    }

    fn get_hint(&self) -> (r: Option<String>) {
        None
    }

    fn item_key_event(&mut self, backend: &Pointer, event: KeyEvent) -> (r: ConfigAction<M>) {
        ConfigAction::Nothing
    }

    fn item_key_event_grab(&mut self, backend: &Pointer, event: KeyEvent) -> (r: ConfigAction<M>) {
        ConfigAction::Nothing
    }

    fn item_mouse_event(&mut self, backend: &Pointer) -> (r: bool) {
        false
    }

    fn take_sound(&mut self) -> (r: Option<Sound>) {
        None
    }
}

} // verus!

verus! {

/// A switch that the store keeps the other way round, as an "invert"
/// option does: reading negates what is stored, writing stores the
/// negation.
pub struct Inverted<B> {
    pub inner: B,
}

impl<B: ConfigBackend<bool>> ConfigBackend<bool> for Inverted<B> {
    open spec fn spec_enabled(&self) -> bool {
        self.inner.spec_enabled()
    }

    open spec fn spec_read(&self) -> Option<bool> {
        match self.inner.spec_read() {
            Some(v) => Some(!v),
            None => None,
        }
    }

    open spec fn spec_after_write(&self, value: bool) -> Option<bool> {
        match self.inner.spec_after_write(!value) {
            Some(v) => Some(!v),
            None => None,
        }
    }

    fn is_enabled(&self) -> (r: bool) {
        self.inner.is_enabled()
    }

    fn read(&self) -> (r: Option<bool>) {
        match self.inner.read() {
            Some(v) => Some(!v),
            None => None,
        }
    }

    fn write(&mut self, value: bool) {
        self.inner.write(!value);
    }
}

/// An inverted switch reads back what was written whenever the store it
/// wraps reads back what was written to it.
pub proof fn lemma_inverted_round_trip<B: ConfigBackend<bool>>(b: Inverted<B>, value: bool)
    requires
        b.inner.spec_after_write(!value) == Some(!value),
    ensures
        b.spec_after_write(value) == Some(value),
{
}

} // verus!
