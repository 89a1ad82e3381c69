use vstd::prelude::*;

use crate::geometry::{Position, Size};
use crate::input::{key_of, Key, KeyEvent, Modifier, K_MWHEELDOWN, K_MWHEELUP};
use crate::net::NetAddr;
use crate::pointer::{cell_at, Pointer};
use crate::popup::{confirm_step, ConfirmPopup};
use crate::sound::Sound;
use crate::widgets::ConfirmResult;

verus! {

/// How long, in milliseconds, the left button must be held for a press to
/// count as a drag rather than a click.
pub const TOUCH_THRESHOLD_MS: u64 = 200;

/// What a menu asks the driver to do after an input event.
pub enum Control<M> {
    /// Nothing.
    Nothing,
    /// Return to the previous menu.
    Back,
    /// Return to the previous menu and hide the interface.
    BackHide,
    /// Return to the root menu.
    BackMain,
    /// Return to the root menu and hide the interface.
    BackMainHide,
    /// Hide the interface.
    Hide,
    /// Open a new menu on top.
    Next(M),
    /// Give input to the console.
    Console,
    /// Route raw input straight to the top menu, or stop doing so.
    GrabInput(bool),
    /// Ask whether to quit.
    QuitPopup,
}

impl<M> Control<M> {
    pub fn next(menu: M) -> (r: Self)
        ensures
            r == Control::Next(menu),
    {
        Control::Next(menu)
    }
}

/// One screen of the interface.
///
/// Its spec functions record what the menu was told; a menu that proves its
/// contract defines them.
pub trait Menu: Sized {
    /// How many times the menu became the visible one.
    open spec fn spec_activations(&self) -> nat {
        arbitrary()
    }

    /// How many times the menu stopped being visible.
    open spec fn spec_hides(&self) -> nat {
        arbitrary()
    }

    /// The input events the menu received, oldest first.
    open spec fn spec_events(&self) -> Seq<KeyEvent> {
        arbitrary()
    }

    /// The server answers the menu received, oldest first.
    open spec fn spec_servers(&self) -> Seq<(NetAddr, Seq<char>)> {
        arbitrary()
    }

    /// How many times the menu was told the screen size changed.
    open spec fn spec_resizes(&self) -> nat {
        arbitrary()
    }

    /// How many pointer moves without a click the menu was told of.
    open spec fn spec_hovers(&self) -> nat {
        arbitrary()
    }

    /// How many times the menu was asked to measure pings again.
    open spec fn spec_pings(&self) -> nat {
        arbitrary()
    }

    /// What the menu asks for when it receives `event` now.
    open spec fn spec_answer(&self, event: KeyEvent) -> Control<Self> {
        arbitrary()
    }

    /// The screen size changed.
    fn vid_init(&mut self)
        ensures
            final(self).spec_activations() == old(self).spec_activations(),
            final(self).spec_hides() == old(self).spec_hides(),
            final(self).spec_events() == old(self).spec_events(),
            final(self).spec_servers() == old(self).spec_servers(),
            final(self).spec_resizes() == old(self).spec_resizes() + 1,
            final(self).spec_hovers() == old(self).spec_hovers(),
            final(self).spec_pings() == old(self).spec_pings(),
    ;

    /// The menu became the visible one.
    fn active(&mut self)
        ensures
            final(self).spec_activations() == old(self).spec_activations() + 1,
            final(self).spec_hides() == old(self).spec_hides(),
            final(self).spec_events() == old(self).spec_events(),
            final(self).spec_servers() == old(self).spec_servers(),
            final(self).spec_resizes() == old(self).spec_resizes(),
            final(self).spec_hovers() == old(self).spec_hovers(),
            final(self).spec_pings() == old(self).spec_pings(),
    ;

    /// The menu stops being visible.
    fn on_menu_hide(&mut self)
        ensures
            final(self).spec_activations() == old(self).spec_activations(),
            final(self).spec_hides() == old(self).spec_hides() + 1,
            final(self).spec_events() == old(self).spec_events(),
            final(self).spec_servers() == old(self).spec_servers(),
            final(self).spec_resizes() == old(self).spec_resizes(),
            final(self).spec_hovers() == old(self).spec_hovers(),
            final(self).spec_pings() == old(self).spec_pings(),
    ;

    /// One input event; returns what the driver should do.
    fn key_event(&mut self, backend: &Pointer, event: KeyEvent) -> (r: Control<Self>)
        ensures
            r == old(self).spec_answer(event),
            final(self).spec_activations() == old(self).spec_activations(),
            final(self).spec_hides() == old(self).spec_hides(),
            final(self).spec_events() == old(self).spec_events().push(event),
            final(self).spec_servers() == old(self).spec_servers(),
            final(self).spec_resizes() == old(self).spec_resizes(),
            final(self).spec_hovers() == old(self).spec_hovers(),
            final(self).spec_pings() == old(self).spec_pings(),
    ;

    /// The pointer moved without a click; returns whether the menu used it.
    fn mouse_event(&mut self, backend: &Pointer) -> (r: bool)
        ensures
            final(self).spec_activations() == old(self).spec_activations(),
            final(self).spec_hides() == old(self).spec_hides(),
            final(self).spec_events() == old(self).spec_events(),
            final(self).spec_servers() == old(self).spec_servers(),
            final(self).spec_resizes() == old(self).spec_resizes(),
            final(self).spec_hovers() == old(self).spec_hovers() + 1,
            final(self).spec_pings() == old(self).spec_pings(),
    ;

    /// A server answered a query with record `info`.
    fn add_server_to_list(&mut self, addr: NetAddr, info: &str)
        ensures
            final(self).spec_activations() == old(self).spec_activations(),
            final(self).spec_hides() == old(self).spec_hides(),
            final(self).spec_events() == old(self).spec_events(),
            final(self).spec_servers() == old(self).spec_servers().push((addr, info@)),
            final(self).spec_resizes() == old(self).spec_resizes(),
            final(self).spec_hovers() == old(self).spec_hovers(),
            final(self).spec_pings() == old(self).spec_pings(),
    ;

    /// Server pings are to be measured again.
    fn reset_ping(&mut self)
        ensures
            final(self).spec_activations() == old(self).spec_activations(),
            final(self).spec_hides() == old(self).spec_hides(),
            final(self).spec_events() == old(self).spec_events(),
            final(self).spec_servers() == old(self).spec_servers(),
            final(self).spec_resizes() == old(self).spec_resizes(),
            final(self).spec_hovers() == old(self).spec_hovers(),
            final(self).spec_pings() == old(self).spec_pings() + 1,
    ;
}

/// `new` is `old` made the visible menu once more.
pub open spec fn activated<M: Menu>(new: M, old: M) -> bool {
    &&& new.spec_activations() == old.spec_activations() + 1
    &&& new.spec_hides() == old.spec_hides()
    &&& new.spec_events() == old.spec_events()
    &&& new.spec_servers() == old.spec_servers()
    &&& new.spec_resizes() == old.spec_resizes()
    &&& new.spec_hovers() == old.spec_hovers()
    &&& new.spec_pings() == old.spec_pings()
}

/// `new` is `old` hidden once more.
pub open spec fn hidden<M: Menu>(new: M, old: M) -> bool {
    &&& new.spec_activations() == old.spec_activations()
    &&& new.spec_hides() == old.spec_hides() + 1
    &&& new.spec_events() == old.spec_events()
    &&& new.spec_servers() == old.spec_servers()
    &&& new.spec_resizes() == old.spec_resizes()
    &&& new.spec_hovers() == old.spec_hovers()
    &&& new.spec_pings() == old.spec_pings()
}

/// `new` is `old` made visible, then hidden.
pub open spec fn activated_hidden<M: Menu>(new: M, old: M) -> bool {
    &&& new.spec_activations() == old.spec_activations() + 1
    &&& new.spec_hides() == old.spec_hides() + 1
    &&& new.spec_events() == old.spec_events()
    &&& new.spec_servers() == old.spec_servers()
    &&& new.spec_resizes() == old.spec_resizes()
    &&& new.spec_hovers() == old.spec_hovers()
    &&& new.spec_pings() == old.spec_pings()
}

/// `new` is `old` after receiving `event`.
pub open spec fn heard<M: Menu>(new: M, old: M, event: KeyEvent) -> bool {
    &&& new.spec_activations() == old.spec_activations()
    &&& new.spec_hides() == old.spec_hides()
    &&& new.spec_events() == old.spec_events().push(event)
    &&& new.spec_servers() == old.spec_servers()
    &&& new.spec_resizes() == old.spec_resizes()
    &&& new.spec_hovers() == old.spec_hovers()
    &&& new.spec_pings() == old.spec_pings()
}

/// `new` is `old` after receiving `events`, in order.
pub open spec fn heard_all<M: Menu>(new: M, old: M, events: Seq<KeyEvent>) -> bool {
    &&& new.spec_activations() == old.spec_activations()
    &&& new.spec_hides() == old.spec_hides()
    &&& new.spec_events() == old.spec_events() + events
    &&& new.spec_servers() == old.spec_servers()
    &&& new.spec_resizes() == old.spec_resizes()
    &&& new.spec_hovers() == old.spec_hovers()
    &&& new.spec_pings() == old.spec_pings()
}

/// `new` is `old` after a server at `addr` answered with `info`.
pub open spec fn got_server<M: Menu>(new: M, old: M, addr: NetAddr, info: Seq<char>) -> bool {
    &&& new.spec_activations() == old.spec_activations()
    &&& new.spec_hides() == old.spec_hides()
    &&& new.spec_events() == old.spec_events()
    &&& new.spec_servers() == old.spec_servers().push((addr, info))
    &&& new.spec_resizes() == old.spec_resizes()
    &&& new.spec_hovers() == old.spec_hovers()
    &&& new.spec_pings() == old.spec_pings()
}

/// `new` is `old` told once more that the screen size changed.
pub open spec fn resized<M: Menu>(new: M, old: M) -> bool {
    &&& new.spec_activations() == old.spec_activations()
    &&& new.spec_hides() == old.spec_hides()
    &&& new.spec_events() == old.spec_events()
    &&& new.spec_servers() == old.spec_servers()
    &&& new.spec_resizes() == old.spec_resizes() + 1
    &&& new.spec_hovers() == old.spec_hovers()
    &&& new.spec_pings() == old.spec_pings()
}

/// `new` is `old` told of one more pointer move.
pub open spec fn hovered<M: Menu>(new: M, old: M) -> bool {
    &&& new.spec_activations() == old.spec_activations()
    &&& new.spec_hides() == old.spec_hides()
    &&& new.spec_events() == old.spec_events()
    &&& new.spec_servers() == old.spec_servers()
    &&& new.spec_resizes() == old.spec_resizes()
    &&& new.spec_hovers() == old.spec_hovers() + 1
    &&& new.spec_pings() == old.spec_pings()
}

/// `new` is `old` asked once more to measure pings.
pub open spec fn pinged<M: Menu>(new: M, old: M) -> bool {
    &&& new.spec_activations() == old.spec_activations()
    &&& new.spec_hides() == old.spec_hides()
    &&& new.spec_events() == old.spec_events()
    &&& new.spec_servers() == old.spec_servers()
    &&& new.spec_resizes() == old.spec_resizes()
    &&& new.spec_hovers() == old.spec_hovers()
    &&& new.spec_pings() == old.spec_pings() + 1
}

/// Where the host sends keyboard input.
#[derive(Copy, Clone, Debug, PartialEq, Eq, Structural)]
pub enum KeyDest {
    Game,
    Menu,
    Console,
}

/// Something the host has to do on the driver's behalf.
#[derive(Copy, Clone, Debug, PartialEq, Eq, Structural)]
pub enum Effect {
    Play(Sound),
    SetKeyDest(KeyDest),
    /// Run the "quit" command.
    Quit,
    FontSmaller,
    FontLarger,
}

/// Who receives input: the menus, or the quit question above them.
#[derive(Copy, Clone, Debug, PartialEq, Eq, Structural)]
pub enum UiFocus {
    Main,
    QuitPopup,
}

/// The left-button gesture in progress.
#[derive(Copy, Clone, Debug, PartialEq, Eq, Structural)]
pub enum Touch {
    /// Pressed at this pixel position, not moved yet.
    Start(Position),
    /// Dragged; last seen at this pixel position.
    Active(Position),
    Stop,
}

/// How many menus remain after `control` acts on a stack of `len`.
pub open spec fn depth_after<M>(len: nat, control: Control<M>) -> nat {
    match control {
        Control::Back | Control::BackHide => if len > 1 {
            (len - 1) as nat
        } else {
            len
        },
        Control::BackMain | Control::BackMainHide => if len > 1 {
            1
        } else {
            len
        },
        Control::Next(_) => len + 1,
        _ => len,
    }
}

/// How many menus remain after `controls`, one after another, act on a
/// stack of `len`.
pub open spec fn depth_after_all<M>(len: nat, controls: Seq<Control<M>>) -> nat
    decreases controls.len(),
{
    if controls.len() == 0 {
        len
    } else {
        depth_after_all(depth_after(len, controls[0]), controls.subrange(1, controls.len() as int))
    }
}

/// What the host is asked to do when `control` acts on a stack of `len`.
pub open spec fn control_effects<M>(len: nat, control: Control<M>) -> Seq<Effect> {
    match control {
        Control::Nothing => seq![],
        Control::Back => if len > 1 {
            seq![Effect::Play(Sound::SwitchMenu)]
        } else {
            seq![]
        },
        Control::BackHide => seq![Effect::SetKeyDest(KeyDest::Game)],
        Control::BackMain => seq![Effect::Play(Sound::SwitchMenu)],
        Control::BackMainHide => seq![
            Effect::Play(Sound::SwitchMenu),
            Effect::SetKeyDest(KeyDest::Game),
        ],
        Control::Hide => seq![Effect::SetKeyDest(KeyDest::Game)],
        Control::Next(_) => seq![Effect::Play(Sound::SwitchMenu)],
        Control::Console => seq![Effect::SetKeyDest(KeyDest::Console)],
        Control::GrabInput(_) => seq![],
        Control::QuitPopup => seq![Effect::Play(Sound::SelectItem)],
    }
}

/// Whether `control` hides the interface.
pub open spec fn control_hides<M>(control: Control<M>) -> bool {
    match control {
        Control::BackHide | Control::BackMainHide | Control::Hide | Control::Console => true,
        _ => false,
    }
}

/// The menu stack never empties: whatever controls the menus return, a
/// started stack keeps at least one menu, and "back" on the root menu
/// changes nothing and plays no sound.
pub proof fn lemma_stack_never_empty<M>(len: nat, controls: Seq<Control<M>>)
    requires
        len >= 1,
    ensures
        depth_after_all(len, controls) >= 1,
        depth_after(1, Control::<M>::Back) == 1,
        control_effects(1, Control::<M>::Back) == Seq::<Effect>::empty(),
    decreases controls.len(),
{
    if controls.len() > 0 {
        lemma_stack_never_empty(depth_after(len, controls[0]), controls.subrange(1, controls.len() as int));
    }
}

/// Where the driver sends a key press or release.
#[derive(Copy, Clone, Debug, PartialEq, Eq, Structural)]
pub enum Route {
    /// Dropped.
    Ignore,
    /// A modifier key changed state.
    Modifier,
    /// The left button went down: a click or a drag may follow.
    TouchBegin,
    /// The left button was held long enough to be a drag, and went up.
    TouchEnd,
    /// Escape on the root menu during a game returns to the game.
    HideToGame,
    /// Ctrl+Q asks whether to quit.
    QuitAsk,
    /// Ctrl+Z opens the console.
    Console,
    /// Ctrl+- makes the text smaller.
    FontSmaller,
    /// Ctrl+= makes the text larger.
    FontLarger,
    /// The quit question answers it.
    Popup,
    /// The visible menu handles it.
    Menu,
}


/// Where `key`, pressed or released, goes, given whether Ctrl is held,
/// whether input is grabbed, who has focus, how many menus are open, when
/// the left button went down, the time now in milliseconds, and whether a
/// game is running.
pub open spec fn key_route(
    key: Key,
    down: bool,
    ctrl: bool,
    grab: bool,
    focus: UiFocus,
    depth: nat,
    touch_start: u64,
    now: u64,
    in_game: bool,
) -> Route {
    if grab {
        if down {
            Route::Menu
        } else {
            Route::Ignore
        }
    } else if key == Key::Ctrl || key == Key::Shift || key == Key::Alt {
        Route::Modifier
    } else if key == Key::Mouse(0) && down {
        Route::TouchBegin
    } else if key == Key::Mouse(0) && now >= touch_start + TOUCH_THRESHOLD_MS {
        Route::TouchEnd
    } else if key != Key::Mouse(0) && !down {
        Route::Ignore
    } else if key == Key::Escape && depth == 1 && in_game {
        Route::HideToGame
    } else if focus == UiFocus::QuitPopup {
        Route::Popup
    } else if ctrl && key == Key::Char('q' as u8) {
        Route::QuitAsk
    } else if ctrl && key == Key::Char('z' as u8) {
        Route::Console
    } else if ctrl && key == Key::Char('-' as u8) {
        Route::FontSmaller
    } else if ctrl && key == Key::Char('=' as u8) {
        Route::FontLarger
    } else {
        Route::Menu
    }
}

/// The stack `f` is `h` with its top menu hidden once more.
pub open spec fn top_hidden<M: Menu>(h: Seq<M>, f: Seq<M>) -> bool {
    if h.len() >= 1 {
        &&& f.len() == h.len()
        &&& keeps_below(h, f, h.len() - 1)
        &&& hidden(f[h.len() - 1], h[h.len() - 1])
    } else {
        f == h
    }
}

/// The stack `f` that `control` makes of stack `h`, with what each menu
/// left on it was told: the menu that becomes the top is made visible, a
/// menu that stops being visible is hidden, and menus below the top are
/// left alone.
pub open spec fn control_outcome<M: Menu>(h: Seq<M>, f: Seq<M>, control: Control<M>) -> bool {
    let n = h.len();
    match control {
        Control::Back => if n > 1 {
            &&& f.len() == n - 1
            &&& keeps_below(h, f, n - 2)
            &&& activated(f[n - 2], h[n - 2])
        } else {
            f == h
        },
        Control::BackHide => if n > 1 {
            &&& f.len() == n - 1
            &&& keeps_below(h, f, n - 2)
            &&& activated_hidden(f[n - 2], h[n - 2])
        } else {
            top_hidden(h, f)
        },
        Control::BackMain => if n >= 1 {
            f.len() == 1 && activated(f[0], h[0])
        } else {
            f == h
        },
        Control::BackMainHide => if n >= 1 {
            f.len() == 1 && activated_hidden(f[0], h[0])
        } else {
            f == h
        },
        Control::Hide | Control::QuitPopup => top_hidden(h, f),
        Control::Next(m) => {
            &&& f.len() == n + 1
            &&& keeps_below(h, f, n as int)
            &&& activated(f[n as int], m)
        },
        _ => f == h,
    }
}

/// `after` is `before` followed by the menus of stack `h`, top first, each
/// hidden once more.
pub open spec fn closed_top_first<M: Menu>(h: Seq<M>, before: Seq<M>, after: Seq<M>) -> bool {
    &&& after.len() == before.len() + h.len()
    &&& forall|i: int| 0 <= i < before.len() ==> after[i] == before[i]
    &&& forall|i: int| 0 <= i < h.len() ==> hidden(#[trigger] after[before.len() + i], h[h.len() - 1 - i])
}

/// The wheel step that a drag from cell `pos` to cell `cursor` makes
/// across: left when the cursor moved left, right when it moved right.
pub open spec fn wheel_x(pos: Position, cursor: Position) -> Option<Key> {
    if pos.x > cursor.x {
        Some(Key::MouseWheelLeft(1))
    } else if pos.x < cursor.x {
        Some(Key::MouseWheelRight(1))
    } else {
        None
    }
}

/// The wheel step, with its raw code, that a drag from cell `pos` to cell
/// `cursor` makes up or down: down when the cursor moved up, up when it
/// moved down.
pub open spec fn wheel_y(pos: Position, cursor: Position) -> Option<(u8, Key)> {
    if pos.y > cursor.y {
        Some((K_MWHEELDOWN, Key::MouseWheelDown(1)))
    } else if pos.y < cursor.y {
        Some((K_MWHEELUP, Key::MouseWheelUp(1)))
    } else {
        None
    }
}

/// The wheel events that a drag from cell `pos` to cell `cursor` hands the
/// visible menu, with `modifier` held: the step across, then the one up or
/// down.
pub open spec fn wheel_events(pos: Position, cursor: Position, modifier: Modifier) -> Seq<KeyEvent> {
    (match wheel_x(pos, cursor) {
        Some(k) => seq![KeyEvent::spec_with_key(0, modifier, true, k)],
        None => Seq::empty(),
    }) + (match wheel_y(pos, cursor) {
        Some((r, k)) => seq![KeyEvent::spec_with_key(r, modifier, true, k)],
        None => Seq::empty(),
    })
}

/// The wheel steps that a drag from cell `pos` to cell `cursor` makes.
pub fn wheel_keys(pos: Position, cursor: Position) -> (r: (Option<Key>, Option<(u8, Key)>))
    ensures
        r == (wheel_x(pos, cursor), wheel_y(pos, cursor)),
{
    let horizontal = if pos.x > cursor.x {
        Some(Key::MouseWheelLeft(1))
    } else if pos.x < cursor.x {
        Some(Key::MouseWheelRight(1))
    } else {
        None
    };
    let vertical = if pos.y > cursor.y {
        Some((K_MWHEELDOWN, Key::MouseWheelDown(1)))
    } else if pos.y < cursor.y {
        Some((K_MWHEELUP, Key::MouseWheelUp(1)))
    } else {
        None
    };
    (horizontal, vertical)
}

/// The stack `f` is `h` with its top menu told `events` as well.
pub open spec fn told_top<M: Menu>(h: Seq<M>, f: Seq<M>, events: Seq<KeyEvent>) -> bool {
    if h.len() >= 1 {
        &&& f.len() == h.len()
        &&& keeps_below(h, f, h.len() - 1)
        &&& heard_all(f[h.len() - 1], h[h.len() - 1], events)
    } else {
        f == h
    }
}

/// The stack `f` is `h` with its top menu told of one more pointer move.
pub open spec fn hovered_top<M: Menu>(h: Seq<M>, f: Seq<M>) -> bool {
    if h.len() >= 1 {
        &&& f.len() == h.len()
        &&& keeps_below(h, f, h.len() - 1)
        &&& hovered(f[h.len() - 1], h[h.len() - 1])
    } else {
        f == h
    }
}

/// The touch events that a pointer now at `pointer` hands the visible menu
/// while `touch` is in progress: a start at the cell where a new drag began,
/// then the motion in pixels since the last position, if it moved.
pub open spec fn touch_events(touch: Touch, pointer: Pointer, modifier: Modifier) -> Seq<KeyEvent> {
    let new = pointer.spec_mouse();
    match touch {
        Touch::Stop => Seq::empty(),
        Touch::Start(prev) | Touch::Active(prev) => {
            let start = if touch is Start {
                seq![
                    KeyEvent::spec_with_key(
                        0,
                        modifier,
                        true,
                        Key::TouchStart(
                            cell_at(pointer.spec_width(), pointer.spec_height(), pointer.spec_cell(), prev),
                        ),
                    ),
                ]
            } else {
                Seq::empty()
            };
            let motion = if prev != new {
                seq![
                    KeyEvent::spec_with_key(
                        0,
                        modifier,
                        true,
                        Key::Touch((prev.x - new.x) as i32, (prev.y - new.y) as i32),
                    ),
                ]
            } else {
                Seq::empty()
            };
            start + motion
        },
    }
}

/// The first `n` menus of `new` are those of `old`.
pub open spec fn keeps_below<M>(old: Seq<M>, new: Seq<M>, n: int) -> bool {
    forall|i: int| 0 <= i < n ==> new[i] == old[i]
}

/// The driver: the stack of menus, the quit question, input grabbing and
/// the left-button gesture.
pub struct Ui<M> {
    history: Vec<M>,
    active: bool,
    grab_input: bool,
    modifier: Modifier,
    focus: UiFocus,
    /// When the left button went down, in milliseconds.
    touch_start: u64,
    touch: Touch,
    /// The cell where a drag that scrolls like a wheel was last seen.
    emulated_wheel: Option<Position>,
    quit_popup: Option<ConfirmPopup>,
    pointer: Pointer,
    effects: Vec<Effect>,
    /// The menus torn down by quitting, in the order they were closed.
    closed: Ghost<Seq<M>>,
}

impl<M: Menu> Ui<M> {
    pub closed spec fn spec_closed(&self) -> Seq<M> {
        self.closed@
    }

    pub closed spec fn spec_history(&self) -> Seq<M> {
        self.history@
    }

    pub closed spec fn spec_active(&self) -> bool {
        self.active
    }

    pub closed spec fn spec_grab_input(&self) -> bool {
        self.grab_input
    }

    pub closed spec fn spec_modifier(&self) -> Modifier {
        self.modifier
    }

    pub closed spec fn spec_focus(&self) -> UiFocus {
        self.focus
    }

    pub closed spec fn spec_touch(&self) -> Touch {
        self.touch
    }

    pub closed spec fn spec_emulated_wheel(&self) -> Option<Position> {
        self.emulated_wheel
    }

    pub open spec fn spec_has_quit_popup(&self) -> bool {
        self.spec_quit_popup() is Some
    }

    pub closed spec fn spec_quit_popup(&self) -> Option<ConfirmPopup> {
        self.quit_popup
    }

    pub closed spec fn spec_touch_start(&self) -> u64 {
        self.touch_start
    }

    pub closed spec fn spec_pointer(&self) -> Pointer {
        self.pointer
    }

    /// What the host has been asked to do and has not taken yet.
    pub closed spec fn spec_effects(&self) -> Seq<Effect> {
        self.effects@
    }

    pub closed spec fn wf(&self) -> bool {
        self.pointer.wf()
    }

    /// A hidden driver with no menu yet, on a screen of `width` x `height`
    /// pixels drawn in cells of `cell`.
    pub fn new(width: u32, height: u32, cell: Size) -> (r: Self)
        requires
            cell.width > 0,
            cell.height > 0,
        ensures
            r.wf(),
            r.spec_history().len() == 0,
            !r.spec_active(),
            !r.spec_grab_input(),
            r.spec_focus() == UiFocus::Main,
            r.spec_touch() == Touch::Stop,
            r.spec_emulated_wheel() is None,
            r.spec_modifier() == (Modifier { ctrl: false, shift: false, alt: false }),
            r.spec_effects().len() == 0,
    {
        Ui {
            history: Vec::new(),
            active: false,
            grab_input: false,
            modifier: Modifier { ctrl: false, shift: false, alt: false },
            focus: UiFocus::Main,
            touch_start: 0,
            touch: Touch::Stop,
            emulated_wheel: None,
            quit_popup: None,
            pointer: Pointer::new(width, height, cell),
            effects: Vec::new(),
            closed: Ghost(Seq::empty()),
        }
    }

    /// Whether the first menu has been put on the stack.
    pub fn is_started(&self) -> (r: bool)
        ensures
            r == (self.spec_history().len() > 0),
    {
        self.history.len() > 0
    }

    /// Puts the root menu on the empty stack, with the quit question that
    /// the driver asks.
    pub fn start(&mut self, main: M, quit_popup: ConfirmPopup)
        requires
            old(self).spec_history().len() == 0,
        ensures
            final(self).spec_history() == seq![main],
            final(self).spec_quit_popup() == Some(quit_popup),
            final(self).spec_active() == old(self).spec_active(),
            final(self).spec_focus() == old(self).spec_focus(),
            final(self).spec_grab_input() == old(self).spec_grab_input(),
            final(self).spec_effects() == old(self).spec_effects(),
            final(self).spec_pointer() == old(self).spec_pointer(),
    {
        self.history.push(main);
        self.quit_popup = Some(quit_popup);
        proof {
            assert(self.history@ =~= seq![main]);
        }
    }

    /// How many menus are on the stack.
    pub fn depth(&self) -> (r: usize)
        ensures
            r == self.spec_history().len(),
    {
        self.history.len()
    }

    /// The visible menu.
    pub fn top(&self) -> (r: Option<&M>)
        ensures
            self.spec_history().len() == 0 ==> r is None,
            self.spec_history().len() > 0 ==> r == Some(&self.spec_history().last()),
    {
        if self.history.len() > 0 {
            Some(&self.history[self.history.len() - 1])
        } else {
            None
        }
    }

    /// The visible menu, to draw it.
    pub fn top_mut(&mut self) -> (r: Option<&mut M>)
        ensures
            (r is None) == (old(self).spec_history().len() == 0),
    {
        let len = self.history.len();
        if len > 0 {
            Some(&mut self.history[len - 1])
        } else {
            None
        }
    }

    /// The quit question, to draw it.
    pub fn quit_popup_mut(&mut self) -> (r: Option<&mut ConfirmPopup>)
        ensures
            (r is None) == !old(self).spec_has_quit_popup(),
    {
        self.quit_popup.as_mut()
    }

    pub fn pointer(&self) -> (r: &Pointer)
        ensures
            *r == self.spec_pointer(),
    {
        &self.pointer
    }

    pub fn focus(&self) -> (r: UiFocus)
        ensures
            r == self.spec_focus(),
    {
        self.focus
    }

    pub fn is_grabbing_input(&self) -> (r: bool)
        ensures
            r == self.spec_grab_input(),
    {
        self.grab_input
    }

    pub fn is_visible(&self) -> (r: bool)
        ensures
            r == self.spec_active(),
    {
        self.active
    }

    /// Hands over what the host has to do, oldest first.
    pub fn take_effects(&mut self) -> (r: Vec<Effect>)
        ensures
            r@ == old(self).spec_effects(),
            final(self).spec_effects().len() == 0,
            final(self).spec_history() == old(self).spec_history(),
            final(self).spec_active() == old(self).spec_active(),
            final(self).spec_grab_input() == old(self).spec_grab_input(),
            final(self).spec_focus() == old(self).spec_focus(),
            final(self).spec_modifier() == old(self).spec_modifier(),
            final(self).spec_touch() == old(self).spec_touch(),
            final(self).spec_emulated_wheel() == old(self).spec_emulated_wheel(),
            final(self).spec_has_quit_popup() == old(self).spec_has_quit_popup(),
            final(self).spec_pointer() == old(self).spec_pointer(),
            final(self).wf() == old(self).wf(),
    {
        let mut r = Vec::new();
        std::mem::swap(&mut r, &mut self.effects);
        r
    }

    fn emit(&mut self, e: Effect)
        ensures
            final(self).spec_effects() == old(self).spec_effects().push(e),
            final(self).spec_history() == old(self).spec_history(),
            final(self).spec_active() == old(self).spec_active(),
            final(self).spec_grab_input() == old(self).spec_grab_input(),
            final(self).spec_focus() == old(self).spec_focus(),
            final(self).spec_modifier() == old(self).spec_modifier(),
            final(self).spec_touch() == old(self).spec_touch(),
            final(self).spec_emulated_wheel() == old(self).spec_emulated_wheel(),
            final(self).spec_has_quit_popup() == old(self).spec_has_quit_popup(),
            final(self).spec_pointer() == old(self).spec_pointer(),
            final(self).same_input(old(self)),
            final(self).spec_closed() == old(self).spec_closed(),
            final(self).wf() == old(self).wf(),
    {
        self.effects.push(e);
    }
    /// The input gesture and pointer state are those of `other`.
    pub closed spec fn same_input(&self, other: &Self) -> bool {
        &&& self.modifier == other.modifier
        &&& self.touch == other.touch
        &&& self.touch_start == other.touch_start
        &&& self.emulated_wheel == other.emulated_wheel
        &&& self.quit_popup == other.quit_popup
        &&& self.pointer == other.pointer
    }

    /// Shows or hides the interface. Hiding tells the visible menu first;
    /// showing plays the menu sound.
    pub fn set_active_menu(&mut self, active: bool)
        ensures
            final(self).spec_active() == active,
            final(self).spec_grab_input() == old(self).spec_grab_input(),
            final(self).spec_focus() == old(self).spec_focus(),
            final(self).same_input(old(self)),
            final(self).wf() == old(self).wf(),
            active ==> final(self).spec_history() == old(self).spec_history(),
            !active ==> top_hidden(old(self).spec_history(), final(self).spec_history()),
            final(self).spec_effects() == old(self).spec_effects() + (if active {
                seq![Effect::SetKeyDest(KeyDest::Menu), Effect::Play(Sound::SwitchMenu)]
            } else {
                seq![Effect::SetKeyDest(KeyDest::Game)]
            }),
    {
        self.active = active;
        if active {
            self.emit(Effect::SetKeyDest(KeyDest::Menu));
            self.emit(Effect::Play(Sound::SwitchMenu));
        } else {
            let len = self.history.len();
            if len > 0 {
                self.history[len - 1].on_menu_hide();
            }
            self.emit(Effect::SetKeyDest(KeyDest::Game));
        }
        proof {
            assert(self.effects@ =~= old(self).effects@ + (if active {
                seq![Effect::SetKeyDest(KeyDest::Menu), Effect::Play(Sound::SwitchMenu)]
            } else {
                seq![Effect::SetKeyDest(KeyDest::Game)]
            }));
        }
    }

    fn activate_console(&mut self, console: bool)
        ensures
            final(self).spec_active() == !console,
            final(self).spec_history() == old(self).spec_history(),
            final(self).spec_grab_input() == old(self).spec_grab_input(),
            final(self).spec_focus() == old(self).spec_focus(),
            final(self).same_input(old(self)),
            final(self).wf() == old(self).wf(),
            final(self).spec_effects() == old(self).spec_effects().push(
                Effect::SetKeyDest(if console { KeyDest::Console } else { KeyDest::Menu }),
            ),
    {
        self.active = !console;
        if console {
            self.emit(Effect::SetKeyDest(KeyDest::Console));
        } else {
            self.emit(Effect::SetKeyDest(KeyDest::Menu));
        }
    }

    /// Returns from the console to the menus.
    pub fn leave_console(&mut self)
        ensures
            final(self).spec_active(),
            final(self).spec_history() == old(self).spec_history(),
            final(self).spec_focus() == old(self).spec_focus(),
            final(self).spec_effects() == old(self).spec_effects().push(
                Effect::SetKeyDest(KeyDest::Menu),
            ),
    {
        self.activate_console(false);
    }

    /// Pops the visible menu unless it is the root, and tells the new top.
    fn back(&mut self) -> (popped: bool)
        ensures
            popped == (old(self).spec_history().len() > 1),
            final(self).spec_history().len() == depth_after(
                old(self).spec_history().len(),
                Control::<M>::Back,
            ),
            keeps_below(old(self).spec_history(), final(self).spec_history(), final(self).spec_history().len() - 1),
            !popped ==> final(self).spec_history() == old(self).spec_history(),
            popped ==> activated(
                final(self).spec_history()[old(self).spec_history().len() - 2],
                old(self).spec_history()[old(self).spec_history().len() - 2],
            ),
            final(self).spec_active() == old(self).spec_active(),
            final(self).spec_grab_input() == old(self).spec_grab_input(),
            final(self).spec_focus() == old(self).spec_focus(),
            final(self).same_input(old(self)),
            final(self).wf() == old(self).wf(),
            final(self).spec_effects() == old(self).spec_effects(),
    {
        if self.history.len() > 1 {
            self.history.pop();
            let len = self.history.len();
            self.history[len - 1].active();
            true
        } else {
            false
        }
    }

    /// Pops every menu but the root and tells it.
    fn back_main(&mut self)
        ensures
            final(self).spec_history().len() == depth_after(
                old(self).spec_history().len(),
                Control::<M>::BackMain,
            ),
            old(self).spec_history().len() >= 1 ==> activated(
                final(self).spec_history()[0],
                old(self).spec_history()[0],
            ),
            old(self).spec_history().len() == 0 ==> final(self).spec_history() == old(self).spec_history(),
            final(self).spec_active() == old(self).spec_active(),
            final(self).spec_grab_input() == old(self).spec_grab_input(),
            final(self).spec_focus() == old(self).spec_focus(),
            final(self).same_input(old(self)),
            final(self).wf() == old(self).wf(),
            final(self).spec_effects() == old(self).spec_effects().push(Effect::Play(Sound::SwitchMenu)),
    {
        assert(old(self).history@.subrange(0, old(self).history@.len() as int) =~= old(self).history@);
        while self.history.len() > 1
            invariant
                self.history@.len() >= 1 || self.history@.len() == old(self).history@.len(),
                self.history@.len() <= old(self).history@.len(),
                old(self).history@.len() > 1 ==> self.history@.len() >= 1,
                self.history@ == old(self).history@.subrange(0, self.history@.len() as int),
                self.active == old(self).active,
                self.grab_input == old(self).grab_input,
                self.focus == old(self).focus,
                self.same_input(old(self)),
                self.effects@ == old(self).effects@,
            decreases self.history@.len(),
        {
            self.history.pop();
            assert(self.history@ =~= old(self).history@.subrange(0, self.history@.len() as int));
        }
        self.emit(Effect::Play(Sound::SwitchMenu));
        if self.history.len() > 0 {
            self.history[0].active();
        }
    }

    /// Carries out what a menu asked for after an input event.
    pub fn apply_control(&mut self, control: Control<M>)
        ensures
            final(self).spec_history().len() == depth_after(old(self).spec_history().len(), control),
            control_outcome(old(self).spec_history(), final(self).spec_history(), control),
            final(self).spec_effects() == old(self).spec_effects() + control_effects(
                old(self).spec_history().len(),
                control,
            ),
            final(self).spec_active() == (if control_hides(control) {
                false
            } else {
                old(self).spec_active()
            }),
            final(self).spec_grab_input() == (match control {
                Control::GrabInput(enabled) => enabled,
                _ => old(self).spec_grab_input(),
            }),
            final(self).spec_focus() == (match control {
                Control::QuitPopup => UiFocus::QuitPopup,
                _ => old(self).spec_focus(),
            }),
            final(self).same_input(old(self)),
            final(self).wf() == old(self).wf(),
    {
        let ghost len = self.history@.len();
        match control {
            Control::Nothing => {},
            Control::Back => {
                if self.back() {
                    self.emit(Effect::Play(Sound::SwitchMenu));
                }
            },
            Control::BackHide => {
                self.back();
                self.set_active_menu(false);
            },
            Control::BackMain => {
                self.back_main();
            },
            Control::BackMainHide => {
                self.back_main();
                self.set_active_menu(false);
            },
            Control::Hide => {
                self.set_active_menu(false);
            },
            Control::Next(menu) => {
                let mut menu = menu;
                menu.active();
                self.history.push(menu);
                self.emit(Effect::Play(Sound::SwitchMenu));
                assert(self.history@[len as int] == menu);
            },
            Control::Console => {
                self.activate_console(true);
            },
            Control::GrabInput(enabled) => {
                self.grab_input = enabled;
            },
            Control::QuitPopup => {
                self.change_state_quit();
            },
        }
        proof {
            assert(self.effects@ =~= old(self).effects@ + control_effects(len, control));
        }
    }

    /// `after` is this driver once the visible menu received `event` and
    /// its answer was carried out: a grab of input ends on any answer but
    /// "nothing", and the stack, the effects, the focus and the visibility
    /// change as the answer says.
    pub open spec fn spec_turn(&self, after: &Self, event: KeyEvent) -> bool {
        let h = self.spec_history();
        let n = h.len();
        let c = h[n - 1].spec_answer(event);
        if n == 0 {
            &&& after.spec_history() == h
            &&& after.spec_effects() == self.spec_effects()
            &&& after.spec_grab_input() == self.spec_grab_input()
            &&& after.spec_focus() == self.spec_focus()
            &&& after.spec_active() == self.spec_active()
        } else {
            &&& exists|t: M|
                heard(t, h[n - 1], event) && control_outcome(
                    #[trigger] h.update(n - 1, t),
                    after.spec_history(),
                    c,
                )
            &&& after.spec_history().len() == depth_after(n, c)
            &&& after.spec_effects() == self.spec_effects() + control_effects(n, c)
            &&& after.spec_grab_input() == (match c {
                Control::GrabInput(enabled) => enabled,
                Control::Nothing => self.spec_grab_input(),
                _ => false,
            })
            &&& after.spec_focus() == (match c {
                Control::QuitPopup => UiFocus::QuitPopup,
                _ => self.spec_focus(),
            })
            &&& after.spec_active() == (if control_hides(c) {
                false
            } else {
                self.spec_active()
            })
        }
    }

    /// `after` is this driver once the visible menu received `events`, one
    /// after another, each answer carried out as `spec_turn` says.
    pub open spec fn spec_turns(&self, after: &Self, events: Seq<KeyEvent>) -> bool
        decreases events.len(),
    {
        if events.len() == 0 {
            &&& after.spec_history() == self.spec_history()
            &&& after.spec_effects() == self.spec_effects()
            &&& after.spec_grab_input() == self.spec_grab_input()
            &&& after.spec_focus() == self.spec_focus()
            &&& after.spec_active() == self.spec_active()
        } else {
            exists|mid: Self|
                #[trigger] self.spec_turn(&mid, events[0]) && mid.spec_turns(
                    after,
                    events.subrange(1, events.len() as int),
                )
        }
    }

    /// Hands an input event to the visible menu and carries out what it
    /// asks, as `spec_turn` says.
    pub fn key_event_menu(&mut self, event: KeyEvent)
        ensures
            old(self).spec_turn(final(self), event),
            final(self).same_input(old(self)),
            final(self).wf() == old(self).wf(),
    {
        let len = self.history.len();
        if len == 0 {
            return;
        }
        let ghost h = self.history@;
        let control = self.history[len - 1].key_event(&self.pointer, event);
        let ghost mid = self.history@;
        assert(mid =~= h.update(len - 1, mid[len - 1]));
        let is_nothing = match control {
            Control::Nothing => true,
            _ => false,
        };
        if self.grab_input && !is_nothing {
            self.grab_input = false;
        }
        self.apply_control(control);
        assert(heard(mid[len - 1], h[len - 1], event));
        assert(control_outcome(h.update(len - 1, mid[len - 1]), self.history@, control));
    }

    fn change_state_quit(&mut self)
        ensures
            final(self).spec_focus() == UiFocus::QuitPopup,
            top_hidden(old(self).spec_history(), final(self).spec_history()),
            final(self).spec_effects() == old(self).spec_effects().push(Effect::Play(Sound::SelectItem)),
            final(self).spec_active() == old(self).spec_active(),
            final(self).spec_grab_input() == old(self).spec_grab_input(),
            final(self).same_input(old(self)),
            final(self).wf() == old(self).wf(),
    {
        let len = self.history.len();
        if len > 0 {
            self.history[len - 1].on_menu_hide();
        }
        self.focus = UiFocus::QuitPopup;
        self.emit(Effect::Play(Sound::SelectItem));
    }

    fn change_state_deny(&mut self)
        ensures
            final(self).spec_focus() == UiFocus::Main,
            final(self).spec_history() == old(self).spec_history(),
            final(self).spec_effects() == old(self).spec_effects().push(Effect::Play(Sound::Deny)),
            final(self).spec_active() == old(self).spec_active(),
            final(self).spec_grab_input() == old(self).spec_grab_input(),
            final(self).same_input(old(self)),
            final(self).wf() == old(self).wf(),
    {
        self.focus = UiFocus::Main;
        self.emit(Effect::Play(Sound::Deny));
    }

    /// Tears the stack down, hiding each menu from the top, and quits.
    fn quit(&mut self)
        ensures
            final(self).spec_history().len() == 0,
            closed_top_first(old(self).spec_history(), old(self).spec_closed(), final(self).spec_closed()),
            final(self).spec_effects() == old(self).spec_effects().push(Effect::Quit),
            final(self).spec_active() == old(self).spec_active(),
            final(self).spec_grab_input() == old(self).spec_grab_input(),
            final(self).spec_focus() == old(self).spec_focus(),
            final(self).same_input(old(self)),
            final(self).wf() == old(self).wf(),
    {
        let ghost h = self.history@;
        let ghost c0 = self.closed@;
        while self.history.len() > 0
            invariant
                self.history@ == h.subrange(0, self.history@.len() as int),
                self.history@.len() <= h.len(),
                h == old(self).history@,
                c0 == old(self).closed@,
                self.closed@.len() == c0.len() + (h.len() - self.history@.len()),
                forall|i: int| 0 <= i < c0.len() ==> self.closed@[i] == c0[i],
                forall|i: int|
                    0 <= i < h.len() - self.history@.len() ==> hidden(#[trigger] self.closed@[c0.len() + i], h[h.len() - 1 - i]),
                self.active == old(self).active,
                self.grab_input == old(self).grab_input,
                self.focus == old(self).focus,
                self.same_input(old(self)),
                self.effects@ == old(self).effects@,
            decreases self.history@.len(),
        {
            let ghost before = self.history@;
            let mut menu = self.history.pop().unwrap();
            assert(menu == h[before.len() - 1]);
            menu.on_menu_hide();
            proof {
                self.closed = Ghost(self.closed@.push(menu));
            }
            assert(self.history@ =~= h.subrange(0, self.history@.len() as int));
        }
        self.emit(Effect::Quit);
    }

    /// Where a key event of raw code `key` goes now.
    pub open spec fn spec_route(&self, key: i32, down: bool, now: u64, in_game: bool) -> Route {
        key_route(
            key_of(key as u8),
            down,
            self.spec_modifier().ctrl,
            self.spec_grab_input(),
            self.spec_focus(),
            self.spec_history().len(),
            self.spec_touch_start(),
            now,
            in_game,
        )
    }

    /// A key went down or up; `now` is the time in milliseconds and
    /// `in_game` whether a game is running.
    pub fn key_event(&mut self, key: i32, down: bool, now: u64, in_game: bool)
        requires
            old(self).wf(),
        ensures
            final(self).wf(),
            (old(self).spec_route(key, down, now, in_game) == Route::Ignore ==> *final(self) == *old(self)),
            (old(self).spec_route(key, down, now, in_game) == Route::Modifier ==> {
                    &&& final(self).spec_modifier() == (if key_of(key as u8) == Key::Ctrl {
                        Modifier { ctrl: down, ..old(self).spec_modifier() }
                    } else if key_of(key as u8) == Key::Shift {
                        Modifier { shift: down, ..old(self).spec_modifier() }
                    } else {
                        Modifier { alt: down, ..old(self).spec_modifier() }
                    })
                    &&& final(self).spec_history() == old(self).spec_history()
                    &&& final(self).spec_effects() == old(self).spec_effects()
                    &&& final(self).spec_focus() == old(self).spec_focus()
                    &&& final(self).spec_touch() == old(self).spec_touch()
                    &&& final(self).spec_emulated_wheel() == old(self).spec_emulated_wheel()
                    &&& final(self).spec_active() == old(self).spec_active()
                    &&& final(self).spec_grab_input() == old(self).spec_grab_input()
                    &&& final(self).spec_pointer() == old(self).spec_pointer()
                }),
            (old(self).spec_route(key, down, now, in_game) == Route::TouchBegin ==> {
                    &&& final(self).spec_touch() == Touch::Start(old(self).spec_pointer().spec_mouse())
                    &&& final(self).spec_emulated_wheel() == Some(old(self).spec_pointer().spec_cursor())
                    &&& final(self).spec_touch_start() == now
                    &&& final(self).spec_history() == old(self).spec_history()
                    &&& final(self).spec_effects() == old(self).spec_effects()
                    &&& final(self).spec_focus() == old(self).spec_focus()
                }),
            (old(self).spec_route(key, down, now, in_game) == Route::TouchEnd ==> {
                    &&& final(self).spec_touch() == Touch::Stop
                    &&& final(self).spec_emulated_wheel() is None
                    &&& old(self).spec_touch() == Touch::Stop ==> final(self).spec_history() == old(self).spec_history()
                        && final(self).spec_effects() == old(self).spec_effects()
                    &&& old(self).spec_touch() != Touch::Stop ==> old(self).spec_turn(
                        final(self),
                        KeyEvent::spec_with_key(
                            0,
                            old(self).spec_modifier(),
                            true,
                            Key::TouchStop(old(self).spec_pointer().spec_mouse()),
                        ),
                    )
                }),
            (old(self).spec_route(key, down, now, in_game) == Route::HideToGame ==> {
                    &&& !final(self).spec_active()
                    &&& top_hidden(old(self).spec_history(), final(self).spec_history())
                    &&& final(self).spec_history().len() == 1
                    &&& final(self).spec_effects() == old(self).spec_effects().push(Effect::SetKeyDest(KeyDest::Game))
                }),
            (old(self).spec_route(key, down, now, in_game) == Route::QuitAsk ==> {
                    &&& final(self).spec_focus() == UiFocus::QuitPopup
                    &&& top_hidden(old(self).spec_history(), final(self).spec_history())
                    &&& final(self).spec_effects() == old(self).spec_effects().push(Effect::Play(Sound::SelectItem))
                }),
            (old(self).spec_route(key, down, now, in_game) == Route::Console ==> {
                    &&& !final(self).spec_active()
                    &&& final(self).spec_history() == old(self).spec_history()
                    &&& final(self).spec_effects() == old(self).spec_effects().push(Effect::SetKeyDest(KeyDest::Console))
                }),
            (old(self).spec_route(key, down, now, in_game) == Route::FontSmaller ==> final(self).spec_history() == old(self).spec_history()
                    && final(self).spec_effects() == old(self).spec_effects().push(Effect::FontSmaller)),
            (old(self).spec_route(key, down, now, in_game) == Route::FontLarger ==> final(self).spec_history() == old(self).spec_history()
                    && final(self).spec_effects() == old(self).spec_effects().push(Effect::FontLarger)),
            (old(self).spec_route(key, down, now, in_game) == Route::Popup ==> match old(self).spec_quit_popup() {
                    Some(p) => {
                        let (_, answer, _) = confirm_step(
                            p.spec_focus(),
                            p.spec_cancel_area(),
                            p.spec_yes_area(),
                            old(self).spec_pointer().spec_cursor(),
                            key_of(key as u8),
                        );
                        &&& answer == ConfirmResult::Nothing ==> final(self).spec_focus() == UiFocus::QuitPopup
                            && final(self).spec_history() == old(self).spec_history()
                            && final(self).spec_effects() == old(self).spec_effects()
                        &&& answer == ConfirmResult::Cancel ==> final(self).spec_focus() == UiFocus::Main
                            && final(self).spec_history() == old(self).spec_history()
                            && final(self).spec_effects() == old(self).spec_effects().push(Effect::Play(Sound::Deny))
                        &&& answer == ConfirmResult::Accept ==> final(self).spec_history().len() == 0
                            && closed_top_first(
                            old(self).spec_history(),
                            old(self).spec_closed(),
                            final(self).spec_closed(),
                        ) && final(self).spec_effects() == old(self).spec_effects().push(Effect::Quit)
                    },
                    None => final(self).spec_history() == old(self).spec_history()
                        && final(self).spec_effects() == old(self).spec_effects()
                        && final(self).spec_focus() == old(self).spec_focus(),
                }),
            (old(self).spec_route(key, down, now, in_game) == Route::Menu ==> {
                &&& old(self).spec_turn(
                    final(self),
                    KeyEvent::spec_with_key(key as u8, old(self).spec_modifier(), down, key_of(key as u8)),
                )
                &&& old(self).spec_grab_input() || key_of(key as u8) != Key::Mouse(0) ==> final(self).same_input(old(self))
                &&& !old(self).spec_grab_input() && key_of(key as u8) == Key::Mouse(0) ==> final(self).spec_touch() == Touch::Stop && final(self).spec_emulated_wheel() is None
            }),
            (old(self).spec_route(key, down, now, in_game) == Route::Menu && old(self).spec_history().len() > 0 ==> final(self).spec_history().len() >= 1),
    {
        let event = KeyEvent::new(key as u8, self.modifier, down);
        let k = event.key();
        if self.grab_input {
            if down {
                self.key_event_menu(event);
            }
            return;
        }
        match k {
            Key::Ctrl => {
                self.modifier.ctrl = down;
                return;
            },
            Key::Shift => {
                self.modifier.shift = down;
                return;
            },
            Key::Alt => {
                self.modifier.alt = down;
                return;
            },
            _ => {},
        }
        if k == Key::Mouse(0) {
            if down {
                self.touch_start = now;
                self.touch = Touch::Start(self.pointer.cursor_position_in_pixels());
                self.emulated_wheel = Some(self.pointer.cursor_position());
                return;
            }
            let was_dragging = match self.touch {
                Touch::Stop => false,
                _ => true,
            };
            let held = now >= self.touch_start && now - self.touch_start >= TOUCH_THRESHOLD_MS;
            self.touch = Touch::Stop;
            self.emulated_wheel = None;
            if held {
                if was_dragging {
                    let stop = Key::TouchStop(self.pointer.cursor_position_in_pixels());
                    self.key_event_menu(KeyEvent::new_touch(self.modifier, stop));
                }
                return;
            }
        } else if !down {
            return;
        }
        if k == Key::Escape && self.history.len() == 1 && in_game {
            self.set_active_menu(false);
            return;
        }
        match self.focus {
            UiFocus::Main => {
                if event.ctrl() && k == Key::Char('q' as u8) {
                    self.change_state_quit();
                } else if event.ctrl() && k == Key::Char('z' as u8) {
                    self.activate_console(true);
                } else if event.ctrl() && k == Key::Char('-' as u8) {
                    self.emit(Effect::FontSmaller);
                } else if event.ctrl() && k == Key::Char('=' as u8) {
                    self.emit(Effect::FontLarger);
                } else {
                    self.key_event_menu(event);
                }
            },
            UiFocus::QuitPopup => {
                let answer = match &mut self.quit_popup {
                    Some(popup) => popup.key_event(&self.pointer, event),
                    None => ConfirmResult::Nothing,
                };
                match answer {
                    ConfirmResult::Nothing => {},
                    ConfirmResult::Cancel => self.change_state_deny(),
                    ConfirmResult::Accept => self.quit(),
                }
            },
        }
    }
    /// Turns a left-button drag into touch events for the visible menu: a
    /// start at the cell where it began, then each motion in pixels.
    fn handle_touch(&mut self)
        requires
            old(self).wf(),
        ensures
            final(self).wf(),
            old(self).spec_touch() == Touch::Stop ==> *final(self) == *old(self),
            old(self).spec_touch() != Touch::Stop ==> final(self).spec_touch() == Touch::Active(
                old(self).spec_pointer().spec_mouse(),
            ),
            old(self).spec_turns(
                final(self),
                touch_events(old(self).spec_touch(), old(self).spec_pointer(), old(self).spec_modifier()),
            ),
            final(self).spec_pointer() == old(self).spec_pointer(),
            final(self).spec_modifier() == old(self).spec_modifier(),
            final(self).spec_emulated_wheel() == old(self).spec_emulated_wheel(),
            old(self).spec_history().len() >= 1 ==> final(self).spec_history().len() >= 1,
    {
        let ghost s0 = *self;
        let prev = match self.touch {
            Touch::Start(p) => p,
            Touch::Active(p) => p,
            Touch::Stop => {
                return;
            },
        };
        let new = self.pointer.cursor_position_in_pixels();
        let m = self.modifier;
        let ghost start_events: Seq<KeyEvent> = Seq::empty();
        if let Touch::Start(_) = self.touch {
            let start = Key::TouchStart(self.pointer.mouse_to_cursor(prev));
            let e = KeyEvent::new_touch(m, start);
            self.key_event_menu(e);
            proof {
                start_events = seq![e];
            }
        }
        let ghost s1 = *self;
        let ghost motion_events: Seq<KeyEvent> = Seq::empty();
        if prev != new {
            let dx = prev.x as i32 - new.x as i32;
            let dy = prev.y as i32 - new.y as i32;
            let e = KeyEvent::new_touch(m, Key::Touch(dx, dy));
            self.key_event_menu(e);
            proof {
                motion_events = seq![e];
            }
        }
        let ghost s2 = *self;
        self.touch = Touch::Active(new);
        proof {
            let fin = *self;
            assert(touch_events(s0.touch, s0.pointer, s0.modifier) =~= start_events + motion_events);
            assert(s2.spec_turns(&fin, Seq::empty()));
            if motion_events.len() > 0 {
                assert(motion_events =~= seq![motion_events[0]] + Seq::<KeyEvent>::empty());
                lemma_turns_step(s1, s2, fin, motion_events[0], Seq::empty());
            } else {
                lemma_turns_same_start(s2, s1, fin, Seq::empty());
            }
            assert(s1.spec_turns(&fin, motion_events));
            if start_events.len() > 0 {
                lemma_turns_step(s0, s1, fin, start_events[0], motion_events);
                assert(seq![start_events[0]] + motion_events =~= start_events + motion_events);
            } else {
                lemma_turns_same_start(s1, s0, fin, motion_events);
                assert(start_events + motion_events =~= motion_events);
            }
        }
    }

    fn handle_emulated_wheel_event(&mut self, pos: Position)
        requires
            old(self).wf(),
        ensures
            final(self).wf(),
            final(self).spec_history().len() == old(self).spec_history().len(),
            final(self).spec_effects() == old(self).spec_effects(),
            final(self).spec_focus() == old(self).spec_focus(),
            final(self).spec_active() == old(self).spec_active(),
            final(self).spec_grab_input() == old(self).spec_grab_input(),
            final(self).spec_pointer() == old(self).spec_pointer(),
            final(self).spec_touch() == old(self).spec_touch(),
            final(self).spec_emulated_wheel() == (if old(self).spec_pointer().spec_cursor() == pos {
                old(self).spec_emulated_wheel()
            } else {
                Some(old(self).spec_pointer().spec_cursor())
            }),
            told_top(
                old(self).spec_history(),
                final(self).spec_history(),
                wheel_events(pos, old(self).spec_pointer().spec_cursor(), old(self).spec_modifier()),
            ),
            final(self).spec_modifier() == old(self).spec_modifier(),
    {
        let cursor = self.pointer.cursor_position();
        let len = self.history.len();
        if cursor == pos {
            proof {
                assert(wheel_events(pos, cursor, self.modifier) =~= Seq::<KeyEvent>::empty());
                assert(self.history@[len - 1].spec_events() =~= self.history@[len - 1].spec_events()
                    + Seq::<KeyEvent>::empty());
            }
            return;
        }
        self.emulated_wheel = Some(cursor);
        if len == 0 {
            return;
        }
        let ghost was = self.history@[len - 1];
        let (horizontal, vertical) = wheel_keys(pos, cursor);
        if let Some(key) = horizontal {
            let event = KeyEvent::with_key(0, self.modifier, true, key);
            let _ = self.history[len - 1].key_event(&self.pointer, event);
        }
        let ghost mid = self.history@[len - 1];
        if let Some((raw, key)) = vertical {
            let event = KeyEvent::with_key(raw, self.modifier, true, key);
            let _ = self.history[len - 1].key_event(&self.pointer, event);
        }
        proof {
            let m = self.modifier;
            let hx = match horizontal {
                Some(k) => seq![KeyEvent::spec_with_key(0, m, true, k)],
                None => Seq::<KeyEvent>::empty(),
            };
            let vy = match vertical {
                Some((r, k)) => seq![KeyEvent::spec_with_key(r, m, true, k)],
                None => Seq::<KeyEvent>::empty(),
            };
            assert(mid.spec_events() =~= was.spec_events() + hx);
            assert(self.history@[len - 1].spec_events() =~= mid.spec_events() + vy);
            assert(wheel_events(pos, cursor, m) =~= hx + vy);
            assert(self.history@[len - 1].spec_events() =~= was.spec_events() + wheel_events(pos, cursor, m));
        }
    }

    /// The mouse moved to pixel (`x`, `y`); negative coordinates count as
    /// zero.
    pub fn mouse_move(&mut self, x: i32, y: i32)
        requires
            old(self).wf(),
        ensures
            final(self).wf(),
            final(self).spec_pointer().spec_mouse() == (Position {
                x: #[verifier::truncate] ((if x > 0 { x } else { 0 }) as u16),
                y: #[verifier::truncate] ((if y > 0 { y } else { 0 }) as u16),
            }),
            old(self).spec_pointer().spec_mouse() == (Position {
                x: #[verifier::truncate] ((if x > 0 { x } else { 0 }) as u16),
                y: #[verifier::truncate] ((if y > 0 { y } else { 0 }) as u16),
            }) ==> *final(self) == *old(self),
            old(self).spec_history().len() >= 1 ==> final(self).spec_history().len() >= 1,
            old(self).spec_focus() == UiFocus::QuitPopup ==> {
                &&& final(self).spec_history() == old(self).spec_history()
                &&& final(self).spec_effects() == old(self).spec_effects()
                &&& final(self).spec_focus() == UiFocus::QuitPopup
            },
            old(self).spec_focus() == UiFocus::Main && final(self).spec_pointer().spec_mouse()
                != old(self).spec_pointer().spec_mouse() ==> {
                let cursor = final(self).spec_pointer().spec_cursor();
                &&& old(self).spec_touch() == Touch::Stop ==> final(self).spec_touch() == Touch::Stop
                &&& old(self).spec_touch() != Touch::Stop ==> final(self).spec_touch() == Touch::Active(
                    final(self).spec_pointer().spec_mouse(),
                )
                &&& old(self).spec_emulated_wheel() is None ==> final(self).spec_emulated_wheel() is None
                &&& old(self).spec_emulated_wheel() matches Some(p) ==> final(self).spec_emulated_wheel()
                    == (if cursor == p {
                    Some(p)
                } else {
                    Some(cursor)
                })
            },
            old(self).spec_focus() == UiFocus::Main && final(self).spec_pointer().spec_mouse()
                != old(self).spec_pointer().spec_mouse() ==> exists|mid: Self|
                {
                    &&& #[trigger] old(self).spec_turns(
                        &mid,
                        touch_events(old(self).spec_touch(), final(self).spec_pointer(), old(self).spec_modifier()),
                    )
                    &&& match old(self).spec_emulated_wheel() {
                        Some(p) => told_top(
                            mid.spec_history(),
                            final(self).spec_history(),
                            wheel_events(p, final(self).spec_pointer().spec_cursor(), old(self).spec_modifier()),
                        ),
                        None => hovered_top(mid.spec_history(), final(self).spec_history()),
                    }
                },
    {
        let px: u16 = if x > 0 { x as u16 } else { 0 };
        let py: u16 = if y > 0 { y as u16 } else { 0 };
        if !self.pointer.set_cursor_position(Position { x: px, y: py }) {
            return;
        }
        match self.focus {
            UiFocus::Main => {
                let ghost p0 = *self;
                self.handle_touch();
                let ghost mid = *self;
                match self.emulated_wheel {
                    Some(pos) => self.handle_emulated_wheel_event(pos),
                    None => {
                        let len = self.history.len();
                        if len > 0 {
                            let _ = self.history[len - 1].mouse_event(&self.pointer);
                        }
                    },
                }
                proof {
                    let evs = touch_events(p0.touch, p0.pointer, p0.modifier);
                    lemma_turns_same_start(p0, *old(self), mid, evs);
                    assert(p0.pointer == self.pointer);
                    assert(evs == touch_events(old(self).spec_touch(), self.spec_pointer(), old(self).spec_modifier()));
                    match old(self).emulated_wheel {
                        Some(p) => {
                            assert(told_top(
                                mid.spec_history(),
                                self.spec_history(),
                                wheel_events(p, self.spec_pointer().spec_cursor(), old(self).spec_modifier()),
                            ));
                        },
                        None => {
                            assert(hovered_top(mid.spec_history(), self.spec_history()));
                        },
                    }
                    assert(old(self).spec_turns(&mid, evs));
                }
            },
            UiFocus::QuitPopup => {
                if let Some(popup) = &mut self.quit_popup {
                    let _ = popup.mouse_event(&self.pointer);
                }
            },
        }
    }

    /// The screen is now `width` x `height` pixels with cells of `cell`;
    /// every menu lays itself out again.
    pub fn vid_init(&mut self, width: u32, height: u32, cell: Size) -> (r: bool)
        requires
            cell.width > 0,
            cell.height > 0,
        ensures
            r,
            final(self).wf(),
            final(self).spec_history().len() == old(self).spec_history().len(),
            final(self).spec_pointer().spec_width() == width,
            final(self).spec_pointer().spec_height() == height,
            final(self).spec_pointer().spec_cell() == cell,
            final(self).spec_pointer().spec_cursor() == cell_at(
                width,
                height,
                cell,
                old(self).spec_pointer().spec_mouse(),
            ),
            final(self).spec_effects() == old(self).spec_effects(),
            final(self).spec_focus() == old(self).spec_focus(),
            forall|j: int|
                0 <= j < old(self).spec_history().len() ==> resized(
                    #[trigger] final(self).spec_history()[j],
                    old(self).spec_history()[j],
                ),
    {
        self.pointer.resize(width, height, cell);
        let mut i: usize = 0;
        while i < self.history.len()
            invariant
                i <= self.history@.len(),
                forall|j: int| 0 <= j < i ==> resized(#[trigger] self.history@[j], old(self).history@[j]),
                forall|j: int| i <= j < self.history@.len() ==> #[trigger] self.history@[j] == old(self).history@[j],
                self.history@.len() == old(self).history@.len(),
                self.pointer.wf(),
                self.effects@ == old(self).effects@,
                self.focus == old(self).focus,
                self.pointer.spec_width() == width,
                self.pointer.spec_height() == height,
                self.pointer.spec_cell() == cell,
                self.pointer.spec_cursor() == cell_at(width, height, cell, old(self).pointer.spec_mouse()),
            decreases self.history@.len() - i,
        {
            self.history[i].vid_init();
            i += 1;
        }
        true
    }

    /// Passes a server's answer to every open menu.
    pub fn add_server_to_list(&mut self, addr: NetAddr, info: &str)
        ensures
            final(self).spec_history().len() == old(self).spec_history().len(),
            final(self).spec_effects() == old(self).spec_effects(),
            final(self).spec_focus() == old(self).spec_focus(),
            final(self).spec_active() == old(self).spec_active(),
            final(self).wf() == old(self).wf(),
            forall|j: int|
                0 <= j < old(self).spec_history().len() ==> got_server(
                    #[trigger] final(self).spec_history()[j],
                    old(self).spec_history()[j],
                    addr,
                    info@,
                ),
    {
        let mut i: usize = 0;
        while i < self.history.len()
            invariant
                i <= self.history@.len(),
                self.history@.len() == old(self).history@.len(),
                self.effects@ == old(self).effects@,
                self.focus == old(self).focus,
                self.active == old(self).active,
                self.pointer == old(self).pointer,
                forall|j: int| 0 <= j < i ==> got_server(#[trigger] self.history@[j], old(self).history@[j], addr, info@),
                forall|j: int| i <= j < self.history@.len() ==> #[trigger] self.history@[j] == old(self).history@[j],
            decreases self.history@.len() - i,
        {
            self.history[i].add_server_to_list(addr, info);
            i += 1;
        }
    }

    /// Asks the visible menu to measure pings again.
    pub fn reset_ping(&mut self)
        ensures
            final(self).spec_history().len() == old(self).spec_history().len(),
            old(self).spec_history().len() > 0 ==> {
                let n = old(self).spec_history().len();
                &&& keeps_below(old(self).spec_history(), final(self).spec_history(), n - 1)
                &&& pinged(final(self).spec_history()[n - 1], old(self).spec_history()[n - 1])
            },
            final(self).spec_effects() == old(self).spec_effects(),
            final(self).spec_focus() == old(self).spec_focus(),
            final(self).wf() == old(self).wf(),
    {
        let len = self.history.len();
        if len > 0 {
            self.history[len - 1].reset_ping();
        }
    }
}


/// A turn that makes `b` of `a`, followed by turns that make `c` of `b`.
proof fn lemma_turns_step<M: Menu>(a: Ui<M>, b: Ui<M>, c: Ui<M>, e: KeyEvent, rest: Seq<KeyEvent>)
    requires
        a.spec_turn(&b, e),
        b.spec_turns(&c, rest),
    ensures
        a.spec_turns(&c, seq![e] + rest),
{
    let evs = seq![e] + rest;
    assert(evs[0] == e);
    assert(evs.subrange(1, evs.len() as int) =~= rest);
}

/// Turns depend only on the stack, the effects, the grab, the focus and the
/// visibility of the driver they start from.
proof fn lemma_turns_same_start<M: Menu>(a: Ui<M>, a2: Ui<M>, c: Ui<M>, evs: Seq<KeyEvent>)
    requires
        a.spec_turns(&c, evs),
        a2.spec_history() == a.spec_history(),
        a2.spec_effects() == a.spec_effects(),
        a2.spec_grab_input() == a.spec_grab_input(),
        a2.spec_focus() == a.spec_focus(),
        a2.spec_active() == a.spec_active(),
    ensures
        a2.spec_turns(&c, evs),
{
    if evs.len() > 0 {
        let mid = choose|mid: Ui<M>|
            #[trigger] a.spec_turn(&mid, evs[0]) && mid.spec_turns(&c, evs.subrange(1, evs.len() as int));
        assert(a2.spec_turn(&mid, evs[0]));
    }
}

} // verus!
