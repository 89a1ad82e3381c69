use maintui::{wheel_keys, Key, Position};
use maintui::{
    ConfirmPopup, Control, Effect, KeyDest, KeyEvent, Menu, NetAddr, Pointer, Size, Sound, Ui, UiFocus,
};

const K_ENTER: i32 = 13;
const K_ESCAPE: i32 = 27;
const K_CTRL: i32 = 133;
const K_MOUSE1: i32 = 241;

#[derive(Debug, PartialEq)]
enum Screen {
    Main,
    Options,
}

#[derive(Debug)]
struct TestMenu {
    screen: Screen,
    actives: u32,
    hides: u32,
    keys: u32,
    servers: u32,
}

impl TestMenu {
    fn new(screen: Screen) -> Self {
        TestMenu { screen, actives: 0, hides: 0, keys: 0, servers: 0 }
    }
}

impl Menu for TestMenu {
    fn vid_init(&mut self) {}

    fn active(&mut self) {
        self.actives += 1;
    }

    fn on_menu_hide(&mut self) {
        self.hides += 1;
    }

    fn key_event(&mut self, _: &Pointer, event: KeyEvent) -> Control<Self> {
        self.keys += 1;
        match (&self.screen, event.raw()) {
            (Screen::Main, 13) => Control::next(TestMenu::new(Screen::Options)),
            (Screen::Main, b'g') => Control::GrabInput(true),
            (Screen::Main, b'b') => Control::Back,
            (Screen::Options, 27) => Control::Back,
            (Screen::Options, b'm') => Control::BackMain,
            (Screen::Options, 13) => Control::next(TestMenu::new(Screen::Options)),
            _ => Control::Nothing,
        }
    }

    fn mouse_event(&mut self, _: &Pointer) -> bool {
        false
    }

    fn add_server_to_list(&mut self, _: NetAddr, _: &str) {
        self.servers += 1;
    }

    fn reset_ping(&mut self) {}
}

fn started() -> Ui<TestMenu> {
    let mut ui = Ui::new(800, 600, Size { width: 10, height: 20 });
    ui.set_active_menu(true);
    ui.start(
        TestMenu::new(Screen::Main),
        ConfirmPopup::with_title("Quit".to_string(), "Quit the game?".to_string()),
    );
    ui.take_effects();
    ui
}

fn press(ui: &mut Ui<TestMenu>, code: i32) {
    ui.key_event(code, true, 0, false);
    ui.key_event(code, false, 0, false);
}

#[test]
fn options_then_back_returns_to_main() {
    let mut ui = started();
    assert_eq!(ui.depth(), 1);
    press(&mut ui, K_ENTER);
    assert_eq!(ui.depth(), 2);
    assert_eq!(ui.top().unwrap().screen, Screen::Options);
    assert_eq!(ui.top().unwrap().actives, 1);
    assert_eq!(ui.take_effects(), vec![Effect::Play(Sound::SwitchMenu)]);
    press(&mut ui, K_ESCAPE);
    assert_eq!(ui.depth(), 1);
    let main = ui.top().unwrap();
    assert_eq!(main.screen, Screen::Main);
    assert_eq!(main.actives, 1);
    assert_eq!(ui.take_effects(), vec![Effect::Play(Sound::SwitchMenu)]);
}

#[test]
fn back_on_root_menu_is_a_no_op() {
    let mut ui = started();
    press(&mut ui, b'b' as i32);
    assert_eq!(ui.depth(), 1);
    assert_eq!(ui.top().unwrap().actives, 0);
    assert_eq!(ui.take_effects(), vec![]);
    assert!(ui.is_visible());
}

#[test]
fn back_main_pops_to_root() {
    let mut ui = started();
    press(&mut ui, K_ENTER);
    press(&mut ui, K_ENTER);
    assert_eq!(ui.depth(), 3);
    ui.take_effects();
    press(&mut ui, b'm' as i32);
    assert_eq!(ui.depth(), 1);
    assert_eq!(ui.top().unwrap().actives, 1);
    assert_eq!(ui.take_effects(), vec![Effect::Play(Sound::SwitchMenu)]);
}

#[test]
fn ctrl_q_asks_and_n_cancels() {
    let mut ui = started();
    ui.key_event(K_CTRL, true, 0, false);
    ui.key_event(b'q' as i32, true, 0, false);
    assert_eq!(ui.focus(), UiFocus::QuitPopup);
    assert_eq!(ui.top().unwrap().hides, 1);
    assert_eq!(ui.take_effects(), vec![Effect::Play(Sound::SelectItem)]);
    // the menu does not see keys while the question is open
    ui.key_event(K_CTRL, false, 0, false);
    ui.key_event(b'n' as i32, true, 0, false);
    assert_eq!(ui.focus(), UiFocus::Main);
    assert_eq!(ui.depth(), 1);
    assert_eq!(ui.top().unwrap().hides, 1);
    assert_eq!(ui.top().unwrap().keys, 0);
    assert_eq!(ui.take_effects(), vec![Effect::Play(Sound::Deny)]);
}

#[test]
fn quit_popup_yes_quits() {
    let mut ui = started();
    press(&mut ui, K_ENTER);
    ui.key_event(K_CTRL, true, 0, false);
    ui.key_event(b'q' as i32, true, 0, false);
    ui.key_event(K_CTRL, false, 0, false);
    ui.take_effects();
    ui.key_event(b'y' as i32, true, 0, false);
    assert_eq!(ui.depth(), 0);
    assert_eq!(ui.take_effects(), vec![Effect::Quit]);
}

#[test]
fn escape_on_root_during_game_hides() {
    let mut ui = started();
    ui.key_event(K_ESCAPE, true, 0, true);
    assert!(!ui.is_visible());
    assert_eq!(ui.top().unwrap().hides, 1);
    assert_eq!(ui.take_effects(), vec![Effect::SetKeyDest(KeyDest::Game)]);
}

#[test]
fn ctrl_z_opens_console_and_font_keys() {
    let mut ui = started();
    ui.key_event(K_CTRL, true, 0, false);
    ui.key_event(b'-' as i32, true, 0, false);
    ui.key_event(b'=' as i32, true, 0, false);
    ui.key_event(b'z' as i32, true, 0, false);
    assert!(!ui.is_visible());
    assert_eq!(
        ui.take_effects(),
        vec![Effect::FontSmaller, Effect::FontLarger, Effect::SetKeyDest(KeyDest::Console)]
    );
    ui.leave_console();
    assert!(ui.is_visible());
}

#[test]
fn grab_sends_raw_presses_and_ends_on_any_control() {
    let mut ui = started();
    press(&mut ui, b'g' as i32);
    assert!(ui.is_grabbing_input());
    // releases are dropped, presses go to the menu even for modifiers
    ui.key_event(K_CTRL, true, 0, false);
    assert_eq!(ui.top().unwrap().keys, 2);
    ui.key_event(K_CTRL, false, 0, false);
    assert_eq!(ui.top().unwrap().keys, 2);
    assert!(ui.is_grabbing_input());
    ui.key_event(K_ENTER, true, 0, false);
    assert!(!ui.is_grabbing_input());
    assert_eq!(ui.depth(), 2);
}

#[test]
fn left_button_click_is_sent_on_release() {
    let mut ui = started();
    ui.key_event(K_MOUSE1, true, 1000, false);
    assert_eq!(ui.top().unwrap().keys, 0);
    ui.key_event(K_MOUSE1, false, 1100, false);
    assert_eq!(ui.top().unwrap().keys, 1);
    // a long press ends as a touch stop, the release itself is not sent
    ui.key_event(K_MOUSE1, true, 2000, false);
    ui.key_event(K_MOUSE1, false, 2500, false);
    assert_eq!(ui.top().unwrap().keys, 2);
}

#[test]
fn drag_sends_touch_events() {
    let mut ui = started();
    ui.mouse_move(15, 25);
    ui.key_event(K_MOUSE1, true, 1000, false);
    ui.mouse_move(15, 30);
    // a touch start, then the motion
    assert_eq!(ui.top().unwrap().keys, 2);
    ui.key_event(K_MOUSE1, false, 1500, false);
    assert_eq!(ui.top().unwrap().keys, 3);
}

#[test]
fn servers_reach_every_menu() {
    let mut ui = started();
    press(&mut ui, K_ENTER);
    ui.add_server_to_list(NetAddr { kind: 3, ip: 0x7f000001, port: 27015 }, "\\host\\a");
    assert_eq!(ui.top().unwrap().servers, 1);
    assert!(ui.vid_init(1024, 768, Size { width: 8, height: 16 }));
    assert_eq!(ui.depth(), 2);
}

#[test]
fn showing_plays_the_menu_sound() {
    let mut ui: Ui<TestMenu> = Ui::new(800, 600, Size { width: 10, height: 20 });
    assert!(!ui.is_started());
    ui.set_active_menu(true);
    assert_eq!(
        ui.take_effects(),
        vec![Effect::SetKeyDest(KeyDest::Menu), Effect::Play(Sound::SwitchMenu)]
    );
}

#[test]
fn drag_steps_become_wheel_keys() {
    let p = |x, y| Position::new(x, y);
    assert_eq!(wheel_keys(p(5, 5), p(4, 5)), (Some(Key::MouseWheelLeft(1)), None));
    assert_eq!(wheel_keys(p(5, 5), p(6, 5)), (Some(Key::MouseWheelRight(1)), None));
    assert_eq!(wheel_keys(p(5, 5), p(5, 4)), (None, Some((239, Key::MouseWheelDown(1)))));
    assert_eq!(wheel_keys(p(5, 5), p(5, 6)), (None, Some((240, Key::MouseWheelUp(1)))));
    assert_eq!(wheel_keys(p(5, 5), p(5, 5)), (None, None));
}
