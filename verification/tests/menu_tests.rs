use nes_rs::frontend::menu::{
    is_shortcut, update_menu_state, MenuBarItem, MenuBarSelection, MenuState, ShortcutKey,
};
use nes_rs::frontend::keys::{
    cancel_key_selection_if_closed, is_key_selection_pending, try_get_key_selection, ControllerConfig, FrontendInput,
    KeyboardState,
};
use nes_rs::frontend::VideoSizeControl;
use nes_rs::nes::{ControllerAccess, ControllerId, MouseClick, StdNesControllerButton};
use nes_rs::io::Speed;

fn state() -> MenuState {
    MenuState {
        menu: MenuBarSelection::new(),
        audio_volume: 100,
        video_size_control: VideoSizeControl::Double,
        previous_video_size_control: VideoSizeControl::Double,
        pause: false,
        controllers_setup: false,
        is_any_file_explorer_open: false,
        is_video_size_change_pending: false,
    }
}

#[test]
fn shortcut_keys() {
    assert_eq!(is_shortcut(ShortcutKey::R, true), Some(MenuBarItem::PowerCycle));
    assert_eq!(is_shortcut(ShortcutKey::Equals, true), Some(MenuBarItem::SpeedIncrease));
    assert_eq!(is_shortcut(ShortcutKey::Equals, false), Some(MenuBarItem::VolumeIncrease));
    assert_eq!(is_shortcut(ShortcutKey::F12, false), Some(MenuBarItem::VideoSizeFullScreen));
    assert_eq!(is_shortcut(ShortcutKey::F12, true), None);
    assert_eq!(is_shortcut(ShortcutKey::R, false), None);
    let mut shortcuts = MenuBarSelection::new();
    shortcuts.update(ShortcutKey::P, true);
    assert!(shortcuts.is_menu_bar_item_selected(MenuBarItem::Pause));
    shortcuts.update(ShortcutKey::Other, true);
    assert!(!shortcuts.is_menu_bar_item_selected(MenuBarItem::Quit));
}

#[test]
fn menu_items_toggle_clear_set() {
    let mut m = MenuBarSelection::new();
    m.toggle_menu_bar_item(MenuBarItem::AudioEnabled);
    assert!(m.is_menu_bar_item_selected(MenuBarItem::AudioEnabled));
    m.toggle_menu_bar_item(MenuBarItem::AudioEnabled);
    assert!(!m.is_menu_bar_item_selected(MenuBarItem::AudioEnabled));
    m.set_menu_bar_item(MenuBarItem::Quit, true);
    assert!(m.is_menu_bar_item_selected(MenuBarItem::Quit));
    m.clear_menu_bar_item(MenuBarItem::Quit);
    assert!(!m.is_menu_bar_item_selected(MenuBarItem::Quit));
}

#[test]
fn nothing_picked_changes_nothing() {
    let mut s = state();
    let r = update_menu_state(&mut s, &MenuBarSelection::new(), false, false);
    assert!(!r.quit && !r.power_cycle && !r.pause);
    assert_eq!(r.speed, None);
    assert_eq!(s.audio_volume, 100);
    assert_eq!(s.video_size_control, VideoSizeControl::Double);
    assert!(!s.is_video_size_change_pending);
}

#[test]
fn speed_pick_order() {
    let mut s = state();
    let mut shortcuts = MenuBarSelection::new();
    shortcuts.set_menu_bar_item(MenuBarItem::SpeedIncrease, true);
    s.menu.set_menu_bar_item(MenuBarItem::SpeedDouble, true);
    let r = update_menu_state(&mut s, &shortcuts, false, false);
    assert_eq!(r.speed, Some(Speed::Double));
    let mut s = state();
    let r = update_menu_state(&mut s, &shortcuts, false, false);
    assert_eq!(r.speed, Some(Speed::Increase));
}

#[test]
fn volume_steps_are_clamped() {
    let mut s = state();
    s.audio_volume = 98;
    let mut shortcuts = MenuBarSelection::new();
    shortcuts.set_menu_bar_item(MenuBarItem::VolumeIncrease, true);
    update_menu_state(&mut s, &shortcuts, false, false);
    assert_eq!(s.audio_volume, 100);
    let mut s = state();
    s.audio_volume = 3;
    let mut shortcuts = MenuBarSelection::new();
    shortcuts.set_menu_bar_item(MenuBarItem::VolumeDecrease, true);
    update_menu_state(&mut s, &shortcuts, false, false);
    assert_eq!(s.audio_volume, 0);
}

#[test]
fn full_screen_then_cancel() {
    let mut s = state();
    s.menu.set_menu_bar_item(MenuBarItem::VideoSizeFullScreen, true);
    update_menu_state(&mut s, &MenuBarSelection::new(), false, false);
    assert_eq!(s.video_size_control, VideoSizeControl::FullScreen);
    assert_eq!(s.previous_video_size_control, VideoSizeControl::Double);
    assert!(s.is_video_size_change_pending);
    assert!(!s.menu.is_menu_bar_item_selected(MenuBarItem::VideoSizeFullScreen), "size items are cleared");
    s.is_video_size_change_pending = false;
    update_menu_state(&mut s, &MenuBarSelection::new(), false, true);
    assert_eq!(s.video_size_control, VideoSizeControl::Double);
    assert!(s.is_video_size_change_pending);
}

#[test]
fn pause_toggles_and_quit_requests() {
    let mut s = state();
    let mut shortcuts = MenuBarSelection::new();
    shortcuts.set_menu_bar_item(MenuBarItem::Pause, true);
    let r = update_menu_state(&mut s, &shortcuts, false, false);
    assert!(r.pause && s.pause);
    let r = update_menu_state(&mut s, &shortcuts, true, false);
    assert!(!r.pause);
    assert!(r.quit, "a closed window quits");
}

#[test]
fn file_items_follow_shortcuts_unless_a_dialog_is_open() {
    let mut s = state();
    let mut shortcuts = MenuBarSelection::new();
    shortcuts.set_menu_bar_item(MenuBarItem::LoadNesFile, true);
    update_menu_state(&mut s, &shortcuts, false, false);
    assert!(s.menu.is_menu_bar_item_selected(MenuBarItem::LoadNesFile));
    let mut s = state();
    s.is_any_file_explorer_open = true;
    update_menu_state(&mut s, &shortcuts, false, false);
    assert!(!s.menu.is_menu_bar_item_selected(MenuBarItem::LoadNesFile));
}

#[test]
fn default_key_tables() {
    let p1 = ControllerConfig::new(0);
    assert_eq!(p1.mapping, [20, 8, 6, 44, 26, 22, 4, 7]);
    assert_eq!(p1.key_for_button(StdNesControllerButton::Start), 44);
    let p2 = ControllerConfig::new(1);
    assert_eq!(p2.key_for_button(StdNesControllerButton::A), 92);
    assert_eq!(p2.key_for_button(StdNesControllerButton::Right), 79);
    assert!(p1.pending_key_select.is_none());
}

#[test]
fn key_capture() {
    let mut configs = [ControllerConfig::new(0), ControllerConfig::new(1)];
    assert!(!is_key_selection_pending(true, &configs));
    configs[1].select_key(StdNesControllerButton::B);
    configs[1].select_key(StdNesControllerButton::A);
    assert_eq!(configs[1].pending_key_select, Some(1), "a capture under way is kept");
    assert!(is_key_selection_pending(true, &configs));
    assert!(!is_key_selection_pending(false, &configs));
    try_get_key_selection(&mut configs, None);
    assert_eq!(configs[1].pending_key_select, Some(1));
    try_get_key_selection(&mut configs, Some(30));
    assert_eq!(configs[1].key_for_button(StdNesControllerButton::B), 30);
    assert!(configs[1].pending_key_select.is_none());
    assert_eq!(configs[0].mapping, ControllerConfig::new(0).mapping);
    configs[0].select_key(StdNesControllerButton::Up);
    cancel_key_selection_if_closed(&mut configs, false);
    assert!(configs[0].pending_key_select.is_none());
}

#[test]
fn keys_press_buttons() {
    let mut input = FrontendInput {
        configs: [ControllerConfig::new(0), ControllerConfig::new(1)],
        keyboard: KeyboardState::new(),
        mouse_click: MouseClick { left_button: false, right_button: false, x: 0, y: 0 },
        frame: 7,
    };
    input.keyboard.set_key(44, true);
    assert!(input.is_button_pressed(ControllerId::Controller1, StdNesControllerButton::Start));
    assert!(!input.is_button_pressed(ControllerId::Controller2, StdNesControllerButton::Start));
    input.keyboard.set_key(600, true);
    assert!(!input.keyboard.is_key_pressed(600));
    assert_eq!(input.get_current_frame(), 7);
}
