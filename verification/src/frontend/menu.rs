//! The menu bar of the frontend: which items are selected, the keyboard
//! shortcuts that select them, and what a frame's selections make of the
//! frontend's settings and requests.
use super::VideoSizeControl;
use crate::io::Speed;
use vstd::prelude::*;

verus! {

/// The number of menu bar items.
pub const MENU_BAR_ITEM_COUNT: usize = 20;

/// The items of the menu bar.
#[derive(Copy, Clone, Debug, PartialEq, Eq, Structural)]
pub enum MenuBarItem {
    LoadNesFile,
    SaveState,
    LoadState,
    Quit,
    PowerCycle,
    Pause,
    SpeedNormal,
    SpeedDouble,
    SpeedHalf,
    SpeedIncrease,
    SpeedDecrease,
    AudioEnabled,
    VolumeIncrease,
    VolumeDecrease,
    VideoSizeNormal,
    VideoSizeDouble,
    VideoSizeTriple,
    VideoSizeQuadrupal,
    VideoSizeFullScreen,
    ControllersSetup,
}

/// An item's place in the menu bar, in declaration order.
pub open spec fn menu_item_index(item: MenuBarItem) -> int {
    match item {
        MenuBarItem::LoadNesFile => 0,
        MenuBarItem::SaveState => 1,
        MenuBarItem::LoadState => 2,
        MenuBarItem::Quit => 3,
        MenuBarItem::PowerCycle => 4,
        MenuBarItem::Pause => 5,
        MenuBarItem::SpeedNormal => 6,
        MenuBarItem::SpeedDouble => 7,
        MenuBarItem::SpeedHalf => 8,
        MenuBarItem::SpeedIncrease => 9,
        MenuBarItem::SpeedDecrease => 10,
        MenuBarItem::AudioEnabled => 11,
        MenuBarItem::VolumeIncrease => 12,
        MenuBarItem::VolumeDecrease => 13,
        MenuBarItem::VideoSizeNormal => 14,
        MenuBarItem::VideoSizeDouble => 15,
        MenuBarItem::VideoSizeTriple => 16,
        MenuBarItem::VideoSizeQuadrupal => 17,
        MenuBarItem::VideoSizeFullScreen => 18,
        MenuBarItem::ControllersSetup => 19,
    }
}

impl MenuBarItem {
    pub fn index(self) -> (r: usize)
        ensures
            r == menu_item_index(self),
            r < MENU_BAR_ITEM_COUNT,
    {
        match self {
            MenuBarItem::LoadNesFile => 0,
            MenuBarItem::SaveState => 1,
            MenuBarItem::LoadState => 2,
            MenuBarItem::Quit => 3,
            MenuBarItem::PowerCycle => 4,
            MenuBarItem::Pause => 5,
            MenuBarItem::SpeedNormal => 6,
            MenuBarItem::SpeedDouble => 7,
            MenuBarItem::SpeedHalf => 8,
            MenuBarItem::SpeedIncrease => 9,
            MenuBarItem::SpeedDecrease => 10,
            MenuBarItem::AudioEnabled => 11,
            MenuBarItem::VolumeIncrease => 12,
            MenuBarItem::VolumeDecrease => 13,
            MenuBarItem::VideoSizeNormal => 14,
            MenuBarItem::VideoSizeDouble => 15,
            MenuBarItem::VideoSizeTriple => 16,
            MenuBarItem::VideoSizeQuadrupal => 17,
            MenuBarItem::VideoSizeFullScreen => 18,
            MenuBarItem::ControllersSetup => 19,
        }
    }
}

/// Which menu bar items are selected in this frame.
#[derive(Copy, Clone, Debug)]
pub struct MenuBarSelection {
    pub selected: [bool; MENU_BAR_ITEM_COUNT],
}

impl MenuBarSelection {
    pub open spec fn is_on(&self, item: MenuBarItem) -> bool {
        self.selected@[menu_item_index(item)]
    }

    /// Nothing selected.
    pub fn new() -> (r: MenuBarSelection)
        ensures
            forall|item: MenuBarItem| !#[trigger] r.is_on(item),
    {
        MenuBarSelection { selected: [false; MENU_BAR_ITEM_COUNT] }
    }

    pub fn is_menu_bar_item_selected(&self, item: MenuBarItem) -> (r: bool)
        ensures
            r == self.is_on(item),
    {
        self.selected[item.index()]
    }

    pub fn toggle_menu_bar_item(&mut self, item: MenuBarItem)
        ensures
            final(self).selected@ == old(self).selected@.update(menu_item_index(item), !old(self).is_on(item)),
    {
        let i = item.index();
        self.selected[i] = !self.selected[i];
    }

    pub fn clear_menu_bar_item(&mut self, item: MenuBarItem)
        ensures
            final(self).selected@ == old(self).selected@.update(menu_item_index(item), false),
    {
        self.selected[item.index()] = false;
    }

    pub fn set_menu_bar_item(&mut self, item: MenuBarItem, state: bool)
        ensures
            final(self).selected@ == old(self).selected@.update(menu_item_index(item), state),
    {
        self.selected[item.index()] = state;
    }

    /// A shortcut key selects its item; other keys change nothing.
    pub fn update(&mut self, key: ShortcutKey, left_ctrl: bool)
        ensures
            final(self).selected@ == match shortcut_item(key, left_ctrl) {
                Some(item) => old(self).selected@.update(menu_item_index(item), true),
                None => old(self).selected@,
            },
    {
        if let Some(item) = is_shortcut(key, left_ctrl) {
            self.selected[item.index()] = true;
        }
    }
}

/// The keys that take part in shortcuts.
#[derive(Copy, Clone, Debug, PartialEq, Eq, Structural)]
pub enum ShortcutKey {
    R,
    O,
    P,
    A,
    C,
    Equals,
    Minus,
    F8,
    F9,
    F10,
    F11,
    F12,
    Other,
}

/// The item a key selects: with left Ctrl, R power cycle, O load a file,
/// P pause, = and - speed up and down, A audio, C controllers setup;
/// alone, = and - volume up and down and F8 to F12 the video sizes.
pub open spec fn shortcut_item(key: ShortcutKey, left_ctrl: bool) -> Option<MenuBarItem> {
    if left_ctrl {
        match key {
            ShortcutKey::R => Some(MenuBarItem::PowerCycle),
            ShortcutKey::O => Some(MenuBarItem::LoadNesFile),
            ShortcutKey::P => Some(MenuBarItem::Pause),
            ShortcutKey::Equals => Some(MenuBarItem::SpeedIncrease),
            ShortcutKey::Minus => Some(MenuBarItem::SpeedDecrease),
            ShortcutKey::A => Some(MenuBarItem::AudioEnabled),
            ShortcutKey::C => Some(MenuBarItem::ControllersSetup),
            _ => None,
        }
    } else {
        match key {
            ShortcutKey::Minus => Some(MenuBarItem::VolumeDecrease),
            ShortcutKey::Equals => Some(MenuBarItem::VolumeIncrease),
            ShortcutKey::F8 => Some(MenuBarItem::VideoSizeNormal),
            ShortcutKey::F9 => Some(MenuBarItem::VideoSizeDouble),
            ShortcutKey::F10 => Some(MenuBarItem::VideoSizeTriple),
            ShortcutKey::F11 => Some(MenuBarItem::VideoSizeQuadrupal),
            ShortcutKey::F12 => Some(MenuBarItem::VideoSizeFullScreen),
            _ => None,
        }
    }
}

/// The item a key press selects, if any.
pub fn is_shortcut(key: ShortcutKey, left_ctrl: bool) -> (r: Option<MenuBarItem>)
    ensures
        r == shortcut_item(key, left_ctrl),
{
    if left_ctrl {
        match key {
            ShortcutKey::R => Some(MenuBarItem::PowerCycle),
            ShortcutKey::O => Some(MenuBarItem::LoadNesFile),
            ShortcutKey::P => Some(MenuBarItem::Pause),
            ShortcutKey::Equals => Some(MenuBarItem::SpeedIncrease),
            ShortcutKey::Minus => Some(MenuBarItem::SpeedDecrease),
            ShortcutKey::A => Some(MenuBarItem::AudioEnabled),
            ShortcutKey::C => Some(MenuBarItem::ControllersSetup),
            _ => None,
        }
    } else {
        match key {
            ShortcutKey::Minus => Some(MenuBarItem::VolumeDecrease),
            ShortcutKey::Equals => Some(MenuBarItem::VolumeIncrease),
            ShortcutKey::F8 => Some(MenuBarItem::VideoSizeNormal),
            ShortcutKey::F9 => Some(MenuBarItem::VideoSizeDouble),
            ShortcutKey::F10 => Some(MenuBarItem::VideoSizeTriple),
            ShortcutKey::F11 => Some(MenuBarItem::VideoSizeQuadrupal),
            ShortcutKey::F12 => Some(MenuBarItem::VideoSizeFullScreen),
            _ => None,
        }
    }
}

/// The frontend's settings that the menu bar changes.
#[derive(Copy, Clone, Debug)]
pub struct MenuState {
    pub menu: MenuBarSelection,
    pub audio_volume: u8,
    pub video_size_control: VideoSizeControl,
    pub previous_video_size_control: VideoSizeControl,
    pub pause: bool,
    pub controllers_setup: bool,
    pub is_any_file_explorer_open: bool,
    pub is_video_size_change_pending: bool,
}

/// What a frame's selections ask of the emulation.
#[derive(Copy, Clone, Debug, PartialEq, Eq, Structural)]
pub struct MenuRequests {
    pub quit: bool,
    pub power_cycle: bool,
    pub speed: Option<Speed>,
    pub pause: bool,
}

/// An item is selected from the menu bar or by its shortcut.
pub open spec fn picked(s: MenuState, shortcuts: MenuBarSelection, item: MenuBarItem) -> bool {
    shortcuts.is_on(item) || s.menu.is_on(item)
}

/// The speed asked for; of several, the last in the order increase,
/// decrease, normal, half, double.
pub open spec fn speed_request(s: MenuState, shortcuts: MenuBarSelection) -> Option<Speed> {
    if picked(s, shortcuts, MenuBarItem::SpeedDouble) {
        Some(Speed::Double)
    } else if picked(s, shortcuts, MenuBarItem::SpeedHalf) {
        Some(Speed::Half)
    } else if picked(s, shortcuts, MenuBarItem::SpeedNormal) {
        Some(Speed::Normal)
    } else if picked(s, shortcuts, MenuBarItem::SpeedDecrease) {
        Some(Speed::Decrease)
    } else if picked(s, shortcuts, MenuBarItem::SpeedIncrease) {
        Some(Speed::Increase)
    } else {
        None
    }
}

/// The volume after the volume items: 5 up (at most 100) or 5 down (at
/// least 0), both from the volume before; down wins when both are picked.
pub open spec fn volume_after(volume: u8, up: bool, down: bool) -> u8 {
    if down {
        if volume >= 5 { (volume - 5) as u8 } else { 0 }
    } else if up {
        let raised = ((volume + 5) % 256) as u8;
        if raised < 100 { raised } else { 100 }
    } else {
        volume
    }
}

/// One video size item: picking a size other than the current one makes it
/// current, remembers the windowed size it leaves, and asks for a resize.
pub open spec fn video_size_step(
    v: (VideoSizeControl, VideoSizeControl, bool),
    picked_item: bool,
    size: VideoSizeControl,
) -> (VideoSizeControl, VideoSizeControl, bool) {
    if picked_item && size != v.0 {
        (size, if v.0 != VideoSizeControl::FullScreen { v.0 } else { v.1 }, true)
    } else {
        v
    }
}

/// The video size, the remembered windowed size and the resize request
/// after the four size items, in the order double, triple, quadruple, full
/// screen; a cancel leaves the full screen for the remembered size.
pub open spec fn video_after(s: MenuState, shortcuts: MenuBarSelection, cancel: bool) -> (
    VideoSizeControl,
    VideoSizeControl,
    bool,
) {
    let v0 = (s.video_size_control, s.previous_video_size_control, s.is_video_size_change_pending);
    let v1 = video_size_step(v0, picked(s, shortcuts, MenuBarItem::VideoSizeDouble), VideoSizeControl::Double);
    let v2 = video_size_step(v1, picked(s, shortcuts, MenuBarItem::VideoSizeTriple), VideoSizeControl::Triple);
    let v3 = video_size_step(v2, picked(s, shortcuts, MenuBarItem::VideoSizeQuadrupal), VideoSizeControl::Quadrupal);
    let v4 = video_size_step(v3, picked(s, shortcuts, MenuBarItem::VideoSizeFullScreen), VideoSizeControl::FullScreen);
    if cancel && v4.0 == VideoSizeControl::FullScreen {
        (v4.1, v4.1, true)
    } else {
        v4
    }
}

/// The menu bar's own selections after the frame: the audio item toggled by
/// its shortcut, the four video size items cleared, and the three file items
/// set to whether they were picked (unless a file dialog is open).
pub open spec fn menu_after(s: MenuState, shortcuts: MenuBarSelection) -> Seq<bool> {
    let m0 = s.menu.selected@;
    let m1 = m0.update(menu_item_index(MenuBarItem::VideoSizeDouble), false).update(
        menu_item_index(MenuBarItem::VideoSizeTriple),
        false,
    ).update(menu_item_index(MenuBarItem::VideoSizeQuadrupal), false).update(
        menu_item_index(MenuBarItem::VideoSizeFullScreen),
        false,
    );
    let m2 = if shortcuts.is_on(MenuBarItem::AudioEnabled) {
        m1.update(menu_item_index(MenuBarItem::AudioEnabled), !s.menu.is_on(MenuBarItem::AudioEnabled))
    } else {
        m1
    };
    if s.is_any_file_explorer_open {
        m2
    } else {
        m2.update(menu_item_index(MenuBarItem::LoadNesFile), picked(s, shortcuts, MenuBarItem::LoadNesFile)).update(
            menu_item_index(MenuBarItem::SaveState),
            picked(s, shortcuts, MenuBarItem::SaveState),
        ).update(menu_item_index(MenuBarItem::LoadState), picked(s, shortcuts, MenuBarItem::LoadState))
    }
}

fn is_picked(s: &MenuState, shortcuts: &MenuBarSelection, item: MenuBarItem) -> (r: bool)
    ensures
        r == picked(*s, *shortcuts, item),
{
    shortcuts.is_menu_bar_item_selected(item) || s.menu.is_menu_bar_item_selected(item)
}

fn set_video_size_selection(
    state: &mut MenuState,
    item_picked: bool,
    item: MenuBarItem,
    size: VideoSizeControl,
)
    ensures
        (final(state).video_size_control, final(state).previous_video_size_control, final(state).is_video_size_change_pending) == video_size_step(
            (old(state).video_size_control, old(state).previous_video_size_control, old(state).is_video_size_change_pending),
            item_picked,
            size,
        ),
        final(state).menu.selected@ == old(state).menu.selected@.update(menu_item_index(item), false),
        final(state).audio_volume == old(state).audio_volume,
        final(state).pause == old(state).pause,
        final(state).controllers_setup == old(state).controllers_setup,
        final(state).is_any_file_explorer_open == old(state).is_any_file_explorer_open,
{
    if item_picked && size != state.video_size_control {
        if state.video_size_control != VideoSizeControl::FullScreen {
            state.previous_video_size_control = state.video_size_control;
        }
        state.video_size_control = size;
        state.is_video_size_change_pending = true;
    }
    state.menu.clear_menu_bar_item(item);
}

fn speed_from_menu(s: &MenuState, shortcuts: &MenuBarSelection) -> (r: Option<Speed>)
    ensures
        r == speed_request(*s, *shortcuts),
{
    let mut speed: Option<Speed> = None;
    if is_picked(s, shortcuts, MenuBarItem::SpeedIncrease) {
        speed = Some(Speed::Increase);
    }
    if is_picked(s, shortcuts, MenuBarItem::SpeedDecrease) {
        speed = Some(Speed::Decrease);
    }
    if is_picked(s, shortcuts, MenuBarItem::SpeedNormal) {
        speed = Some(Speed::Normal);
    }
    if is_picked(s, shortcuts, MenuBarItem::SpeedHalf) {
        speed = Some(Speed::Half);
    }
    if is_picked(s, shortcuts, MenuBarItem::SpeedDouble) {
        speed = Some(Speed::Double);
    }
    speed
}

fn volume_from_menu(audio_volume: u8, up: bool, down: bool) -> (r: u8)
    ensures
        r == volume_after(audio_volume, up, down),
{
    let mut volume = audio_volume;
    if up {
        let raised = audio_volume.wrapping_add(5);
        volume = if raised < 100 {
            raised
        } else {
            100
        };
    }
    if down {
        volume = audio_volume.saturating_sub(5);
    }
    volume
}

/// The four video size items applied in turn, then the cancel.
fn apply_video_sizes(state: &mut MenuState, shortcuts: &MenuBarSelection, cancel: bool)
    ensures
        (final(state).video_size_control, final(state).previous_video_size_control,
            final(state).is_video_size_change_pending) == video_after(*old(state), *shortcuts, cancel),
        final(state).menu.selected@ == old(state).menu.selected@.update(
            menu_item_index(MenuBarItem::VideoSizeDouble),
            false,
        ).update(menu_item_index(MenuBarItem::VideoSizeTriple), false).update(
            menu_item_index(MenuBarItem::VideoSizeQuadrupal),
            false,
        ).update(menu_item_index(MenuBarItem::VideoSizeFullScreen), false),
        final(state).audio_volume == old(state).audio_volume,
        final(state).pause == old(state).pause,
        final(state).controllers_setup == old(state).controllers_setup,
        final(state).is_any_file_explorer_open == old(state).is_any_file_explorer_open,
{
    let s0 = *state;
    let double = is_picked(&s0, shortcuts, MenuBarItem::VideoSizeDouble);
    let triple = is_picked(&s0, shortcuts, MenuBarItem::VideoSizeTriple);
    let quadruple = is_picked(&s0, shortcuts, MenuBarItem::VideoSizeQuadrupal);
    let full_screen = is_picked(&s0, shortcuts, MenuBarItem::VideoSizeFullScreen);
    set_video_size_selection(state, double, MenuBarItem::VideoSizeDouble, VideoSizeControl::Double);
    set_video_size_selection(state, triple, MenuBarItem::VideoSizeTriple, VideoSizeControl::Triple);
    set_video_size_selection(state, quadruple, MenuBarItem::VideoSizeQuadrupal, VideoSizeControl::Quadrupal);
    set_video_size_selection(state, full_screen, MenuBarItem::VideoSizeFullScreen, VideoSizeControl::FullScreen);
    if cancel && state.video_size_control == VideoSizeControl::FullScreen {
        state.video_size_control = state.previous_video_size_control;
        state.is_video_size_change_pending = true;
    }
}

/// A frame's menu selections, from the menu bar and from the keyboard
/// shortcuts, applied to the frontend's settings; gives what they ask of the
/// emulation. `window_closed` is a close request from the window itself and
/// `cancel` the escape key.
pub fn update_menu_state(
    state: &mut MenuState,
    shortcuts: &MenuBarSelection,
    window_closed: bool,
    cancel: bool,
) -> (r: MenuRequests)
    ensures
        r.quit == (window_closed || picked(*old(state), *shortcuts, MenuBarItem::Quit)),
        r.power_cycle == picked(*old(state), *shortcuts, MenuBarItem::PowerCycle),
        r.speed == speed_request(*old(state), *shortcuts),
        final(state).audio_volume == volume_after(
            old(state).audio_volume,
            picked(*old(state), *shortcuts, MenuBarItem::VolumeIncrease),
            picked(*old(state), *shortcuts, MenuBarItem::VolumeDecrease),
        ),
        (final(state).video_size_control, final(state).previous_video_size_control,
            final(state).is_video_size_change_pending) == video_after(*old(state), *shortcuts, cancel),
        final(state).menu.selected@ == menu_after(*old(state), *shortcuts),
        final(state).pause == (old(state).pause != picked(*old(state), *shortcuts, MenuBarItem::Pause)),
        r.pause == final(state).pause,
        final(state).controllers_setup == (old(state).controllers_setup != picked(
            *old(state),
            *shortcuts,
            MenuBarItem::ControllersSetup,
        )),
        final(state).is_any_file_explorer_open == old(state).is_any_file_explorer_open,
{
    let s0 = *state;
    let quit = window_closed || is_picked(&s0, shortcuts, MenuBarItem::Quit);
    let power_cycle = is_picked(&s0, shortcuts, MenuBarItem::PowerCycle);
    let speed = speed_from_menu(&s0, shortcuts);
    let up = is_picked(&s0, shortcuts, MenuBarItem::VolumeIncrease);
    let down = is_picked(&s0, shortcuts, MenuBarItem::VolumeDecrease);
    state.audio_volume = volume_from_menu(s0.audio_volume, up, down);
    apply_video_sizes(state, shortcuts, cancel);
    if shortcuts.is_menu_bar_item_selected(MenuBarItem::AudioEnabled) {
        state.menu.toggle_menu_bar_item(MenuBarItem::AudioEnabled);
    }
    let pause_picked = is_picked(&s0, shortcuts, MenuBarItem::Pause);
    let setup_picked = is_picked(&s0, shortcuts, MenuBarItem::ControllersSetup);
    state.pause = pause_picked != s0.pause;
    state.controllers_setup = setup_picked != s0.controllers_setup;
    if !s0.is_any_file_explorer_open {
        let load = is_picked(&s0, shortcuts, MenuBarItem::LoadNesFile);
        let save = is_picked(&s0, shortcuts, MenuBarItem::SaveState);
        let load_state = is_picked(&s0, shortcuts, MenuBarItem::LoadState);
        state.menu.set_menu_bar_item(MenuBarItem::LoadNesFile, load);
        state.menu.set_menu_bar_item(MenuBarItem::SaveState, save);
        state.menu.set_menu_bar_item(MenuBarItem::LoadState, load_state);
    }
    assert(state.menu.selected@ =~= menu_after(s0, *shortcuts));
    MenuRequests { quit, power_cycle, speed, pause: state.pause }
}

/// Picking the full screen from a windowed size goes full screen and
/// remembers that size; a later frame that cancels, with no size picked,
/// goes back to it and asks for the resize.
pub proof fn law_full_screen_then_cancel(s: MenuState, sc: MenuBarSelection, t: MenuState, tc: MenuBarSelection)
    requires
        s.video_size_control != VideoSizeControl::FullScreen,
        picked(s, sc, MenuBarItem::VideoSizeFullScreen),
        !picked(s, sc, MenuBarItem::VideoSizeDouble),
        !picked(s, sc, MenuBarItem::VideoSizeTriple),
        !picked(s, sc, MenuBarItem::VideoSizeQuadrupal),
        t.video_size_control == video_after(s, sc, false).0,
        t.previous_video_size_control == video_after(s, sc, false).1,
        !picked(t, tc, MenuBarItem::VideoSizeDouble),
        !picked(t, tc, MenuBarItem::VideoSizeTriple),
        !picked(t, tc, MenuBarItem::VideoSizeQuadrupal),
        !picked(t, tc, MenuBarItem::VideoSizeFullScreen),
    ensures
        video_after(s, sc, false).0 == VideoSizeControl::FullScreen,
        video_after(s, sc, false).2,
        video_after(t, tc, true).0 == s.video_size_control,
        video_after(t, tc, true).2,
{
}

} // verus!
