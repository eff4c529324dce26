//! The keyboard mapping of the standard controllers: each player's table
//! from buttons to keys (held as scancode numbers), its defaults, capturing
//! a new key for a button, and the buttons the pressed keys hold down.
use crate::nes::{button_index, ControllerAccess, ControllerId, MouseClick, StdNesControllerButton};
use vstd::prelude::*;

verus! {

/// The scancodes of the keys in the default tables.
pub const SCANCODE_A: u32 = 4;
pub const SCANCODE_C: u32 = 6;
pub const SCANCODE_D: u32 = 7;
pub const SCANCODE_E: u32 = 8;
pub const SCANCODE_Q: u32 = 20;
pub const SCANCODE_S: u32 = 22;
pub const SCANCODE_W: u32 = 26;
pub const SCANCODE_SPACE: u32 = 44;
pub const SCANCODE_RIGHT: u32 = 79;
pub const SCANCODE_LEFT: u32 = 80;
pub const SCANCODE_DOWN: u32 = 81;
pub const SCANCODE_UP: u32 = 82;
pub const SCANCODE_KP_PLUS: u32 = 87;
pub const SCANCODE_KP_4: u32 = 92;
pub const SCANCODE_KP_5: u32 = 93;
pub const SCANCODE_KP_6: u32 = 94;

/// The number of scancodes the keyboard state covers.
pub const SCANCODE_COUNT: usize = 512;

/// The default keys of a player, in button order A, B, Select, Start, Up,
/// Down, Left, Right: Q E C Space W S A D for the first player, keypad
/// 4 5 6 + and the arrows for the second.
pub open spec fn default_keys(player: u8) -> Seq<u32> {
    if player == 0 {
        seq![SCANCODE_Q, SCANCODE_E, SCANCODE_C, SCANCODE_SPACE, SCANCODE_W, SCANCODE_S, SCANCODE_A, SCANCODE_D]
    } else {
        seq![
            SCANCODE_KP_4,
            SCANCODE_KP_5,
            SCANCODE_KP_6,
            SCANCODE_KP_PLUS,
            SCANCODE_UP,
            SCANCODE_DOWN,
            SCANCODE_LEFT,
            SCANCODE_RIGHT,
        ]
    }
}

/// One player's key table, and the button waiting for a new key, if any.
#[derive(Copy, Clone, Debug)]
pub struct ControllerConfig {
    pub mapping: [u32; 8],
    pub pending_key_select: Option<u8>,
}

impl ControllerConfig {
    /// A waiting button is one of the eight.
    pub open spec fn wf(&self) -> bool {
        self.pending_key_select matches Some(b) ==> b < 8
    }

    /// The default table of player 0 or 1, with no key capture under way.
    pub fn new(player: u8) -> (r: ControllerConfig)
        requires
            player < 2,
        ensures
            r.mapping@ == default_keys(player),
            r.pending_key_select is None,
    {
        let mapping = if player == 0 {
            [SCANCODE_Q, SCANCODE_E, SCANCODE_C, SCANCODE_SPACE, SCANCODE_W, SCANCODE_S, SCANCODE_A, SCANCODE_D]
        } else {
            [
                SCANCODE_KP_4,
                SCANCODE_KP_5,
                SCANCODE_KP_6,
                SCANCODE_KP_PLUS,
                SCANCODE_UP,
                SCANCODE_DOWN,
                SCANCODE_LEFT,
                SCANCODE_RIGHT,
            ]
        };
        let r = ControllerConfig { mapping, pending_key_select: None };
        assert(r.mapping@ =~= default_keys(player));
        r
    }

    /// The key a button is mapped to.
    pub fn key_for_button(&self, button: StdNesControllerButton) -> (r: u32)
        ensures
            r == self.mapping@[button_index(button) as int],
    {
        self.mapping[button.index() as usize]
    }

    /// Asks for a new key for a button, unless a capture is already under way.
    pub fn select_key(&mut self, button: StdNesControllerButton)
        ensures
            final(self).mapping == old(self).mapping,
            final(self).pending_key_select == if old(self).pending_key_select is None {
                Some(button_index(button))
            } else {
                old(self).pending_key_select
            },
    {
        if self.pending_key_select.is_none() {
            self.pending_key_select = Some(button.index());
        }
    }
}

/// A player's table with a captured key stored at its waiting button, and
/// the capture ended.
pub open spec fn key_captured(c: ControllerConfig, key: u32) -> (Seq<u32>, Option<u8>) {
    match c.pending_key_select {
        Some(b) => (c.mapping@.update(b as int, key), None),
        None => (c.mapping@, None),
    }
}

/// A key press during a capture: it goes to the first player with a button
/// waiting, whose capture then ends; the other player's table stays. A press
/// without a scancode changes nothing. Modifier keys do not matter.
pub fn try_get_key_selection(configs: &mut [ControllerConfig; 2], scancode: Option<u32>)
    requires
        old(configs)@[0].wf(),
        old(configs)@[1].wf(),
    ensures
        scancode is None ==> final(configs)@ == old(configs)@,
        scancode matches Some(key) ==> if old(configs)@[0].pending_key_select is Some {
            &&& final(configs)@[0].mapping@ == key_captured(old(configs)@[0], key).0
            &&& final(configs)@[0].pending_key_select is None
            &&& final(configs)@[1] == old(configs)@[1]
        } else {
            &&& final(configs)@[0] == old(configs)@[0]
            &&& final(configs)@[1].mapping@ == key_captured(old(configs)@[1], key).0
            &&& final(configs)@[1].pending_key_select is None
        },
{
    if let Some(key) = scancode {
        let mut first = configs[0];
        let mut second = configs[1];
        if let Some(button) = first.pending_key_select {
            first.mapping[button as usize] = key;
            first.pending_key_select = None;
            configs[0] = first;
        } else if let Some(button) = second.pending_key_select {
            second.mapping[button as usize] = key;
            second.pending_key_select = None;
            configs[1] = second;
        }
    }
}

/// Whether a key capture waits for a key: only while the controllers setup
/// is open.
pub fn is_key_selection_pending(controllers_setup: bool, configs: &[ControllerConfig; 2]) -> (r: bool)
    ensures
        r == (controllers_setup && (configs@[0].pending_key_select is Some || configs@[1].pending_key_select
            is Some)),
{
    controllers_setup && (configs[0].pending_key_select.is_some() || configs[1].pending_key_select.is_some())
}

/// Closing the controllers setup abandons any key capture.
pub fn cancel_key_selection_if_closed(configs: &mut [ControllerConfig; 2], controllers_setup: bool)
    ensures
        controllers_setup ==> final(configs)@ == old(configs)@,
        !controllers_setup ==> final(configs)@[0].mapping == old(configs)@[0].mapping
            && final(configs)@[1].mapping == old(configs)@[1].mapping
            && final(configs)@[0].pending_key_select is None && final(configs)@[1].pending_key_select is None,
{
    if !controllers_setup {
        let mut first = configs[0];
        let mut second = configs[1];
        first.pending_key_select = None;
        second.pending_key_select = None;
        configs[0] = first;
        configs[1] = second;
    }
}

/// Which keys are down, by scancode.
#[derive(Copy, Clone, Debug)]
pub struct KeyboardState {
    pub pressed: [bool; SCANCODE_COUNT],
}

impl KeyboardState {
    /// Whether a key is down; scancodes past the table are never down.
    pub open spec fn key_down(&self, scancode: u32) -> bool {
        scancode < SCANCODE_COUNT && self.pressed@[scancode as int]
    }

    /// No key down.
    pub fn new() -> (r: KeyboardState)
        ensures
            forall|k: u32| !#[trigger] r.key_down(k),
    {
        KeyboardState { pressed: [false; SCANCODE_COUNT] }
    }

    /// A key went down or up; scancodes past the table are ignored.
    pub fn set_key(&mut self, scancode: u32, down: bool)
        ensures
            final(self).key_down(scancode) == (scancode < SCANCODE_COUNT && down),
            forall|k: u32| k != scancode ==> #[trigger] final(self).key_down(k) == old(self).key_down(k),
    {
        if (scancode as usize) < SCANCODE_COUNT {
            self.pressed[scancode as usize] = down;
        }
    }

    pub fn is_key_pressed(&self, scancode: u32) -> (r: bool)
        ensures
            r == self.key_down(scancode),
    {
        if (scancode as usize) < SCANCODE_COUNT {
            self.pressed[scancode as usize]
        } else {
            false
        }
    }
}

/// The frontend's input as the controllers see it: the two key tables, the
/// keyboard, the mouse and the frame number.
pub struct FrontendInput {
    pub configs: [ControllerConfig; 2],
    pub keyboard: KeyboardState,
    pub mouse_click: MouseClick,
    pub frame: u128,
}

impl ControllerAccess for FrontendInput {
    /// A button is down when the key its player's table maps it to is down.
    open spec fn button_pressed(&self, controller_id: ControllerId, button: StdNesControllerButton) -> bool {
        self.keyboard.key_down(self.configs@[controller_id.index_of() as int].mapping@[button_index(button) as int])
    }

    open spec fn mouse_click(&self) -> MouseClick {
        self.mouse_click
    }

    open spec fn current_frame(&self) -> u128 {
        self.frame
    }

    fn is_button_pressed(&self, controller_id: ControllerId, button: StdNesControllerButton) -> (r: bool) {
        let key = self.configs[controller_id.index()].key_for_button(button);
        self.keyboard.is_key_pressed(key)
    }

    fn get_mouse_click(&self) -> (r: MouseClick) {
        self.mouse_click
    }

    fn get_current_frame(&self) -> (r: u128) {
        self.frame
    }
}

} // verus!
