//! What passes between the emulator and its frontend: speed requests, the
//! frontend's controls, and frontends that answer the controllers' questions.
use crate::common::{DEFAULT_FPS, DOUBLE_FPS, HALF_FPS};
use crate::nes::{button_index, ControllerAccess, ControllerId, ControllerType, MouseClick, StdNesControllerButton};
use vstd::prelude::*;

pub mod io_dummy;
pub mod io_internal;

verus! {

/// A request to change the emulation speed.
#[derive(Copy, Clone, Debug, PartialEq, Eq, Structural)]
pub enum Speed {
    Half,
    Normal,
    Double,
    Increase,
    Decrease,
}

/// The frame rate that a speed request leads to: the fixed rates for half,
/// normal and double speed, 5 more or 5 fewer (not below 0) frames per
/// second for the steps.
pub open spec fn fps_after_speed(target_fps: u16, speed: Speed) -> u16 {
    match speed {
        Speed::Half => HALF_FPS,
        Speed::Normal => DEFAULT_FPS,
        Speed::Double => DOUBLE_FPS,
        Speed::Increase => ((target_fps + 5) % 0x10000) as u16,
        Speed::Decrease => if target_fps >= 5 { (target_fps - 5) as u16 } else { 0 },
    }
}

/// The target frame rate after a speed request.
pub fn fps_for_speed(target_fps: u16, speed: Speed) -> (r: u16)
    ensures
        r == fps_after_speed(target_fps, speed),
{
    match speed {
        Speed::Half => HALF_FPS,
        Speed::Normal => DEFAULT_FPS,
        Speed::Double => DOUBLE_FPS,
        Speed::Increase => target_fps.wrapping_add(5),
        Speed::Decrease => target_fps.saturating_sub(5),
    }
}

/// What the emulator tells its frontend each frame.
#[derive(Clone, Debug)]
pub struct IOControl {
    pub target_fps: u16,
    pub current_fps: u16,
    pub title: Option<String>,
    pub controller_type: [ControllerType; 2],
}

impl Default for IOControl {
    /// No frame rate yet, no title, standard controllers in both ports.
    fn default() -> (r: IOControl)
        ensures
            r.target_fps == 0,
            r.current_fps == 0,
            r.title is None,
            r.controller_type@ == seq![ControllerType::StdNesController, ControllerType::StdNesController],
    {
        let r = IOControl {
            target_fps: 0,
            current_fps: 0,
            title: None,
            controller_type: [ControllerType::StdNesController, ControllerType::StdNesController],
        };
        assert(r.controller_type@ =~= seq![ControllerType::StdNesController, ControllerType::StdNesController]);
        r
    }
}

/// A frontend that has no input to give.
pub struct DummyControllerAccessImplementation {}

impl DummyControllerAccessImplementation {
    pub fn new() -> (r: DummyControllerAccessImplementation) {
        DummyControllerAccessImplementation {  }
    }
}

/// A frontend for tests: buttons are pressed and released by calls, the
/// mouse is never clicked, and time stands at frame 0.
pub struct IOTest {
    buttons: [bool; 16],
}

/// Where a button of a port is kept: eight places per port.
pub open spec fn button_slot(controller_id: ControllerId, button: StdNesControllerButton) -> int {
    8 * controller_id.index_of() + button_index(button)
}

impl IOTest {
    /// All buttons of both ports released.
    pub fn new(_name: &str) -> (r: IOTest)
        ensures
            forall|id: ControllerId, b: StdNesControllerButton| !#[trigger] r.button_pressed(id, b),
    {
        IOTest { buttons: [false; 16] }
    }

    /// Presses or releases one button of one port.
    pub fn set_button_state(&mut self, button: StdNesControllerButton, controller_id: ControllerId, state: bool)
        ensures
            final(self).button_pressed(controller_id, button) == state,
            forall|id: ControllerId, b: StdNesControllerButton|
                (id != controller_id || b != button) ==> #[trigger] final(self).button_pressed(id, b)
                    == old(self).button_pressed(id, b),
    {
        let slot = 8 * controller_id.index() + button.index() as usize;
        self.buttons[slot] = state;
    }
}

impl ControllerAccess for IOTest {
    closed spec fn button_pressed(&self, controller_id: ControllerId, button: StdNesControllerButton) -> bool {
        self.buttons@[button_slot(controller_id, button)]
    }

    open spec fn mouse_click(&self) -> MouseClick {
        MouseClick { left_button: false, right_button: false, x: 0, y: 0 }
    }

    open spec fn current_frame(&self) -> u128 {
        0
    }

    fn is_button_pressed(&self, controller_id: ControllerId, button: StdNesControllerButton) -> (r: bool) {
        self.buttons[8 * controller_id.index() + button.index() as usize]
    }

    fn get_mouse_click(&self) -> (r: MouseClick) {
        MouseClick { left_button: false, right_button: false, x: 0, y: 0 }
    }

    fn get_current_frame(&self) -> (r: u128) {
        0
    }
}

/// A speed step up followed by a step down brings the frame rate back (where
/// the step up does not pass the top of the range), and the fixed speeds
/// ignore the rate they start from.
pub proof fn law_speed_steps_undo(fps: u16, other: u16)
    ensures
        fps <= 0xFFFA ==> fps_after_speed(fps_after_speed(fps, Speed::Increase), Speed::Decrease) == fps,
        fps_after_speed(fps, Speed::Half) == fps_after_speed(other, Speed::Half),
        fps_after_speed(fps, Speed::Normal) == fps_after_speed(other, Speed::Normal),
        fps_after_speed(fps, Speed::Double) == fps_after_speed(other, Speed::Double),
{
}

} // verus!
