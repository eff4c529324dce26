//! The types through which the emulator meets its frontend: controller
//! identities and types, buttons, mouse clicks, and the frontend's answers
//! about them.
use vstd::prelude::*;

verus! {

/// The two controller ports.
#[derive(Copy, Clone, Debug, PartialEq, Eq, Structural)]
pub enum ControllerId {
    Controller1,
    Controller2,
}

impl ControllerId {
    /// The port with the given index: 0 and 1.
    pub fn from_index(i: usize) -> (r: Option<ControllerId>)
        ensures
            r == (if i == 0 {
                Some(ControllerId::Controller1)
            } else if i == 1 {
                Some(ControllerId::Controller2)
            } else {
                None::<ControllerId>
            }),
    {
        match i {
            0 => Some(ControllerId::Controller1),
            1 => Some(ControllerId::Controller2),
            _ => None,
        }
    }

    pub open spec fn index_of(self) -> usize {
        match self {
            ControllerId::Controller1 => 0,
            ControllerId::Controller2 => 1,
        }
    }

    pub fn index(self) -> (r: usize)
        ensures
            r == self.index_of(),
    {
        match self {
            ControllerId::Controller1 => 0,
            ControllerId::Controller2 => 1,
        }
    }
}

/// What can be plugged into a port.
#[derive(Copy, Clone, Debug, PartialEq, Eq, Structural)]
pub enum ControllerType {
    NullController,
    StdNesController,
    Zapper,
}

impl ControllerType {
    /// The type with the given index: 0 none, 1 standard controller, 2 zapper.
    pub fn from_index(i: usize) -> (r: Option<ControllerType>)
        ensures
            r == (if i == 0 {
                Some(ControllerType::NullController)
            } else if i == 1 {
                Some(ControllerType::StdNesController)
            } else if i == 2 {
                Some(ControllerType::Zapper)
            } else {
                None::<ControllerType>
            }),
    {
        match i {
            0 => Some(ControllerType::NullController),
            1 => Some(ControllerType::StdNesController),
            2 => Some(ControllerType::Zapper),
            _ => None,
        }
    }
}

impl Default for ControllerType {
    /// The standard controller.
    fn default() -> (r: ControllerType)
        ensures
            r == ControllerType::StdNesController,
    {
        ControllerType::StdNesController
    }
}

/// The buttons of the standard controller, in the order it reports them.
#[derive(Copy, Clone, Debug, PartialEq, Eq, Hash, Structural)]
pub enum StdNesControllerButton {
    A,
    B,
    Select,
    Start,
    Up,
    Down,
    Left,
    Right,
}

/// The button reported at a position of the controller's shift sequence.
pub open spec fn button_at(index: u8) -> StdNesControllerButton {
    match index {
        0 => StdNesControllerButton::A,
        1 => StdNesControllerButton::B,
        2 => StdNesControllerButton::Select,
        3 => StdNesControllerButton::Start,
        4 => StdNesControllerButton::Up,
        5 => StdNesControllerButton::Down,
        6 => StdNesControllerButton::Left,
        _ => StdNesControllerButton::Right,
    }
}

pub open spec fn button_index(button: StdNesControllerButton) -> u8 {
    match button {
        StdNesControllerButton::A => 0,
        StdNesControllerButton::B => 1,
        StdNesControllerButton::Select => 2,
        StdNesControllerButton::Start => 3,
        StdNesControllerButton::Up => 4,
        StdNesControllerButton::Down => 5,
        StdNesControllerButton::Left => 6,
        StdNesControllerButton::Right => 7,
    }
}

impl StdNesControllerButton {
    /// The button at a position 0 to 7 of the shift sequence.
    pub fn from_index(value: u8) -> (r: Option<StdNesControllerButton>)
        ensures
            r == (if value < 8 { Some(button_at(value)) } else { None::<StdNesControllerButton> }),
    {
        match value {
            0 => Some(StdNesControllerButton::A),
            1 => Some(StdNesControllerButton::B),
            2 => Some(StdNesControllerButton::Select),
            3 => Some(StdNesControllerButton::Start),
            4 => Some(StdNesControllerButton::Up),
            5 => Some(StdNesControllerButton::Down),
            6 => Some(StdNesControllerButton::Left),
            7 => Some(StdNesControllerButton::Right),
            _ => None,
        }
    }

    pub fn index(self) -> (r: u8)
        ensures
            r == button_index(self),
    {
        match self {
            StdNesControllerButton::A => 0,
            StdNesControllerButton::B => 1,
            StdNesControllerButton::Select => 2,
            StdNesControllerButton::Start => 3,
            StdNesControllerButton::Up => 4,
            StdNesControllerButton::Down => 5,
            StdNesControllerButton::Left => 6,
            StdNesControllerButton::Right => 7,
        }
    }

    /// The button's name.
    pub fn name(self) -> (r: &'static str)
        ensures
            r@ == button_name(self)@,
    {
        match self {
            StdNesControllerButton::A => "A",
            StdNesControllerButton::B => "B",
            StdNesControllerButton::Select => "Select",
            StdNesControllerButton::Start => "Start",
            StdNesControllerButton::Up => "Up",
            StdNesControllerButton::Down => "Down",
            StdNesControllerButton::Left => "Left",
            StdNesControllerButton::Right => "Right",
        }
    }
}

pub open spec fn button_name(button: StdNesControllerButton) -> &'static str {
    match button {
        StdNesControllerButton::A => "A",
        StdNesControllerButton::B => "B",
        StdNesControllerButton::Select => "Select",
        StdNesControllerButton::Start => "Start",
        StdNesControllerButton::Up => "Up",
        StdNesControllerButton::Down => "Down",
        StdNesControllerButton::Left => "Left",
        StdNesControllerButton::Right => "Right",
    }
}

/// A mouse state as the zapper sees it.
#[derive(Copy, Clone, Debug, PartialEq, Eq, Structural)]
pub struct MouseClick {
    pub left_button: bool,
    pub right_button: bool,
    pub x: usize,
    pub y: usize,
}

/// The frontend's answers to the controllers: which buttons are down, the
/// mouse, and the current frame number. Each implementation says in its spec
/// functions what its answers are.
pub trait ControllerAccess {
    spec fn button_pressed(&self, controller_id: ControllerId, button: StdNesControllerButton) -> bool;

    spec fn mouse_click(&self) -> MouseClick;

    spec fn current_frame(&self) -> u128;

    fn is_button_pressed(&self, controller_id: ControllerId, button: StdNesControllerButton) -> (r: bool)
        ensures
            r == self.button_pressed(controller_id, button),
    ;

    fn get_mouse_click(&self) -> (r: MouseClick)
        ensures
            r == self.mouse_click(),
    ;

    fn get_current_frame(&self) -> (r: u128)
        ensures
            r == self.current_frame(),
    ;
}

/// A port's index names the same port again.
pub proof fn law_controller_id_index_roundtrip(id: ControllerId)
    ensures
        id.index_of() < 2,
        (if id.index_of() == 0 {
            Some(ControllerId::Controller1)
        } else if id.index_of() == 1 {
            Some(ControllerId::Controller2)
        } else {
            None::<ControllerId>
        }) == Some(id),
{
}

/// A button's position in the shift sequence names the same button again,
/// and every position below 8 is the position of its button.
pub proof fn law_button_index_roundtrip(button: StdNesControllerButton, index: u8)
    ensures
        button_index(button) < 8,
        button_at(button_index(button)) == button,
        index < 8 ==> button_index(button_at(index)) == index,
{
}

} // verus!
