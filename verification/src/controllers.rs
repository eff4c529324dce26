//! The devices in the two controller ports.
use crate::nes::{
    button_at, ControllerAccess, ControllerId, ControllerType, MouseClick, StdNesControllerButton,
};
use vstd::prelude::*;

verus! {

/// A device in a controller port: the CPU reads it bit by bit and writes
/// the strobe to it.
pub trait Controller {
    fn read<A: ControllerAccess>(&mut self, access: &A) -> u8;

    fn write(&mut self, byte: u8);
}

/// An empty port.
#[derive(Copy, Clone, Debug, PartialEq, Eq, Structural)]
pub struct NullController {}

impl NullController {
    pub fn new() -> (r: NullController)
        ensures
            r == (NullController {}),
    {
        NullController {}
    }
}

impl Controller for NullController {
    /// An empty port reads as 0.
    fn read<A: ControllerAccess>(&mut self, access: &A) -> (r: u8)
        ensures
            r == 0,
    {
        0
    }

    fn write(&mut self, byte: u8)
        ensures
            *final(self) == *old(self),
    {
    }
}

/// The standard controller: a strobe latches the buttons, then each read
/// gives the next button, A first, and 1 once all eight are out.
#[derive(Copy, Clone, Debug, PartialEq, Eq, Structural)]
pub struct StdNesController {
    pub id: ControllerId,
    pub button: u8,
    pub strobe: bool,
}

/// The bit a read gives: 1 for a pressed button, except that Left with
/// Right or Down with Up reads as released; 1 past the eighth button.
pub open spec fn std_read_value<A: ControllerAccess>(c: StdNesController, access: A) -> u8 {
    if c.button < 8 {
        std_button_bit(c.id, button_at(c.button), access)
    } else {
        1
    }
}

/// The bit one button reports: 1 when pressed, except that Left with Right
/// or Down with Up reads as released.
pub open spec fn std_button_bit<A: ControllerAccess>(id: ControllerId, b: StdNesControllerButton, access: A) -> u8 {
    let pressed = access.button_pressed(id, b);
    let blocked = (b == StdNesControllerButton::Left && access.button_pressed(id, StdNesControllerButton::Right))
        || (b == StdNesControllerButton::Down && access.button_pressed(id, StdNesControllerButton::Up));
    if pressed && !blocked {
        1
    } else {
        0
    }
}

/// The controller after `n` reads.
pub open spec fn std_after_reads(c: StdNesController, n: nat) -> StdNesController
    decreases n,
{
    if n == 0 {
        c
    } else {
        std_after_read(std_after_reads(c, (n - 1) as nat))
    }
}

/// The controller after the strobe is raised and lowered again.
pub open spec fn std_strobed(c: StdNesController) -> StdNesController {
    std_after_write(std_after_write(c, 1), 0)
}

/// A read moves to the next button unless the strobe is high.
pub open spec fn std_after_read(c: StdNesController) -> StdNesController {
    if c.button < 8 && !c.strobe {
        StdNesController { button: (c.button + 1) as u8, ..c }
    } else {
        c
    }
}

/// A write sets the strobe from bit 0; a high strobe goes back to button A.
pub open spec fn std_after_write(c: StdNesController, byte: u8) -> StdNesController {
    if byte % 2 == 1 {
        StdNesController { strobe: true, button: 0, ..c }
    } else {
        StdNesController { strobe: false, ..c }
    }
}

impl StdNesController {
    pub fn new(id: ControllerId) -> (r: StdNesController)
        ensures
            r == (StdNesController { id, button: 0, strobe: false }),
    {
        StdNesController { id, button: 0, strobe: false }
    }
}

impl Controller for StdNesController {
    fn read<A: ControllerAccess>(&mut self, access: &A) -> (r: u8)
        ensures
            r == std_read_value(*old(self), *access),
            *final(self) == std_after_read(*old(self)),
    {
        if self.button < 8 {
            let button = match StdNesControllerButton::from_index(self.button) {
                Some(b) => b,
                None => StdNesControllerButton::A,
            };
            let mut val = access.is_button_pressed(self.id, button);
            if val && ((button == StdNesControllerButton::Left && access.is_button_pressed(
                self.id,
                StdNesControllerButton::Right,
            )) || (button == StdNesControllerButton::Down && access.is_button_pressed(
                self.id,
                StdNesControllerButton::Up,
            ))) {
                val = false;
            }
            if !self.strobe {
                self.button = self.button + 1;
            }
            if val {
                1
            } else {
                0
            }
        } else {
            1
        }
    }

    fn write(&mut self, byte: u8)
        ensures
            *final(self) == std_after_write(*old(self), byte),
    {
        self.strobe = byte % 2 == 1;
        if self.strobe {
            self.button = 0;
        }
    }
}

/// The light gun.
#[derive(Copy, Clone, Debug, PartialEq, Eq, Structural)]
pub struct Zapper {
    pub id: ControllerId,
    pub trigger_pressed: bool,
    pub frame_of_last_click: u128,
    pub x: usize,
    pub y: usize,
    pub right_button_pressed: bool,
    /// Whether the light at the aim point is bright.
    pub light_sensed: bool,
}

/// Frames from `last` to `current`, counting across the wrap of the frame counter.
pub open spec fn frames_between(last: u128, current: u128) -> u128 {
    if current >= last {
        (current - last) as u128
    } else {
        (u128::MAX - last + current) as u128
    }
}

/// The zapper after a read: a new click pulls the trigger and records the
/// aim point and frame; the trigger is released two frames after the click.
pub open spec fn zapper_after_read(z: Zapper, click: MouseClick, current_frame: u128) -> Zapper {
    let z1 = if (click.left_button || click.right_button) && !z.trigger_pressed {
        Zapper {
            x: click.x,
            y: click.y,
            trigger_pressed: true,
            frame_of_last_click: current_frame,
            right_button_pressed: click.right_button,
            ..z
        }
    } else {
        z
    };
    if frames_between(z1.frame_of_last_click, current_frame) >= 2 && z1.trigger_pressed {
        Zapper { trigger_pressed: false, ..z1 }
    } else {
        z1
    }
}

/// The byte a read gives: bit 3 set when no light is seen (bright light
/// clears it, but not within four frames of a click nor after a right-button
/// click), bit 4 while the trigger is pulled.
pub open spec fn zapper_read_value(z: Zapper, click: MouseClick, current_frame: u128) -> u8 {
    let z2 = zapper_after_read(z, click, current_frame);
    let light: int = if frames_between(z2.frame_of_last_click, current_frame) <= 4 || z2.right_button_pressed {
        8
    } else if z.light_sensed {
        0
    } else {
        8
    };
    (light + if z2.trigger_pressed { 16int } else { 0 }) as u8
}

impl Zapper {
    pub fn new(id: ControllerId) -> (r: Zapper)
        ensures
            r == (Zapper {
                id,
                trigger_pressed: false,
                frame_of_last_click: 0,
                x: 0,
                y: 0,
                right_button_pressed: false,
                light_sensed: false,
            }),
    {
        Zapper {
            id,
            trigger_pressed: false,
            frame_of_last_click: 0,
            x: 0,
            y: 0,
            right_button_pressed: false,
            light_sensed: false,
        }
    }

    fn frames_since_last_click(&self, current_frame: u128) -> (r: u128)
        ensures
            r == frames_between(self.frame_of_last_click, current_frame),
    {
        if current_frame >= self.frame_of_last_click {
            current_frame - self.frame_of_last_click
        } else {
            u128::MAX - self.frame_of_last_click + current_frame
        }
    }

    /// Records whether the light at the aim point is bright.
    pub fn set_light_sensed(&mut self, bright: bool)
        ensures
            *final(self) == (Zapper { light_sensed: bright, ..*old(self) }),
    {
        self.light_sensed = bright;
    }

    /// The point the gun aims at.
    pub fn aim(&self) -> (r: (usize, usize))
        ensures
            r == (self.x, self.y),
    {
        (self.x, self.y)
    }
}

impl Controller for Zapper {
    fn read<A: ControllerAccess>(&mut self, access: &A) -> (r: u8)
        ensures
            r == zapper_read_value(*old(self), access.mouse_click(), access.current_frame()),
            *final(self) == zapper_after_read(*old(self), access.mouse_click(), access.current_frame()),
    {
        let current_frame = access.get_current_frame();
        let mouse_click = access.get_mouse_click();
        if (mouse_click.left_button || mouse_click.right_button) && !self.trigger_pressed {
            self.x = mouse_click.x;
            self.y = mouse_click.y;
            self.trigger_pressed = true;
            self.frame_of_last_click = current_frame;
            self.right_button_pressed = mouse_click.right_button;
        }
        if self.frames_since_last_click(current_frame) >= 2 && self.trigger_pressed {
            self.trigger_pressed = false;
        }
        let mut light_bit: u8 = if self.light_sensed {
            0b0000_0000
        } else {
            0b0000_1000
        };
        if self.frames_since_last_click(current_frame) <= 4 || self.right_button_pressed {
            light_bit = 0b0000_1000;
        }
        light_bit + if self.trigger_pressed {
            0b0001_0000
        } else {
            0b0000_0000
        }
    }

    fn write(&mut self, byte: u8)
        ensures
            *final(self) == *old(self),
    {
    }
}

/// The device in one port.
#[derive(Copy, Clone, Debug, PartialEq, Eq, Structural)]
pub enum ControllerEnum {
    NullController(NullController),
    StdNesController(StdNesController),
    Zapper(Zapper),
}

pub open spec fn controller_type_of(c: ControllerEnum) -> ControllerType {
    match c {
        ControllerEnum::NullController(_) => ControllerType::NullController,
        ControllerEnum::StdNesController(_) => ControllerType::StdNesController,
        ControllerEnum::Zapper(_) => ControllerType::Zapper,
    }
}

/// A fresh device of a type for a port.
pub open spec fn new_controller_spec(id: ControllerId, controller_type: ControllerType) -> ControllerEnum {
    match controller_type {
        ControllerType::StdNesController => ControllerEnum::StdNesController(StdNesController { id, button: 0, strobe: false }),
        ControllerType::NullController => ControllerEnum::NullController(NullController {}),
        ControllerType::Zapper => ControllerEnum::Zapper(
            Zapper {
                id,
                trigger_pressed: false,
                frame_of_last_click: 0,
                x: 0,
                y: 0,
                right_button_pressed: false,
                light_sensed: false,
            },
        ),
    }
}

/// What a read of a device gives, and the device after it.
pub open spec fn controller_read<A: ControllerAccess>(c: ControllerEnum, access: A) -> (u8, ControllerEnum) {
    match c {
        ControllerEnum::NullController(n) => (0, c),
        ControllerEnum::StdNesController(s) => (std_read_value(s, access), ControllerEnum::StdNesController(std_after_read(s))),
        ControllerEnum::Zapper(z) => (
            zapper_read_value(z, access.mouse_click(), access.current_frame()),
            ControllerEnum::Zapper(zapper_after_read(z, access.mouse_click(), access.current_frame())),
        ),
    }
}

/// A device after a strobe write.
pub open spec fn controller_written(c: ControllerEnum, byte: u8) -> ControllerEnum {
    match c {
        ControllerEnum::StdNesController(s) => ControllerEnum::StdNesController(std_after_write(s, byte)),
        _ => c,
    }
}

impl ControllerEnum {
    pub fn get_type(&self) -> (r: ControllerType)
        ensures
            r == controller_type_of(*self),
    {
        match self {
            ControllerEnum::StdNesController(_) => ControllerType::StdNesController,
            ControllerEnum::NullController(_) => ControllerType::NullController,
            ControllerEnum::Zapper(_) => ControllerType::Zapper,
        }
    }
}

impl Controller for ControllerEnum {
    fn read<A: ControllerAccess>(&mut self, access: &A) -> (r: u8)
        ensures
            (r, *final(self)) == controller_read(*old(self), *access),
    {
        match self {
            ControllerEnum::NullController(c) => c.read(access),
            ControllerEnum::StdNesController(c) => c.read(access),
            ControllerEnum::Zapper(c) => c.read(access),
        }
    }

    fn write(&mut self, byte: u8)
        ensures
            *final(self) == controller_written(*old(self), byte),
    {
        match self {
            ControllerEnum::NullController(c) => c.write(byte),
            ControllerEnum::StdNesController(c) => c.write(byte),
            ControllerEnum::Zapper(c) => c.write(byte),
        }
    }
}

/// The two ports.
#[derive(Copy, Clone, Debug, PartialEq, Eq, Structural)]
pub struct Controllers {
    pub controller_1: ControllerEnum,
    pub controller_2: ControllerEnum,
}

pub open spec fn port(c: Controllers, id: ControllerId) -> ControllerEnum {
    match id {
        ControllerId::Controller1 => c.controller_1,
        ControllerId::Controller2 => c.controller_2,
    }
}

pub open spec fn with_port(c: Controllers, id: ControllerId, d: ControllerEnum) -> Controllers {
    match id {
        ControllerId::Controller1 => Controllers { controller_1: d, ..c },
        ControllerId::Controller2 => Controllers { controller_2: d, ..c },
    }
}

impl Controllers {
    /// Both ports empty.
    pub fn new() -> (r: Controllers)
        ensures
            r.controller_1 == ControllerEnum::NullController(NullController {}),
            r.controller_2 == ControllerEnum::NullController(NullController {}),
    {
        Controllers {
            controller_1: ControllerEnum::NullController(NullController::new()),
            controller_2: ControllerEnum::NullController(NullController::new()),
        }
    }

    fn new_controller(id: ControllerId, controller_type: ControllerType) -> (r: ControllerEnum)
        ensures
            r == new_controller_spec(id, controller_type),
    {
        match controller_type {
            ControllerType::StdNesController => ControllerEnum::StdNesController(StdNesController::new(id)),
            ControllerType::NullController => ControllerEnum::NullController(NullController::new()),
            ControllerType::Zapper => ControllerEnum::Zapper(Zapper::new(id)),
        }
    }

    /// Plugs a fresh device of the given type into a port, unless one of
    /// that type is already there (which then keeps its state).
    pub fn set_controller(&mut self, id: ControllerId, controller_type: ControllerType)
        ensures
            *final(self) == controller_set(*old(self), id, controller_type),
    {
        let current = match id {
            ControllerId::Controller1 => self.controller_1.get_type(),
            ControllerId::Controller2 => self.controller_2.get_type(),
        };
        if current != controller_type {
            let c = Self::new_controller(id, controller_type);
            match id {
                ControllerId::Controller1 => self.controller_1 = c,
                ControllerId::Controller2 => self.controller_2 = c,
            }
        }
    }

    /// Applies the frontend's requests to switch device types: port 1 first,
    /// then port 2; a port without a request keeps its device.
    pub fn switch_controllers(&mut self, switches: [Option<ControllerType>; 2])
        ensures
            *final(self) == switched(switched(*old(self), ControllerId::Controller1, switches@[0]), ControllerId::Controller2, switches@[1]),
    {
        let mut i: usize = 0;
        while i < 2
            invariant
                i <= 2,
                *self == if i == 0 {
                    *old(self)
                } else if i == 1 {
                    switched(*old(self), ControllerId::Controller1, switches@[0])
                } else {
                    switched(switched(*old(self), ControllerId::Controller1, switches@[0]), ControllerId::Controller2, switches@[1])
                },
            decreases 2 - i,
        {
            if let Some(controller_type) = switches[i] {
                if let Some(id) = ControllerId::from_index(i) {
                    self.set_controller(id, controller_type);
                }
            }
            i = i + 1;
        }
    }

    pub fn get_controller_type(&self, id: ControllerId) -> (r: ControllerType)
        ensures
            r == controller_type_of(port(*self, id)),
    {
        match id {
            ControllerId::Controller1 => self.controller_1.get_type(),
            ControllerId::Controller2 => self.controller_2.get_type(),
        }
    }

    /// Reads the device in a port.
    pub fn read<A: ControllerAccess>(&mut self, id: ControllerId, access: &A) -> (r: u8)
        ensures
            (r, port(*final(self), id)) == controller_read(port(*old(self), id), *access),
            port(*final(self), other_port(id)) == port(*old(self), other_port(id)),
    {
        match id {
            ControllerId::Controller1 => self.controller_1.read(access),
            ControllerId::Controller2 => self.controller_2.read(access),
        }
    }

    /// Writes the strobe to both ports.
    pub fn write(&mut self, value: u8)
        ensures
            final(self).controller_1 == controller_written(old(self).controller_1, value),
            final(self).controller_2 == controller_written(old(self).controller_2, value),
    {
        self.controller_1.write(value);
        self.controller_2.write(value);
    }
}

/// The ports after a device of type `t` is asked for in port `id`: a fresh
/// device, unless one of that type is already there.
pub open spec fn controller_set(c: Controllers, id: ControllerId, t: ControllerType) -> Controllers {
    if controller_type_of(port(c, id)) == t {
        c
    } else {
        with_port(c, id, new_controller_spec(id, t))
    }
}

/// The ports after a switch request for port `id`, if there is one.
pub open spec fn switched(c: Controllers, id: ControllerId, request: Option<ControllerType>) -> Controllers {
    match request {
        Some(t) => controller_set(c, id, t),
        None => c,
    }
}

pub open spec fn other_port(id: ControllerId) -> ControllerId {
    match id {
        ControllerId::Controller1 => ControllerId::Controller2,
        ControllerId::Controller2 => ControllerId::Controller1,
    }
}

impl Default for Controllers {
    fn default() -> (r: Controllers)
        ensures
            r.controller_1 == ControllerEnum::NullController(NullController {}),
            r.controller_2 == ControllerEnum::NullController(NullController {}),
    {
        Controllers::new()
    }
}

proof fn lemma_reads_advance(c: StdNesController, n: nat)
    requires
        c.button == 0,
        !c.strobe,
    ensures
        std_after_reads(c, n).id == c.id,
        !std_after_reads(c, n).strobe,
        std_after_reads(c, n).button == (if n < 8 { n } else { 8 }),
    decreases n,
{
    if n > 0 {
        lemma_reads_advance(c, (n - 1) as nat);
    }
}

/// Once the strobe has been raised and lowered, the standard controller
/// reports the buttons one per read in the order A, B, Select, Start, Up,
/// Down, Left, Right, and 1 on every read after the eighth.
pub proof fn law_strobe_then_reads<A: ControllerAccess>(c: StdNesController, access: A, k: nat)
    ensures
        std_read_value(std_after_reads(std_strobed(c), k), access) == (if k < 8 {
            std_button_bit(c.id, button_at(k as u8), access)
        } else {
            1u8
        }),
{
    lemma_reads_advance(std_strobed(c), k);
}

/// While the strobe is high every read reports button A and leaves the
/// controller as it is.
pub proof fn law_strobe_high_repeats_a<A: ControllerAccess>(c: StdNesController, access: A, k: nat)
    ensures
        std_after_reads(std_after_write(c, 1), k) == std_after_write(c, 1),
        std_read_value(std_after_write(c, 1), access) == std_button_bit(c.id, StdNesControllerButton::A, access),
    decreases k,
{
    if k > 0 {
        law_strobe_high_repeats_a(c, access, (k - 1) as nat);
    }
}

/// A click pulls the zapper's trigger: the read that sees it reports the
/// trigger (bit 4) and, within four frames of the click, no light (bit 3).
pub proof fn law_zapper_click_pulls_trigger(z: Zapper, click: MouseClick, frame: u128)
    requires
        click.left_button || click.right_button,
        !z.trigger_pressed,
    ensures
        zapper_after_read(z, click, frame).trigger_pressed,
        zapper_after_read(z, click, frame).frame_of_last_click == frame,
        zapper_read_value(z, click, frame) == 0x18,
{
}

/// The trigger is released on the first read two or more frames after the
/// click, and that read reports no trigger.
pub proof fn law_zapper_trigger_released(z: Zapper, click: MouseClick, frame: u128)
    requires
        z.trigger_pressed,
        frames_between(z.frame_of_last_click, frame) >= 2,
    ensures
        !zapper_after_read(z, click, frame).trigger_pressed,
        zapper_read_value(z, click, frame) == 0 || zapper_read_value(z, click, frame) == 8,
{
}

/// After a port is set to a type, the port reports that type, and the other
/// port keeps its device.
pub proof fn law_set_controller_type(c: Controllers, id: ControllerId, t: ControllerType)
    ensures
        controller_type_of(port(controller_set(c, id, t), id)) == t,
        port(controller_set(c, id, t), other_port(id)) == port(c, other_port(id)),
{
}

/// A button's bit is 1 exactly when it is pressed, but for the two
/// impossible pairs of the pad: Left reads as released while Right is
/// pressed, and Down while Up is pressed. No other button masks another.
pub proof fn law_button_bit<A: ControllerAccess>(id: ControllerId, b: StdNesControllerButton, access: A)
    ensures
        std_button_bit(id, b, access) == 0 || std_button_bit(id, b, access) == 1,
        std_button_bit(id, b, access) == 1 ==> access.button_pressed(id, b),
        b != StdNesControllerButton::Left && b != StdNesControllerButton::Down ==> std_button_bit(id, b, access) == (
        if access.button_pressed(id, b) {
            1u8
        } else {
            0u8
        }),
        std_button_bit(id, StdNesControllerButton::Down, access) == (if access.button_pressed(
            id,
            StdNesControllerButton::Down,
        ) && !access.button_pressed(id, StdNesControllerButton::Up) {
            1u8
        } else {
            0u8
        }),
        std_button_bit(id, StdNesControllerButton::Left, access) == (if access.button_pressed(
            id,
            StdNesControllerButton::Left,
        ) && !access.button_pressed(id, StdNesControllerButton::Right) {
            1u8
        } else {
            0u8
        }),
{
}

/// Down's bit depends on Down and Up alone, Left's on Left and Right alone,
/// and any other button's on that button alone: two states of the pad that
/// agree on those buttons read the same.
pub proof fn law_button_bit_depends_on_its_pair<A: ControllerAccess>(id: ControllerId, b: StdNesControllerButton, a1: A, a2: A)
    requires
        a1.button_pressed(id, b) == a2.button_pressed(id, b),
        b == StdNesControllerButton::Down ==> a1.button_pressed(id, StdNesControllerButton::Up) == a2.button_pressed(
            id,
            StdNesControllerButton::Up,
        ),
        b == StdNesControllerButton::Left ==> a1.button_pressed(id, StdNesControllerButton::Right) == a2.button_pressed(
            id,
            StdNesControllerButton::Right,
        ),
    ensures
        std_button_bit(id, b, a1) == std_button_bit(id, b, a2),
{
}

/// With a diagonal held (Down and Left, neither Up nor Right), the reads
/// after a strobe report both: the sixth read (Down) and the seventh (Left)
/// give 1.
pub proof fn law_diagonal_reads_both<A: ControllerAccess>(c: StdNesController, access: A)
    requires
        access.button_pressed(c.id, StdNesControllerButton::Down),
        access.button_pressed(c.id, StdNesControllerButton::Left),
        !access.button_pressed(c.id, StdNesControllerButton::Up),
        !access.button_pressed(c.id, StdNesControllerButton::Right),
    ensures
        std_read_value(std_after_reads(std_strobed(c), 5), access) == 1,
        std_read_value(std_after_reads(std_strobed(c), 6), access) == 1,
{
    law_strobe_then_reads(c, access, 5);
    law_strobe_then_reads(c, access, 6);
    assert(button_at(5) == StdNesControllerButton::Down);
    assert(button_at(6) == StdNesControllerButton::Left);
}

} // verus!
