use nes_rs::controllers::{Controller, ControllerEnum, Controllers, NullController, StdNesController, Zapper};
use nes_rs::io::IOTest;
use nes_rs::nes::{ControllerAccess, ControllerId, ControllerType, StdNesControllerButton};

fn strobe(controllers: &mut Controllers) {
    controllers.write(1);
    controllers.write(0);
}

#[test]
fn standard_controller_reports_buttons_in_order() {
    let mut access = IOTest::new("test");
    access.set_button_state(StdNesControllerButton::A, ControllerId::Controller1, true);
    access.set_button_state(StdNesControllerButton::Start, ControllerId::Controller1, true);
    access.set_button_state(StdNesControllerButton::Down, ControllerId::Controller1, true);
    let mut controllers = Controllers::new();
    controllers.set_controller(ControllerId::Controller1, ControllerType::StdNesController);
    strobe(&mut controllers);
    let mut reads = Vec::new();
    for _ in 0..10 {
        reads.push(controllers.read(ControllerId::Controller1, &access));
    }
    assert_eq!(reads, vec![1, 0, 0, 1, 0, 1, 0, 0, 1, 1]);
}

#[test]
fn opposite_directions_read_as_released() {
    let mut access = IOTest::new("test");
    access.set_button_state(StdNesControllerButton::Left, ControllerId::Controller2, true);
    access.set_button_state(StdNesControllerButton::Right, ControllerId::Controller2, true);
    access.set_button_state(StdNesControllerButton::Up, ControllerId::Controller2, true);
    access.set_button_state(StdNesControllerButton::Down, ControllerId::Controller2, true);
    let mut controller = StdNesController::new(ControllerId::Controller2);
    controller.write(1);
    controller.write(0);
    let reads: Vec<u8> = (0..8).map(|_| controller.read(&access)).collect();
    assert_eq!(reads, vec![0, 0, 0, 0, 1, 0, 0, 1]);
}

#[test]
fn strobe_high_keeps_reporting_a() {
    let mut access = IOTest::new("test");
    access.set_button_state(StdNesControllerButton::A, ControllerId::Controller1, true);
    let mut controller = StdNesController::new(ControllerId::Controller1);
    controller.write(1);
    for _ in 0..12 {
        assert_eq!(controller.read(&access), 1);
    }
    assert_eq!(controller.button, 0);
}

#[test]
fn ports_are_independent() {
    let mut access = IOTest::new("test");
    access.set_button_state(StdNesControllerButton::B, ControllerId::Controller2, true);
    let mut controllers = Controllers::new();
    controllers.set_controller(ControllerId::Controller1, ControllerType::StdNesController);
    controllers.set_controller(ControllerId::Controller2, ControllerType::StdNesController);
    strobe(&mut controllers);
    assert_eq!(controllers.read(ControllerId::Controller1, &access), 0);
    assert_eq!(controllers.read(ControllerId::Controller1, &access), 0);
    assert_eq!(controllers.read(ControllerId::Controller2, &access), 0);
    assert_eq!(controllers.read(ControllerId::Controller2, &access), 1);
}

#[test]
fn empty_port_reads_zero() {
    let access = IOTest::new("test");
    let mut controllers = Controllers::new();
    assert_eq!(controllers.get_controller_type(ControllerId::Controller1), ControllerType::NullController);
    assert_eq!(controllers.read(ControllerId::Controller1, &access), 0);
    let mut null = NullController::new();
    assert_eq!(null.read(&access), 0);
}

#[test]
fn set_controller_keeps_a_device_of_the_same_type() {
    let access = IOTest::new("test");
    let mut controllers = Controllers::default();
    controllers.set_controller(ControllerId::Controller1, ControllerType::StdNesController);
    controllers.write(1);
    controllers.write(0);
    controllers.read(ControllerId::Controller1, &access);
    controllers.set_controller(ControllerId::Controller1, ControllerType::StdNesController);
    match controllers.controller_1 {
        ControllerEnum::StdNesController(c) => assert_eq!(c.button, 1),
        _ => panic!("standard controller expected"),
    }
    controllers.set_controller(ControllerId::Controller1, ControllerType::Zapper);
    assert_eq!(controllers.get_controller_type(ControllerId::Controller1), ControllerType::Zapper);
    assert_eq!(controllers.get_controller_type(ControllerId::Controller2), ControllerType::NullController);
}

#[test]
fn zapper_without_click_sees_no_light() {
    let access = IOTest::new("test");
    let mut zapper = Zapper::new(ControllerId::Controller2);
    assert_eq!(zapper.read(&access), 0x08);
    zapper.set_light_sensed(true);
    // frame 0 is within four frames of the (initial) last click
    assert_eq!(zapper.read(&access), 0x08);
    assert!(!zapper.trigger_pressed);
}

#[test]
fn zapper_reports_light_away_from_a_click() {
    let access = IOTest::new("test");
    let mut zapper = Zapper::new(ControllerId::Controller2);
    zapper.frame_of_last_click = 0xFFFF_FFFF_FFFF_FFFF_FFFF_FFFF_FFFF_FFF0;
    zapper.set_light_sensed(true);
    assert_eq!(zapper.read(&access), 0x00, "light seen, trigger up");
    zapper.set_light_sensed(false);
    assert_eq!(zapper.read(&access), 0x08);
}

#[test]
fn io_test_answers() {
    let mut access = IOTest::new("test");
    assert!(!access.is_button_pressed(ControllerId::Controller1, StdNesControllerButton::Select));
    access.set_button_state(StdNesControllerButton::Select, ControllerId::Controller1, true);
    assert!(access.is_button_pressed(ControllerId::Controller1, StdNesControllerButton::Select));
    assert!(!access.is_button_pressed(ControllerId::Controller2, StdNesControllerButton::Select));
    access.set_button_state(StdNesControllerButton::Select, ControllerId::Controller1, false);
    assert!(!access.is_button_pressed(ControllerId::Controller1, StdNesControllerButton::Select));
    assert_eq!(access.get_current_frame(), 0);
    assert!(!access.get_mouse_click().left_button);
}

#[test]
fn switch_requests() {
    let mut controllers = Controllers::new();
    controllers.switch_controllers([Some(ControllerType::StdNesController), None]);
    assert_eq!(controllers.get_controller_type(ControllerId::Controller1), ControllerType::StdNesController);
    assert_eq!(controllers.get_controller_type(ControllerId::Controller2), ControllerType::NullController);
    controllers.switch_controllers([None, Some(ControllerType::Zapper)]);
    assert_eq!(controllers.get_controller_type(ControllerId::Controller1), ControllerType::StdNesController);
    assert_eq!(controllers.get_controller_type(ControllerId::Controller2), ControllerType::Zapper);
}
