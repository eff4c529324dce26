use nes_rs::colors::{ColorMapper, DefaultColorMapper};
use nes_rs::common::convert_2u8_to_u16;
use nes_rs::cpu_ram_apu::{ReadAccessRegister, WriteAccessRegister};
use nes_rs::frontend::{FrontendControl, VideoSizeControl};
use nes_rs::io::io_dummy::IODummy;
use nes_rs::io::io_internal::IOInternal;
use nes_rs::io::{fps_for_speed, IOControl, Speed};
use nes_rs::memory::{Memory, MemoryImpl};
use nes_rs::nes::{ControllerId, ControllerType, StdNesControllerButton};

#[test]
fn word_from_bytes() {
    assert_eq!(convert_2u8_to_u16(0x34, 0x12), 0x1234);
    assert_eq!(convert_2u8_to_u16(0xFF, 0xFF), 0xFFFF);
}

#[test]
fn memory_read_after_write() {
    let mut mem = MemoryImpl::<0x10000>::new();
    assert_eq!(mem.get_byte(0x1234), 0);
    Memory::store_byte(&mut mem, 0x1234, 0xAA);
    assert_eq!(Memory::get_byte(&mem, 0x1234), 0xAA);
    assert_eq!(Memory::get_byte(&mem, 0x1235), 0);
    mem.clear();
    assert_eq!(mem.get_byte(0x1234), 0);
}

#[test]
fn small_memory() {
    let mut mem = MemoryImpl::<16>::default();
    mem.store_byte(15, 7);
    assert_eq!(mem.get_byte(15), 7);
}

#[test]
fn apu_register_addresses() {
    assert_eq!(WriteAccessRegister::from_address(0x4015), Some(WriteAccessRegister::Status));
    assert_eq!(WriteAccessRegister::from_address(0x4017), Some(WriteAccessRegister::FrameCounter));
    assert_eq!(WriteAccessRegister::from_address(0x400B), Some(WriteAccessRegister::Triangle3));
    assert_eq!(WriteAccessRegister::from_address(0x4014), None);
    assert_eq!(WriteAccessRegister::from_address(0x4016), None);
    let all = WriteAccessRegister::iterator();
    assert_eq!(all.len(), 22);
    for r in all {
        assert_eq!(WriteAccessRegister::from_address(r.address()), Some(r));
    }
    assert_eq!(ReadAccessRegister::Status.address(), 0x4015);
    assert_eq!(ReadAccessRegister::iterator(), vec![ReadAccessRegister::Status]);
}

#[test]
fn controller_ids_and_types() {
    assert_eq!(ControllerId::from_index(0), Some(ControllerId::Controller1));
    assert_eq!(ControllerId::from_index(1), Some(ControllerId::Controller2));
    assert_eq!(ControllerId::from_index(2), None);
    assert_eq!(ControllerId::Controller2.index(), 1);
    assert_eq!(ControllerType::from_index(2), Some(ControllerType::Zapper));
    assert_eq!(ControllerType::from_index(3), None);
    assert_eq!(ControllerType::default(), ControllerType::StdNesController);
}

#[test]
fn buttons() {
    for i in 0..8u8 {
        let b = StdNesControllerButton::from_index(i).unwrap();
        assert_eq!(b.index(), i);
    }
    assert_eq!(StdNesControllerButton::from_index(8), None);
    assert_eq!(StdNesControllerButton::Select.name(), "Select");
    assert_eq!(StdNesControllerButton::Right.name(), "Right");
}

#[test]
fn palette() {
    let mapper = DefaultColorMapper::new();
    assert_eq!(mapper.map_nes_color(0x00), (124, 124, 124));
    assert_eq!(mapper.map_nes_color(0x01), (0, 0, 252));
    assert_eq!(mapper.map_nes_color(0x16), (248, 56, 0));
    assert_eq!(mapper.map_nes_color(0x30), (252, 252, 252));
    assert_eq!(mapper.map_nes_color(0x3F), (0, 0, 0));
}

#[test]
fn speed_requests() {
    assert_eq!(fps_for_speed(60, Speed::Half), 30);
    assert_eq!(fps_for_speed(30, Speed::Normal), 60);
    assert_eq!(fps_for_speed(60, Speed::Double), 120);
    assert_eq!(fps_for_speed(60, Speed::Increase), 65);
    assert_eq!(fps_for_speed(60, Speed::Decrease), 55);
    assert_eq!(fps_for_speed(3, Speed::Decrease), 0);
    let mut control = FrontendControl::default();
    assert_eq!(control.controller_type, [ControllerType::StdNesController; 2]);
    control.target_fps = 60;
    control.apply_speed(Speed::Increase);
    assert_eq!(control.target_fps, 65);
    let io = IOControl::default();
    assert_eq!(io.target_fps, 0);
    assert!(io.title.is_none());
}

#[test]
fn video_sizes() {
    assert_eq!(VideoSizeControl::default(), VideoSizeControl::Double);
    assert_eq!(VideoSizeControl::Double.size(), [512, 480]);
    assert_eq!(VideoSizeControl::_Normal.size(), [256, 240]);
    assert_eq!(VideoSizeControl::Quadrupal.scaling(), 4);
}

#[test]
fn picture_pixels() {
    let mut frame = IOInternal::new();
    assert_eq!(frame.get_pixels_slice_const().len(), 256 * 240 * 3);
    frame.set_pixel(1, 2, (10, 20, 30));
    let index = (2 * 256 + 1) * 3;
    assert_eq!(&frame.get_pixels_slice()[index..index + 3], &[10, 20, 30]);
    assert_eq!(frame.get_pixels_slice()[index + 3], 0);
    let mut dummy = IODummy::new("dummy");
    dummy.set_pixel(255, 239, (1, 2, 3));
    dummy.present_frame();
    let last = 256 * 240 * 3 - 3;
    assert_eq!(&dummy.pixels()[last..], &[1, 2, 3]);
}

#[test]
fn window_sizes() {
    assert_eq!(VideoSizeControl::Double.window_size(), (512, 498));
    assert_eq!(VideoSizeControl::_Normal.window_size(), (360, 258), "at least the narrowest window");
}
