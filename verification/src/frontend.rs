//! The frontend's side of the emulation: what it is told each frame and how
//! large it draws the picture.
pub use crate::io::Speed;
use crate::common::{FRAME_HEIGHT, FRAME_WIDTH};
use crate::io::{fps_after_speed, fps_for_speed};
use crate::nes::ControllerType;
use vstd::prelude::*;

pub mod keys;
pub mod menu;

verus! {

/// What the emulation tells the frontend each frame.
#[derive(Clone, Debug)]
pub struct FrontendControl {
    pub target_fps: u16,
    pub current_fps: u16,
    pub title: Option<String>,
    pub controller_type: [ControllerType; 2],
}

impl Default for FrontendControl {
    /// No frame rate yet, no title, standard controllers in both ports.
    fn default() -> (r: FrontendControl)
        ensures
            r.target_fps == 0,
            r.current_fps == 0,
            r.title is None,
            r.controller_type@ == seq![ControllerType::StdNesController, ControllerType::StdNesController],
    {
        let r = FrontendControl {
            target_fps: 0,
            current_fps: 0,
            title: None,
            controller_type: [ControllerType::StdNesController, ControllerType::StdNesController],
        };
        assert(r.controller_type@ =~= seq![ControllerType::StdNesController, ControllerType::StdNesController]);
        r
    }
}

impl FrontendControl {
    /// Applies a speed request to the target frame rate.
    pub fn apply_speed(&mut self, speed: Speed)
        ensures
            final(self).target_fps == fps_after_speed(old(self).target_fps, speed),
            final(self).current_fps == old(self).current_fps,
            final(self).title == old(self).title,
            final(self).controller_type == old(self).controller_type,
    {
        self.target_fps = fps_for_speed(self.target_fps, speed);
    }
}

/// How large the picture is drawn: a whole multiple of its size, or the
/// full screen.
#[derive(Copy, Clone, Debug, PartialEq, Eq, Structural)]
pub enum VideoSizeControl {
    _Normal,
    Double,
    Triple,
    Quadrupal,
    FullScreen,
}

/// The multiple of the picture's size that a choice stands for.
pub open spec fn video_scaling(v: VideoSizeControl) -> u32 {
    match v {
        VideoSizeControl::_Normal => 1,
        VideoSizeControl::Double => 2,
        VideoSizeControl::Triple => 3,
        VideoSizeControl::Quadrupal => 4,
        VideoSizeControl::FullScreen => 5,
    }
}

/// The height of the menu bar above the picture, and the narrowest window.
pub const MENU_BAR_HEIGHT: u32 = 18;
pub const MIN_WINDOW_WIDTH: u32 = 360;

/// The window size of a windowed choice: the picture's size, at least the
/// narrowest window wide, with the menu bar added to its height.
pub open spec fn window_size_of(v: VideoSizeControl) -> (u32, u32) {
    let width: int = video_scaling(v) * FRAME_WIDTH;
    let height: int = video_scaling(v) * FRAME_HEIGHT;
    ((if width > MIN_WINDOW_WIDTH { width } else { MIN_WINDOW_WIDTH as int }) as u32, (height + MENU_BAR_HEIGHT) as u32)
}

impl Default for VideoSizeControl {
    /// Twice the picture's size.
    fn default() -> (r: VideoSizeControl)
        ensures
            r == VideoSizeControl::Double,
    {
        VideoSizeControl::Double
    }
}

impl VideoSizeControl {
    pub fn scaling(self) -> (r: u32)
        ensures
            r == video_scaling(self),
    {
        match self {
            VideoSizeControl::_Normal => 1,
            VideoSizeControl::Double => 2,
            VideoSizeControl::Triple => 3,
            VideoSizeControl::Quadrupal => 4,
            VideoSizeControl::FullScreen => 5,
        }
    }

    /// The window size, width and height, of a windowed choice; the full
    /// screen has no size of its own.
    pub fn size(self) -> (r: [u32; 2])
        requires
            self != VideoSizeControl::FullScreen,
        ensures
            r@ == seq![(video_scaling(self) * FRAME_WIDTH as u32) as u32, (video_scaling(self) * FRAME_HEIGHT as u32) as u32],
    {
        let scaling = self.scaling();
        let r = [scaling * FRAME_WIDTH as u32, scaling * FRAME_HEIGHT as u32];
        assert(r@ =~= seq![(video_scaling(self) * FRAME_WIDTH as u32) as u32, (video_scaling(self) * FRAME_HEIGHT as u32) as u32]);
        r
    }

    /// The size the window takes for a windowed choice.
    pub fn window_size(self) -> (r: (u32, u32))
        requires
            self != VideoSizeControl::FullScreen,
        ensures
            r == window_size_of(self),
    {
        let size = self.size();
        let width = size[0];
        let height = size[1];
        (if width > MIN_WINDOW_WIDTH {
            width
        } else {
            MIN_WINDOW_WIDTH
        }, height + MENU_BAR_HEIGHT)
    }
}

} // verus!
