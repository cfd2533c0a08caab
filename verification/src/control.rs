use vstd::prelude::*;

use crate::keys::{Key, KeyMeaning, key_meaning};

verus! {

/// How the mouse and the movement keys drive the camera.
#[derive(Clone, Copy, Debug, PartialEq, Eq, Structural)]
pub enum CameraNavigation {
    /// The pointer turns the camera and the keys move it.
    Free,
    /// The pointer is left to the user interface.
    Locked,
}

/// Image formats a frame can be exported to.
#[derive(Clone, Copy, Debug, PartialEq, Eq, Structural)]
pub enum ImgFileFormat {
    Jpeg,
    Png,
}

/// What the user asked for through the menus.
#[derive(Clone, Copy, Debug, PartialEq, Eq, Structural)]
pub enum GuiAction {
    Open,
    ExportAs(ImgFileFormat),
    ListModelsInfo,
}

/// What the window must do with the mouse cursor after a change of mode.
#[derive(Clone, Copy, Debug, PartialEq, Eq, Structural)]
pub enum CursorChange {
    Show,
    Hide,
}

pub const PIXEL_BYTES: usize = 4;

pub const CAMERA_FOWARDS: u8 = 1;
pub const CAMERA_BACKWARDS: u8 = 2;
pub const CAMERA_LEFT: u8 = 4;
pub const CAMERA_RIGHT: u8 = 8;
pub const CAMERA_UPWARDS: u8 = 16;
pub const CAMERA_DOWNWARDS: u8 = 32;

/// The movement flag that a key drives while the camera is free, or 0.
pub open spec fn key_direction(key: Key) -> u8 {
    match key {
        Key::W | Key::UpArrow => CAMERA_FOWARDS,
        Key::S | Key::DownArrow => CAMERA_BACKWARDS,
        Key::A | Key::LeftArrow => CAMERA_LEFT,
        Key::D | Key::RightArrow => CAMERA_RIGHT,
        Key::Space => CAMERA_UPWARDS,
        Key::LeftShift => CAMERA_DOWNWARDS,
        _ => 0,
    }
}

/// The movement flag for a direction of an arrow on the screen (`y` up):
/// sideways for left and right, forwards for up and backwards for down.
pub open spec fn camera_flag_of_direction(dx: int, dy: int) -> u8 {
    if dx < 0 {
        CAMERA_LEFT
    } else if dx > 0 {
        CAMERA_RIGHT
    } else if dy > 0 {
        CAMERA_FOWARDS
    } else {
        CAMERA_BACKWARDS
    }
}

/// An arrow key moves a free camera the way the arrow points: left and
/// right sideways, up forwards and down backwards.
pub proof fn law_arrow_keys_move_the_camera_their_way(key: Key)
    ensures
        key_meaning(key) matches KeyMeaning::Arrow(dx, dy) ==> key_direction(key) == camera_flag_of_direction(
            dx,
            dy,
        ),
{
}

/// The movement flag of `key` (see `key_direction`).
pub fn movement_of_key(key: Key) -> (d: u8)
    ensures
        d == key_direction(key),
{
    match key {
        Key::W | Key::UpArrow => CAMERA_FOWARDS,
        Key::S | Key::DownArrow => CAMERA_BACKWARDS,
        Key::A | Key::LeftArrow => CAMERA_LEFT,
        Key::D | Key::RightArrow => CAMERA_RIGHT,
        Key::Space => CAMERA_UPWARDS,
        Key::LeftShift => CAMERA_DOWNWARDS,
        _ => 0,
    }
}

/// The other navigation mode.
pub open spec fn toggled(mode: CameraNavigation) -> CameraNavigation {
    match mode {
        CameraNavigation::Free => CameraNavigation::Locked,
        CameraNavigation::Locked => CameraNavigation::Free,
    }
}

/// Which ways the camera moves in the current frame.
#[derive(Clone, Copy, Debug, PartialEq, Eq, Structural)]
pub struct CameraMovement {
    pub foward: bool,
    pub backward: bool,
    pub left: bool,
    pub right: bool,
    pub up: bool,
    pub down: bool,
}

/// The navigation mode of the camera and the directions it is moving in,
/// one bit per direction.
#[derive(Clone, Copy, Debug, PartialEq, Eq, Structural)]
pub struct CameraControl {
    pub mode: CameraNavigation,
    pub moving_direction: u8,
}

/// The control after a key press: F5 switches the mode first, then in free
/// mode a movement key sets its flag.
pub open spec fn after_key_press(c: CameraControl, key: Key) -> CameraControl {
    let mode = if key == Key::F5 { toggled(c.mode) } else { c.mode };
    let dir = if mode == CameraNavigation::Free {
        c.moving_direction | key_direction(key)
    } else {
        c.moving_direction
    };
    CameraControl { mode, moving_direction: dir }
}

/// The control after a key release: in free mode a movement key clears its
/// flag.
pub open spec fn after_key_release(c: CameraControl, key: Key) -> CameraControl {
    let dir = if c.mode == CameraNavigation::Free {
        c.moving_direction & !key_direction(key)
    } else {
        c.moving_direction
    };
    CameraControl { mode: c.mode, moving_direction: dir }
}

impl CameraControl {
    /// A locked camera that does not move.
    pub fn new() -> (c: CameraControl)
        ensures
            c.mode == CameraNavigation::Locked,
            c.moving_direction == 0,
    {
        CameraControl { mode: CameraNavigation::Locked, moving_direction: 0 }
    }

    /// Switches between free and locked navigation; a free camera hides the
    /// cursor and a locked one shows it.
    pub fn toggle_camera_mode(&mut self) -> (change: CursorChange)
        ensures
            final(self).mode == toggled(old(self).mode),
            final(self).moving_direction == old(self).moving_direction,
            change == (if old(self).mode == CameraNavigation::Free {
                CursorChange::Show
            } else {
                CursorChange::Hide
            }),
    {
        match self.mode {
            CameraNavigation::Free => {
                self.mode = CameraNavigation::Locked;
                CursorChange::Show
            },
            CameraNavigation::Locked => {
                self.mode = CameraNavigation::Free;
                CursorChange::Hide
            },
        }
    }

    /// Starts moving in the directions of `cam_direction`.
    pub fn add_camera_movement(&mut self, cam_direction: u8)
        ensures
            final(self).mode == old(self).mode,
            final(self).moving_direction == old(self).moving_direction | cam_direction,
    {
        self.moving_direction = self.moving_direction | cam_direction;
    }

    /// Stops moving in the directions of `cam_direction`.
    pub fn rm_camera_movement(&mut self, cam_direction: u8)
        ensures
            final(self).mode == old(self).mode,
            final(self).moving_direction == old(self).moving_direction & !cam_direction,
    {
        self.moving_direction = self.moving_direction & !cam_direction;
    }

    /// Reacts to a key press; says how the cursor changes when F5 switched
    /// the mode.
    pub fn key_press(&mut self, key: Key) -> (change: Option<CursorChange>)
        ensures
            *final(self) == after_key_press(*old(self), key),
            change == (if key == Key::F5 {
                Some(
                    if old(self).mode == CameraNavigation::Free {
                        CursorChange::Show
                    } else {
                        CursorChange::Hide
                    },
                )
            } else {
                None::<CursorChange>
            }),
    {
        let change = if key == Key::F5 {
            Some(self.toggle_camera_mode())
        } else {
            None
        };
        match self.mode {
            CameraNavigation::Free => {
                let d = movement_of_key(key);
                self.add_camera_movement(d);
            },
            CameraNavigation::Locked => {},
        }
        change
    }

    /// Reacts to a key release.
    pub fn key_release(&mut self, key: Key)
        ensures
            *final(self) == after_key_release(*old(self), key),
    {
        match self.mode {
            CameraNavigation::Free => {
                let d = movement_of_key(key);
                self.rm_camera_movement(d);
            },
            CameraNavigation::Locked => {},
        }
    }

    /// The directions the camera moves in this frame.
    pub fn movement(&self) -> (m: CameraMovement)
        ensures
            m.foward == (CAMERA_FOWARDS & self.moving_direction != 0),
            m.backward == (CAMERA_BACKWARDS & self.moving_direction != 0),
            m.left == (CAMERA_LEFT & self.moving_direction != 0),
            m.right == (CAMERA_RIGHT & self.moving_direction != 0),
            m.up == (CAMERA_UPWARDS & self.moving_direction != 0),
            m.down == (CAMERA_DOWNWARDS & self.moving_direction != 0),
    {
        CameraMovement {
            foward: CAMERA_FOWARDS & self.moving_direction != 0,
            backward: CAMERA_BACKWARDS & self.moving_direction != 0,
            left: CAMERA_LEFT & self.moving_direction != 0,
            right: CAMERA_RIGHT & self.moving_direction != 0,
            up: CAMERA_UPWARDS & self.moving_direction != 0,
            down: CAMERA_DOWNWARDS & self.moving_direction != 0,
        }
    }

    /// How far a pointer motion of `(dx, dy)` turns a free camera: three
    /// steps per pixel, the vertical axis reversed. A locked camera does not
    /// turn.
    pub fn camera_direction_delta(&self, dx: i32, dy: i32) -> (d: Option<(i32, i32)>)
        requires
            self.mode == CameraNavigation::Free ==> -0x8000_0000 <= 3 * dx < 0x8000_0000,
            self.mode == CameraNavigation::Free ==> -0x8000_0000 <= -3 * dy < 0x8000_0000,
        ensures
            d == (if self.mode == CameraNavigation::Free {
                Some(((3 * dx) as i32, (-3 * dy) as i32))
            } else {
                None::<(i32, i32)>
            }),
    {
        let sensibility: i32 = 3;
        match self.mode {
            CameraNavigation::Free => Some((sensibility * dx, -sensibility * dy)),
            CameraNavigation::Locked => None,
        }
    }
}

/// Releasing a movement key undoes pressing it, in free navigation, when its
/// direction was not already set.
pub proof fn law_release_undoes_press(c: CameraControl, key: Key)
    requires
        c.mode == CameraNavigation::Free,
        key != Key::F5,
        c.moving_direction & key_direction(key) == 0,
    ensures
        after_key_release(after_key_press(c, key), key) == c,
{
    let m = c.moving_direction;
    let d = key_direction(key);
    assert((m | d) & !d == m) by (bit_vector)
        requires
            m & d == 0,
    ;
}

/// Removing a movement undoes adding it when it was not already set.
pub proof fn law_rm_undoes_add(m: u8, d: u8)
    requires
        m & d == 0,
    ensures
        (m | d) & !d == m,
{
    assert((m | d) & !d == m) by (bit_vector)
        requires
            m & d == 0,
    ;
}

/// Pressing F5 twice gives back the navigation mode and the movements.
pub proof fn law_toggle_twice(c: CameraControl)
    ensures
        after_key_press(after_key_press(c, Key::F5), Key::F5) == c,
{
    let m = c.moving_direction;
    assert(m | 0u8 == m) by (bit_vector);
}

} // verus!
