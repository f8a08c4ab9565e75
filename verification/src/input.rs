//! Per-frame keyboard and mouse-button state.
use vstd::prelude::*;
use crate::event::{Key, key_vk};
use crate::rect::Rect;

verus! {

#[derive(Debug, Clone, Copy, PartialEq, Eq, Structural)]
pub enum MouseButton {
    Left,
    Right,
    Middle,
    Mouse4,
    Mouse5,
}

/// State of one mouse button between frames: whether a press or a release
/// is waiting to be observed, and where they happened.
#[derive(Debug, Clone, Copy, PartialEq, Eq, Structural)]
pub struct MouseButtonState {
    pub pressed: bool,
    pub released: bool,
    pub initial_position: Option<Rect>,
    pub release_position: Option<Rect>,
}

impl MouseButtonState {
    /// The state after the button went down at `pos`.
    pub open spec fn after_press(self, pos: Rect) -> Self {
        MouseButtonState { pressed: true, released: false, initial_position: Some(pos), ..self }
    }

    /// The state after the button went up at `pos`.
    pub open spec fn after_release(self, pos: Rect) -> Self {
        MouseButtonState { pressed: false, released: true, release_position: Some(pos), ..self }
    }

    /// Whether a waiting release completes a click inside `area`: both the
    /// press and the release positions must intersect it.
    pub open spec fn click_in(self, area: Rect) -> bool {
        &&& self.released
        &&& self.initial_position matches Some(p) && p.overlaps(area)
        &&& self.release_position matches Some(q) && q.overlaps(area)
    }

    pub fn new() -> (r: Self)
        ensures
            r == (MouseButtonState {
                pressed: false,
                released: false,
                initial_position: None,
                release_position: None,
            }),
    {
        MouseButtonState {
            pressed: false,
            released: false,
            initial_position: None,
            release_position: None,
        }
    }

    /// Reports a waiting press once, and clears it.
    pub fn is_pressed(&mut self) -> (r: bool)
        ensures
            r == old(self).pressed,
            *final(self) == (MouseButtonState { pressed: false, ..*old(self) }),
    {
        if self.pressed {
            self.pressed = false;
            true
        } else {
            false
        }
    }

    /// Reports a waiting release once, and clears it.
    pub fn is_released(&mut self) -> (r: bool)
        ensures
            r == old(self).released,
            *final(self) == (MouseButtonState { released: false, ..*old(self) }),
    {
        if self.released {
            self.released = false;
            true
        } else {
            false
        }
    }

    /// Reports whether a waiting release completes a click inside `area`, and
    /// clears the waiting release.
    pub fn clicked(&mut self, area: Rect) -> (r: bool)
        ensures
            r == old(self).click_in(area),
            *final(self) == (MouseButtonState { released: false, ..*old(self) }),
    {
        if !self.released {
            return false;
        }
        self.released = false;
        let initial = match self.initial_position {
            Some(p) => p,
            None => {
                return false;
            },
        };
        let release = match self.release_position {
            Some(p) => p,
            None => {
                return false;
            },
        };
        initial.intersects(area) && release.intersects(area)
    }

    /// Records that the button went down at `pos`.
    pub fn pressed(&mut self, pos: Rect)
        ensures
            *final(self) == old(self).after_press(pos),
    {
        self.pressed = true;
        self.released = false;
        self.initial_position = Some(pos);
    }

    /// Records that the button went up at `pos`.
    pub fn released(&mut self, pos: Rect)
        ensures
            *final(self) == old(self).after_release(pos),
    {
        self.pressed = false;
        self.released = true;
        self.release_position = Some(pos);
    }
}

impl Default for MouseButtonState {
    fn default() -> (r: Self)
        ensures
            r == (MouseButtonState {
                pressed: false,
                released: false,
                initial_position: None,
                release_position: None,
            }),
    {
        MouseButtonState::new()
    }
}

/// A press at `p` followed by a release at `q` is a click in `area` exactly
/// when both positions intersect `area`; the click is then reported once.
pub proof fn lemma_press_release_click(s: MouseButtonState, p: Rect, q: Rect, area: Rect)
    ensures
        s.after_press(p).after_release(q).click_in(area) == (p.overlaps(area) && q.overlaps(area)),
        !(MouseButtonState { released: false, ..s.after_press(p).after_release(q) }).click_in(area),
{
}

/// Keyboard state for the current and the previous frame, indexed by
/// virtual-key code, and the last mouse position.
pub struct InputState {
    pub current_keys: [bool; 256],
    pub previous_keys: [bool; 256],
    pub mouse_x: i32,
    pub mouse_y: i32,
}

impl InputState {
    /// The key with code `vk` is down in the current frame.
    pub open spec fn down_now(&self, vk: int) -> bool {
        self.current_keys@[vk]
    }

    /// The key with code `vk` was down in the previous frame.
    pub open spec fn down_before(&self, vk: int) -> bool {
        self.previous_keys@[vk]
    }

    /// The key with code `vk` went down since the previous frame.
    pub open spec fn went_down(&self, vk: int) -> bool {
        self.down_now(vk) && !self.down_before(vk)
    }

    /// The key with code `vk` went up since the previous frame.
    pub open spec fn went_up(&self, vk: int) -> bool {
        !self.down_now(vk) && self.down_before(vk)
    }

    /// No key is down, in either frame, and the mouse is at the origin.
    pub fn new() -> (r: Self)
        ensures
            forall|vk: int| 0 <= vk < 256 ==> !r.down_now(vk) && !r.down_before(vk),
            r.mouse_x == 0,
            r.mouse_y == 0,
    {
        InputState {
            current_keys: [false; 256],
            previous_keys: [false; 256],
            mouse_x: 0,
            mouse_y: 0,
        }
    }

    pub fn is_down(&self, key: Key) -> (r: bool)
        requires
            key_vk(key) < 256,
        ensures
            r == self.down_now(key_vk(key) as int),
    {
        let vk_code = key.vk_code();
        self.current_keys[vk_code]
    }

    pub fn is_up(&self, key: Key) -> (r: bool)
        requires
            key_vk(key) < 256,
        ensures
            r == !self.down_now(key_vk(key) as int),
    {
        let vk_code = key.vk_code();
        !self.current_keys[vk_code]
    }

    pub fn pressed(&self, key: Key) -> (r: bool)
        requires
            key_vk(key) < 256,
        ensures
            r == self.went_down(key_vk(key) as int),
    {
        let vk_code = key.vk_code();
        self.current_keys[vk_code] && !self.previous_keys[vk_code]
    }

    pub fn released(&self, key: Key) -> (r: bool)
        requires
            key_vk(key) < 256,
        ensures
            r == self.went_up(key_vk(key) as int),
    {
        let vk_code = key.vk_code();
        !self.current_keys[vk_code] && self.previous_keys[vk_code]
    }

    /// Starts a new frame: the current keys become the previous ones, so no
    /// key counts as pressed or released until it changes again.
    pub fn advance_frame(&mut self)
        ensures
            final(self).previous_keys@ == old(self).current_keys@,
            final(self).current_keys@ == old(self).current_keys@,
            final(self).mouse_x == old(self).mouse_x,
            final(self).mouse_y == old(self).mouse_y,
            forall|vk: int|
                0 <= vk < 256 ==> !final(self).went_down(vk) && !final(self).went_up(vk),
    {
        self.previous_keys = self.current_keys;
    }

    /// Marks the key with code `vk` as down; codes of 256 and above are
    /// ignored.
    pub fn set_key_down(&mut self, vk_code: usize)
        ensures
            final(self).current_keys@ == if vk_code < 256 {
                old(self).current_keys@.update(vk_code as int, true)
            } else {
                old(self).current_keys@
            },
            final(self).previous_keys@ == old(self).previous_keys@,
            final(self).mouse_x == old(self).mouse_x,
            final(self).mouse_y == old(self).mouse_y,
    {
        if vk_code < 256 {
            self.current_keys[vk_code] = true;
        }
    }

    /// Marks the key with code `vk` as up; codes of 256 and above are
    /// ignored.
    pub fn set_key_up(&mut self, vk_code: usize)
        ensures
            final(self).current_keys@ == if vk_code < 256 {
                old(self).current_keys@.update(vk_code as int, false)
            } else {
                old(self).current_keys@
            },
            final(self).previous_keys@ == old(self).previous_keys@,
            final(self).mouse_x == old(self).mouse_x,
            final(self).mouse_y == old(self).mouse_y,
    {
        if vk_code < 256 {
            self.current_keys[vk_code] = false;
        }
    }
}


/// A key marked down counts as down, and as pressed exactly when it was up
/// in the previous frame; a key marked up counts as up, and as released
/// exactly when it was down in the previous frame. A key is never both
/// pressed and released.
pub proof fn lemma_key_transitions(before: InputState, after_down: InputState, after_up: InputState, vk: int)
    requires
        0 <= vk < 256,
        after_down.current_keys@ == before.current_keys@.update(vk, true),
        after_down.previous_keys@ == before.previous_keys@,
        after_up.current_keys@ == before.current_keys@.update(vk, false),
        after_up.previous_keys@ == before.previous_keys@,
    ensures
        after_down.down_now(vk),
        after_down.went_down(vk) == !before.down_before(vk),
        !after_up.down_now(vk),
        after_up.went_up(vk) == before.down_before(vk),
        !(before.went_down(vk) && before.went_up(vk)),
{
}

} // verus!
