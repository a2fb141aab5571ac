//! Keyboard-driven camera control: which camera keys are held, the direction
//! the camera pans in, whether it pans fast, and which way it zooms.
use vstd::prelude::*;

verus! {

/// The keys the viewer reacts to; every other key is `Other`.
#[derive(Clone, Copy, Debug, PartialEq, Eq, Structural)]
pub enum Key {
    KeyW,
    KeyA,
    KeyS,
    KeyD,
    ArrowUp,
    ArrowLeft,
    ArrowDown,
    ArrowRight,
    KeyE,
    KeyQ,
    ShiftLeft,
    ShiftRight,
    Space,
    Escape,
    KeyU,
    Other,
}

/// Keys that pan the camera up.
pub open spec fn is_up_key(key: Key) -> bool {
    key == Key::KeyW || key == Key::ArrowUp
}

/// Keys that pan the camera left.
pub open spec fn is_left_key(key: Key) -> bool {
    key == Key::KeyA || key == Key::ArrowLeft
}

/// Keys that pan the camera down.
pub open spec fn is_down_key(key: Key) -> bool {
    key == Key::KeyS || key == Key::ArrowDown
}

/// Keys that pan the camera right.
pub open spec fn is_right_key(key: Key) -> bool {
    key == Key::KeyD || key == Key::ArrowRight
}

/// Keys that make panning fast while held.
pub open spec fn is_shift_key(key: Key) -> bool {
    key == Key::ShiftLeft || key == Key::ShiftRight
}

/// Keys that the camera controller handles: panning, zooming (E in, Q out)
/// and Shift.
pub open spec fn is_camera_key(key: Key) -> bool {
    ||| is_up_key(key)
    ||| is_left_key(key)
    ||| is_down_key(key)
    ||| is_right_key(key)
    ||| key == Key::KeyE
    ||| key == Key::KeyQ
    ||| is_shift_key(key)
}

/// `1` for the positive key alone, `-1` for the negative key alone, `0` when
/// both or neither are held.
pub open spec fn axis(positive: bool, negative: bool) -> int {
    (if positive { 1int } else { 0int }) - (if negative { 1int } else { 0int })
}

/// Which camera keys are held.
pub struct Controller {
    pub is_up_pressed: bool,
    pub is_down_pressed: bool,
    pub is_left_pressed: bool,
    pub is_right_pressed: bool,
    pub is_zoom_in_pressed: bool,
    pub is_zoom_out_pressed: bool,
    pub is_shift_pressed: bool,
}

/// The held keys after `code` is pressed (`is_pressed`) or released.
pub open spec fn after_key(c: Controller, code: Key, is_pressed: bool) -> Controller {
    Controller {
        is_up_pressed: if is_up_key(code) { is_pressed } else { c.is_up_pressed },
        is_down_pressed: if is_down_key(code) { is_pressed } else { c.is_down_pressed },
        is_left_pressed: if is_left_key(code) { is_pressed } else { c.is_left_pressed },
        is_right_pressed: if is_right_key(code) { is_pressed } else { c.is_right_pressed },
        is_zoom_in_pressed: if code == Key::KeyE { is_pressed } else { c.is_zoom_in_pressed },
        is_zoom_out_pressed: if code == Key::KeyQ { is_pressed } else { c.is_zoom_out_pressed },
        is_shift_pressed: if is_shift_key(code) { is_pressed } else { c.is_shift_pressed },
    }
}

/// Whether the action of `code` is already held in `c`.
pub open spec fn holds_action_of(c: Controller, code: Key) -> bool {
    ||| is_up_key(code) && c.is_up_pressed
    ||| is_left_key(code) && c.is_left_pressed
    ||| is_down_key(code) && c.is_down_pressed
    ||| is_right_key(code) && c.is_right_pressed
    ||| code == Key::KeyE && c.is_zoom_in_pressed
    ||| code == Key::KeyQ && c.is_zoom_out_pressed
    ||| is_shift_key(code) && c.is_shift_pressed
}

impl Controller {
    /// A controller with no key held.
    pub fn new() -> (controller: Self)
        ensures
            !controller.is_up_pressed,
            !controller.is_down_pressed,
            !controller.is_left_pressed,
            !controller.is_right_pressed,
            !controller.is_zoom_in_pressed,
            !controller.is_zoom_out_pressed,
            !controller.is_shift_pressed,
    {
        Controller {
            is_up_pressed: false,
            is_down_pressed: false,
            is_left_pressed: false,
            is_right_pressed: false,
            is_zoom_in_pressed: false,
            is_zoom_out_pressed: false,
            is_shift_pressed: false,
        }
    }

    /// Records that `code` was pressed or released; says whether `code` is a
    /// camera key. Only the flag of that key's action changes.
    pub fn handle_key(&mut self, code: Key, is_pressed: bool) -> (handled: bool)
        ensures
            handled == is_camera_key(code),
            *final(self) == after_key(*old(self), code, is_pressed),
    {
        match code {
            Key::KeyW | Key::ArrowUp => {
                self.is_up_pressed = is_pressed;
                true
            },
            Key::KeyA | Key::ArrowLeft => {
                self.is_left_pressed = is_pressed;
                true
            },
            Key::KeyS | Key::ArrowDown => {
                self.is_down_pressed = is_pressed;
                true
            },
            Key::KeyD | Key::ArrowRight => {
                self.is_right_pressed = is_pressed;
                true
            },
            Key::KeyE => {
                self.is_zoom_in_pressed = is_pressed;
                true
            },
            Key::KeyQ => {
                self.is_zoom_out_pressed = is_pressed;
                true
            },
            Key::ShiftLeft | Key::ShiftRight => {
                self.is_shift_pressed = is_pressed;
                true
            },
            _ => false,
        }
    }

    /// The direction the camera pans in, in units of the pan speed: `x`
    /// grows to the right and `y` upwards; opposite keys cancel.
    pub fn direction(&self) -> (d: (i8, i8))
        ensures
            d.0 == axis(self.is_right_pressed, self.is_left_pressed),
            d.1 == axis(self.is_up_pressed, self.is_down_pressed),
    {
        let mut dx: i8 = 0;
        let mut dy: i8 = 0;
        if self.is_up_pressed {
            dy = dy + 1;
        }
        if self.is_down_pressed {
            dy = dy - 1;
        }
        if self.is_left_pressed {
            dx = dx - 1;
        }
        if self.is_right_pressed {
            dx = dx + 1;
        }
        (dx, dy)
    }

    /// Which way the camera zooms: `1` in (E held), `-1` out (Q held), `0`
    /// when both or neither are held.
    pub fn zoom_direction(&self) -> (z: i8)
        ensures
            z == axis(self.is_zoom_in_pressed, self.is_zoom_out_pressed),
    {
        let mut z: i8 = 0;
        if self.is_zoom_in_pressed {
            z = z + 1;
        }
        if self.is_zoom_out_pressed {
            z = z - 1;
        }
        z
    }

    /// Whether panning is fast: Shift is held.
    pub fn is_fast(&self) -> (fast: bool)
        ensures
            fast == self.is_shift_pressed,
    {
        self.is_shift_pressed
    }
}

/// Pressing a key and releasing it again leaves the controller as it was,
/// when that key's action was not held before; a key that is not a camera key
/// changes nothing.
pub proof fn lemma_press_release_restores(c: Controller, code: Key)
    requires
        !holds_action_of(c, code),
    ensures
        after_key(after_key(c, code, true), code, false) == c,
        !is_camera_key(code) ==> after_key(c, code, true) == c,
{
}

/// Each camera key sets exactly its own flag to whether it is pressed: W and
/// Arrow Up the up flag, S and Arrow Down the down flag, A and Arrow Left the
/// left flag, D and Arrow Right the right flag, E zoom in, Q zoom out, and
/// either Shift the fast flag; every other flag keeps its value.
pub proof fn lemma_key_sets_its_flag(c: Controller, p: bool)
    ensures
        after_key(c, Key::KeyW, p) == (Controller { is_up_pressed: p, ..c }),
        after_key(c, Key::ArrowUp, p) == (Controller { is_up_pressed: p, ..c }),
        after_key(c, Key::KeyS, p) == (Controller { is_down_pressed: p, ..c }),
        after_key(c, Key::ArrowDown, p) == (Controller { is_down_pressed: p, ..c }),
        after_key(c, Key::KeyA, p) == (Controller { is_left_pressed: p, ..c }),
        after_key(c, Key::ArrowLeft, p) == (Controller { is_left_pressed: p, ..c }),
        after_key(c, Key::KeyD, p) == (Controller { is_right_pressed: p, ..c }),
        after_key(c, Key::ArrowRight, p) == (Controller { is_right_pressed: p, ..c }),
        after_key(c, Key::KeyE, p) == (Controller { is_zoom_in_pressed: p, ..c }),
        after_key(c, Key::KeyQ, p) == (Controller { is_zoom_out_pressed: p, ..c }),
        after_key(c, Key::ShiftLeft, p) == (Controller { is_shift_pressed: p, ..c }),
        after_key(c, Key::ShiftRight, p) == (Controller { is_shift_pressed: p, ..c }),
        after_key(c, Key::Space, p) == c,
        after_key(c, Key::Escape, p) == c,
        after_key(c, Key::KeyU, p) == c,
        after_key(c, Key::Other, p) == c,
{
}

/// The pan and zoom directions: one key of a pair gives `1` or `-1`, both or
/// neither give `0`. So with only a right key held the camera pans right
/// (`x == 1`), with only a left key held left (`x == -1`), and likewise up,
/// down, zoom in and zoom out.
pub proof fn lemma_axis_values(positive: bool, negative: bool)
    ensures
        positive && !negative ==> axis(positive, negative) == 1,
        !positive && negative ==> axis(positive, negative) == -1,
        positive == negative ==> axis(positive, negative) == 0,
{
}

} // verus!
