//! The viewer's decisions: pausing, when the simulation takes a step, what a
//! key press does, painting a cell and loading a board from an image.
use vstd::prelude::*;
use crate::camera::{Controller, Key, after_key, is_camera_key};
use crate::grid::{GRID_WIDTH, INSTANCE_SIZE, cell_count, cell_index, in_grid, cell_from_grid_position};
use crate::image_decode::{MAX_DECODED_PIXELS, decode_rgba, decoded_rgba};
use crate::instance::Instance;
use crate::simulation::{
    BoardError,
    CurrentInstanceBuffer,
    Pixel,
    Simulation,
    black,
    expected_rgba_len,
    other_buffer,
    sampled_board,
    samples_fit,
    samples_fit_image,
    lemma_samples_inside_image,
    max_sample_offset,
    sample_offset,
};

verus! {

/// Time between two simulation steps while running, in nanoseconds.
pub const STEP_INTERVAL_NANOS: u64 = 500_000_000;

/// What a key press asks of the application.
#[derive(Clone, Copy, Debug, PartialEq, Eq, Structural)]
pub enum KeyResponse {
    /// Close the application.
    Exit,
    /// Playback was paused or resumed.
    PauseToggled,
    /// A camera key changed: the camera is to be updated.
    CameraMoved,
    /// The key means nothing here.
    Ignored,
}

/// What a frame draws.
#[derive(Clone, Copy, Debug, PartialEq, Eq, Structural)]
pub enum FramePlan {
    /// Record a simulation step that reads the other buffer and writes
    /// `written`, then draw `written`.
    Step { written: CurrentInstanceBuffer },
    /// Draw `current` as it is.
    Show { current: CurrentInstanceBuffer },
}

/// How a frame begins.
#[derive(Clone, Copy, Debug, PartialEq, Eq, Structural)]
pub enum FrameStart {
    /// No surface to draw on yet: skip the frame.
    Skip,
    /// Acquire the next surface texture and hand its outcome to `State::render`.
    Acquire,
}

/// The outcome of acquiring the next surface texture.
#[derive(Clone, Copy, Debug, PartialEq, Eq, Structural)]
pub enum SurfaceTextureOutcome {
    /// A texture that fits the surface.
    Success,
    /// A texture that can be drawn, on a surface that should be reconfigured.
    Suboptimal,
    /// No texture within the time limit.
    Timeout,
    /// The window is not visible.
    Occluded,
    /// A validation error occurred.
    Validation,
    /// The surface no longer fits the window.
    Outdated,
    /// The device was lost.
    Lost,
}

/// What the application is to do with a frame once its texture was asked for.
#[derive(Clone, Copy, Debug, PartialEq, Eq, Structural)]
pub enum FrameAction {
    /// Draw the frame as `plan` says and present it, then reconfigure the
    /// surface if asked.
    Draw { plan: FramePlan, reconfigure_after_present: bool },
    /// Draw nothing this frame.
    Skip,
    /// Reconfigure the surface and draw nothing this frame.
    Reconfigure,
    /// Stop with an error: the device is lost.
    DeviceLost,
}

/// An action that the controls panel asks the application for.
#[derive(Clone, Copy, Debug, PartialEq, Eq, Structural)]
pub enum UiAction {
    OpenImageDialog,
    SaveImageDialog,
}

/// `a + b`, saturated to the range of `u64`.
pub open spec fn saturating_sum(a: u64, b: u64) -> u64 {
    if a + b > u64::MAX {
        u64::MAX
    } else {
        (a + b) as u64
    }
}

/// The running time since the last step once a frame `delta` long has
/// passed; it does not advance while paused.
pub open spec fn elapsed_after(s: State, delta: u64) -> u64 {
    if s.is_paused {
        s.elapsed_nanos
    } else {
        saturating_sum(s.elapsed_nanos, delta)
    }
}

/// Whether a running viewer's step timer has reached the step interval.
pub open spec fn step_due(s: State) -> bool {
    !s.is_paused && s.elapsed_nanos >= STEP_INTERVAL_NANOS
}

/// Whether a frame `delta` long makes the simulation take a step.
pub open spec fn steps(s: State, delta: u64) -> bool {
    !s.is_paused && elapsed_after(s, delta) >= STEP_INTERVAL_NANOS
}

/// The viewer's state apart from windowing and GPU resources.
pub struct State {
    pub simulation: Simulation,
    pub camera_controller: Controller,
    pub is_paused: bool,
    /// Time since the last simulation step, in nanoseconds, counted only
    /// while running.
    pub elapsed_nanos: u64,
}

impl State {
    /// A running viewer with a fresh simulation and no camera key held.
    pub fn new() -> (state: Self)
        ensures
            !state.is_paused,
            state.elapsed_nanos == 0,
            state.simulation.current_instance_buf == CurrentInstanceBuffer::A,
            state.simulation.born_rules == crate::rules::DEFAULT_BORN_RULES,
            state.simulation.survive_rules == crate::rules::DEFAULT_SURVIVE_RULES,
            !state.camera_controller.is_up_pressed,
            !state.camera_controller.is_down_pressed,
            !state.camera_controller.is_left_pressed,
            !state.camera_controller.is_right_pressed,
            !state.camera_controller.is_zoom_in_pressed,
            !state.camera_controller.is_zoom_out_pressed,
            !state.camera_controller.is_shift_pressed,
    {
        State {
            simulation: Simulation::new(),
            camera_controller: Controller::new(),
            is_paused: false,
            elapsed_nanos: 0,
        }
    }

    /// Adds the time of a frame `delta_nanos` long to the step timer; the
    /// timer stands still while paused.
    pub fn add_frame_time(&mut self, delta_nanos: u64)
        ensures
            final(self).elapsed_nanos == elapsed_after(*old(self), delta_nanos),
            old(self).is_paused ==> final(self).elapsed_nanos == old(self).elapsed_nanos,
            !old(self).is_paused && old(self).elapsed_nanos + delta_nanos <= u64::MAX
                ==> final(self).elapsed_nanos == old(self).elapsed_nanos + delta_nanos,
            !old(self).is_paused && old(self).elapsed_nanos + delta_nanos > u64::MAX
                ==> final(self).elapsed_nanos == u64::MAX,
            final(self).is_paused == old(self).is_paused,
            final(self).simulation == old(self).simulation,
            final(self).camera_controller == old(self).camera_controller,
    {
        if !self.is_paused {
            self.elapsed_nanos = self.elapsed_nanos.saturating_add(delta_nanos);
        }
    }

    /// Decides what the frame draws from the time added so far: once a running
    /// viewer's timer has reached `STEP_INTERVAL_NANOS` a step is taken and
    /// the timer starts over; otherwise the current board is drawn as it is.
    pub fn decide_frame(&mut self) -> (plan: FramePlan)
        ensures
            final(self).is_paused == old(self).is_paused,
            final(self).camera_controller == old(self).camera_controller,
            final(self).simulation.born_rules == old(self).simulation.born_rules,
            final(self).simulation.survive_rules == old(self).simulation.survive_rules,
            step_due(*old(self)) ==> {
                &&& plan == FramePlan::Step {
                    written: other_buffer(old(self).simulation.current_instance_buf),
                }
                &&& final(self).simulation.current_instance_buf == other_buffer(
                    old(self).simulation.current_instance_buf,
                )
                &&& final(self).elapsed_nanos == 0
            },
            !step_due(*old(self)) ==> {
                &&& plan == FramePlan::Show { current: old(self).simulation.current_instance_buf }
                &&& *final(self) == *old(self)
            },
    {
        if !self.is_paused && self.elapsed_nanos >= STEP_INTERVAL_NANOS {
            self.elapsed_nanos = 0;
            let written = self.simulation.record();
            FramePlan::Step { written }
        } else {
            FramePlan::Show { current: self.simulation.current_instance_buf_to_use() }
        }
    }

    /// Begins a frame `delta_nanos` after the previous one began. With no
    /// configured surface there is nothing to draw: the frame is skipped and
    /// nothing changes. Otherwise the frame's time is added to the step timer
    /// (`add_frame_time`) and the next surface texture is to be acquired; the
    /// frame's start then counts as the previous frame's for the next one.
    pub fn start_frame(&mut self, surface_configured: bool, delta_nanos: u64) -> (start:
        FrameStart)
        ensures
            !surface_configured ==> start == FrameStart::Skip && *final(self) == *old(self),
            surface_configured ==> {
                &&& start == FrameStart::Acquire
                &&& final(self).elapsed_nanos == elapsed_after(*old(self), delta_nanos)
                &&& !old(self).is_paused && old(self).elapsed_nanos + delta_nanos <= u64::MAX
                    ==> final(self).elapsed_nanos == old(self).elapsed_nanos + delta_nanos
                &&& old(self).is_paused ==> final(self).elapsed_nanos == old(self).elapsed_nanos
                &&& final(self).is_paused == old(self).is_paused
                &&& final(self).simulation == old(self).simulation
                &&& final(self).camera_controller == old(self).camera_controller
            },
    {
        if !surface_configured {
            return FrameStart::Skip;
        }
        self.add_frame_time(delta_nanos);
        FrameStart::Acquire
    }

    /// Answers the outcome of acquiring the frame's surface texture. A
    /// texture, suboptimal or not, is drawn with the plan of `decide_frame`,
    /// and a suboptimal surface is reconfigured after presenting; an outdated
    /// surface is reconfigured and the frame skipped; a timeout, an occluded
    /// window or a validation error skips the frame; a lost device is an
    /// error. Only a drawn frame can take a simulation step.
    pub fn render(&mut self, acquired: SurfaceTextureOutcome) -> (action: FrameAction)
        ensures
            (acquired == SurfaceTextureOutcome::Success || acquired
                == SurfaceTextureOutcome::Suboptimal) ==> {
                &&& final(self).is_paused == old(self).is_paused
                &&& final(self).camera_controller == old(self).camera_controller
                &&& final(self).simulation.born_rules == old(self).simulation.born_rules
                &&& final(self).simulation.survive_rules == old(self).simulation.survive_rules
                &&& step_due(*old(self)) ==> {
                    &&& action == FrameAction::Draw {
                        plan: FramePlan::Step {
                            written: other_buffer(old(self).simulation.current_instance_buf),
                        },
                        reconfigure_after_present: acquired == SurfaceTextureOutcome::Suboptimal,
                    }
                    &&& final(self).simulation.current_instance_buf == other_buffer(
                        old(self).simulation.current_instance_buf,
                    )
                    &&& final(self).elapsed_nanos == 0
                }
                &&& !step_due(*old(self)) ==> {
                    &&& action == FrameAction::Draw {
                        plan: FramePlan::Show {
                            current: old(self).simulation.current_instance_buf,
                        },
                        reconfigure_after_present: acquired == SurfaceTextureOutcome::Suboptimal,
                    }
                    &&& *final(self) == *old(self)
                }
            },
            (acquired == SurfaceTextureOutcome::Timeout || acquired
                == SurfaceTextureOutcome::Occluded || acquired
                == SurfaceTextureOutcome::Validation) ==> action == FrameAction::Skip
                && *final(self) == *old(self),
            acquired == SurfaceTextureOutcome::Outdated ==> action == FrameAction::Reconfigure
                && *final(self) == *old(self),
            acquired == SurfaceTextureOutcome::Lost ==> action == FrameAction::DeviceLost
                && *final(self) == *old(self),
    {
        match acquired {
            SurfaceTextureOutcome::Success => {
                FrameAction::Draw { plan: self.decide_frame(), reconfigure_after_present: false }
            },
            SurfaceTextureOutcome::Suboptimal => {
                FrameAction::Draw { plan: self.decide_frame(), reconfigure_after_present: true }
            },
            SurfaceTextureOutcome::Timeout
            | SurfaceTextureOutcome::Occluded
            | SurfaceTextureOutcome::Validation => FrameAction::Skip,
            SurfaceTextureOutcome::Outdated => FrameAction::Reconfigure,
            SurfaceTextureOutcome::Lost => FrameAction::DeviceLost,
        }
    }

    /// Handles a key press or release: Escape pressed asks to exit, Space
    /// pressed pauses or resumes, and a camera key updates the camera
    /// controller.
    pub fn handle_key(&mut self, code: Key, is_pressed: bool) -> (response: KeyResponse)
        ensures
            final(self).simulation == old(self).simulation,
            code == Key::Escape && is_pressed ==> {
                &&& response == KeyResponse::Exit
                &&& *final(self) == *old(self)
            },
            code == Key::Space && is_pressed ==> {
                &&& response == KeyResponse::PauseToggled
                &&& final(self).is_paused == !old(self).is_paused
                &&& final(self).elapsed_nanos == 0
                &&& final(self).camera_controller == old(self).camera_controller
            },
            !((code == Key::Escape || code == Key::Space) && is_pressed) ==> {
                &&& response == if is_camera_key(code) {
                    KeyResponse::CameraMoved
                } else {
                    KeyResponse::Ignored
                }
                &&& final(self).camera_controller == after_key(
                    old(self).camera_controller,
                    code,
                    is_pressed,
                )
                &&& final(self).is_paused == old(self).is_paused
                &&& final(self).elapsed_nanos == old(self).elapsed_nanos
            },
    {
        if code == Key::Escape && is_pressed {
            KeyResponse::Exit
        } else if code == Key::Space && is_pressed {
            self.toggle_pause();
            KeyResponse::PauseToggled
        } else if self.camera_controller.handle_key(code, is_pressed) {
            KeyResponse::CameraMoved
        } else {
            KeyResponse::Ignored
        }
    }

    /// Pauses a running viewer or resumes a paused one; the step timer starts
    /// over.
    pub fn toggle_pause(&mut self)
        ensures
            final(self).is_paused == !old(self).is_paused,
            final(self).elapsed_nanos == 0,
            final(self).simulation == old(self).simulation,
            final(self).camera_controller == old(self).camera_controller,
    {
        self.is_paused = !self.is_paused;
        self.elapsed_nanos = 0;
    }

    /// Clears the board (see `Simulation::clear_board`) and restarts the step
    /// timer; returns the data for both buffers.
    pub fn clear_board(&mut self) -> (cleared: Vec<Instance>)
        ensures
            cleared@.len() == cell_count(),
            forall|i: int| 0 <= i < cleared@.len() ==> (#[trigger] cleared@[i]).color == black(),
            final(self).simulation.current_instance_buf == CurrentInstanceBuffer::A,
            final(self).simulation.born_rules == old(self).simulation.born_rules,
            final(self).simulation.survive_rules == old(self).simulation.survive_rules,
            final(self).elapsed_nanos == 0,
            final(self).is_paused == old(self).is_paused,
            final(self).camera_controller == old(self).camera_controller,
    {
        let cleared = self.simulation.clear_board();
        self.elapsed_nanos = 0;
        cleared
    }

    /// Replaces the birth rule.
    pub fn set_born_rules(&mut self, born_rules: u16)
        ensures
            final(self).simulation.born_rules == born_rules,
            final(self).simulation.survive_rules == old(self).simulation.survive_rules,
            final(self).simulation.current_instance_buf == old(
                self,
            ).simulation.current_instance_buf,
            final(self).is_paused == old(self).is_paused,
            final(self).elapsed_nanos == old(self).elapsed_nanos,
            final(self).camera_controller == old(self).camera_controller,
    {
        self.simulation.set_born_rules(born_rules);
    }

    /// Replaces the survival rule.
    pub fn set_survive_rules(&mut self, survive_rules: u16)
        ensures
            final(self).simulation.survive_rules == survive_rules,
            final(self).simulation.born_rules == old(self).simulation.born_rules,
            final(self).simulation.current_instance_buf == old(
                self,
            ).simulation.current_instance_buf,
            final(self).is_paused == old(self).is_paused,
            final(self).elapsed_nanos == old(self).elapsed_nanos,
            final(self).camera_controller == old(self).camera_controller,
    {
        self.simulation.set_survive_rules(survive_rules);
    }

    /// The cell under the cursor, given as the signed grid position the cursor
    /// maps to: the byte offset at which to write the paint colour in both
    /// buffers, or `None` when the position is off the board.
    pub fn paint_cell_under_cursor(&self, grid_x: i32, grid_y: i32) -> (offset: Option<u64>)
        ensures
            offset is Some <==> in_grid(grid_x as int, grid_y as int),
            offset matches Some(o) ==> o == cell_index(grid_x as int, grid_y as int)
                * INSTANCE_SIZE,
    {
        match cell_from_grid_position(grid_x, grid_y) {
            Some((x, y)) => self.simulation.set_cell_color(x, y),
            None => None,
        }
    }

    /// Loads a board from an encoded image file: decodes it, samples it onto
    /// the board (see `Simulation::set_state_from_rgba_image`) and pauses with
    /// the step timer restarted. On any error the state is left as it was.
    pub fn load_board_from_image_bytes(&mut self, bytes: &[u8]) -> (board: Result<
        Vec<Pixel>,
        BoardError,
    >)
        ensures
            board is Err ==> *final(self) == *old(self),
            decoded_rgba(bytes@) is None ==> board matches Err(BoardError::Decode(_)),
            decoded_rgba(bytes@) matches Some((w, h, data)) ==> {
                if w == 0 || h == 0 {
                    board matches Err(BoardError::UnsupportedDimensions { width, height })
                        && width == w && height == h
                } else {
                    &&& board matches Ok(pixels)
                    &&& pixels@ == sampled_board(w as int, h as int, data)
                    &&& final(self).simulation.current_instance_buf == CurrentInstanceBuffer::A
                    &&& final(self).simulation.born_rules == old(self).simulation.born_rules
                    &&& final(self).simulation.survive_rules == old(self).simulation.survive_rules
                    &&& final(self).is_paused
                    &&& final(self).elapsed_nanos == 0
                    &&& final(self).camera_controller == old(self).camera_controller
                }
            },
    {
        let (image_width, image_height, rgba) = match decode_rgba(bytes) {
            Ok(decoded) => decoded,
            Err(err) => {
                return Err(BoardError::Decode(err));
            },
        };
        if !samples_fit_image(image_width, image_height, rgba.len()) {
            proof {
                if image_width > 0 && image_height > 0 {
                    lemma_decoded_samples_fit(image_width as int, image_height as int);
                }
            }
            return Err(BoardError::UnsupportedDimensions { width: image_width, height: image_height });
        }
        assert(rgba@.len() == expected_rgba_len(image_width as int, image_height as int));
        let pixels = self.simulation.set_state_from_rgba_image(
            image_width,
            image_height,
            rgba.as_slice(),
        )?;
        self.is_paused = true;
        self.elapsed_nanos = 0;
        Ok(pixels)
    }
}

/// Every sample of a decoded image, which has at most `MAX_DECODED_PIXELS`
/// pixels, lies inside its data at a 32-bit byte offset.
pub proof fn lemma_decoded_samples_fit(w: int, h: int)
    requires
        0 < w <= u32::MAX,
        0 < h <= u32::MAX,
        w * h <= MAX_DECODED_PIXELS,
    ensures
        samples_fit(w, h, 4 * w * h),
{
    lemma_samples_inside_image((GRID_WIDTH - 1) as int, 0, w, h);
    assert(4 * w * h == 4 * (w * h)) by (nonlinear_arith);
    assert(max_sample_offset(w, h) == sample_offset((GRID_WIDTH - 1) as int, 0, w, h));
}

/// A paused viewer never steps and its step timer stands still; a running one
/// steps on a drawn frame exactly when the time since its last step reaches
/// the interval.
pub proof fn lemma_step_timing(s: State, delta: u64)
    ensures
        s.is_paused ==> !steps(s, delta) && elapsed_after(s, delta) == s.elapsed_nanos,
        !s.is_paused ==> (steps(s, delta) <==> s.elapsed_nanos + delta >= STEP_INTERVAL_NANOS),
        steps(s, delta) == step_due(State { elapsed_nanos: elapsed_after(s, delta), ..s }),
{
}

/// While running, the step timer adds each frame's time exactly (saturating
/// only at the end of `u64`); while paused it stands still. Below the interval
/// a running timer therefore holds the plain sum of the frames' times.
pub proof fn lemma_timer_adds_frame_time(s: State, delta: u64)
    ensures
        !s.is_paused && s.elapsed_nanos + delta <= u64::MAX ==> elapsed_after(s, delta)
            == s.elapsed_nanos + delta,
        !s.is_paused && s.elapsed_nanos + delta > u64::MAX ==> elapsed_after(s, delta)
            == u64::MAX,
        s.is_paused ==> elapsed_after(s, delta) == s.elapsed_nanos,
        !s.is_paused && s.elapsed_nanos + delta < 500_000_000 ==> elapsed_after(s, delta)
            == s.elapsed_nanos + delta && !steps(s, delta),
        !s.is_paused && s.elapsed_nanos + delta >= 500_000_000 ==> steps(s, delta),
{
}

/// A running timer that starts at zero and sees `k` frames of `delta` each,
/// none of which reaches the interval, holds `k * delta`; the frame that
/// brings the total to the interval or beyond takes a step. At a steady frame
/// time a step thus comes on the first frame whose running total reaches half
/// a second.
pub proof fn lemma_steady_frames_accumulate(s: State, delta: u64, k: nat)
    requires
        !s.is_paused,
        s.elapsed_nanos == k * delta,
        k * delta < 500_000_000,
    ensures
        (k + 1) * delta < 500_000_000 ==> elapsed_after(s, delta) == (k + 1) * delta && !steps(
            s,
            delta,
        ),
        (k + 1) * delta >= 500_000_000 ==> steps(s, delta),
{
    assert((k + 1) * delta == k * delta + delta) by (nonlinear_arith);
}

/// The step interval is half a second.
pub proof fn lemma_step_interval_is_half_a_second()
    ensures
        STEP_INTERVAL_NANOS == 500_000_000,
        forall|s: State| step_due(s) <==> !s.is_paused && s.elapsed_nanos >= 500_000_000,
{
}

/// Two consecutive steps bring the board back to the buffer it started in,
/// and a step never writes the buffer it reads.
pub proof fn lemma_ping_pong(buffer: CurrentInstanceBuffer)
    ensures
        other_buffer(other_buffer(buffer)) == buffer,
        other_buffer(buffer) != buffer,
{
}

/// Guards the file picker so that only one is open at a time.
pub struct FileDialogGate {
    pub is_open: bool,
}

impl FileDialogGate {
    /// A gate with no picker open.
    pub fn new() -> (gate: Self)
        ensures
            !gate.is_open,
    {
        FileDialogGate { is_open: false }
    }

    /// Whether a picker may be opened now; if so, it counts as open from here on.
    pub fn try_open(&mut self) -> (may_open: bool)
        ensures
            may_open == !old(self).is_open,
            final(self).is_open,
    {
        if self.is_open {
            return false;
        }
        self.is_open = true;
        true
    }

    /// Handles a key before the viewer does: pressing U asks for the picker and
    /// is consumed, answering whether the picker may open now; any other key
    /// is left to the viewer (`None`) and changes nothing.
    pub fn handle_key(&mut self, code: Key, is_pressed: bool) -> (consumed: Option<bool>)
        ensures
            code == Key::KeyU && is_pressed ==> consumed == Some(!old(self).is_open)
                && final(self).is_open,
            !(code == Key::KeyU && is_pressed) ==> consumed is None && final(self).is_open == old(
                self,
            ).is_open,
    {
        if code == Key::KeyU && is_pressed {
            Some(self.try_open())
        } else {
            None
        }
    }

    /// The picker has closed, whatever it returned.
    pub fn close(&mut self)
        ensures
            !final(self).is_open,
    {
        self.is_open = false;
    }
}

} // verus!
