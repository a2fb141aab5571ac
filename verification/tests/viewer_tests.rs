use std::io::Cursor;

use ferrolife::camera::{Controller, Key};
use ferrolife::color_hex::parse_html_hex_color;
use ferrolife::simulation::{BoardError, CurrentInstanceBuffer, Pixel};
use ferrolife::state::{
    FileDialogGate, FrameAction, FramePlan, FrameStart, KeyResponse, State,
    SurfaceTextureOutcome, UiAction, STEP_INTERVAL_NANOS,
};

/// One drawn frame `delta` nanoseconds after the previous one.
fn frame(s: &mut State, delta: u64) -> FramePlan {
    assert_eq!(s.start_frame(true, delta), FrameStart::Acquire);
    match s.render(SurfaceTextureOutcome::Success) {
        FrameAction::Draw { plan, reconfigure_after_present: false } => plan,
        other => panic!("unexpected frame action {:?}", other),
    }
}
use ferrolife::surface::clamp_surface_size;

#[test]
fn surface_size_zero_sides_become_one() {
    assert_eq!(clamp_surface_size(0, 5, 100), (1, 5));
    assert_eq!(clamp_surface_size(7, 0, 100), (7, 1));
    assert_eq!(clamp_surface_size(0, 0, 0), (1, 1));
    assert_eq!(clamp_surface_size(0, 500, 100), (1, 500));
}

#[test]
fn surface_size_that_fits_is_kept() {
    assert_eq!(clamp_surface_size(800, 600, 8192), (800, 600));
    assert_eq!(clamp_surface_size(8192, 8192, 8192), (8192, 8192));
}

#[test]
fn surface_size_is_scaled_down_keeping_aspect() {
    assert_eq!(clamp_surface_size(10000, 5000, 8192), (8192, 4096));
    assert_eq!(clamp_surface_size(5000, 10000, 8192), (4096, 8192));
    assert_eq!(clamp_surface_size(3, 6, 5), (3, 5));
    assert_eq!(clamp_surface_size(1, 1000, 10), (1, 10));
    assert_eq!(clamp_surface_size(u32::MAX, u32::MAX, 1), (1, 1));
}

#[test]
fn hex_colors_parse() {
    assert_eq!(parse_html_hex_color("#ffffff"), Some([255, 255, 255]));
    assert_eq!(parse_html_hex_color("#ff8000"), Some([255, 128, 0]));
    assert_eq!(parse_html_hex_color("#0A0b0C"), Some([10, 11, 12]));
    assert_eq!(parse_html_hex_color("#+f+f+f"), Some([15, 15, 15]));
    assert_eq!(parse_html_hex_color("#+00000"), Some([0, 0, 0]));
}

#[test]
fn hex_colors_rejected() {
    assert_eq!(parse_html_hex_color("ffffff"), None);
    assert_eq!(parse_html_hex_color("#fffff"), None);
    assert_eq!(parse_html_hex_color("#fffffff"), None);
    assert_eq!(parse_html_hex_color("#gg0000"), None);
    assert_eq!(parse_html_hex_color("#-10000"), None);
    assert_eq!(parse_html_hex_color("#0+0000"), None);
    assert_eq!(parse_html_hex_color("#+"), None);
    assert_eq!(parse_html_hex_color("ab#cdef"), None);
    assert_eq!(parse_html_hex_color(""), None);
}

#[test]
fn hex_round_trip() {
    for (r, g, b) in [(0u8, 0u8, 0u8), (1, 2, 3), (255, 16, 170), (200, 100, 50)] {
        let text = format!("#{:02x}{:02x}{:02x}", r, g, b);
        assert_eq!(parse_html_hex_color(&text), Some([r, g, b]));
    }
}

#[test]
fn controller_tracks_movement_keys() {
    let mut c = Controller::new();
    assert_eq!(c.direction(), (0, 0));
    assert!(c.handle_key(Key::KeyW, true));
    assert_eq!(c.direction(), (0, 1));
    assert!(c.handle_key(Key::ArrowLeft, true));
    assert_eq!(c.direction(), (-1, 1));
    assert!(c.handle_key(Key::ArrowDown, true));
    assert_eq!(c.direction(), (-1, 0));
    assert!(c.handle_key(Key::KeyD, true));
    assert_eq!(c.direction(), (0, 0));
    assert!(!c.handle_key(Key::Space, true));
    assert!(!c.handle_key(Key::Other, true));
    assert!(c.handle_key(Key::KeyA, false));
    assert_eq!(c.direction(), (1, 0));
}

#[test]
fn controller_zoom_and_shift() {
    let mut c = Controller::new();
    assert_eq!(c.zoom_direction(), 0);
    assert!(!c.is_fast());
    assert!(c.handle_key(Key::KeyE, true));
    assert_eq!(c.zoom_direction(), 1);
    assert!(c.handle_key(Key::KeyQ, true));
    assert_eq!(c.zoom_direction(), 0);
    assert!(c.handle_key(Key::KeyE, false));
    assert_eq!(c.zoom_direction(), -1);
    assert!(c.handle_key(Key::ShiftRight, true));
    assert!(c.is_fast());
    assert!(c.handle_key(Key::ShiftLeft, false));
    assert!(!c.is_fast());
    assert_eq!(c.direction(), (0, 0));
}

#[test]
fn controller_press_release_restores() {
    let mut c = Controller::new();
    c.handle_key(Key::ArrowUp, true);
    c.handle_key(Key::KeyW, false);
    assert_eq!(c.direction(), (0, 0));
    assert!(!c.is_up_pressed && !c.is_down_pressed && !c.is_left_pressed && !c.is_right_pressed);
    c.handle_key(Key::KeyQ, true);
    c.handle_key(Key::KeyQ, false);
    assert!(!c.is_zoom_out_pressed);
}

#[test]
fn key_responses() {
    let mut s = State::new();
    assert_eq!(s.handle_key(Key::Escape, true), KeyResponse::Exit);
    assert!(!s.is_paused);
    assert_eq!(s.handle_key(Key::Escape, false), KeyResponse::Ignored);
    assert_eq!(s.handle_key(Key::Space, true), KeyResponse::PauseToggled);
    assert!(s.is_paused);
    assert_eq!(s.handle_key(Key::Space, false), KeyResponse::Ignored);
    assert!(s.is_paused);
    assert_eq!(s.handle_key(Key::KeyS, true), KeyResponse::CameraMoved);
    assert_eq!(s.camera_controller.direction(), (0, -1));
    assert_eq!(s.handle_key(Key::KeyU, true), KeyResponse::Ignored);
    assert_eq!(s.handle_key(Key::KeyQ, true), KeyResponse::CameraMoved);
    assert_eq!(s.camera_controller.zoom_direction(), -1);
    assert_eq!(s.handle_key(Key::Other, true), KeyResponse::Ignored);
}

#[test]
fn running_viewer_steps_every_interval() {
    let mut s = State::new();
    assert_eq!(frame(&mut s, 200_000_000), FramePlan::Show { current: CurrentInstanceBuffer::A });
    assert_eq!(s.elapsed_nanos, 200_000_000);
    assert_eq!(frame(&mut s, 300_000_000), FramePlan::Step { written: CurrentInstanceBuffer::B });
    assert_eq!(s.elapsed_nanos, 0);
    assert_eq!(frame(&mut s, STEP_INTERVAL_NANOS), FramePlan::Step { written: CurrentInstanceBuffer::A });
    assert_eq!(frame(&mut s, 1), FramePlan::Show { current: CurrentInstanceBuffer::A });
}

#[test]
fn frame_time_then_decision() {
    let mut s = State::new();
    s.add_frame_time(400_000_000);
    assert_eq!(s.elapsed_nanos, 400_000_000);
    assert_eq!(s.decide_frame(), FramePlan::Show { current: CurrentInstanceBuffer::A });
    assert_eq!(s.elapsed_nanos, 400_000_000);
    s.add_frame_time(100_000_000);
    assert_eq!(s.decide_frame(), FramePlan::Step { written: CurrentInstanceBuffer::B });
    assert_eq!(s.elapsed_nanos, 0);
    s.toggle_pause();
    s.add_frame_time(u64::MAX);
    assert_eq!(s.elapsed_nanos, 0);
    assert_eq!(s.decide_frame(), FramePlan::Show { current: CurrentInstanceBuffer::B });
}

#[test]
fn paused_viewer_never_steps() {
    let mut s = State::new();
    frame(&mut s, 100);
    s.toggle_pause();
    assert!(s.is_paused);
    assert_eq!(s.elapsed_nanos, 0);
    for _ in 0..5 {
        assert_eq!(frame(&mut s, u64::MAX), FramePlan::Show { current: CurrentInstanceBuffer::A });
        assert_eq!(s.elapsed_nanos, 0);
    }
    s.toggle_pause();
    assert!(!s.is_paused);
    assert_eq!(frame(&mut s, u64::MAX), FramePlan::Step { written: CurrentInstanceBuffer::B });
}

#[test]
fn saturating_elapsed_time() {
    let mut s = State::new();
    s.elapsed_nanos = u64::MAX - 1;
    assert_eq!(frame(&mut s, 10), FramePlan::Step { written: CurrentInstanceBuffer::B });
    assert_eq!(s.elapsed_nanos, 0);
}

#[test]
fn state_clear_board() {
    let mut s = State::new();
    frame(&mut s, STEP_INTERVAL_NANOS);
    frame(&mut s, 10);
    let cleared = s.clear_board();
    assert_eq!(cleared.len(), 120_000);
    assert!(cleared.iter().all(|i| i.color == 0xFF00_0000));
    assert_eq!(s.elapsed_nanos, 0);
    assert_eq!(s.simulation.current_instance_buf_to_use(), CurrentInstanceBuffer::A);
}

#[test]
fn state_rule_setters() {
    let mut s = State::new();
    s.set_born_rules(0b1_0000);
    s.set_survive_rules(0b10_0000);
    assert_eq!(s.simulation.born_rules(), 0b1_0000);
    assert_eq!(s.simulation.survive_rules(), 0b10_0000);
}

#[test]
fn paint_cell_under_cursor_offsets() {
    let s = State::new();
    assert_eq!(s.paint_cell_under_cursor(0, 0), Some(0));
    assert_eq!(s.paint_cell_under_cursor(5, 7), Some((7 * 400 + 5) * 4));
    assert_eq!(s.paint_cell_under_cursor(-1, 7), None);
    assert_eq!(s.paint_cell_under_cursor(400, 7), None);
    assert_eq!(s.paint_cell_under_cursor(5, 300), None);
}

fn encode_png(width: u32, height: u32, rgba: Vec<u8>) -> Vec<u8> {
    let img = image::RgbaImage::from_raw(width, height, rgba).unwrap();
    let mut out = Cursor::new(Vec::new());
    img.write_to(&mut out, image::ImageFormat::Png).unwrap();
    out.into_inner()
}

#[test]
fn load_board_from_png() {
    let png = encode_png(2, 1, vec![255, 0, 0, 255, 0, 0, 255, 255]);
    let mut s = State::new();
    frame(&mut s, STEP_INTERVAL_NANOS);
    frame(&mut s, 10);
    let board = s.load_board_from_image_bytes(&png).unwrap();
    assert_eq!(board.len(), 120_000);
    assert_eq!(board[0], Pixel { r: 255, g: 0, b: 0, a: 255 });
    assert_eq!(board[399], Pixel { r: 0, g: 0, b: 255, a: 255 });
    assert!(s.is_paused);
    assert_eq!(s.elapsed_nanos, 0);
    assert_eq!(s.simulation.current_instance_buf_to_use(), CurrentInstanceBuffer::A);
}

#[test]
fn load_board_flips_rows() {
    // 1 by 2 image: top row green, bottom row white.
    let png = encode_png(1, 2, vec![0, 255, 0, 255, 255, 255, 255, 255]);
    let mut s = State::new();
    let board = s.load_board_from_image_bytes(&png).unwrap();
    let green = Pixel { r: 0, g: 255, b: 0, a: 255 };
    let white = Pixel { r: 255, g: 255, b: 255, a: 255 };
    assert_eq!(board[0], white);
    assert_eq!(board[149 * 400], white);
    assert_eq!(board[150 * 400], green);
    assert_eq!(board[299 * 400 + 399], green);
}

#[test]
fn load_board_rejects_garbage() {
    let mut s = State::new();
    frame(&mut s, 10);
    match s.load_board_from_image_bytes(&[1, 2, 3, 4, 5]) {
        Err(BoardError::Decode(_)) => {}
        other => panic!("unexpected result {:?}", other.map(|p| p.len())),
    }
    assert!(!s.is_paused);
    assert_eq!(s.elapsed_nanos, 10);
}

#[test]
fn file_dialog_gate_allows_one_at_a_time() {
    let mut gate = FileDialogGate::new();
    assert!(gate.try_open());
    assert!(!gate.try_open());
    gate.close();
    assert!(gate.try_open());
}

#[test]
fn ui_actions_are_distinct() {
    assert_ne!(UiAction::OpenImageDialog, UiAction::SaveImageDialog);
}

#[test]
fn u_key_opens_file_dialog_once() {
    let mut gate = FileDialogGate::new();
    assert_eq!(gate.handle_key(Key::KeyW, true), None);
    assert_eq!(gate.handle_key(Key::KeyU, false), None);
    assert!(!gate.is_open);
    assert_eq!(gate.handle_key(Key::KeyU, true), Some(true));
    assert_eq!(gate.handle_key(Key::KeyU, true), Some(false));
    gate.close();
    assert_eq!(gate.handle_key(Key::KeyU, true), Some(true));
}

#[test]
fn unconfigured_surface_skips_frame_without_time() {
    let mut s = State::new();
    assert_eq!(s.start_frame(false, STEP_INTERVAL_NANOS), FrameStart::Skip);
    assert_eq!(s.elapsed_nanos, 0);
    assert_eq!(s.simulation.current_instance_buf_to_use(), CurrentInstanceBuffer::A);
}

#[test]
fn texture_outcomes() {
    let mut s = State::new();
    assert_eq!(s.start_frame(true, STEP_INTERVAL_NANOS), FrameStart::Acquire);
    for outcome in [
        SurfaceTextureOutcome::Timeout,
        SurfaceTextureOutcome::Occluded,
        SurfaceTextureOutcome::Validation,
    ] {
        assert_eq!(s.render(outcome), FrameAction::Skip);
    }
    assert_eq!(s.render(SurfaceTextureOutcome::Outdated), FrameAction::Reconfigure);
    assert_eq!(s.render(SurfaceTextureOutcome::Lost), FrameAction::DeviceLost);
    assert_eq!(s.elapsed_nanos, STEP_INTERVAL_NANOS);
    assert_eq!(
        s.render(SurfaceTextureOutcome::Suboptimal),
        FrameAction::Draw {
            plan: FramePlan::Step { written: CurrentInstanceBuffer::B },
            reconfigure_after_present: true,
        }
    );
    assert_eq!(s.elapsed_nanos, 0);
    assert_eq!(
        s.render(SurfaceTextureOutcome::Success),
        FrameAction::Draw {
            plan: FramePlan::Show { current: CurrentInstanceBuffer::B },
            reconfigure_after_present: false,
        }
    );
}

#[test]
fn sixty_hertz_steps_on_thirtieth_frame() {
    let mut s = State::new();
    for _ in 0..29 {
        assert_eq!(frame(&mut s, 16_666_667), FramePlan::Show { current: CurrentInstanceBuffer::A });
    }
    assert_eq!(frame(&mut s, 16_666_667), FramePlan::Step { written: CurrentInstanceBuffer::B });
}
