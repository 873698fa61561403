//! Camera movement, mouse look and the fixed-point helpers.

use gear::camera::{Camera, PITCH_MAX, PITCH_MIN};
use gear::fixed::{FX_MAX, FX_MIN, cos_milli, div_trunc, fx_add, fx_clamp, fx_sub, sin_milli};
use gear::state::{AppState, WindowState};

#[test]
fn trigonometry_is_exact_at_quarter_turns() {
    assert_eq!(cos_milli(0), 1000);
    assert_eq!(cos_milli(90_000), 0);
    assert_eq!(cos_milli(180_000), -1000);
    assert_eq!(cos_milli(270_000), 0);
    assert_eq!(cos_milli(360_000), 1000);
    assert_eq!(cos_milli(-90_000), 0);
    assert_eq!(cos_milli(-180_000), -1000);

    assert_eq!(sin_milli(0), 0);
    assert_eq!(sin_milli(90_000), 1000);
    assert_eq!(sin_milli(180_000), 0);
    assert_eq!(sin_milli(270_000), -1000);
    assert_eq!(sin_milli(-90_000), -1000);

    // Halfway values interpolate linearly.
    assert_eq!(cos_milli(45_000), 500);
    assert_eq!(cos_milli(135_000), -500);
}

#[test]
fn fixed_point_helpers_clamp_and_truncate() {
    assert_eq!(fx_clamp(FX_MAX + 1), FX_MAX);
    assert_eq!(fx_clamp(FX_MIN - 1), FX_MIN);
    assert_eq!(fx_clamp(42), 42);
    assert_eq!(fx_add(FX_MAX, FX_MAX), FX_MAX);
    assert_eq!(fx_sub(FX_MIN, FX_MAX), FX_MIN);
    assert_eq!(fx_add(1, 2), 3);
    assert_eq!(div_trunc(-25, 10), -2);
    assert_eq!(div_trunc(25, 10), 2);
}

#[test]
fn default_camera_axes_follow_yaw_and_pitch() {
    let mut camera = Camera::new();
    assert_eq!(camera.position.z, 3000);
    assert_eq!(camera.yaw, -90_000);
    assert_eq!(camera.pitch, 0);

    camera.update();
    assert_eq!(camera.front.x, 0);
    assert_eq!(camera.front.y, 0);
    assert_eq!(camera.front.z, -1000);
    assert_eq!(camera.right.x, 1000);
    assert_eq!(camera.right.y, 0);
    assert_eq!(camera.right.z, 0);
    assert_eq!(camera.up.x, 0);
    assert_eq!(camera.up.y, 1000);
    assert_eq!(camera.up.z, 0);
}

#[test]
fn movement_steps_along_the_axes() {
    let mut camera = Camera::new();
    camera.move_forward(100);
    assert_eq!(camera.position.z, 2900);
    camera.move_backward(100);
    assert_eq!(camera.position.z, 3000);
    camera.move_right(100);
    assert_eq!(camera.position.x, 100);
    camera.move_left(200);
    assert_eq!(camera.position.x, -100);
    assert_eq!(camera.position.y, 0);
}

#[test]
fn first_mouse_event_only_records_the_position() {
    let mut camera = Camera::new();
    camera.on_mouse_move(10_000, 5_000);
    assert_eq!(camera.yaw, -90_000);
    assert_eq!(camera.pitch, 0);
    assert_eq!(camera.last_x, 10_000);
    assert_eq!(camera.last_y, 5_000);
}

#[test]
fn mouse_offsets_turn_the_view_at_a_tenth() {
    let mut camera = Camera::new();
    camera.on_mouse_move(0, 0);
    camera.on_mouse_move(1_000, -2_000);
    assert_eq!(camera.yaw, -90_000 + 100);
    assert_eq!(camera.pitch, 200);
}

#[test]
fn pitch_clamps_to_its_band() {
    let mut camera = Camera::new();
    camera.on_mouse_move(0, 0);
    camera.on_mouse_move(0, -100_000_000);
    assert_eq!(camera.pitch, PITCH_MAX);
    camera.on_mouse_move(0, 100_000_000);
    assert_eq!(camera.pitch, PITCH_MIN);
}

#[test]
fn window_state_tracks_close_and_focus() {
    let mut state = WindowState::new();
    assert!(!state.should_close());
    assert!(!state.is_focused());
    state.set_focus(true);
    assert!(state.is_focused());
    state.close();
    assert!(state.should_close());
    assert!(state.is_focused());

    let app_state = AppState::new();
    assert!(!app_state.window.should_close());
}
