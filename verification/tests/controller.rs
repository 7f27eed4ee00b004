//! The parameter controller: per-key steps, the clamps, the camera
//! moves of the full handler, and the loop signal.

use celestial::event_handle::{event_handle, MatrixParams};
use celestial::event_handler::EventHandler;
use celestial::events::{Key, KeyState, LoopSignal, SceneEvent};
use celestial::shapes::matrices::Vec3;

fn press(key: Key) -> SceneEvent {
    SceneEvent::Keyboard { state: KeyState::Pressed, key }
}

fn release(key: Key) -> SceneEvent {
    SceneEvent::Keyboard { state: KeyState::Released, key }
}

fn params(grow: i64, tilt: i64) -> MatrixParams {
    MatrixParams::new(grow, tilt, 0, 0, 0)
}

fn stock_handler() -> EventHandler {
    EventHandler::new(
        150_000,
        400_000,
        3_141_593,
        0,
        0,
        Vec3::new(0, 0, 1_000_000),
        Vec3::new(-2_000_000, 1_000_000, 1_000_000),
        Vec3::new(0, 1_000_000, 0),
    )
}

#[test]
fn one_press_of_w_grows_by_a_step() {
    // Growing from 0.15: a single press lands exactly on 0.20.
    let mut p = params(150_000, 0);
    let mut cf = LoopSignal::Proceed;
    event_handle(&press(Key::W), &mut cf, &mut p);
    assert_eq!(p.grow, 200_000);
    assert_eq!(cf, LoopSignal::Proceed);
}

#[test]
fn twenty_presses_of_w_clamp_at_one() {
    // Growing from 0.95: the cap holds the value at 1.0, not 1.95.
    let mut p = params(950_000, 0);
    let mut cf = LoopSignal::Proceed;
    for _ in 0..20 {
        event_handle(&press(Key::W), &mut cf, &mut p);
    }
    assert_eq!(p.grow, 1_000_000);
}

#[test]
fn s_shrinks_until_the_floor_snaps_in() {
    let mut p = params(60_000, 0);
    let mut cf = LoopSignal::Proceed;
    event_handle(&press(Key::S), &mut cf, &mut p);
    assert_eq!(p.grow, 10_000);
}

#[test]
fn clamps_run_on_any_keyboard_event() {
    // Extreme values are pulled back even when no tracked key fired.
    for (grow_in, grow_out) in [(0, 10_000), (2_000_000, 1_000_000), (500_000, 500_000)] {
        let mut p = params(grow_in, 0);
        let mut cf = LoopSignal::Proceed;
        event_handle(&release(Key::Other), &mut cf, &mut p);
        assert_eq!(p.grow, grow_out);
    }
    for (tilt_in, tilt_out) in [(5_000_000, 1_000_000), (-5_000_000, -1_000_000)] {
        let mut p = params(500_000, tilt_in);
        let mut cf = LoopSignal::Proceed;
        event_handle(&release(Key::Other), &mut cf, &mut p);
        assert_eq!(p.tilt, tilt_out);
    }
}

#[test]
fn clamping_twice_changes_nothing_more() {
    for extreme in [0, 2_000_000, 10_000, 999_999] {
        let mut once = params(extreme, 3_000_000);
        let mut twice = params(extreme, 3_000_000);
        let mut cf = LoopSignal::Proceed;
        event_handle(&release(Key::Other), &mut cf, &mut once);
        event_handle(&release(Key::Other), &mut cf, &mut twice);
        event_handle(&release(Key::Other), &mut cf, &mut twice);
        assert_eq!(once, twice);
    }
}

#[test]
fn tilt_spin_and_pan_follow_their_keys() {
    let mut p = MatrixParams::new(500_000, 0, 0, 0, 0);
    let mut cf = LoopSignal::Proceed;
    event_handle(&press(Key::D), &mut cf, &mut p);
    assert_eq!(p.tilt, 50_000);
    event_handle(&press(Key::A), &mut cf, &mut p);
    assert_eq!(p.tilt, 0);
    event_handle(&press(Key::J), &mut cf, &mut p);
    assert_eq!(p.spin, 50_000);
    event_handle(&press(Key::K), &mut cf, &mut p);
    event_handle(&press(Key::K), &mut cf, &mut p);
    assert_eq!(p.spin, -50_000);
    event_handle(&press(Key::Right), &mut cf, &mut p);
    assert_eq!(p.translate_x, 50_000);
    event_handle(&press(Key::Left), &mut cf, &mut p);
    assert_eq!(p.translate_x, 0);
    event_handle(&press(Key::Down), &mut cf, &mut p);
    assert_eq!(p.translate_y, 50_000);
    event_handle(&press(Key::Up), &mut cf, &mut p);
    assert_eq!(p.translate_y, 0);
}

#[test]
fn releases_do_not_step() {
    let mut p = params(500_000, 0);
    let mut cf = LoopSignal::Proceed;
    event_handle(&release(Key::W), &mut cf, &mut p);
    assert_eq!(p.grow, 500_000);
}

#[test]
fn close_request_exits_the_loop() {
    let mut p = params(500_000, 0);
    let mut cf = LoopSignal::Proceed;
    event_handle(&SceneEvent::CloseRequested, &mut cf, &mut p);
    assert_eq!(cf, LoopSignal::Exit);
    assert_eq!(p, params(500_000, 0));
}

#[test]
fn other_events_are_ignored() {
    let before = params(500_000, 123);
    for ev in [SceneEvent::Resized, SceneEvent::TimerElapsed, SceneEvent::Other] {
        let mut p = before;
        let mut cf = LoopSignal::Proceed;
        event_handle(&ev, &mut cf, &mut p);
        assert_eq!(p, before);
        assert_eq!(cf, LoopSignal::Proceed);
    }
}

#[test]
fn handler_steps_and_clamps_like_the_plain_controller() {
    let mut h = stock_handler();
    let mut cf = LoopSignal::Proceed;
    h.handle_event(&press(Key::W), &mut cf);
    assert_eq!(h.grow, 200_000);
    for _ in 0..20 {
        h.handle_event(&press(Key::W), &mut cf);
    }
    assert_eq!(h.grow, 1_000_000);
    h.handle_event(&press(Key::A), &mut cf);
    assert_eq!(h.tilt, 350_000);
}

#[test]
fn numpad_moves_the_free_camera() {
    let mut h = stock_handler();
    let mut cf = LoopSignal::Proceed;
    h.handle_event(&press(Key::Numpad8), &mut cf);
    assert_eq!(h.position.y, 950_000);
    h.handle_event(&press(Key::Numpad2), &mut cf);
    assert_eq!(h.position.y, 1_000_000);
    h.handle_event(&press(Key::Numpad4), &mut cf);
    assert_eq!(h.position.x, -1_950_000);
    h.handle_event(&press(Key::Numpad6), &mut cf);
    assert_eq!(h.position.x, -2_000_000);
    h.handle_event(&press(Key::Numpad5), &mut cf);
    assert_eq!(h.position.z, 1_050_000);
    h.handle_event(&press(Key::NumpadSubtract), &mut cf);
    assert_eq!(h.position.z, 1_000_000);
    // The camera vectors the numpad does not touch stay put.
    assert_eq!(h.direction, Vec3::new(0, 0, 1_000_000));
    assert_eq!(h.up, Vec3::new(0, 1_000_000, 0));
}

#[test]
fn handler_close_request_exits() {
    let mut h = stock_handler();
    let mut cf = LoopSignal::Proceed;
    h.handle_event(&SceneEvent::CloseRequested, &mut cf);
    assert_eq!(cf, LoopSignal::Exit);
}
