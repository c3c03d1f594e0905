use explore::camera::{Camera, DirBasis, Point};
use explore::config::{Config, SCALE};
use explore::driver::{parse_event, tick, LoopState, TickOutcome};
use explore::input::{Event, Key};
use explore::world::WorldState;

fn fresh_world() -> WorldState {
    WorldState::new(Vec::new())
}

fn ahead() -> DirBasis {
    DirBasis { s: 0, c: SCALE }
}

#[test]
fn initial_loop_state_is_running() {
    let ls = LoopState::new();
    assert!(ls.running);
    assert!(!ls.paused);
    assert!(!ls.step);
}

#[test]
fn quit_event_stops_from_running() {
    let mut ls = LoopState::new();
    let mut w = fresh_world();
    parse_event(&mut ls, &mut w, Event::Quit);
    assert!(!ls.running);
}

#[test]
fn escape_stops_from_paused() {
    let mut ls = LoopState::new();
    let mut w = fresh_world();
    parse_event(&mut ls, &mut w, Event::KeyDown(Key::P));
    assert!(ls.paused);
    parse_event(&mut ls, &mut w, Event::KeyDown(Key::Escape));
    assert!(!ls.running);
    assert!(ls.paused);
}

#[test]
fn pause_key_toggles() {
    let mut ls = LoopState::new();
    let mut w = fresh_world();
    parse_event(&mut ls, &mut w, Event::KeyDown(Key::P));
    assert!(ls.paused);
    parse_event(&mut ls, &mut w, Event::KeyDown(Key::P));
    assert!(!ls.paused);
}

#[test]
fn space_requests_step() {
    let mut ls = LoopState::new();
    let mut w = fresh_world();
    parse_event(&mut ls, &mut w, Event::KeyDown(Key::Space));
    assert!(ls.step);
}

#[test]
fn key_down_sets_and_key_up_clears_flags() {
    let mut ls = LoopState::new();
    let mut w = fresh_world();
    parse_event(&mut ls, &mut w, Event::KeyDown(Key::W));
    assert!(w.input.move_forward);
    // Setting an already held key is a no-op.
    parse_event(&mut ls, &mut w, Event::KeyDown(Key::W));
    assert!(w.input.move_forward);
    parse_event(&mut ls, &mut w, Event::KeyDown(Key::A));
    parse_event(&mut ls, &mut w, Event::KeyDown(Key::S));
    parse_event(&mut ls, &mut w, Event::KeyDown(Key::D));
    parse_event(&mut ls, &mut w, Event::KeyDown(Key::Q));
    parse_event(&mut ls, &mut w, Event::KeyDown(Key::E));
    assert!(w.input.move_left && w.input.move_back && w.input.move_right);
    assert!(w.input.turn_right && w.input.turn_left);
    parse_event(&mut ls, &mut w, Event::KeyUp(Key::W));
    parse_event(&mut ls, &mut w, Event::KeyUp(Key::Q));
    assert!(!w.input.move_forward);
    assert!(!w.input.turn_right);
    assert!(w.input.move_left && w.input.move_back && w.input.move_right && w.input.turn_left);
}

#[test]
fn unrecognized_events_are_no_ops() {
    let mut ls = LoopState::new();
    let mut w = fresh_world();
    let before_input = w.input;
    parse_event(&mut ls, &mut w, Event::Other);
    parse_event(&mut ls, &mut w, Event::KeyDown(Key::Other));
    parse_event(&mut ls, &mut w, Event::KeyUp(Key::Other));
    parse_event(&mut ls, &mut w, Event::KeyUp(Key::P));
    parse_event(&mut ls, &mut w, Event::KeyUp(Key::Space));
    parse_event(&mut ls, &mut w, Event::KeyUp(Key::Escape));
    assert_eq!(ls, LoopState::new());
    assert_eq!(w.input, before_input);
}

#[test]
fn running_tick_updates_and_renders() {
    let cfg = Config::default();
    let mut ls = LoopState::new();
    let mut w = fresh_world();
    let events = vec![Event::KeyDown(Key::W)];
    let outcome = tick(&mut ls, &mut w, &events, &ahead(), &cfg);
    assert_eq!(outcome, TickOutcome::Rendered);
    assert_eq!(w.camera.pos, Point { x: 0, y: 0, z: -30_000 });
    assert_eq!(w.time, 50);
}

#[test]
fn paused_ticks_freeze_time_and_camera() {
    let cfg = Config::default();
    let mut ls = LoopState::new();
    let mut w = fresh_world();
    w.input.move_forward = true;
    let pause = vec![Event::KeyDown(Key::P)];
    let outcome = tick(&mut ls, &mut w, &pause, &ahead(), &cfg);
    // The pause arrives before this tick's update stage, so nothing advances,
    // but a frame is still rendered.
    assert_eq!(outcome, TickOutcome::Rendered);
    assert_eq!(w.time, 0);
    assert_eq!(w.camera, Camera { heading: 0, pos: Point { x: 0, y: 0, z: 0 } });
    for _ in 0..5 {
        let outcome = tick(&mut ls, &mut w, &Vec::new(), &ahead(), &cfg);
        assert_eq!(outcome, TickOutcome::Rendered);
    }
    assert_eq!(w.time, 0);
    assert_eq!(w.camera.pos, Point { x: 0, y: 0, z: 0 });
}

#[test]
fn step_advances_exactly_one_tick_while_paused() {
    let cfg = Config::default();
    let mut ls = LoopState::new();
    let mut w = fresh_world();
    w.input.move_forward = true;
    tick(&mut ls, &mut w, &vec![Event::KeyDown(Key::P)], &ahead(), &cfg);
    assert_eq!(w.time, 0);
    let step = vec![Event::KeyDown(Key::Space)];
    tick(&mut ls, &mut w, &step, &ahead(), &cfg);
    // Exactly one tick's worth of update ran, and the step was consumed.
    assert_eq!(w.time, 50);
    assert_eq!(w.camera.pos, Point { x: 0, y: 0, z: -30_000 });
    assert!(!ls.step);
    for _ in 0..4 {
        tick(&mut ls, &mut w, &Vec::new(), &ahead(), &cfg);
    }
    assert_eq!(w.time, 50);
    assert_eq!(w.camera.pos, Point { x: 0, y: 0, z: -30_000 });
}

#[test]
fn quit_stops_without_updating() {
    let cfg = Config::default();
    let mut ls = LoopState::new();
    let mut w = fresh_world();
    let events = vec![Event::KeyDown(Key::W), Event::Quit];
    let outcome = tick(&mut ls, &mut w, &events, &ahead(), &cfg);
    assert_eq!(outcome, TickOutcome::Stopped);
    assert!(!ls.running);
    // Events were drained, but no update ran after the stop.
    assert!(w.input.move_forward);
    assert_eq!(w.time, 0);
    assert_eq!(w.camera.pos, Point { x: 0, y: 0, z: 0 });
}

#[test]
fn escape_stops_a_paused_loop() {
    let cfg = Config::default();
    let mut ls = LoopState::new();
    let mut w = fresh_world();
    tick(&mut ls, &mut w, &vec![Event::KeyDown(Key::P)], &ahead(), &cfg);
    let outcome = tick(&mut ls, &mut w, &vec![Event::KeyDown(Key::Escape)], &ahead(), &cfg);
    assert_eq!(outcome, TickOutcome::Stopped);
    assert!(!ls.running);
    assert_eq!(w.time, 0);
}
