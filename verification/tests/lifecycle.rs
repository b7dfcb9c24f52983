use wirecube::game::{Game, LoopState};

#[test]
fn new_controller_is_idle() {
    let g = Game::new();
    assert_eq!(g.state, LoopState::Idle);
    assert_eq!(g.pending, None);
    assert!(!g.handlers_attached);
    assert_eq!(g.logic.rotation_x, 0);
}

#[test]
fn run_starts_once_and_only_once() {
    let mut g = Game::new();
    let first = g.run();
    assert!(first.started);
    assert_eq!(g.state, LoopState::Running);
    assert!(g.handlers_attached);
    g.scheduled(7);
    // A second run is a no-op: nothing new is scheduled and the one
    // pending tick stays pending.
    let second = g.run();
    assert!(!second.started);
    assert_eq!(g.pending, Some(7));
    assert_eq!(g.state, LoopState::Running);
}

#[test]
fn stop_cancels_the_pending_tick_and_notifies() {
    let mut g = Game::new();
    g.run();
    g.scheduled(42);
    let e = g.stop();
    assert_eq!(e.cancel, Some(42));
    assert!(e.emit_running);
    assert_eq!(g.state, LoopState::Idle);
    assert_eq!(g.pending, None);
    assert!(!g.handlers_attached);
}

#[test]
fn stopping_an_idle_loop_does_nothing() {
    let mut g = Game::new();
    let e = g.stop();
    assert_eq!(e.cancel, None);
    assert!(!e.emit_running);
    // Stop after stop is equally silent.
    g.run();
    g.scheduled(1);
    g.stop();
    let again = g.stop();
    assert_eq!(again.cancel, None);
    assert!(!again.emit_running);
}

#[test]
fn ticks_advance_rotation_and_reschedule() {
    let mut g = Game::new();
    g.run();
    g.scheduled(1);
    g.logic.on_keydown("ArrowRight");
    let e = g.tick();
    assert!(e.reschedule);
    assert_eq!(g.pending, None);
    assert_eq!(g.logic.rotation_x, 1);
    g.scheduled(2);
    let e2 = g.tick();
    assert!(e2.reschedule);
    assert_eq!(g.logic.rotation_x, 2);
    assert_eq!(g.state, LoopState::Running);
}

#[test]
fn reset_clears_state_and_restarts() {
    let mut g = Game::new();
    g.run();
    g.scheduled(5);
    g.logic.on_keydown("ArrowUp");
    g.tick();
    g.scheduled(6);
    g.logic.on_keydown("ArrowRight");
    g.tick();
    g.scheduled(7);
    assert_ne!(g.logic.rotation_y, 0);
    let (stop_e, run_e) = g.reset();
    assert_eq!(stop_e.cancel, Some(7));
    assert!(stop_e.emit_running);
    assert!(run_e.started);
    assert_eq!(g.state, LoopState::Running);
    assert_eq!(g.logic.rotate_x, 0);
    assert_eq!(g.logic.rotate_y, 0);
    assert_eq!(g.logic.rotation_x, 0);
    assert_eq!(g.logic.rotation_y, 0);
    assert_eq!(g.logic.rotation_z, 0);
}

#[test]
fn reset_from_idle_still_starts() {
    let mut g = Game::new();
    let (stop_e, run_e) = g.reset();
    assert_eq!(stop_e.cancel, None);
    assert!(!stop_e.emit_running);
    assert!(run_e.started);
    assert_eq!(g.state, LoopState::Running);
}
