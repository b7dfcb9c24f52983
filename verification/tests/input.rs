use wirecube::logic::{cube_points, frame_commands, ControlKey, ControlKeyError, DrawCmd, GameLogic};

fn zeroed() -> GameLogic {
    GameLogic { rotate_x: 0, rotate_y: 0, rotation_x: 0, rotation_y: 0, rotation_z: 0 }
}

#[test]
fn recognizes_exactly_the_arrow_keys() {
    assert_eq!(ControlKey::from_str("ArrowUp"), Ok(ControlKey::ArrowUp));
    assert_eq!(ControlKey::from_str("ArrowDown"), Ok(ControlKey::ArrowDown));
    assert_eq!(ControlKey::from_str("ArrowLeft"), Ok(ControlKey::ArrowLeft));
    assert_eq!(ControlKey::from_str("ArrowRight"), Ok(ControlKey::ArrowRight));
    assert_eq!(ControlKey::from_str("Enter"), Err(ControlKeyError::NotAControlKey));
    assert_eq!(ControlKey::from_str(""), Err(ControlKeyError::NotAControlKey));
    assert_eq!(ControlKey::from_str("arrowup"), Err(ControlKeyError::NotAControlKey));
}

#[test]
fn keydown_sets_intents_per_table() {
    let mut g = zeroed();
    assert!(g.on_keydown("ArrowUp"));
    assert_eq!(g.rotate_y, 1);
    assert!(g.on_keydown("ArrowDown"));
    assert_eq!(g.rotate_y, -1);
    assert!(g.on_keydown("ArrowLeft"));
    assert_eq!(g.rotate_x, -1);
    assert!(g.on_keydown("ArrowRight"));
    assert_eq!(g.rotate_x, 1);
}

#[test]
fn unrecognized_keys_change_nothing() {
    let mut g = zeroed();
    assert!(!g.on_keydown("Space"));
    assert_eq!(g, zeroed());
    assert!(!g.on_keyup("w"));
    assert_eq!(g, zeroed());
}

#[test]
fn keyup_clears_the_matching_axis() {
    let mut g = zeroed();
    g.on_keydown("ArrowRight");
    g.on_keydown("ArrowUp");
    assert!(g.on_keyup("ArrowDown"));
    assert_eq!(g.rotate_y, 0);
    assert_eq!(g.rotate_x, 1);
    assert!(g.on_keyup("ArrowLeft"));
    assert_eq!(g.rotate_x, 0);
}

#[test]
fn combined_intent_spins_only_the_third_axis() {
    // Simultaneous Left+Up: one tick increments rotation_z only.
    let mut g = zeroed();
    g.on_keydown("ArrowLeft");
    g.on_keydown("ArrowUp");
    g.update_rotation();
    assert_eq!(g.rotation_z, 1);
    assert_eq!(g.rotation_x, 0);
    assert_eq!(g.rotation_y, 0);
}

#[test]
fn lone_horizontal_intent_advances_only_the_first_axis() {
    // Only Right: one tick increments rotation_x only.
    let mut g = zeroed();
    g.on_keydown("ArrowRight");
    g.update_rotation();
    assert_eq!(g.rotation_x, 1);
    assert_eq!(g.rotation_y, 0);
    assert_eq!(g.rotation_z, 0);
}

#[test]
fn lone_vertical_intent_advances_only_the_second_axis() {
    let mut g = zeroed();
    g.on_keydown("ArrowDown");
    g.update_rotation();
    g.update_rotation();
    assert_eq!(g.rotation_y, -2);
    assert_eq!(g.rotation_x, 0);
    assert_eq!(g.rotation_z, 0);
}

#[test]
fn no_intent_means_no_rotation() {
    let mut g = zeroed();
    g.update_rotation();
    assert_eq!(g, zeroed());
}

#[test]
fn setup_zeroes_everything() {
    let mut g = zeroed();
    g.on_keydown("ArrowUp");
    g.update_rotation();
    g.on_keydown("ArrowRight");
    g.update_rotation();
    g.setup();
    assert_eq!(g, zeroed());
}

#[test]
fn logic_always_reports_running() {
    let g = zeroed();
    assert!(g.is_running());
}

#[test]
fn cube_has_the_eight_unit_corners() {
    let pts = cube_points();
    assert_eq!(
        pts,
        vec![
            (0, 0, 0),
            (1, 0, 0),
            (1, 1, 0),
            (0, 1, 0),
            (0, 0, 1),
            (1, 0, 1),
            (1, 1, 1),
            (0, 1, 1),
        ]
    );
}

#[test]
fn frame_draws_points_then_twelve_edges() {
    let cmds = frame_commands();
    assert_eq!(cmds.len(), 20);
    let pts = cube_points();
    for i in 0..8 {
        assert_eq!(cmds[i], DrawCmd::Point { p: pts[i] });
    }
    // For each i in 0..4: front edge, back edge, connecting edge.
    for i in 0..4 {
        assert_eq!(cmds[8 + 3 * i], DrawCmd::Line { a: pts[i], b: pts[(i + 1) % 4] });
        assert_eq!(cmds[9 + 3 * i], DrawCmd::Line { a: pts[i + 4], b: pts[(i + 1) % 4 + 4] });
        assert_eq!(cmds[10 + 3 * i], DrawCmd::Line { a: pts[i], b: pts[i + 4] });
    }
}
