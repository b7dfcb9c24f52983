//! The input-to-motion mapper and the fixed wireframe model.
//!
//! Keyboard intents are signed unit velocities per axis; the cumulative
//! rotation angles are counted in steps of one tenth of a radian, so the
//! state machine is exact integer arithmetic.  The host multiplies a
//! step count by 0.1 to obtain the angle in radians.

use crate::fx::in_i64;
use vstd::prelude::*;

verus! {

/// The recognized control keys.
#[derive(Clone, Copy, Debug, PartialEq, Eq, Structural)]
pub enum ControlKey {
    ArrowUp,
    ArrowDown,
    ArrowLeft,
    ArrowRight,
}

/// The error for a key identifier that is no control key.
#[derive(Clone, Copy, Debug, PartialEq, Eq, Structural)]
pub enum ControlKeyError {
    NotAControlKey,
}

/// Whether two key identifier strings hold the same characters.
fn str_eq(a: &str, b: &str) -> (r: bool)
    ensures
        r == (a@ == b@),
{
    let sa = a.to_owned();
    let sb = b.to_owned();
    sa == sb
}

impl ControlKey {
    /// Parses a key identifier: exactly the four arrow-key identifiers
    /// are control keys, and anything else is rejected.
    pub fn from_str(s: &str) -> (r: Result<ControlKey, ControlKeyError>)
        ensures
            (r == Ok::<ControlKey, ControlKeyError>(ControlKey::ArrowUp)) <==> s@ == "ArrowUp"@,
            (r == Ok::<ControlKey, ControlKeyError>(ControlKey::ArrowDown)) <==> s@
                == "ArrowDown"@,
            (r == Ok::<ControlKey, ControlKeyError>(ControlKey::ArrowLeft)) <==> s@
                == "ArrowLeft"@,
            (r == Ok::<ControlKey, ControlKeyError>(ControlKey::ArrowRight)) <==> s@
                == "ArrowRight"@,
            (r is Err) <==> (s@ != "ArrowUp"@ && s@ != "ArrowDown"@ && s@ != "ArrowLeft"@ && s@
                != "ArrowRight"@),
    {
        proof {
            reveal_strlit("ArrowUp");
            reveal_strlit("ArrowDown");
            reveal_strlit("ArrowLeft");
            reveal_strlit("ArrowRight");
            assert("ArrowUp"@.len() == 7);
            assert("ArrowDown"@.len() == 9);
            assert("ArrowLeft"@.len() == 9);
            assert("ArrowRight"@.len() == 10);
            assert("ArrowDown"@[5] == 'D');
            assert("ArrowLeft"@[5] == 'L');
        }
        if str_eq(s, "ArrowUp") {
            Ok(ControlKey::ArrowUp)
        } else if str_eq(s, "ArrowDown") {
            Ok(ControlKey::ArrowDown)
        } else if str_eq(s, "ArrowLeft") {
            Ok(ControlKey::ArrowLeft)
        } else if str_eq(s, "ArrowRight") {
            Ok(ControlKey::ArrowRight)
        } else {
            Err(ControlKeyError::NotAControlKey)
        }
    }
}

/// The keyboard-driven rotation state: per-axis angular intents (signed
/// unit velocities) and cumulative rotation angles, counted in steps of
/// one tenth of a radian.
#[derive(Clone, Copy, Debug, PartialEq, Eq, Structural)]
pub struct GameLogic {
    pub rotate_x: i8,
    pub rotate_y: i8,
    pub rotation_x: i64,
    pub rotation_y: i64,
    pub rotation_z: i64,
}

/// The state with all intents and angles at zero.
pub open spec fn zeroed_logic() -> GameLogic {
    GameLogic { rotate_x: 0, rotate_y: 0, rotation_x: 0, rotation_y: 0, rotation_z: 0 }
}

/// Intents are signed unit velocities: -1, 0, or +1.
pub open spec fn logic_wf(g: GameLogic) -> bool {
    -1 <= g.rotate_x <= 1 && -1 <= g.rotate_y <= 1
}

/// A rotation counter advanced by an intent; a counter at the very end
/// of the `i64` range stays put.
pub open spec fn step_angle(a: i64, intent: i8) -> i64 {
    if in_i64(a + intent) {
        (a + intent) as i64
    } else {
        a
    }
}

/// One tick's angle update, with the fixed priority: combined X and Y
/// intent spins the third axis by the Y intent; X intent alone advances
/// the first axis; Y intent alone advances the second; otherwise nothing
/// changes.
pub open spec fn stepped_logic(g: GameLogic) -> GameLogic {
    if g.rotate_x != 0 && g.rotate_y != 0 {
        GameLogic { rotation_z: step_angle(g.rotation_z, g.rotate_y), ..g }
    } else if g.rotate_x != 0 {
        GameLogic { rotation_x: step_angle(g.rotation_x, g.rotate_x), ..g }
    } else if g.rotate_y != 0 {
        GameLogic { rotation_y: step_angle(g.rotation_y, g.rotate_y), ..g }
    } else {
        g
    }
}

impl Default for GameLogic {
    /// The zero state.
    fn default() -> (r: GameLogic)
        ensures
            r == zeroed_logic(),
    {
        GameLogic { rotate_x: 0, rotate_y: 0, rotation_x: 0, rotation_y: 0, rotation_z: 0 }
    }
}

impl GameLogic {
    /// Handles a key-down event.  A recognized key sets its axis intent
    /// per the table Up:+Y, Down:-Y, Left:-X, Right:+X and is consumed
    /// (the host must then suppress the default action); any other key
    /// changes nothing.
    pub fn on_keydown(&mut self, key: &str) -> (consumed: bool)
        ensures
            consumed <==> (key@ == "ArrowUp"@ || key@ == "ArrowDown"@ || key@ == "ArrowLeft"@
                || key@ == "ArrowRight"@),
            key@ == "ArrowUp"@ ==> *final(self) == (GameLogic { rotate_y: 1i8, ..*old(self) }),
            key@ == "ArrowDown"@ ==> *final(self) == (GameLogic { rotate_y: -1i8, ..*old(self) }),
            key@ == "ArrowLeft"@ ==> *final(self) == (GameLogic { rotate_x: -1i8, ..*old(self) }),
            key@ == "ArrowRight"@ ==> *final(self) == (GameLogic { rotate_x: 1i8, ..*old(self) }),
            !consumed ==> *final(self) == *old(self),
    {
        match ControlKey::from_str(key) {
            Ok(k) => {
                match k {
                    ControlKey::ArrowUp => {
                        self.rotate_y = 1;
                    },
                    ControlKey::ArrowDown => {
                        self.rotate_y = -1;
                    },
                    ControlKey::ArrowLeft => {
                        self.rotate_x = -1;
                    },
                    ControlKey::ArrowRight => {
                        self.rotate_x = 1;
                    },
                }
                true
            },
            Err(_) => false,
        }
    }

    /// Handles a key-up event.  A recognized key clears its axis intent
    /// and is consumed; any other key changes nothing.
    pub fn on_keyup(&mut self, key: &str) -> (consumed: bool)
        ensures
            consumed <==> (key@ == "ArrowUp"@ || key@ == "ArrowDown"@ || key@ == "ArrowLeft"@
                || key@ == "ArrowRight"@),
            (key@ == "ArrowUp"@ || key@ == "ArrowDown"@) ==> *final(self) == (GameLogic {
                rotate_y: 0i8,
                ..*old(self)
            }),
            (key@ == "ArrowLeft"@ || key@ == "ArrowRight"@) ==> *final(self) == (GameLogic {
                rotate_x: 0i8,
                ..*old(self)
            }),
            !consumed ==> *final(self) == *old(self),
    {
        match ControlKey::from_str(key) {
            Ok(k) => {
                match k {
                    ControlKey::ArrowUp => {
                        self.rotate_y = 0;
                    },
                    ControlKey::ArrowDown => {
                        self.rotate_y = 0;
                    },
                    ControlKey::ArrowLeft => {
                        self.rotate_x = 0;
                    },
                    ControlKey::ArrowRight => {
                        self.rotate_x = 0;
                    },
                }
                true
            },
            Err(_) => false,
        }
    }

    /// Zeroes all intents and cumulative angles.
    pub fn setup(&mut self)
        ensures
            *final(self) == zeroed_logic(),
    {
        self.rotate_x = 0;
        self.rotate_y = 0;
        self.rotation_x = 0;
        self.rotation_y = 0;
        self.rotation_z = 0;
    }

    /// One tick's angle update from the current intents, with the fixed
    /// priority: combined X and Y intent spins the third axis by the Y
    /// intent; X intent alone advances the first axis; Y intent alone
    /// advances the second; otherwise nothing changes.
    pub fn update_rotation(&mut self)
        ensures
            *final(self) == stepped_logic(*old(self)),
    {
        if self.rotate_x != 0 && self.rotate_y != 0 {
            match self.rotation_z.checked_add(self.rotate_y as i64) {
                Some(v) => {
                    self.rotation_z = v;
                },
                None => {},
            }
        } else if self.rotate_x != 0 {
            match self.rotation_x.checked_add(self.rotate_x as i64) {
                Some(v) => {
                    self.rotation_x = v;
                },
                None => {},
            }
        } else if self.rotate_y != 0 {
            match self.rotation_y.checked_add(self.rotate_y as i64) {
                Some(v) => {
                    self.rotation_y = v;
                },
                None => {},
            }
        }
    }

    /// Whether the logic wants the loop to keep scheduling ticks; this
    /// build always keeps running.
    pub fn is_running(&self) -> (r: bool)
        ensures
            r == true,
    {
        true
    }
}

/// Law: under simultaneous horizontal and vertical intents, one tick
/// advances only the third-axis angle, by the vertical intent; under a
/// horizontal intent alone, only the first-axis angle; under a vertical
/// intent alone, only the second-axis angle.  The preconditions only
/// keep the advanced counter off the very ends of the `i64` range,
/// where it would saturate instead.
pub proof fn lemma_input_priority(g: GameLogic)
    requires
        in_i64(g.rotation_x + g.rotate_x),
        in_i64(g.rotation_y + g.rotate_y),
        in_i64(g.rotation_z + g.rotate_y),
    ensures
        g.rotate_x != 0 && g.rotate_y != 0 ==> {
            &&& stepped_logic(g).rotation_z == g.rotation_z + g.rotate_y
            &&& stepped_logic(g).rotation_x == g.rotation_x
            &&& stepped_logic(g).rotation_y == g.rotation_y
        },
        g.rotate_x != 0 && g.rotate_y == 0 ==> {
            &&& stepped_logic(g).rotation_x == g.rotation_x + g.rotate_x
            &&& stepped_logic(g).rotation_y == g.rotation_y
            &&& stepped_logic(g).rotation_z == g.rotation_z
        },
        g.rotate_x == 0 && g.rotate_y != 0 ==> {
            &&& stepped_logic(g).rotation_y == g.rotation_y + g.rotate_y
            &&& stepped_logic(g).rotation_x == g.rotation_x
            &&& stepped_logic(g).rotation_z == g.rotation_z
        },
        g.rotate_x == 0 && g.rotate_y == 0 ==> stepped_logic(g) == g,
{
}

/// One drawing instruction for a frame: a point marker at a model
/// vertex, or a line segment between two model vertices.
#[derive(Clone, Copy, Debug, PartialEq, Eq)]
pub enum DrawCmd {
    Point { p: (i32, i32, i32) },
    Line { a: (i32, i32, i32), b: (i32, i32, i32) },
}

/// The eight corners of the unit cube, in the fixed model order.
pub open spec fn cube_points_spec() -> Seq<(i32, i32, i32)> {
    seq![
        (0, 0, 0),
        (1, 0, 0),
        (1, 1, 0),
        (0, 1, 0),
        (0, 0, 1),
        (1, 0, 1),
        (1, 1, 1),
        (0, 1, 1),
    ]
}

/// The drawing order of one frame: the eight vertices as point markers,
/// then for each index i in 0..4 the front-face edge (i, (i+1)%4), the
/// matching back-face edge, and the connecting edge (i, i+4).
pub open spec fn frame_commands_spec() -> Seq<DrawCmd> {
    seq![
        DrawCmd::Point { p: (0, 0, 0) },
        DrawCmd::Point { p: (1, 0, 0) },
        DrawCmd::Point { p: (1, 1, 0) },
        DrawCmd::Point { p: (0, 1, 0) },
        DrawCmd::Point { p: (0, 0, 1) },
        DrawCmd::Point { p: (1, 0, 1) },
        DrawCmd::Point { p: (1, 1, 1) },
        DrawCmd::Point { p: (0, 1, 1) },
        DrawCmd::Line { a: (0, 0, 0), b: (1, 0, 0) },
        DrawCmd::Line { a: (0, 0, 1), b: (1, 0, 1) },
        DrawCmd::Line { a: (0, 0, 0), b: (0, 0, 1) },
        DrawCmd::Line { a: (1, 0, 0), b: (1, 1, 0) },
        DrawCmd::Line { a: (1, 0, 1), b: (1, 1, 1) },
        DrawCmd::Line { a: (1, 0, 0), b: (1, 0, 1) },
        DrawCmd::Line { a: (1, 1, 0), b: (0, 1, 0) },
        DrawCmd::Line { a: (1, 1, 1), b: (0, 1, 1) },
        DrawCmd::Line { a: (1, 1, 0), b: (1, 1, 1) },
        DrawCmd::Line { a: (0, 1, 0), b: (0, 0, 0) },
        DrawCmd::Line { a: (0, 1, 1), b: (0, 0, 1) },
        DrawCmd::Line { a: (0, 1, 0), b: (0, 1, 1) },
    ]
}

/// The unit-cube vertex list.
pub fn cube_points() -> (r: Vec<(i32, i32, i32)>)
    ensures
        r@ == cube_points_spec(),
{
    let mut v: Vec<(i32, i32, i32)> = Vec::new();
    v.push((0, 0, 0));
    v.push((1, 0, 0));
    v.push((1, 1, 0));
    v.push((0, 1, 0));
    v.push((0, 0, 1));
    v.push((1, 0, 1));
    v.push((1, 1, 1));
    v.push((0, 1, 1));
    proof {
        assert(v@ =~= cube_points_spec());
    }
    v
}

/// The drawing instructions of one frame, in the order the renderer
/// issues them.
pub fn frame_commands() -> (r: Vec<DrawCmd>)
    ensures
        r@ == frame_commands_spec(),
{
    let mut v: Vec<DrawCmd> = Vec::new();
    v.push(DrawCmd::Point { p: (0, 0, 0) });
    v.push(DrawCmd::Point { p: (1, 0, 0) });
    v.push(DrawCmd::Point { p: (1, 1, 0) });
    v.push(DrawCmd::Point { p: (0, 1, 0) });
    v.push(DrawCmd::Point { p: (0, 0, 1) });
    v.push(DrawCmd::Point { p: (1, 0, 1) });
    v.push(DrawCmd::Point { p: (1, 1, 1) });
    v.push(DrawCmd::Point { p: (0, 1, 1) });
    v.push(DrawCmd::Line { a: (0, 0, 0), b: (1, 0, 0) });
    v.push(DrawCmd::Line { a: (0, 0, 1), b: (1, 0, 1) });
    v.push(DrawCmd::Line { a: (0, 0, 0), b: (0, 0, 1) });
    v.push(DrawCmd::Line { a: (1, 0, 0), b: (1, 1, 0) });
    v.push(DrawCmd::Line { a: (1, 0, 1), b: (1, 1, 1) });
    v.push(DrawCmd::Line { a: (1, 0, 0), b: (1, 0, 1) });
    v.push(DrawCmd::Line { a: (1, 1, 0), b: (0, 1, 0) });
    v.push(DrawCmd::Line { a: (1, 1, 1), b: (0, 1, 1) });
    v.push(DrawCmd::Line { a: (1, 1, 0), b: (1, 1, 1) });
    v.push(DrawCmd::Line { a: (0, 1, 0), b: (0, 0, 0) });
    v.push(DrawCmd::Line { a: (0, 1, 1), b: (0, 0, 1) });
    v.push(DrawCmd::Line { a: (0, 1, 0), b: (0, 1, 1) });
    proof {
        assert(v@ =~= frame_commands_spec());
    }
    v
}

} // verus!
