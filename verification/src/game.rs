//! The render-loop controller: a lifecycle state machine over Idle and
//! Running with explicit effects for the host shell to perform.
//!
//! The host owns the real scheduler, input subscription, and drawing
//! surface.  Each controller method decides a transition and returns
//! what the host must do: subscribe or unsubscribe the key handlers,
//! schedule or cancel a tick, emit a lifecycle notification.  The host
//! performs those actions and reports the handle of a newly scheduled
//! tick back through `scheduled`, so the controller always knows which
//! tick is pending and `stop` can cancel it.

use crate::logic::{stepped_logic, zeroed_logic, GameLogic};
use vstd::prelude::*;

verus! {

/// The width of the drawing surface the host creates, in logical units.
pub const CANVAS_WIDTH: u32 = 480;

/// The height of the drawing surface the host creates, in logical units.
pub const CANVAS_HEIGHT: u32 = 360;

/// The lifecycle state of the render loop.
#[derive(Clone, Copy, Debug, PartialEq, Eq, Structural)]
pub enum LoopState {
    Idle,
    Running,
}

/// What the host must do after `run`.  When `started` holds: subscribe
/// the key handlers, schedule the first tick (reporting its handle
/// through `scheduled`), and emit the "running" notification.  Otherwise
/// the loop was already running and nothing may be scheduled.
#[derive(Clone, Copy, Debug, PartialEq, Eq, Structural)]
pub struct RunEffect {
    pub started: bool,
}

/// What the host must do after `stop`: always drop its tick callback and
/// unsubscribe the key handlers; when `cancel` carries a handle, cancel
/// that scheduled tick; when `emit_running` holds, emit the "running"
/// notification (the same event name as on start - listeners inspect the
/// loop state).
#[derive(Clone, Copy, Debug, PartialEq, Eq)]
pub struct StopEffect {
    pub cancel: Option<i32>,
    pub emit_running: bool,
}

/// What the host must do after `tick`: it has already emitted the
/// "frame" notification before calling; now clear the surface, draw the
/// frame commands under the updated angles, and, when `reschedule`
/// holds, schedule the next tick and report its handle through
/// `scheduled`.
#[derive(Clone, Copy, Debug, PartialEq, Eq, Structural)]
pub struct TickEffect {
    pub reschedule: bool,
}

/// The render-loop controller: the input-driven rotation state, the
/// lifecycle state, whether the key handlers are subscribed, and the
/// handle of the pending scheduler tick.
#[derive(Clone, Copy, Debug, PartialEq, Eq)]
pub struct Game {
    pub logic: GameLogic,
    pub state: LoopState,
    pub pending: Option<i32>,
    pub handlers_attached: bool,
}

/// A pending tick implies the loop is running.
pub open spec fn game_wf(g: Game) -> bool {
    g.pending is Some ==> g.state is Running
}

/// The initial controller: idle, nothing pending, zeroed rotation state.
pub open spec fn initial_game() -> Game {
    Game {
        logic: zeroed_logic(),
        state: LoopState::Idle,
        pending: None,
        handlers_attached: false,
    }
}

/// What `run` does to the controller: nothing when already running;
/// from Idle it zeroes the rotation state, marks the handlers
/// subscribed, and enters Running with no tick pending yet.
pub open spec fn run_transition(g: Game) -> Game {
    if g.state is Running {
        g
    } else {
        Game {
            logic: zeroed_logic(),
            state: LoopState::Running,
            pending: None,
            handlers_attached: true,
        }
    }
}

/// What `run` asks of the host: scheduling happens only on the
/// transition out of Idle.
pub open spec fn run_effect_spec(g: Game) -> RunEffect {
    RunEffect { started: g.state is Idle }
}

/// What `stop` does to the controller: back to Idle with nothing
/// pending and the handlers unsubscribed; the rotation state is kept.
pub open spec fn stop_transition(g: Game) -> Game {
    Game { state: LoopState::Idle, pending: None, handlers_attached: false, ..g }
}

/// What `stop` asks of the host: cancellation and the notification
/// happen exactly when a tick was pending.
pub open spec fn stop_effect_spec(g: Game) -> StopEffect {
    StopEffect { cancel: g.pending, emit_running: g.pending is Some }
}

impl Game {
    /// A controller in the initial Idle state.
    pub fn new() -> (r: Game)
        ensures
            r == initial_game(),
            game_wf(r),
    {
        Game {
            logic: GameLogic {
                rotate_x: 0,
                rotate_y: 0,
                rotation_x: 0,
                rotation_y: 0,
                rotation_z: 0,
            },
            state: LoopState::Idle,
            pending: None,
            handlers_attached: false,
        }
    }

    /// Starts the loop.  Calling it while already running is a no-op:
    /// the state is untouched and the host is told to schedule nothing,
    /// so a second `run` can never double-schedule.
    pub fn run(&mut self) -> (e: RunEffect)
        requires
            game_wf(*old(self)),
        ensures
            game_wf(*final(self)),
            *final(self) == run_transition(*old(self)),
            e == run_effect_spec(*old(self)),
    {
        match self.state {
            LoopState::Running => RunEffect { started: false },
            LoopState::Idle => {
                self.logic.setup();
                self.handlers_attached = true;
                self.state = LoopState::Running;
                self.pending = None;
                RunEffect { started: true }
            },
        }
    }

    /// Records the scheduler handle of the tick the host just scheduled
    /// in response to a `run` or `tick` effect.
    pub fn scheduled(&mut self, id: i32)
        requires
            game_wf(*old(self)),
            old(self).state is Running,
            old(self).pending is None,
        ensures
            game_wf(*final(self)),
            *final(self) == (Game { pending: Some(id), ..*old(self) }),
    {
        self.pending = Some(id);
    }

    /// Stops the loop.  The handlers are unsubscribed in any case; when
    /// a tick was pending its handle is returned for cancellation and
    /// the "running" notification is emitted; stopping an idle loop
    /// cancels nothing and emits nothing.
    pub fn stop(&mut self) -> (e: StopEffect)
        ensures
            game_wf(*final(self)),
            *final(self) == stop_transition(*old(self)),
            e == stop_effect_spec(*old(self)),
    {
        self.handlers_attached = false;
        let e = StopEffect { cancel: self.pending, emit_running: self.pending.is_some() };
        self.pending = None;
        self.state = LoopState::Idle;
        e
    }

    /// Stops and immediately restarts the loop: the pending tick (if
    /// any) is cancelled, the rotation state and intents are zeroed, and
    /// scheduling restarts from a clean first tick.
    pub fn reset(&mut self) -> (e: (StopEffect, RunEffect))
        requires
            game_wf(*old(self)),
        ensures
            game_wf(*final(self)),
            *final(self) == run_transition(stop_transition(*old(self))),
            final(self).logic == zeroed_logic(),
            e.0 == stop_effect_spec(*old(self)),
            e.1 == run_effect_spec(stop_transition(*old(self))),
            e.1.started == true,
    {
        let s = self.stop();
        let r = self.run();
        (s, r)
    }

    /// One scheduler tick.  The pending handle is consumed, the angles
    /// advance per the current intents, and the host is told whether to
    /// schedule the next tick; with this logic, which always keeps
    /// running, that is always the case, and the loop only ends through
    /// `stop`.
    pub fn tick(&mut self) -> (e: TickEffect)
        requires
            game_wf(*old(self)),
            old(self).pending is Some,
        ensures
            game_wf(*final(self)),
            *final(self) == (Game {
                logic: stepped_logic(old(self).logic),
                pending: None,
                ..*old(self)
            }),
            e.reschedule == true,
    {
        self.logic.update_rotation();
        let running = self.logic.is_running();
        self.pending = None;
        if running {
            TickEffect { reschedule: true }
        } else {
            self.state = LoopState::Idle;
            TickEffect { reschedule: false }
        }
    }
}

/// Law (loop idempotency): starting an already running loop changes
/// nothing and directs no scheduling; stopping a loop with no pending
/// tick cancels nothing and emits no notification.
pub proof fn lemma_loop_idempotency(g: Game)
    ensures
        g.state is Running ==> run_transition(g) == g && !run_effect_spec(g).started,
        g.pending is None ==> stop_effect_spec(g).cancel is None && !stop_effect_spec(
            g,
        ).emit_running,
{
}

/// Law (single pending tick): running from Idle, recording the first
/// scheduled tick, and calling `run` again leaves exactly that one tick
/// pending and schedules nothing further.
pub proof fn lemma_run_twice_one_tick(g: Game, id: i32)
    requires
        g.state is Idle,
    ensures
        ({
            let after_sched = Game { pending: Some(id), ..run_transition(g) };
            &&& run_transition(after_sched) == after_sched
            &&& !run_effect_spec(after_sched).started
            &&& after_sched.pending == Some(id)
        }),
{
}

/// Law (reset clears state): whatever rotation state key events and
/// ticks have accumulated, stop followed by run leaves every intent and
/// angle at zero.
pub proof fn lemma_reset_zeroes(g: Game)
    ensures
        run_transition(stop_transition(g)).logic == zeroed_logic(),
        run_transition(stop_transition(g)).logic.rotation_x == 0,
        run_transition(stop_transition(g)).logic.rotation_y == 0,
        run_transition(stop_transition(g)).logic.rotation_z == 0,
        run_transition(stop_transition(g)).logic.rotate_x == 0,
        run_transition(stop_transition(g)).logic.rotate_y == 0,
{
}

} // verus!
