//! Enemy pursuit controllers: the per-enemy pause and rate gates, and the
//! pursuit strategies behind them.

use vstd::prelude::*;
use crate::context::Inner;
use crate::player::ColorState;

pub mod easy;

verus! {

/// A position on the tracked surface, as the telemetry reports it:
/// planar coordinates and a heading in degrees in [0, 360).
#[derive(Clone, Copy, Debug, PartialEq, Eq, Structural)]
pub struct Position {
    pub x: i32,
    pub y: i32,
    pub angle: i32,
}

/// The squared Euclidean distance between two positions (headings play
/// no part). The contact check compares this against 1000, so the
/// effective contact radius is the square root of 1000.
pub open spec fn spec_sq_dist(a: Position, b: Position) -> int {
    (a.x - b.x) * (a.x - b.x) + (a.y - b.y) * (a.y - b.y)
}

/// The squared Euclidean distance between two positions.
pub fn squared_distance(a: &Position, b: &Position) -> (d: u128)
    ensures
        d == spec_sq_dist(*a, *b),
{
    let dx: i64 = (a.x as i64) - (b.x as i64);
    let dy: i64 = (a.y as i64) - (b.y as i64);
    let ax: u64 = if dx >= 0 { dx as u64 } else { (-dx) as u64 };
    let ay: u64 = if dy >= 0 { dy as u64 } else { (-dy) as u64 };
    assert((ax as int) * (ax as int) == (a.x - b.x) * (a.x - b.x)) by (nonlinear_arith)
        requires
            ax == if a.x - b.x >= 0 { a.x - b.x } else { -(a.x - b.x) },
    ;
    assert((ay as int) * (ay as int) == (a.y - b.y) * (a.y - b.y)) by (nonlinear_arith)
        requires
            ay == if a.y - b.y >= 0 { a.y - b.y } else { -(a.y - b.y) },
    ;
    assert((ax as u128) * (ax as u128) <= 0xffff_ffff * 0xffff_ffff) by (nonlinear_arith)
        requires
            ax <= 0xffff_ffff,
    ;
    assert((ay as u128) * (ay as u128) <= 0xffff_ffff * 0xffff_ffff) by (nonlinear_arith)
        requires
            ay <= 0xffff_ffff,
    ;
    (ax as u128) * (ax as u128) + (ay as u128) * (ay as u128)
}

/// What a pursuit tick asks the surrounding program to do: play the hit
/// feedback when a hit landed (with the health that remains), and send a
/// motor command when the steering changed.
#[derive(Clone, Copy, Debug, PartialEq, Eq)]
pub struct PursuitActions {
    /// `Some(remaining)` exactly when this tick's contact landed a hit.
    pub hit: Option<usize>,
    /// `Some((left, right))` exactly when the steering differs from the
    /// last command sent; the remembered command is updated on emission.
    pub motor: Option<(isize, isize)>,
}

/// A pursuit strategy: a per-enemy state machine that, given the game
/// record, the clock and this tick's telemetry, decides the next state,
/// the next game record and the actions to perform. The strategies vary;
/// the controller around them does not.
pub trait EnemyOp: Sized {
    /// The inputs on which the strategy's tick is defined.
    spec fn ok_inputs(self, player: Position, enemy: Position, bearing: isize) -> bool;

    /// The strategy's whole start-up step as a function: next state and
    /// the color its enemy's light shows.
    spec fn spec_init(self) -> (Self, ColorState);

    /// The strategy's whole tick as a function: next state, next game
    /// record, actions to perform.
    spec fn spec_update(
        self,
        game: Inner,
        now: u64,
        player: Position,
        enemy: Position,
        bearing: isize,
    ) -> (Self, Inner, PursuitActions);

    /// Start up: returns the color to show on the enemy's light.
    fn init(&mut self, id: usize) -> (c: ColorState)
        ensures
            (*final(self), c) == old(self).spec_init(),
    ;

    /// One pursuit tick. `bearing` is the bearing from the enemy to the
    /// player in degrees, as the platform computed it from the same two
    /// positions.
    fn update(
        &mut self,
        id: usize,
        game: &mut Inner,
        now: u64,
        player: &Position,
        enemy: &Position,
        bearing: isize,
    ) -> (acts: PursuitActions)
        requires
            old(self).ok_inputs(*player, *enemy, bearing),
        ensures
            (*final(self), *final(game), acts) == old(self).spec_update(
                *old(game),
                now,
                *player,
                *enemy,
                bearing,
            ),
    ;
}

/// What one gate poll asks of the caller: send the one-off stop command,
/// do nothing this tick, or read the enemy's position and run the pursuit.
#[derive(Clone, Copy, Debug, PartialEq, Eq, Structural)]
pub enum Gate {
    Stop,
    Idle,
    Run,
}

/// One enemy's controller: its strategy plus the timing and pause-marker
/// state that the gates keep between ticks.
pub struct Enemy<T> {
    /// Which enemy this is; diagnostic only.
    pub id: usize,
    /// The pursuit strategy.
    pub op: T,
    /// Time of the last tick that the rate gate let run; moved forward
    /// only when a tick runs.
    pub last_tick: u64,
    /// Whether the one-off stop command has been sent since pause began.
    pub stop_sent: bool,
}

impl<T> Enemy<T> {
    /// The controller and its answer after one gate poll at time `now`,
    /// with the game's pause flag as given. While paused, the first poll
    /// asks for a single stop command and later polls for nothing; while
    /// unpaused, the rate gate lets a tick run only once at least 200 ms
    /// have gone by since the last tick that ran.
    pub open spec fn spec_gate(self, paused: bool, now: u64) -> (Enemy<T>, Gate) {
        if paused {
            if !self.stop_sent {
                (Enemy { stop_sent: true, ..self }, Gate::Stop)
            } else {
                (self, Gate::Idle)
            }
        } else {
            if now >= self.last_tick + 200 {
                (Enemy { stop_sent: false, last_tick: now, ..self }, Gate::Run)
            } else {
                (Enemy { stop_sent: false, ..self }, Gate::Idle)
            }
        }
    }
}

impl<T: EnemyOp> Enemy<T> {
    /// A fresh controller, created at time `now`: its first tick can run
    /// once 200 ms have gone by.
    pub fn new(id: usize, op: T, now: u64) -> (e: Self)
        ensures
            e.id == id,
            e.op == op,
            e.last_tick == now,
            !e.stop_sent,
    {
        Enemy { id, op, last_tick: now, stop_sent: false }
    }

    /// Start the strategy up; returns the color for the enemy's light.
    pub fn init(&mut self) -> (c: ColorState)
        ensures
            (final(self).op, c) == old(self).op.spec_init(),
            final(self).id == old(self).id,
            final(self).last_tick == old(self).last_tick,
            final(self).stop_sent == old(self).stop_sent,
    {
        self.op.init(self.id)
    }

    /// Poll the gates at time `now`. The answer says whether to send the
    /// one-off stop command, do nothing, or read this enemy's position
    /// and run the pursuit tick; a tick the rate gate skips reads no
    /// position and emits nothing.
    pub fn gate(&mut self, game: &Inner, now: u64) -> (g: Gate)
        ensures
            (*final(self), g) == old(self).spec_gate(game.pause, now),
    {
        if game.paused() {
            if !self.stop_sent {
                self.stop_sent = true;
                Gate::Stop
            } else {
                Gate::Idle
            }
        } else {
            self.stop_sent = false;
            if now >= self.last_tick && now - self.last_tick >= 200 {
                self.last_tick = now;
                Gate::Run
            } else {
                Gate::Idle
            }
        }
    }

    /// Run the pursuit tick that a `Gate::Run` answer asked for, on the
    /// position that was then read and the bearing computed from it.
    pub fn update(
        &mut self,
        game: &mut Inner,
        now: u64,
        player: &Position,
        enemy: &Position,
        bearing: isize,
    ) -> (acts: PursuitActions)
        requires
            old(self).op.ok_inputs(*player, *enemy, bearing),
        ensures
            (final(self).op, *final(game), acts) == old(self).op.spec_update(
                *old(game),
                now,
                *player,
                *enemy,
                bearing,
            ),
            final(self).id == old(self).id,
            final(self).last_tick == old(self).last_tick,
            final(self).stop_sent == old(self).stop_sent,
    {
        self.op.update(self.id, game, now, player, enemy, bearing)
    }
}

/// The gates a controller answers to a sequence of polls all made while
/// the game is paused, with the controller they leave behind.
pub open spec fn run_paused_gates<T>(e: Enemy<T>, times: Seq<u64>) -> (Enemy<T>, Seq<Gate>)
    decreases times.len(),
{
    if times.len() == 0 {
        (e, Seq::empty())
    } else {
        let first = e.spec_gate(true, times[0]);
        let rest = run_paused_gates(first.0, times.skip(1));
        (rest.0, seq![first.1] + rest.1)
    }
}

/// Once the one-off stop command has been sent, paused polls answer
/// nothing and change nothing.
proof fn lemma_paused_all_idle<T>(e: Enemy<T>, times: Seq<u64>)
    requires
        e.stop_sent,
    ensures
        run_paused_gates(e, times).1.len() == times.len(),
        forall|i: int| 0 <= i < times.len() ==> run_paused_gates(e, times).1[i] == Gate::Idle,
        run_paused_gates(e, times).0 == e,
    decreases times.len(),
{
    if times.len() > 0 {
        assert(e.spec_gate(true, times[0]) == (e, Gate::Idle));
        lemma_paused_all_idle(e, times.skip(1));
    }
}

/// Law: while paused, a controller asks for at most one stop command and
/// no motion commands: the first paused poll answers `Stop` exactly when
/// no stop has been sent since pause began, and every later paused poll
/// answers `Idle`.
pub proof fn lemma_paused_single_stop<T>(e: Enemy<T>, times: Seq<u64>)
    requires
        times.len() > 0,
    ensures
        run_paused_gates(e, times).1.len() == times.len(),
        (run_paused_gates(e, times).1[0] == Gate::Stop) <==> !e.stop_sent,
        forall|i: int| 1 <= i < times.len() ==> run_paused_gates(e, times).1[i] == Gate::Idle,
{
    let first = e.spec_gate(true, times[0]);
    lemma_paused_all_idle(first.0, times.skip(1));
}

/// Law: of two unpaused polls the first of which passed the rate gate,
/// the second passes exactly when at least 200 ms have gone by since the
/// first; a poll it skips runs nothing.
pub proof fn lemma_rate_gate<T>(e: Enemy<T>, now1: u64, now2: u64)
    requires
        e.spec_gate(false, now1).1 == Gate::Run,
    ensures
        now2 < now1 + 200 ==> e.spec_gate(false, now1).0.spec_gate(false, now2).1 == Gate::Idle,
        now2 >= now1 + 200 ==> e.spec_gate(false, now1).0.spec_gate(false, now2).1 == Gate::Run,
{
}

} // verus!
