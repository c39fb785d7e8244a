//! The direct-pursuit strategy: damage the player on contact, then steer
//! straight at the player's reported position.

use vstd::prelude::*;
use crate::context::Inner;
use crate::enemies::EnemyOp;
use crate::enemies::Position;
use crate::enemies::PursuitActions;
use crate::enemies::spec_sq_dist;
use crate::enemies::squared_distance;
use crate::player::ColorState;

verus! {

/// Whether turning right (clockwise in this coordinate convention) from
/// heading `r0` toward bearing `r1` is the shorter arc. For headings past
/// 180 the shorter arc may cross the 0/360 seam, which the second branch
/// handles with the wrapped opposite heading `(r0 + 180) % 360`.
pub open spec fn spec_turn_right(r0: int, r1: int) -> bool {
    if r0 < 180 {
        r0 < r1 && r1 < r0 + 180
    } else {
        r0 < r1 || r1 < (r0 + 180) % 360
    }
}

/// Whether turning right from heading `r0` toward bearing `r1` is the
/// shorter arc.
pub fn turn_right(r0: isize, r1: isize) -> (r: bool)
    requires
        0 <= r0 < 360,
    ensures
        r == spec_turn_right(r0 as int, r1 as int),
{
    if r0 < 180 {
        r0 < r1 && r1 < r0 + 180
    } else {
        r0 < r1 || r1 < (r0 + 180) % 360
    }
}

/// The wheel speeds that steer from heading `r0` toward bearing `r1`: a
/// pivot turn the shorter way around while the heading error exceeds the
/// 10 degree deadband, else straight ahead.
pub open spec fn spec_motion(r0: int, r1: int) -> (isize, isize) {
    if r0 - r1 > 10 || r1 - r0 > 10 {
        if spec_turn_right(r0, r1) {
            (2isize, -2isize)
        } else {
            (-2isize, 2isize)
        }
    } else {
        (6isize, 6isize)
    }
}

/// The wheel speeds that steer from heading `r0` toward bearing `r1`.
pub fn decide_motion(r0: isize, r1: isize) -> (m: (isize, isize))
    requires
        0 <= r0 < 360,
        0 <= r1 <= 360,
    ensures
        m == spec_motion(r0 as int, r1 as int),
{
    let err: isize = if r0 >= r1 {
        r0 - r1
    } else {
        r1 - r0
    };
    if err > 10 {
        if turn_right(r0, r1) {
            (2, -2)
        } else {
            (-2, 2)
        }
    } else {
        (6, 6)
    }
}

/// The direct-pursuit strategy. Its only state is the last motor command
/// actually sent, kept for change detection alone.
pub struct Easy {
    /// The last motor command sent; `(0, 0)` before the first.
    pub motion: (isize, isize),
}

impl Easy {
    pub fn new() -> (e: Self)
        ensures
            e.motion == (0isize, 0isize),
    {
        Easy { motion: (0, 0) }
    }
}

impl EnemyOp for Easy {
    /// A tick is defined for a heading the telemetry can report (degrees
    /// in [0, 360)) and a bearing the platform's conversion can produce
    /// (degrees in [0, 360]).
    open spec fn ok_inputs(self, player: Position, enemy: Position, bearing: isize) -> bool {
        &&& 0 <= enemy.angle < 360
        &&& 0 <= bearing <= 360
    }

    /// Start-up shows blue on the enemy's light and keeps the state.
    open spec fn spec_init(self) -> (Self, ColorState) {
        (self, ColorState { r: 0, g: 0, b: 255 })
    }

    /// The tick: when the squared distance to the player is under 1000,
    /// try to land a hit of 10 on the game record; steer toward the
    /// bearing; emit the motor command only when it differs from the last
    /// one sent, remembering what was emitted.
    open spec fn spec_update(
        self,
        game: Inner,
        now: u64,
        player: Position,
        enemy: Position,
        bearing: isize,
    ) -> (Self, Inner, PursuitActions) {
        let dg = if spec_sq_dist(player, enemy) < 1000 {
            game.spec_damage(10, now)
        } else {
            (game, None)
        };
        let m = spec_motion(enemy.angle as int, bearing as int);
        let motor = if m != self.motion {
            Some(m)
        } else {
            None
        };
        (Easy { motion: m }, dg.0, PursuitActions { hit: dg.1, motor })
    }

    fn init(&mut self, id: usize) -> (c: ColorState) {
        ColorState { r: 0, g: 0, b: 255 }
    }

    fn update(
        &mut self,
        id: usize,
        game: &mut Inner,
        now: u64,
        player: &Position,
        enemy: &Position,
        bearing: isize,
    ) -> (acts: PursuitActions) {
        let d: u128 = squared_distance(player, enemy);
        let hit: Option<usize> = if d < 1000 {
            game.damage(10, now)
        } else {
            None
        };
        let m: (isize, isize) = decide_motion(enemy.angle as isize, bearing);
        let motor: Option<(isize, isize)> = if m.0 != self.motion.0 || m.1 != self.motion.1 {
            self.motion = m;
            Some(m)
        } else {
            None
        };
        PursuitActions { hit, motor }
    }
}

/// Law: two pursuit ticks in a row that see the same heading and bearing
/// emit the motor command at most once: whatever the first emitted, the
/// second emits no motor command.
pub proof fn lemma_motor_suppression(
    e: Easy,
    game: Inner,
    now1: u64,
    now2: u64,
    player: Position,
    enemy: Position,
    bearing: isize,
)
    ensures
        ({
            let first = e.spec_update(game, now1, player, enemy, bearing);
            let second = first.0.spec_update(first.1, now2, player, enemy, bearing);
            second.2.motor is None
        }),
{
}

} // verus!
