//! Player-side command selection: the display color for each status and
//! change suppression of color and speed commands.

use vstd::prelude::*;
use crate::context::Inner;
use crate::context::PlayerStatus;
use crate::context::status_of;

verus! {

/// A light color command, as red, green and blue channels.
#[derive(Clone, Copy, Debug, Default, PartialEq, Eq, Structural)]
pub struct ColorState {
    pub r: u8,
    pub g: u8,
    pub b: u8,
}

/// A motor command, as left and right wheel speeds.
#[derive(Clone, Copy, Debug, Default, PartialEq, Eq, Structural)]
pub struct SpeedState {
    pub l: isize,
    pub r: isize,
}

/// The last color and speed commands actually emitted.
#[derive(Clone, Copy, Debug, Default, PartialEq, Eq, Structural)]
pub struct State {
    pub col: ColorState,
    pub speed: SpeedState,
}

/// The display color for a status: `Fine` green, `Caution` yellow,
/// `Danger` red. `Death` has no color of its own (an inherited gap in the
/// rules): the zero color that a fresh command starts from is kept, so a
/// dead player shows black.
pub open spec fn color_of(status: PlayerStatus) -> ColorState {
    match status {
        PlayerStatus::Fine => ColorState { r: 0, g: 255, b: 0 },
        PlayerStatus::Caution => ColorState { r: 255, g: 255, b: 0 },
        PlayerStatus::Danger => ColorState { r: 255, g: 0, b: 0 },
        PlayerStatus::Death => ColorState { r: 0, g: 0, b: 0 },
    }
}

/// The display color for a status.
pub fn color_for_status(status: PlayerStatus) -> (c: ColorState)
    ensures
        c == color_of(status),
{
    match status {
        PlayerStatus::Fine => ColorState { r: 0, g: 255, b: 0 },
        PlayerStatus::Caution => ColorState { r: 255, g: 255, b: 0 },
        PlayerStatus::Danger => ColorState { r: 255, g: 0, b: 0 },
        PlayerStatus::Death => ColorState { r: 0, g: 0, b: 0 },
    }
}

/// What one player tick asks of the caller: a light command and a motor
/// command, each only when it differs from the last one emitted.
#[derive(Clone, Copy, Debug, PartialEq, Eq)]
pub struct PlayerActions {
    /// `Some(color)` exactly when the display color changed.
    pub color: Option<ColorState>,
    /// `Some(speed)` exactly when unpaused and the speed changed.
    pub speed: Option<SpeedState>,
}

/// The player controller: its only state is the last color and speed
/// commands actually emitted, kept for change detection alone.
pub struct Player {
    /// The last commands sent; all zero before the first.
    pub last: State,
}

impl Player {
    /// The controller, the game record and the actions after one player
    /// tick at time `now`: a designated pause press toggles the pause
    /// flag; the status read lazily ends an expired hit cooldown; the
    /// display color follows the status; color and speed commands are
    /// each emitted only on change, and speed not at all while paused.
    pub open spec fn spec_process(
        self,
        game: Inner,
        now: u64,
        pause_pressed: bool,
        speed: SpeedState,
    ) -> (Player, Inner, PlayerActions) {
        let toggled = if pause_pressed {
            game.spec_pause()
        } else {
            game
        };
        let cleared = toggled.spec_clear_hit(now);
        let col = color_of(status_of(cleared.health));
        let color_cmd = if col != self.last.col {
            Some(col)
        } else {
            None
        };
        let speed_cmd = if !cleared.pause && speed != self.last.speed {
            Some(speed)
        } else {
            None
        };
        let speed_kept = if speed_cmd is Some {
            speed
        } else {
            self.last.speed
        };
        (
            Player { last: State { col, speed: speed_kept } },
            cleared,
            PlayerActions { color: color_cmd, speed: speed_cmd },
        )
    }

    /// A fresh controller: no command remembered yet.
    pub fn new() -> (p: Self)
        ensures
            p.last.col == (ColorState { r: 0, g: 0, b: 0 }),
            p.last.speed == (SpeedState { l: 0, r: 0 }),
    {
        Player {
            last: State {
                col: ColorState { r: 0, g: 0, b: 0 },
                speed: SpeedState { l: 0, r: 0 },
            },
        }
    }

    /// One player tick at time `now`, on this tick's decoded input: whether
    /// the designated pause button was pressed, and the speed the input
    /// translation computed.
    pub fn process(
        &mut self,
        game: &mut Inner,
        now: u64,
        pause_pressed: bool,
        speed: SpeedState,
    ) -> (acts: PlayerActions)
        ensures
            (*final(self), *final(game), acts) == old(self).spec_process(
                *old(game),
                now,
                pause_pressed,
                speed,
            ),
    {
        if pause_pressed {
            game.pause();
        }
        let status = game.status(now);
        let col = color_for_status(status);
        let color_cmd: Option<ColorState> = if col != self.last.col {
            self.last.col = col;
            Some(col)
        } else {
            None
        };
        let speed_cmd: Option<SpeedState> = if !game.paused() && speed != self.last.speed {
            self.last.speed = speed;
            Some(speed)
        } else {
            None
        };
        PlayerActions { color: color_cmd, speed: speed_cmd }
    }
}

/// Law: change suppression emits a changed command exactly once, with the
/// new value, and a repeated command only once: a second tick that sees
/// the same health band and the same speed emits nothing at all.
pub proof fn lemma_change_suppression(
    p: Player,
    game: Inner,
    now1: u64,
    now2: u64,
    speed: SpeedState,
)
    ensures
        ({
            let first = p.spec_process(game, now1, false, speed);
            let second = first.0.spec_process(first.1, now2, false, speed);
            second.2.color is None && second.2.speed is None
        }),
        ({
            let first = p.spec_process(game, now1, false, speed);
            let col = color_of(status_of(game.health));
            &&& (col != p.last.col ==> first.2.color == Some(col))
            &&& (col == p.last.col ==> first.2.color is None)
            &&& (!game.pause && speed != p.last.speed ==> first.2.speed == Some(speed))
            &&& (speed == p.last.speed ==> first.2.speed is None)
        }),
{
}

} // verus!
