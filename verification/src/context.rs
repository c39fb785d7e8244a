//! The shared game record: player health, hit cooldown and pause flag,
//! together with the laws that hold of every sequence of operations on it.

use vstd::prelude::*;

verus! {

/// Display classification of the player's health.
#[derive(Clone, Copy, Debug, PartialEq, Eq, Structural)]
pub enum PlayerStatus {
    Fine,
    Caution,
    Danger,
    Death,
}

/// Health band of a health value: 0 is `Death`, 1 to 29 `Danger`,
/// 30 to 59 `Caution`, 60 and above `Fine`.
pub open spec fn status_of(health: usize) -> PlayerStatus {
    if health == 0 {
        PlayerStatus::Death
    } else if health <= 29 {
        PlayerStatus::Danger
    } else if health <= 59 {
        PlayerStatus::Caution
    } else {
        PlayerStatus::Fine
    }
}

/// The shared game record behind the lock. Times are milliseconds on a
/// monotone clock with an arbitrary origin; every operation that reads
/// the clock takes the current time as an argument.
pub struct Inner {
    /// Player health; starts at 100 and never increases.
    pub health: usize,
    /// Time of the last accepted hit, while the cooldown it started may
    /// still be pending; cleared only by `status` (lazily, on a read),
    /// never by the passage of time alone.
    pub hit: Option<u64>,
    /// Pause flag; gates motion commands but not damage or status.
    pub pause: bool,
}

impl Inner {
    /// The record's invariant: health stays in the starting range; a
    /// fresh record establishes it and no operation can break it, since
    /// health never increases.
    pub open spec fn wf(self) -> bool {
        self.health <= 100
    }

    /// The record after toggling the pause flag.
    pub open spec fn spec_pause(self) -> Inner {
        Inner { pause: !self.pause, ..self }
    }

    /// The record and the returned value of applying `damage` at time
    /// `now`: accepted exactly when no hit is pending; health floors at
    /// zero and the new health comes back. A pending hit refuses the
    /// call and changes nothing.
    pub open spec fn spec_damage(self, damage: usize, now: u64) -> (Inner, Option<usize>) {
        if self.hit is None {
            let health = if self.health >= damage {
                (self.health - damage) as usize
            } else {
                0usize
            };
            (Inner { health, hit: Some(now), ..self }, Some(health))
        } else {
            (self, None)
        }
    }

    /// The record after the lazy cooldown check at time `now`: a pending
    /// hit strictly older than the 2000 ms cooldown is cleared.
    pub open spec fn spec_clear_hit(self, now: u64) -> Inner {
        match self.hit {
            Some(h) => if now > h + 2000 {
                Inner { hit: None, ..self }
            } else {
                self
            },
            None => self,
        }
    }

    /// A fresh game: full health, no pending hit, not paused.
    pub fn new() -> (s: Self)
        ensures
            s.wf(),
            s.health == 100,
            s.hit is None,
            !s.pause,
    {
        Inner { health: 100, hit: None, pause: false }
    }

    /// Flip the pause flag; nothing else changes.
    pub fn pause(&mut self)
        ensures
            *final(self) == old(self).spec_pause(),
    {
        self.pause = !self.pause;
    }

    pub fn paused(&self) -> (r: bool)
        ensures
            r == self.pause,
    {
        self.pause
    }

    /// Apply `damage` at time `now`. Exactly when no hit is pending, the
    /// hit is accepted: the cooldown starts at `now`, health drops by
    /// `damage` (floored at zero) and the new health is returned; a
    /// pending hit makes the call a no-op returning `None`.
    pub fn damage(&mut self, damage: usize, now: u64) -> (r: Option<usize>)
        ensures
            (*final(self), r) == old(self).spec_damage(damage, now),
    {
        if self.hit.is_none() {
            self.hit = Some(now);
            self.health = if self.health >= damage {
                self.health - damage
            } else {
                0
            };
            Some(self.health)
        } else {
            None
        }
    }

    /// Read the status at time `now`: first clears a hit pending for more
    /// than 2000 ms (a read-triggered side effect, the only way the
    /// cooldown ever ends), then classifies the current health.
    pub fn status(&mut self, now: u64) -> (r: PlayerStatus)
        ensures
            *final(self) == old(self).spec_clear_hit(now),
            r == status_of(old(self).health),
    {
        match self.hit {
            Some(h) => {
                if now >= h && now - h > 2000 {
                    self.hit = None;
                }
            },
            None => {},
        }
        if self.health == 0 {
            PlayerStatus::Death
        } else if self.health <= 29 {
            PlayerStatus::Danger
        } else if self.health <= 59 {
            PlayerStatus::Caution
        } else {
            PlayerStatus::Fine
        }
    }

    /// The game is over exactly when health has reached zero.
    pub fn gameover(&self) -> (r: bool)
        ensures
            r == (self.health == 0),
    {
        self.health == 0
    }
}

/// One operation on the shared game record, with the time at which an
/// operation that reads the clock is issued.
pub enum GameOp {
    Pause,
    Damage { amount: usize, now: u64 },
    Status { now: u64 },
}

/// The record after one operation (the returned value set aside).
pub open spec fn step(s: Inner, op: GameOp) -> Inner {
    match op {
        GameOp::Pause => s.spec_pause(),
        GameOp::Damage { amount, now } => s.spec_damage(amount, now).0,
        GameOp::Status { now } => s.spec_clear_hit(now),
    }
}

/// The record after a sequence of operations, first to last.
pub open spec fn run(s: Inner, ops: Seq<GameOp>) -> Inner
    decreases ops.len(),
{
    if ops.len() == 0 {
        s
    } else {
        run(step(s, ops[0]), ops.skip(1))
    }
}

/// Running one more operation after a sequence is the step of that
/// operation on the sequence's outcome.
pub proof fn lemma_run_snoc(s: Inner, ops: Seq<GameOp>, op: GameOp)
    ensures
        run(s, ops.push(op)) == step(run(s, ops), op),
    decreases ops.len(),
{
    let p = ops.push(op);
    if ops.len() == 0 {
        assert(p[0] == op);
        assert(p.skip(1) =~= Seq::<GameOp>::empty());
        assert(run(s, p) == run(step(s, op), p.skip(1)));
        assert(run(step(s, op), p.skip(1)) == step(s, op));
        assert(run(s, ops) == s);
    } else {
        assert(p[0] == ops[0]);
        assert(p.skip(1) =~= ops.skip(1).push(op));
        assert(run(s, p) == run(step(s, ops[0]), ops.skip(1).push(op)));
        lemma_run_snoc(step(s, ops[0]), ops.skip(1), op);
        assert(run(s, ops) == run(step(s, ops[0]), ops.skip(1)));
    }
}

/// Law: no operation ever increases health; in particular a record whose
/// health has reached zero keeps it at zero.
pub proof fn lemma_health_monotone(s: Inner, op: GameOp)
    ensures
        step(s, op).health <= s.health,
{
}

/// Law: health never increases across any sequence of operations, so once
/// `gameover` is true it stays true, and a well-formed record stays
/// well-formed.
pub proof fn lemma_game_over_permanent(s: Inner, ops: Seq<GameOp>)
    ensures
        run(s, ops).health <= s.health,
        s.health == 0 ==> run(s, ops).health == 0,
        s.wf() ==> run(s, ops).wf(),
    decreases ops.len(),
{
    if ops.len() > 0 {
        lemma_health_monotone(s, ops[0]);
        lemma_game_over_permanent(step(s, ops[0]), ops.skip(1));
    }
}

/// Law: the four status bands are exhaustive and mutually exclusive over
/// the health range.
pub proof fn lemma_status_bands(health: usize)
    ensures
        (status_of(health) is Death) <==> (health == 0),
        (status_of(health) is Danger) <==> (1 <= health && health <= 29),
        (status_of(health) is Caution) <==> (30 <= health && health <= 59),
        (status_of(health) is Fine) <==> (60 <= health),
{
}

/// Law: toggling the pause flag twice returns the whole record to what
/// it was.
pub proof fn lemma_pause_involutive(s: Inner)
    ensures
        s.spec_pause().spec_pause() == s,
{
}

/// The operation respects the cooldown window that a hit at `t0` opened:
/// a status read in it happens at or before `t0 + 2000`.
pub open spec fn in_window(op: GameOp, t0: u64) -> bool {
    op matches GameOp::Status { now } ==> now <= t0 + 2000
}

/// The operation at place `j`, if it is a damage call, is refused: run
/// up to it, applying it returns nothing.
pub open spec fn damage_refused_at(s: Inner, ops: Seq<GameOp>, j: int) -> bool {
    ops[j] matches GameOp::Damage { amount, now } ==> run(s, ops.take(j)).spec_damage(
        amount,
        now,
    ).1 is None
}

/// While a hit taken at `t0` is pending, every prefix of a sequence of
/// operations whose status reads all fall within the cooldown window
/// (at or before `t0 + 2000`) leaves the hit pending and health unchanged.
pub proof fn lemma_cooldown_prefix(s: Inner, t0: u64, ops: Seq<GameOp>, i: int)
    requires
        s.hit == Some(t0),
        forall|j: int| 0 <= j < ops.len() ==> in_window(#[trigger] ops[j], t0),
        0 <= i <= ops.len(),
    ensures
        run(s, ops.take(i)).hit == Some(t0),
        run(s, ops.take(i)).health == s.health,
    decreases i,
{
    if i == 0 {
        assert(ops.take(0) =~= Seq::<GameOp>::empty());
    } else {
        lemma_cooldown_prefix(s, t0, ops, i - 1);
        assert(ops.take(i) =~= ops.take(i - 1).push(ops[i - 1]));
        lemma_run_snoc(s, ops.take(i - 1), ops[i - 1]);
        assert(in_window(ops[i - 1], t0));
    }
}

/// Law: while a hit taken at `t0` is pending, any sequence of operations
/// whose status reads all fall within the cooldown window leaves the hit
/// pending and health unchanged, and every damage call in it is refused.
pub proof fn lemma_cooldown_blocks(s: Inner, t0: u64, ops: Seq<GameOp>)
    requires
        s.hit == Some(t0),
        forall|j: int| 0 <= j < ops.len() ==> in_window(#[trigger] ops[j], t0),
    ensures
        run(s, ops).hit == Some(t0),
        run(s, ops).health == s.health,
        forall|j: int| 0 <= j < ops.len() ==> #[trigger] damage_refused_at(s, ops, j),
{
    lemma_cooldown_prefix(s, t0, ops, ops.len() as int);
    assert(ops.take(ops.len() as int) =~= ops);
    assert forall|j: int| 0 <= j < ops.len() implies #[trigger] damage_refused_at(s, ops, j) by {
        lemma_cooldown_prefix(s, t0, ops, j);
    }
}

/// Law: starting with no hit pending, of a damage call at `t0` followed by
/// any operations whose status reads stay within the same cooldown window,
/// exactly the first call lands: it returns the lowered health (the old
/// health less its amount, floored at zero), every later damage call is
/// refused, and health keeps the value the first call set.
pub proof fn lemma_single_hit_per_window(s: Inner, amount: usize, t0: u64, ops: Seq<GameOp>)
    requires
        s.hit is None,
        forall|j: int| 0 <= j < ops.len() ==> in_window(#[trigger] ops[j], t0),
    ensures
        s.spec_damage(amount, t0).1 == Some(s.spec_damage(amount, t0).0.health),
        s.spec_damage(amount, t0).0.health == if s.health >= amount {
            (s.health - amount) as usize
        } else {
            0usize
        },
        run(s.spec_damage(amount, t0).0, ops).health == s.spec_damage(amount, t0).0.health,
        forall|j: int|
            0 <= j < ops.len() ==> #[trigger] damage_refused_at(s.spec_damage(amount, t0).0, ops, j),
{
    lemma_cooldown_blocks(s.spec_damage(amount, t0).0, t0, ops);
}

} // verus!
