//! Process-wide game state: the running score, the kill counter that gates
//! bot reactions, and the periodic bot-respawn scheduler.

use vstd::prelude::*;

verus! {

/// Points awarded for each defeated bot.
pub const KILL_SCORE: i64 = 10;

/// Period, in milli-time-units, of the scheduler that revives one hidden bot.
pub const BOT_SPAWN_PERIOD: i64 = 10000;

/// Largest frame delta, in milli-time-units, that a tick accepts.  The bound
/// keeps every timer sum comfortably within `i64` range.
pub const MAX_DT: i64 = 1_000_000_000;

/// Kill count at which a bot reaction becomes eligible.
pub const REACTION_KILL_THRESHOLD: u32 = 6;

/// Process-wide state shared by every entity: the score, the kill counter
/// consumed by the reaction gate, and the bot-respawn scheduler.
pub struct Game {
    /// Total score; grows by `KILL_SCORE` for each defeated bot.
    pub total_score: i64,
    /// Bots defeated since the counter was last consumed by a reaction.
    pub bot_kill_count: u32,
    /// Count-up timer toward the next scheduled bot revival.
    pub bot_spawn_timer: i64,
}

impl Game {
    /// Well-formedness: the score is non-negative and the scheduler timer
    /// stays below its period.
    pub open spec fn wf(self) -> bool {
        &&& 0 <= self.total_score
        &&& 0 <= self.bot_spawn_timer < BOT_SPAWN_PERIOD
    }

    /// The state at session start: nothing scored, nothing counted.
    pub open spec fn initial() -> Game {
        Game { total_score: 0, bot_kill_count: 0, bot_spawn_timer: 0 }
    }

    /// The game state at session start.
    pub fn new() -> (g: Game)
        ensures
            g.wf(),
            g == Game::initial(),
    {
        Game { total_score: 0, bot_kill_count: 0, bot_spawn_timer: 0 }
    }

    /// Record one defeated bot: award `KILL_SCORE` points and count the kill
    /// toward the reaction gate.  Both updates saturate at the type's limit
    /// rather than overflow.
    pub fn record_kill(&mut self)
        requires
            old(self).wf(),
        ensures
            final(self).wf(),
            final(self).total_score == if old(self).total_score + KILL_SCORE <= i64::MAX {
                old(self).total_score + KILL_SCORE
            } else {
                old(self).total_score as int
            },
            final(self).bot_kill_count == if old(self).bot_kill_count < u32::MAX {
                old(self).bot_kill_count + 1
            } else {
                old(self).bot_kill_count as int
            },
            final(self).bot_spawn_timer == old(self).bot_spawn_timer,
    {
        if self.total_score <= i64::MAX - KILL_SCORE {
            self.total_score = self.total_score + KILL_SCORE;
        }
        if self.bot_kill_count < u32::MAX {
            self.bot_kill_count = self.bot_kill_count + 1;
        }
    }

    /// Consume the kill counter when a reaction fires.
    pub fn consume_kills(&mut self)
        requires
            old(self).wf(),
        ensures
            final(self).wf(),
            final(self).bot_kill_count == 0,
            final(self).total_score == old(self).total_score,
            final(self).bot_spawn_timer == old(self).bot_spawn_timer,
    {
        self.bot_kill_count = 0;
    }

    /// Advance the bot-respawn scheduler by `dt` milli-time-units.  Returns
    /// whether one hidden bot should be revived this tick; the timer resets
    /// when it fires.
    pub fn update(&mut self, dt: i64) -> (spawn: bool)
        requires
            old(self).wf(),
            0 <= dt <= MAX_DT,
        ensures
            final(self).wf(),
            spawn == (old(self).bot_spawn_timer + dt >= BOT_SPAWN_PERIOD),
            final(self).bot_spawn_timer == if spawn {
                0
            } else {
                old(self).bot_spawn_timer + dt
            },
            final(self).total_score == old(self).total_score,
            final(self).bot_kill_count == old(self).bot_kill_count,
    {
        let t = self.bot_spawn_timer + dt;
        if t >= BOT_SPAWN_PERIOD {
            self.bot_spawn_timer = 0;
            true
        } else {
            self.bot_spawn_timer = t;
            false
        }
    }
}

impl Default for Game {
    /// The game state at session start.
    fn default() -> (g: Game)
        ensures
            g.wf(),
            g == Game::initial(),
    {
        Game::new()
    }
}

} // verus!
