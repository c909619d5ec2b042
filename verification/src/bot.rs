//! The enemy bot: a per-entity state machine blending target chase, reaction
//! behaviour (freeze or flee), deferred health bookkeeping, defeat and
//! respawn, contact damage against the player, and animation selection.

use crate::arena::coord_ok;
use crate::arena::dist_sq;
use crate::arena::dist_sq_spec;
use crate::arena::in_arena;
use crate::arena::random_point_near;
use crate::arena::Vec2;
use crate::game::Game;
use crate::game::KILL_SCORE;
use crate::game::MAX_DT;
use crate::game::REACTION_KILL_THRESHOLD;
use crate::player::Player;
use crate::rng::random_coin;
use vstd::prelude::*;

verus! {

/// Health a bot starts and respawns with.
pub const BOT_MAX_HEALTH: i64 = 100;

/// Milli-time a defeated bot waits before it respawns.
pub const RESPAWN_DELAY: i64 = 3000;

/// Milli-time a triggered reaction lasts.
pub const REACTION_DURATION: i64 = 3000;

/// Milli-time that must pass between two reactions of the same bot.
pub const REACTION_COOLDOWN_PERIOD: i64 = 10000;

/// Squared milli-distance under which the bot stops chasing.
pub const NEAR_THRESHOLD_SQ: i64 = 1_210_000;

/// Squared milli-distance within which contact damage accumulates.
pub const CONTACT_RANGE_SQ: i64 = 2_250_000;

/// Milli-time of sustained contact before melee damage fires.
pub const CONTACT_DAMAGE_PERIOD: i64 = 750;

/// Health the player loses to one melee hit.
pub const CONTACT_DAMAGE: i64 = 20;

/// Squared milli-distance within which the attack pose is shown.
pub const ATTACK_ANIM_RANGE_SQ: i64 = 1_960_000;

/// Squared milli-distance of the player's attack reach.
pub const ATTACK_RANGE_SQ: i64 = 4_000_000;

/// Health a bot loses to one player attack.
pub const MELEE_DAMAGE: i64 = 10;

/// Milli-time after which a freshly shown target marker hides itself.
pub const MARKER_HIDE_DELAY: i64 = 100;

/// Speed, in milli-units per time-unit, of a bot at rest configuration.
pub const BASE_SPEED: i64 = 1000;

/// Chase speed, in milli-units per time-unit.
pub const CHASE_SPEED: i64 = 1200;

/// Flee speed, in milli-units per time-unit.
pub const FLEE_SPEED: i64 = 2000;

/// Animation index of the attack pose.
pub const ANIM_ATTACK: u32 = 0;

/// Animation index of the defeat clip.
pub const ANIM_DEFEAT: u32 = 1;

/// Animation index of the walk clip.
pub const ANIM_WALK: u32 = 2;

/// Animation index of the idle clip.
pub const ANIM_IDLE: u32 = 3;

/// Animation index of the frozen pose.
pub const ANIM_FROZEN: u32 = 4;

/// A bot's temporary override behaviour once a kill-count milestone is hit.
#[derive(Clone, Copy, Debug, PartialEq, Eq, Structural)]
pub enum ReactionState {
    /// Freeze in place.
    Motionless,
    /// Flee from the player.
    RunningAway,
}

/// Which directional obstacle sensor the steering consults.
#[derive(Clone, Copy, Debug, PartialEq, Eq, Structural)]
pub enum SensorSide {
    /// The sensor ahead of the sprite.
    Front,
    /// The sensor behind the sprite.
    Back,
}

/// The rigid-body class of a sensed contact, as the physics substrate
/// reports it.
#[derive(Clone, Copy, Debug, PartialEq, Eq, Structural)]
pub enum BodyKind {
    /// An immovable body: a wall or other level geometry.
    Fixed,
    /// A simulated movable body.
    Dynamic,
    /// A script-driven movable body.
    Kinematic,
}

/// What one bot tick asks of the surrounding substrate.
#[derive(Clone, Copy, Debug)]
pub struct BotCommands {
    /// Move the bot entity here (respawn placement).
    pub teleport: Option<Vec2>,
    /// Destroy the bot's target-marker entity.
    pub remove_marker: bool,
}

/// One enemy entity's state.
pub struct Bot {
    /// Current steering speed, in milli-units per time-unit.
    pub speed: i64,
    /// Current steering vector; points along the intended motion but is not
    /// normalised.
    pub direction: Vec2,
    /// Committed health, in `[0, max_health]`.
    pub health: i64,
    /// Health ceiling, constant per instance.
    pub max_health: i64,
    /// Accumulated milli-time in contact range with the player.
    pub damage_timer: i64,
    /// `None` while alive; `Some(t)` counts milli-time toward respawn.
    pub respawn_timer: Option<i64>,
    /// Single-slot deferred health write, committed at the start of the next
    /// tick; last write wins.
    pub pending_health_update: Option<i64>,
    /// Remaining milli-time of the active reaction.
    pub reaction_timer: i64,
    /// Behaviour of the active (or last) reaction.
    pub reaction_state: ReactionState,
    /// Count-up milli-time gate between reactions.
    pub reaction_cooldown: i64,
    /// Whether the entity is shown in the world; cleared while defeated.
    pub visible: bool,
    /// Index of the animation clip to show.
    pub current_animation: u32,
    /// Whether a target-marker entity exists for this bot.
    pub marker_present: bool,
    /// Whether the target-marker entity is shown.
    pub marker_shown: bool,
    /// `Some(t)` while the freshly spawned marker counts toward auto-hide.
    pub marker_timer: Option<i64>,
}

/// The bot `b` with `v` queued as its deferred health write.
pub open spec fn with_pending(b: Bot, v: i64) -> Bot {
    Bot { pending_health_update: Some(v), ..b }
}

/// `v` clamped into the observable health range `[0, max]`.
pub open spec fn clamp_health(v: int, max: int) -> int {
    if v < 0 {
        0
    } else if v > max {
        max
    } else {
        v
    }
}

/// The bot `b` after committing its deferred health write, if one is queued:
/// the slot empties and the health takes the clamped written value.
pub open spec fn after_commit(b: Bot) -> Bot {
    match b.pending_health_update {
        Some(v) => Bot {
            health: clamp_health(v as int, b.max_health as int) as i64,
            pending_health_update: None,
            ..b
        },
        None => b,
    }
}

impl Bot {
    /// Well-formedness: health within bounds and every timer within the
    /// range its threshold allows.
    pub open spec fn wf(self) -> bool {
        &&& 0 < self.max_health <= 1_000_000
        &&& 0 <= self.health <= self.max_health
        &&& 0 <= self.speed
        &&& 0 <= self.damage_timer < CONTACT_DAMAGE_PERIOD
        &&& match self.respawn_timer {
            Some(t) => 0 <= t < RESPAWN_DELAY,
            None => true,
        }
        &&& 0 <= self.reaction_timer <= REACTION_DURATION
        &&& 0 <= self.reaction_cooldown <= REACTION_COOLDOWN_PERIOD
        &&& match self.marker_timer {
            Some(t) => 0 <= t < MARKER_HIDE_DELAY,
            None => true,
        }
        &&& (self.marker_timer is Some ==> self.marker_present)
        &&& (self.marker_shown ==> self.marker_present)
    }

    /// The configuration a bot enters the world with: full health, at rest,
    /// shown, no reaction pending, nothing queued.
    pub open spec fn initial() -> Bot {
        Bot {
            speed: BASE_SPEED,
            direction: Vec2 { x: 0, y: 0 },
            health: BOT_MAX_HEALTH,
            max_health: BOT_MAX_HEALTH,
            damage_timer: 0,
            respawn_timer: None,
            pending_health_update: None,
            reaction_timer: 0,
            reaction_state: ReactionState::Motionless,
            reaction_cooldown: 0,
            visible: true,
            current_animation: ANIM_ATTACK,
            marker_present: false,
            marker_shown: false,
            marker_timer: None,
        }
    }

    /// A bot in its initial configuration.
    pub fn new() -> (b: Bot)
        ensures
            b.wf(),
            b == Bot::initial(),
    {
        Bot {
            speed: BASE_SPEED,
            direction: Vec2 { x: 0, y: 0 },
            health: BOT_MAX_HEALTH,
            max_health: BOT_MAX_HEALTH,
            damage_timer: 0,
            respawn_timer: None,
            pending_health_update: None,
            reaction_timer: 0,
            reaction_state: ReactionState::Motionless,
            reaction_cooldown: 0,
            visible: true,
            current_animation: ANIM_ATTACK,
            marker_present: false,
            marker_shown: false,
            marker_timer: None,
        }
    }

    /// The bot's health ratio scaled to a bar of width `scale`: the filled
    /// width of a health indicator.
    pub fn health_bar_width(&self, scale: i64) -> (w: i64)
        requires
            self.wf(),
            0 <= scale <= 1_000_000,
        ensures
            w == self.health * scale / (self.max_health as int),
            0 <= w <= scale,
    {
        proof {
            assert(0 <= self.health * scale <= 1_000_000 * 1_000_000) by (nonlinear_arith)
                requires
                    0 <= self.health <= 1_000_000,
                    0 <= scale <= 1_000_000,
            ;
            assert(self.health * scale / (self.max_health as int) <= scale) by (nonlinear_arith)
                requires
                    0 <= self.health <= self.max_health,
                    0 < self.max_health,
                    0 <= scale,
            ;
            assert(0 <= self.health * scale / (self.max_health as int)) by (nonlinear_arith)
                requires
                    0 <= self.health * scale,
                    0 < self.max_health,
            ;
        }
        self.health * scale / self.max_health
    }

    /// The committed health.  A deferred write queued since the last tick is
    /// not yet reflected here.
    pub fn get_health(&self) -> (h: i64)
        ensures
            h == self.health,
    {
        self.health
    }

    /// Queue a deferred health write, replacing any write already queued:
    /// the single-slot queue is last-write-wins.  The value is committed,
    /// clamped to the observable range, at the start of this bot's next tick.
    pub fn set_health(&mut self, new_health: i64)
        ensures
            *final(self) == with_pending(*old(self), new_health),
    {
        self.pending_health_update = Some(new_health);
    }

    /// Start a reaction: a coin flip picks freezing or fleeing, and the
    /// countdown is set to exactly the reaction duration.
    pub fn trigger_reaction(&mut self)
        ensures
            final(self).reaction_timer == REACTION_DURATION,
            final(self).reaction_state is Motionless || final(self).reaction_state
                is RunningAway,
            *final(self) == (Bot {
                reaction_timer: final(self).reaction_timer,
                reaction_state: final(self).reaction_state,
                ..*old(self)
            }),
    {
        if random_coin() {
            self.reaction_state = ReactionState::Motionless;
        } else {
            self.reaction_state = ReactionState::RunningAway;
        }
        self.reaction_timer = REACTION_DURATION;
    }

    /// The reaction cooldown after one frame of `dt`, capped at the trigger
    /// threshold (the timer is only ever compared against that threshold).
    pub open spec fn cooldown_after(c: int, dt: int) -> int {
        if c + dt >= REACTION_COOLDOWN_PERIOD {
            REACTION_COOLDOWN_PERIOD as int
        } else {
            c + dt
        }
    }

    /// Whether the reaction gate fires this tick: enough kills banked, the
    /// per-bot cooldown elapsed, and no reaction already active.
    pub open spec fn reaction_gate_fires(self, g: Game, dt: int) -> bool {
        &&& g.bot_kill_count >= REACTION_KILL_THRESHOLD
        &&& Self::cooldown_after(self.reaction_cooldown as int, dt) >= REACTION_COOLDOWN_PERIOD
        &&& self.reaction_timer <= 0
    }

    /// One tick of the bot state machine, in the strict priority order the
    /// behaviour is specified in: commit a deferred health write (entering
    /// the defeated path on the tick health crosses zero, scoring the kill
    /// and hiding the entity); otherwise advance a running respawn and, when
    /// it completes, restore full health near the player; otherwise run the
    /// reaction gate, an active reaction's steering override, the chase
    /// steering, contact damage against the player, animation selection and
    /// the target-marker auto-hide.
    ///
    /// `bot_pos` and `player_pos` are the entities' positions as the
    /// substrate reports them this tick; `dt` is the frame delta in
    /// milli-time-units.
    pub fn update(
        &mut self,
        game: &mut Game,
        player: &mut Player,
        bot_pos: Vec2,
        player_pos: Vec2,
        dt: i64,
    ) -> (cmd: BotCommands)
        requires
            old(self).wf(),
            old(game).wf(),
            old(player).wf(),
            coord_ok(bot_pos),
            coord_ok(player_pos),
            0 <= dt <= MAX_DT,
        ensures
            final(self).wf(),
            final(game).wf(),
            final(player).wf(),
            final(self).max_health == old(self).max_health,
            final(self).pending_health_update is None,
            final(game).total_score >= old(game).total_score,
            final(player).health <= old(player).health,
            // Defeated path, entered by this tick's commit: the tick health
            // crosses zero scores the kill and hides the entity; a commit
            // while already defeated only advances the respawn clock.
            ({
                let c = after_commit(*old(self));
                (old(self).pending_health_update is Some && c.health == 0) ==> {
                    &&& final(self).current_animation == ANIM_DEFEAT
                    &&& *final(player) == *old(player)
                    &&& cmd.teleport is None
                    &&& !cmd.remove_marker
                    &&& final(self).marker_present == old(self).marker_present
                    &&& final(self).marker_shown == old(self).marker_shown
                    &&& final(self).marker_timer == old(self).marker_timer
                    &&& match old(self).respawn_timer {
                        None => {
                            &&& final(self).health == 0
                            &&& !final(self).visible
                            &&& final(self).respawn_timer == Some(0i64)
                            &&& final(game).total_score == if old(game).total_score
                                + KILL_SCORE <= i64::MAX {
                                old(game).total_score + KILL_SCORE
                            } else {
                                old(game).total_score as int
                            }
                            &&& final(game).bot_kill_count == if old(game).bot_kill_count
                                < u32::MAX {
                                old(game).bot_kill_count + 1
                            } else {
                                old(game).bot_kill_count as int
                            }
                        },
                        Some(t) => {
                            &&& *final(game) == *old(game)
                            &&& if t + dt >= RESPAWN_DELAY {
                                &&& final(self).health == old(self).max_health
                                &&& final(self).respawn_timer is None
                                &&& final(self).visible
                            } else {
                                &&& final(self).health == 0
                                &&& final(self).respawn_timer == Some((t + dt) as i64)
                                &&& final(self).visible == old(self).visible
                            }
                        },
                    }
                }
            }),
            // Defeated idle path: no commit this tick, health already zero.
            // Any marker is removed; the respawn clock starts or advances;
            // on completion the bot returns at full health at a random
            // point near the player, clamped to the arena.
            ({
                let c = after_commit(*old(self));
                (old(self).pending_health_update is None && c.health == 0) ==> {
                    &&& *final(player) == *old(player)
                    &&& *final(game) == *old(game)
                    &&& !final(self).marker_present
                    &&& !final(self).marker_shown
                    &&& final(self).marker_timer is None
                    &&& cmd.remove_marker == old(self).marker_present
                    &&& match old(self).respawn_timer {
                        None => {
                            &&& final(self).health == 0
                            &&& final(self).respawn_timer == Some(0i64)
                            &&& cmd.teleport is None
                            &&& final(self).visible == old(self).visible
                        },
                        Some(t) => {
                            if t + dt >= RESPAWN_DELAY {
                                &&& final(self).health == old(self).max_health
                                &&& final(self).respawn_timer is None
                                &&& final(self).visible
                                &&& match cmd.teleport {
                                    Some(p) => in_arena(p),
                                    None => false,
                                }
                            } else {
                                &&& final(self).health == 0
                                &&& final(self).respawn_timer == Some((t + dt) as i64)
                                &&& cmd.teleport is None
                                &&& final(self).visible == old(self).visible
                            }
                        },
                    }
                }
            }),
            // Alive path: the reaction gate, then either an active
            // reaction's steering override or the normal chase, contact
            // damage, animation selection and marker auto-hide.
            ({
                let c = after_commit(*old(self));
                c.health > 0 ==> {
                    let trig = old(self).reaction_gate_fires(*old(game), dt as int);
                    let rt1 = if trig {
                        REACTION_DURATION as int
                    } else {
                        old(self).reaction_timer as int
                    };
                    let rt2 = if rt1 - dt >= 0 {
                        rt1 - dt
                    } else {
                        0
                    };
                    let reacting = rt1 > 0 && rt2 > 0;
                    &&& final(self).health == c.health
                    &&& final(self).visible == old(self).visible
                    &&& final(self).respawn_timer == old(self).respawn_timer
                    &&& final(self).marker_present == old(self).marker_present
                    &&& cmd.teleport is None
                    &&& !cmd.remove_marker
                    &&& final(game).total_score == old(game).total_score
                    &&& final(game).bot_spawn_timer == old(game).bot_spawn_timer
                    &&& final(game).bot_kill_count == if trig {
                        0int
                    } else {
                        old(game).bot_kill_count as int
                    }
                    &&& final(self).reaction_cooldown == if trig {
                        0int
                    } else {
                        Self::cooldown_after(old(self).reaction_cooldown as int, dt as int)
                    }
                    &&& final(self).reaction_timer == rt2
                    &&& (trig ==> final(self).reaction_state is Motionless
                        || final(self).reaction_state is RunningAway)
                    &&& (!trig ==> final(self).reaction_state == old(self).reaction_state)
                    &&& if reacting {
                        // Steering override; nothing further runs this tick.
                        &&& *final(player) == *old(player)
                        &&& final(self).damage_timer == old(self).damage_timer
                        &&& final(self).marker_shown == old(self).marker_shown
                        &&& final(self).marker_timer == old(self).marker_timer
                        &&& (final(self).reaction_state is Motionless ==> final(self).direction
                            == (Vec2 { x: 0, y: 0 }) && final(self).speed == 0
                            && final(self).current_animation == ANIM_FROZEN)
                        &&& (final(self).reaction_state is RunningAway ==> final(self).direction
                            == (Vec2 {
                            x: (bot_pos.x - player_pos.x) as i64,
                            y: (bot_pos.y - player_pos.y) as i64,
                        }) && final(self).speed == FLEE_SPEED && final(self).current_animation
                            == ANIM_WALK)
                    } else {
                        // Normal chase, contact damage, animation, marker.
                        let d2 = dist_sq_spec(player_pos, bot_pos);
                        let nd = if old(self).visible {
                            if d2 > NEAR_THRESHOLD_SQ {
                                Vec2 {
                                    x: (player_pos.x - bot_pos.x) as i64,
                                    y: (player_pos.y - bot_pos.y) as i64,
                                }
                            } else {
                                Vec2 { x: 0, y: 0 }
                            }
                        } else {
                            old(self).direction
                        };
                        let hit = d2 <= CONTACT_RANGE_SQ && old(self).visible && old(
                            self,
                        ).damage_timer + dt >= CONTACT_DAMAGE_PERIOD;
                        let ph = if old(player).health >= CONTACT_DAMAGE {
                            old(player).health - CONTACT_DAMAGE
                        } else {
                            0
                        };
                        &&& final(self).direction == nd
                        &&& final(self).speed == if old(self).visible {
                            if d2 > NEAR_THRESHOLD_SQ {
                                CHASE_SPEED as int
                            } else {
                                0
                            }
                        } else {
                            old(self).speed as int
                        }
                        &&& final(self).damage_timer == if d2 > CONTACT_RANGE_SQ {
                            0int
                        } else if !old(self).visible {
                            old(self).damage_timer as int
                        } else if hit {
                            0int
                        } else {
                            old(self).damage_timer + dt
                        }
                        &&& (hit && !old(player).game_over) ==> (final(player).health == ph
                            && final(player).game_over == (ph == 0)
                            && final(player).has_printed_game_over
                            == old(player).has_printed_game_over)
                        &&& (!(hit && !old(player).game_over)) ==> *final(player) == *old(player)
                        &&& final(self).current_animation == if d2 < ATTACK_ANIM_RANGE_SQ {
                            ANIM_ATTACK as int
                        } else if nd != (Vec2 { x: 0, y: 0 }) {
                            ANIM_WALK as int
                        } else {
                            ANIM_IDLE as int
                        }
                        &&& match old(self).marker_timer {
                            Some(t) => {
                                if t + dt >= MARKER_HIDE_DELAY {
                                    &&& final(self).marker_timer is None
                                    &&& !final(self).marker_shown
                                } else {
                                    &&& final(self).marker_timer == Some((t + dt) as i64)
                                    &&& final(self).marker_shown == old(self).marker_shown
                                }
                            },
                            None => {
                                &&& final(self).marker_timer is None
                                &&& final(self).marker_shown == old(self).marker_shown
                            },
                        }
                    }
                }
            }),
    {
        let mut cmd = BotCommands { teleport: None, remove_marker: false };
        // 1) Commit a deferred health write; entering or advancing the
        // defeated path ends the tick.
        if self.pending_health_update.is_some() {
            let new_health = self.pending_health_update.unwrap();
            self.pending_health_update = None;
            self.health = if new_health < 0 {
                0
            } else if new_health > self.max_health {
                self.max_health
            } else {
                new_health
            };
            if self.health == 0 {
                self.current_animation = ANIM_DEFEAT;
                match self.respawn_timer {
                    None => {
                        // First tick across zero: score, hide, start the
                        // respawn clock.
                        game.record_kill();
                        self.visible = false;
                        self.respawn_timer = Some(0);
                    },
                    Some(t) => {
                        if t + dt >= RESPAWN_DELAY {
                            self.health = self.max_health;
                            self.respawn_timer = None;
                            self.visible = true;
                        } else {
                            self.respawn_timer = Some(t + dt);
                        }
                    },
                }
                return cmd;
            }
        }
        // 2) Defeated idle path: advance the respawn clock; on completion
        // return at a random point near the player.
        if self.health == 0 {
            if self.marker_present {
                cmd.remove_marker = true;
                self.marker_present = false;
                self.marker_shown = false;
                self.marker_timer = None;
            }
            match self.respawn_timer {
                Some(t) => {
                    if t + dt >= RESPAWN_DELAY {
                        self.health = self.max_health;
                        self.respawn_timer = None;
                        let p = random_point_near(player_pos);
                        cmd.teleport = Some(p);
                        self.visible = true;
                    } else {
                        self.respawn_timer = Some(t + dt);
                    }
                },
                None => {
                    self.respawn_timer = Some(0);
                },
            }
            return cmd;
        }
        // 3) Reaction gate: the cooldown counts up every tick; with enough
        // kills banked and no reaction active, flip the coin.
        self.reaction_cooldown = if self.reaction_cooldown + dt >= REACTION_COOLDOWN_PERIOD {
            REACTION_COOLDOWN_PERIOD
        } else {
            self.reaction_cooldown + dt
        };
        if game.bot_kill_count >= REACTION_KILL_THRESHOLD && self.reaction_cooldown
            >= REACTION_COOLDOWN_PERIOD && self.reaction_timer <= 0 {
            self.trigger_reaction();
            self.reaction_cooldown = 0;
            game.consume_kills();
        }
        // 4) Active reaction: freeze in place or flee from the player; the
        // override ends the tick.
        if self.reaction_timer > 0 {
            self.reaction_timer = if self.reaction_timer - dt >= 0 {
                self.reaction_timer - dt
            } else {
                0
            };
            if self.reaction_timer > 0 {
                match self.reaction_state {
                    ReactionState::Motionless => {
                        self.direction = Vec2 { x: 0, y: 0 };
                        self.speed = 0;
                        self.current_animation = ANIM_FROZEN;
                    },
                    ReactionState::RunningAway => {
                        self.direction = Vec2 {
                            x: bot_pos.x - player_pos.x,
                            y: bot_pos.y - player_pos.y,
                        };
                        self.speed = FLEE_SPEED;
                        self.current_animation = ANIM_WALK;
                    },
                }
                return cmd;
            }
        }
        // 5) Normal chase: steer toward the player while beyond the near
        // threshold; movement is suppressed while hidden.
        let d2 = dist_sq(player_pos, bot_pos);
        if self.visible {
            if d2 > NEAR_THRESHOLD_SQ {
                self.direction = Vec2 {
                    x: player_pos.x - bot_pos.x,
                    y: player_pos.y - bot_pos.y,
                };
                self.speed = CHASE_SPEED;
            } else {
                self.direction = Vec2 { x: 0, y: 0 };
                self.speed = 0;
            }
        }
        // 6) Contact damage: sustained contact wears the player down; out of
        // range the accumulator resets outright.
        if d2 <= CONTACT_RANGE_SQ {
            if self.visible {
                if self.damage_timer + dt >= CONTACT_DAMAGE_PERIOD {
                    if !player.game_over {
                        player.health = if player.health >= CONTACT_DAMAGE {
                            player.health - CONTACT_DAMAGE
                        } else {
                            0
                        };
                        if player.health == 0 {
                            player.game_over = true;
                        }
                    }
                    self.damage_timer = 0;
                } else {
                    self.damage_timer = self.damage_timer + dt;
                }
            }
        } else {
            self.damage_timer = 0;
        }
        // 7) Animation: attack pose in close range, walk while steering,
        // idle otherwise.
        self.current_animation = if d2 < ATTACK_ANIM_RANGE_SQ {
            ANIM_ATTACK
        } else if self.direction.x != 0 || self.direction.y != 0 {
            ANIM_WALK
        } else {
            ANIM_IDLE
        };
        // 8) Marker auto-hide: a freshly spawned marker hides itself shortly
        // after being shown.
        match self.marker_timer {
            Some(t) => {
                if t + dt >= MARKER_HIDE_DELAY {
                    self.marker_shown = false;
                    self.marker_timer = None;
                } else {
                    self.marker_timer = Some(t + dt);
                }
            },
            None => {},
        }
        cmd
    }

    /// The player's attack input pressed near this bot.  Within reach, with
    /// the game still running and the bot shown, the melee damage is queued
    /// on the deferred-update slot (committed next tick), the target marker
    /// is shown, and a marker entity is requested if none exists; otherwise
    /// nothing changes.
    pub fn attack(&mut self, player: &Player, bot_pos: Vec2, player_pos: Vec2) -> (spawn_marker:
        bool)
        requires
            old(self).wf(),
            coord_ok(bot_pos),
            coord_ok(player_pos),
        ensures
            final(self).wf(),
            ({
                let engaged = dist_sq_spec(player_pos, bot_pos) <= ATTACK_RANGE_SQ
                    && !player.game_over && old(self).visible;
                let nh = if old(self).health >= MELEE_DAMAGE {
                    old(self).health - MELEE_DAMAGE
                } else {
                    0
                };
                &&& (!engaged ==> *final(self) == *old(self) && !spawn_marker)
                &&& (engaged ==> *final(self) == (Bot {
                    pending_health_update: Some(nh as i64),
                    marker_present: true,
                    marker_shown: true,
                    marker_timer: if old(self).marker_present {
                        old(self).marker_timer
                    } else {
                        Some(0i64)
                    },
                    ..*old(self)
                }) && spawn_marker == !old(self).marker_present)
            }),
    {
        let d2 = dist_sq(player_pos, bot_pos);
        if d2 <= ATTACK_RANGE_SQ && !player.game_over && self.visible {
            let h = self.get_health();
            let nh = if h >= MELEE_DAMAGE {
                h - MELEE_DAMAGE
            } else {
                0
            };
            self.set_health(nh);
            if self.marker_present {
                self.marker_shown = true;
                false
            } else {
                self.marker_present = true;
                self.marker_shown = true;
                self.marker_timer = Some(0);
                true
            }
        } else {
            false
        }
    }

    /// The player's attack input released: the target marker, if any, is
    /// destroyed.  Returns whether a marker entity is to be removed.
    pub fn release_attack(&mut self) -> (removed: bool)
        requires
            old(self).wf(),
        ensures
            final(self).wf(),
            *final(self) == (Bot {
                marker_present: false,
                marker_shown: false,
                marker_timer: None,
                ..*old(self)
            }),
            removed == old(self).marker_present,
    {
        let removed = self.marker_present;
        self.marker_present = false;
        self.marker_shown = false;
        self.marker_timer = None;
        removed
    }

    /// The horizontal mirror sign for the bot's sprite: the sprite faces the
    /// player, and its drawn x scale carries the negated sign of the
    /// direction toward the player.
    pub fn facing_scale_x(&self, bot_x: i64, player_x: i64) -> (s: i64)
        ensures
            s == if player_x >= bot_x {
                -1int
            } else {
                1int
            },
    {
        if player_x >= bot_x {
            -1
        } else {
            1
        }
    }

    /// Which obstacle sensor the current steering direction selects: the
    /// back sensor when walking in the negative x direction, the front one
    /// otherwise.
    pub fn obstacle_sensor(&self) -> (s: SensorSide)
        ensures
            s == if self.direction.x < 0 {
                SensorSide::Back
            } else {
                SensorSide::Front
            },
    {
        if self.direction.x < 0 {
            SensorSide::Back
        } else {
            SensorSide::Front
        }
    }
}

impl Default for Bot {
    /// A bot in its initial configuration.
    fn default() -> (b: Bot)
        ensures
            b.wf(),
            b == Bot::initial(),
    {
        Bot::new()
    }
}

/// Whether the selected sensor's contacts report an obstacle: an obstacle is
/// a contact with an immovable body; movable bodies do not count.
pub fn has_obstacle_contact(contacts: &Vec<BodyKind>) -> (r: bool)
    ensures
        r == exists|i: int| 0 <= i < contacts@.len() && contacts@[i] is Fixed,
{
    let n = contacts.len();
    let mut i: usize = 0;
    while i < n
        invariant
            0 <= i <= n,
            n == contacts@.len(),
            forall|j: int| 0 <= j < i ==> !(contacts@[j] is Fixed),
        decreases n - i,
    {
        if matches!(contacts[i], BodyKind::Fixed) {
            return true;
        }
        i = i + 1;
    }
    false
}

/// Deferred health updates are last-write-wins: queueing a second value
/// before the next tick commits leaves no trace of the first.
pub proof fn lemma_pending_last_write_wins(b: Bot, v1: i64, v2: i64)
    ensures
        with_pending(with_pending(b, v1), v2) == with_pending(b, v2),
        after_commit(with_pending(with_pending(b, v1), v2)) == after_commit(
            with_pending(b, v2),
        ),
{
}

/// Committed health is never observably negative and never exceeds the
/// ceiling, whatever value was queued.
pub proof fn lemma_commit_health_bounds(b: Bot)
    requires
        b.wf(),
    ensures
        0 <= after_commit(b).health <= b.max_health,
{
}

} // verus!
