//! The player controller: held-key movement intent, health and the sticky
//! game-over latch, restart handling, and the per-tick driver of the hazard
//! system (explosive device, lingering hazard, restorative pickup).

use crate::arena::coord_ok;
use crate::arena::dist_sq;
use crate::arena::dist_sq_spec;
use crate::arena::in_arena;
use crate::arena::random_point_near;
use crate::arena::Vec2;
use crate::bot::Bot;
use crate::game::MAX_DT;
use crate::hazard::after_explosion;
use crate::hazard::after_fire_tick;
use crate::hazard::explosion_damage;
use crate::hazard::fire_tick_damage;
use crate::hazard::BOMB_PERIOD;
use crate::hazard::EXPLOSION_HIDE_DELAY;
use crate::hazard::FIRE_DURATION;
use crate::hazard::FIRE_TICK_PERIOD;
use crate::hazard::HEAL_AMOUNT;
use crate::hazard::ITEM_LIFETIME;
use crate::hazard::LOW_HEALTH_THRESHOLD;
use crate::hazard::PICKUP_RANGE_SQ;
use vstd::arithmetic::div_mod::lemma_fundamental_div_mod_converse;
use vstd::prelude::*;

verus! {

/// Health the player starts and respawns with.
pub const PLAYER_MAX_HEALTH: i64 = 100;

/// Speed, in milli-units per time-unit, given by one held movement key.
pub const MOVE_SPEED: i64 = 3000;

/// Health lost to the manual self-damage action.
pub const SELF_DAMAGE: i64 = 20;

/// Correction applied to the stored initial position on restart, x then y,
/// in milli-units.
pub const RESTART_OFFSET_X: i64 = -1000;
/// Correction applied to the stored initial position on restart, y part.
pub const RESTART_OFFSET_Y: i64 = -4000;

/// A key the player controller reacts to.
#[derive(Clone, Copy, Debug, PartialEq, Eq, Structural)]
pub enum PlayerKey {
    /// Move-left intent.
    MoveLeft,
    /// Move-right intent.
    MoveRight,
    /// Move-up intent.
    MoveUp,
    /// Move-down intent.
    MoveDown,
    /// Manual self-damage debug action.
    SelfDamage,
    /// Restart after game over.
    Restart,
    /// Quit after game over.
    Quit,
}

/// What the restorative-pickup step asks of the surrounding substrate.
#[derive(Clone, Copy, Debug)]
pub struct HeartCommands {
    /// Create a pickup entity here.
    pub spawn_at: Option<Vec2>,
    /// Hide the pickup entity (claimed or expired).
    pub hide_heart: bool,
}

/// What the explosive-device step asks of the surrounding substrate.
#[derive(Clone, Copy, Debug)]
pub struct BombCommands {
    /// The device detonated this tick.
    pub exploded: bool,
    /// Hide the spent device.
    pub hide_bomb: bool,
}

/// What the lingering-hazard step asks of the surrounding substrate.
#[derive(Clone, Copy, Debug)]
pub struct FireCommands {
    /// The hazard was touched and armed this tick.
    pub activated: bool,
    /// Hide the hazard entity.
    pub hide_fire: bool,
    /// Damage ticks dealt to every bot this frame.
    pub ticks: i64,
}

/// Everything one player tick asks of the surrounding substrate.
#[derive(Clone, Copy, Debug)]
pub struct PlayerCommands {
    /// Create a restorative pickup here.
    pub spawn_heart_at: Option<Vec2>,
    /// Hide the pickup entity.
    pub hide_heart: bool,
    /// Spawn a fresh explosive-and-lingering hazard pair.
    pub spawn_hazards: bool,
    /// The explosive detonated this tick.
    pub exploded: bool,
    /// Hide the spent explosive.
    pub hide_bomb: bool,
    /// The lingering hazard was armed this tick.
    pub fire_activated: bool,
    /// Hide the lingering-hazard entity.
    pub hide_fire: bool,
    /// Lingering-hazard damage ticks dealt this frame.
    pub fire_ticks: i64,
    /// Velocity to apply to the player body, milli-units per time-unit.
    pub velocity: Vec2,
}

/// The command set of a tick that asks nothing of the substrate.
pub open spec fn idle_commands() -> PlayerCommands {
    PlayerCommands {
        spawn_heart_at: None,
        hide_heart: false,
        spawn_hazards: false,
        exploded: false,
        hide_bomb: false,
        fire_activated: false,
        hide_fire: false,
        fire_ticks: 0,
        velocity: Vec2 { x: 0, y: 0 },
    }
}

/// What a key event asks of the surrounding substrate.
#[derive(Clone, Copy, Debug)]
pub struct KeyCommands {
    /// Move the player entity here (restart).
    pub teleport: Option<Vec2>,
    /// End the session (quit after game over).
    pub quit: bool,
}

/// The player controller's state.
pub struct Player {
    /// Held-key intent: left.
    pub move_left: bool,
    /// Held-key intent: right.
    pub move_right: bool,
    /// Held-key intent: up.
    pub move_up: bool,
    /// Held-key intent: down.
    pub move_down: bool,
    /// Sticky defeat latch; cleared only by an explicit restart.
    pub game_over: bool,
    /// Current health, in `[0, max_health]`.
    pub health: i64,
    /// Health ceiling.
    pub max_health: i64,
    /// Respawn anchor used by restart.
    pub initial_position: Vec2,
    /// Lifetime count-up of the active restorative pickup, `None` when no
    /// pickup is out.
    pub item_timer: Option<i64>,
    /// Count-up toward the next hazard-pair spawn.
    pub bomb_timer: i64,
    /// Countdown from detonation until the spent explosive is hidden; `None`
    /// when no explosion is in progress.
    pub explosion_timer: Option<i64>,
    /// Remaining duration of the armed lingering hazard; `None` when inert.
    pub fire_timer: Option<i64>,
    /// Fractional-time carry of the lingering hazard's periodic damage.
    pub fire_tick_accum: i64,
    /// Whether the defeat message has been issued.
    pub has_printed_game_over: bool,
    /// Index of the animation clip to show.
    pub current_animation: u32,
}

impl Player {
    /// Well-formedness: health within bounds, every timer within the range
    /// its period allows.
    pub open spec fn wf(self) -> bool {
        &&& 0 < self.max_health <= 1_000_000
        &&& 0 <= self.health <= self.max_health
        &&& coord_ok(self.initial_position)
        &&& match self.item_timer {
            Some(t) => 0 <= t < crate::hazard::ITEM_LIFETIME,
            None => true,
        }
        &&& 0 <= self.bomb_timer < crate::hazard::BOMB_PERIOD
        &&& match self.explosion_timer {
            Some(t) => 0 < t <= crate::hazard::EXPLOSION_HIDE_DELAY,
            None => true,
        }
        &&& match self.fire_timer {
            Some(t) => 0 < t <= crate::hazard::FIRE_DURATION,
            None => true,
        }
        &&& 0 <= self.fire_tick_accum < crate::hazard::FIRE_TICK_PERIOD
    }

    /// The state at session start: full health, no intent held, no hazard
    /// or pickup active, the latch clear.
    pub open spec fn initial() -> Player {
        Player {
            move_left: false,
            move_right: false,
            move_up: false,
            move_down: false,
            game_over: false,
            health: PLAYER_MAX_HEALTH,
            max_health: PLAYER_MAX_HEALTH,
            initial_position: Vec2 { x: 0, y: 0 },
            item_timer: None,
            bomb_timer: 0,
            explosion_timer: None,
            fire_timer: None,
            fire_tick_accum: 0,
            has_printed_game_over: false,
            current_animation: 0,
        }
    }

    /// A player in its session-start state.
    pub fn new() -> (p: Player)
        ensures
            p.wf(),
            p == Player::initial(),
    {
        Player {
            move_left: false,
            move_right: false,
            move_up: false,
            move_down: false,
            game_over: false,
            health: PLAYER_MAX_HEALTH,
            max_health: PLAYER_MAX_HEALTH,
            initial_position: Vec2 { x: 0, y: 0 },
            item_timer: None,
            bomb_timer: 0,
            explosion_timer: None,
            fire_timer: None,
            fire_tick_accum: 0,
            has_printed_game_over: false,
            current_animation: 0,
        }
    }

    /// The player's health ratio scaled to a bar of width `scale`: the
    /// filled width of the health indicator.
    pub fn health_bar_width(&self, scale: i64) -> (w: i64)
        requires
            self.wf(),
            0 <= scale <= 1_000_000,
        ensures
            w == self.health * scale / (self.max_health as int),
            0 <= w <= scale,
    {
        proof {
            assert(0 <= self.health * scale <= 1_000_000 * 1_000_000) by (nonlinear_arith)
                requires
                    0 <= self.health <= 1_000_000,
                    0 <= scale <= 1_000_000,
            ;
            assert(self.health * scale / (self.max_health as int) <= scale) by (nonlinear_arith)
                requires
                    0 <= self.health <= self.max_health,
                    0 < self.max_health,
                    0 <= scale,
            ;
            assert(0 <= self.health * scale / (self.max_health as int)) by (nonlinear_arith)
                requires
                    0 <= self.health * scale,
                    0 < self.max_health,
            ;
        }
        self.health * scale / self.max_health
    }

    /// The velocity, in milli-units per time-unit, that the held movement
    /// keys ask for: opposing keys cancel to zero, a single key gives the
    /// fixed per-axis speed.
    pub fn movement_velocity(&self) -> (v: Vec2)
        ensures
            v.x == if self.move_left && !self.move_right {
                MOVE_SPEED as int
            } else if self.move_right && !self.move_left {
                -MOVE_SPEED as int
            } else {
                0
            },
            v.y == if self.move_up && !self.move_down {
                MOVE_SPEED as int
            } else if self.move_down && !self.move_up {
                -MOVE_SPEED as int
            } else {
                0
            },
    {
        let x: i64 = if self.move_left && !self.move_right {
            MOVE_SPEED
        } else if self.move_right && !self.move_left {
            -MOVE_SPEED
        } else {
            0
        };
        let y: i64 = if self.move_up && !self.move_down {
            MOVE_SPEED
        } else if self.move_down && !self.move_up {
            -MOVE_SPEED
        } else {
            0
        };
        Vec2 { x, y }
    }

    /// React to one key press or release: movement intent follows the key
    /// state; the self-damage action costs `SELF_DAMAGE` health, floored at
    /// zero; restart and quit are honoured only while the game-over latch is
    /// set.  Restart restores full health, clears the latch and teleports to
    /// the corrected initial position.
    pub fn handle_key(&mut self, key: PlayerKey, pressed: bool) -> (cmd: KeyCommands)
        requires
            old(self).wf(),
        ensures
            final(self).wf(),
            final(self).max_health == old(self).max_health,
            final(self).move_left == if key is MoveLeft {
                pressed
            } else {
                old(self).move_left
            },
            final(self).move_right == if key is MoveRight {
                pressed
            } else {
                old(self).move_right
            },
            final(self).move_up == if key is MoveUp {
                pressed
            } else {
                old(self).move_up
            },
            final(self).move_down == if key is MoveDown {
                pressed
            } else {
                old(self).move_down
            },
            final(self).health == if key is SelfDamage && pressed {
                if old(self).health >= SELF_DAMAGE {
                    old(self).health - SELF_DAMAGE
                } else {
                    0
                }
            } else if key is Restart && pressed && old(self).game_over {
                old(self).max_health as int
            } else {
                old(self).health as int
            },
            final(self).game_over == (old(self).game_over && !(key is Restart && pressed)),
            final(self).has_printed_game_over == (old(self).has_printed_game_over && !(key
                is Restart && pressed && old(self).game_over)),
            cmd.teleport == if key is Restart && pressed && old(self).game_over {
                Some(
                    Vec2 {
                        x: (old(self).initial_position.x + RESTART_OFFSET_X) as i64,
                        y: (old(self).initial_position.y + RESTART_OFFSET_Y) as i64,
                    },
                )
            } else {
                Option::<Vec2>::None
            },
            cmd.quit == (key is Quit && pressed && old(self).game_over),
            final(self).item_timer == old(self).item_timer,
            final(self).bomb_timer == old(self).bomb_timer,
            final(self).explosion_timer == old(self).explosion_timer,
            final(self).fire_timer == old(self).fire_timer,
            final(self).fire_tick_accum == old(self).fire_tick_accum,
            final(self).initial_position == old(self).initial_position,
            final(self).current_animation == old(self).current_animation,
    {
        let mut cmd = KeyCommands { teleport: None, quit: false };
        match key {
            PlayerKey::MoveLeft => {
                self.move_left = pressed;
            },
            PlayerKey::MoveRight => {
                self.move_right = pressed;
            },
            PlayerKey::MoveUp => {
                self.move_up = pressed;
            },
            PlayerKey::MoveDown => {
                self.move_down = pressed;
            },
            PlayerKey::SelfDamage => {
                if pressed {
                    self.health = if self.health >= SELF_DAMAGE {
                        self.health - SELF_DAMAGE
                    } else {
                        0
                    };
                }
            },
            PlayerKey::Restart => {
                if pressed && self.game_over {
                    self.health = self.max_health;
                    self.game_over = false;
                    self.has_printed_game_over = false;
                    cmd.teleport = Some(
                        Vec2 {
                            x: self.initial_position.x + RESTART_OFFSET_X,
                            y: self.initial_position.y + RESTART_OFFSET_Y,
                        },
                    );
                }
            },
            PlayerKey::Quit => {
                if pressed && self.game_over {
                    cmd.quit = true;
                }
            },
        }
        cmd
    }

    /// The restorative-pickup step.  A shown pickup within touching range is
    /// claimed: it hides and heals by `HEAL_AMOUNT`, capped at the ceiling.
    /// With no pickup out, one is offered at a random point near the player
    /// once health drops below the threshold.  An unclaimed pickup expires
    /// after its lifetime.
    pub fn heart_step(&mut self, player_pos: Vec2, heart_pos: Option<Vec2>, dt: i64) -> (cmd:
        HeartCommands)
        requires
            old(self).wf(),
            coord_ok(player_pos),
            match heart_pos {
                Some(hp) => coord_ok(hp),
                None => true,
            },
            0 <= dt <= MAX_DT,
        ensures
            final(self).wf(),
            *final(self) == (Player {
                health: final(self).health,
                item_timer: final(self).item_timer,
                ..*old(self)
            }),
            ({
                let picked = match heart_pos {
                    Some(hp) => dist_sq_spec(player_pos, hp) < PICKUP_RANGE_SQ,
                    None => false,
                };
                let spawning = heart_pos is None && old(self).health < LOW_HEALTH_THRESHOLD
                    && old(self).item_timer is None;
                let t1: Option<int> = if picked {
                    None
                } else if spawning {
                    Some(0int)
                } else {
                    match old(self).item_timer {
                        Some(t) => Some(t as int),
                        None => None,
                    }
                };
                let expired = match t1 {
                    Some(t) => t + dt >= ITEM_LIFETIME,
                    None => false,
                };
                &&& final(self).health == if picked {
                    if old(self).health + HEAL_AMOUNT <= old(self).max_health {
                        old(self).health + HEAL_AMOUNT
                    } else {
                        old(self).max_health as int
                    }
                } else {
                    old(self).health as int
                }
                &&& final(self).item_timer == (match t1 {
                    Some(t) => if t + dt >= ITEM_LIFETIME {
                        Option::<i64>::None
                    } else {
                        Some((t + dt) as i64)
                    },
                    None => Option::<i64>::None,
                })
                &&& cmd.hide_heart == (picked || expired)
                &&& (spawning <==> cmd.spawn_at is Some)
                &&& match cmd.spawn_at {
                    Some(p) => in_arena(p),
                    None => true,
                }
            }),
    {
        let mut cmd = HeartCommands { spawn_at: None, hide_heart: false };
        match heart_pos {
            Some(hp) => {
                if dist_sq(player_pos, hp) < PICKUP_RANGE_SQ {
                    cmd.hide_heart = true;
                    self.health = if self.health + HEAL_AMOUNT <= self.max_health {
                        self.health + HEAL_AMOUNT
                    } else {
                        self.max_health
                    };
                    self.item_timer = None;
                }
            },
            None => {
                if self.health < LOW_HEALTH_THRESHOLD && self.item_timer.is_none() {
                    cmd.spawn_at = Some(random_point_near(player_pos));
                    self.item_timer = Some(0);
                }
            },
        }
        match self.item_timer {
            Some(t) => {
                if t + dt >= ITEM_LIFETIME {
                    cmd.hide_heart = true;
                    self.item_timer = None;
                } else {
                    self.item_timer = Some(t + dt);
                }
            },
            None => {},
        }
        cmd
    }

    /// The periodic hazard spawner: counts toward the spawn period and asks
    /// for one explosive-and-lingering pair when it elapses.
    pub fn hazard_spawn_step(&mut self, dt: i64) -> (spawn: bool)
        requires
            old(self).wf(),
            0 <= dt <= MAX_DT,
        ensures
            final(self).wf(),
            *final(self) == (Player { bomb_timer: final(self).bomb_timer, ..*old(self) }),
            spawn == (old(self).bomb_timer + dt >= BOMB_PERIOD),
            final(self).bomb_timer == if spawn {
                0int
            } else {
                old(self).bomb_timer + dt
            },
    {
        let t = self.bomb_timer + dt;
        if t >= BOMB_PERIOD {
            self.bomb_timer = 0;
            true
        } else {
            self.bomb_timer = t;
            false
        }
    }

    /// The explosive-device step.  An armed device touched by the player
    /// detonates exactly once, gated by the explosion-in-progress timer:
    /// every bot within the outer radius gets the tier damage for its
    /// distance queued on its deferred-update slot.  The spent device hides
    /// once the timer runs out.
    pub fn bomb_step(
        &mut self,
        player_pos: Vec2,
        bomb_pos: Option<Vec2>,
        bots: &mut Vec<Bot>,
        bot_positions: &Vec<Vec2>,
        dt: i64,
    ) -> (cmd: BombCommands)
        requires
            old(self).wf(),
            coord_ok(player_pos),
            match bomb_pos {
                Some(bp) => coord_ok(bp),
                None => true,
            },
            old(bots)@.len() == bot_positions@.len(),
            forall|i: int| 0 <= i < bot_positions@.len() ==> coord_ok(#[trigger] bot_positions@[i]),
            0 <= dt <= MAX_DT,
        ensures
            final(self).wf(),
            *final(self) == (Player {
                explosion_timer: final(self).explosion_timer,
                ..*old(self)
            }),
            final(bots)@.len() == old(bots)@.len(),
            ({
                let detonates = match bomb_pos {
                    Some(bp) => old(self).explosion_timer is None && dist_sq_spec(player_pos, bp)
                        < PICKUP_RANGE_SQ,
                    None => false,
                };
                let t0: Option<int> = if detonates {
                    Some(EXPLOSION_HIDE_DELAY as int)
                } else {
                    match old(self).explosion_timer {
                        Some(t) => Some(t as int),
                        None => None,
                    }
                };
                &&& cmd.exploded == detonates
                &&& (detonates ==> forall|i: int|
                    0 <= i < final(bots)@.len() ==> final(bots)@[i] == after_explosion(
                        old(bots)@[i],
                        dist_sq_spec(
                            bot_positions@[i],
                            match bomb_pos {
                                Some(bp) => bp,
                                None => player_pos,
                            },
                        ),
                    ))
                &&& (!detonates ==> final(bots)@ == old(bots)@)
                &&& match bomb_pos {
                    Some(bp) => {
                        match t0 {
                            Some(t) => if t - dt <= 0 {
                                &&& cmd.hide_bomb
                                &&& final(self).explosion_timer is None
                            } else {
                                &&& !cmd.hide_bomb
                                &&& final(self).explosion_timer == Some((t - dt) as i64)
                            },
                            None => !cmd.hide_bomb && final(self).explosion_timer is None,
                        }
                    },
                    None => !cmd.hide_bomb && final(self).explosion_timer == old(
                        self,
                    ).explosion_timer,
                }
            }),
    {
        let mut cmd = BombCommands { exploded: false, hide_bomb: false };
        match bomb_pos {
            Some(bp) => {
                if self.explosion_timer.is_none() && dist_sq(player_pos, bp) < PICKUP_RANGE_SQ {
                    explosion_damage(bots, bot_positions, bp);
                    self.explosion_timer = Some(EXPLOSION_HIDE_DELAY);
                    cmd.exploded = true;
                }
                match self.explosion_timer {
                    Some(t) => {
                        if t - dt <= 0 {
                            cmd.hide_bomb = true;
                            self.explosion_timer = None;
                        } else {
                            self.explosion_timer = Some(t - dt);
                        }
                    },
                    None => {},
                }
            },
            None => {},
        }
        cmd
    }

    /// The lingering-hazard step.  Touching the inert hazard arms it for the
    /// fixed duration and hides it.  While armed it deals its tick damage to
    /// every bot in the scene, once per whole elapsed time-unit, through a
    /// carry accumulator that never double-counts fractional time.
    pub fn fire_step(
        &mut self,
        player_pos: Vec2,
        fire_pos: Option<Vec2>,
        bots: &mut Vec<Bot>,
        dt: i64,
    ) -> (cmd: FireCommands)
        requires
            old(self).wf(),
            coord_ok(player_pos),
            match fire_pos {
                Some(fp) => coord_ok(fp),
                None => true,
            },
            0 <= dt <= MAX_DT,
        ensures
            final(self).wf(),
            *final(self) == (Player {
                fire_timer: final(self).fire_timer,
                fire_tick_accum: final(self).fire_tick_accum,
                ..*old(self)
            }),
            final(bots)@.len() == old(bots)@.len(),
            ({
                let act = match fire_pos {
                    Some(fp) => dist_sq_spec(player_pos, fp) < PICKUP_RANGE_SQ,
                    None => false,
                };
                let t0: Option<int> = if act {
                    Some(FIRE_DURATION as int)
                } else {
                    match old(self).fire_timer {
                        Some(t) => Some(t as int),
                        None => None,
                    }
                };
                let a0 = if act {
                    0int
                } else {
                    old(self).fire_tick_accum as int
                };
                &&& cmd.activated == act
                &&& cmd.hide_fire == act
                &&& match t0 {
                    None => {
                        &&& cmd.ticks == 0
                        &&& final(self).fire_timer is None
                        &&& final(self).fire_tick_accum == a0
                        &&& final(bots)@ == old(bots)@
                    },
                    Some(t) => {
                        &&& cmd.ticks == (a0 + dt) / (FIRE_TICK_PERIOD as int)
                        &&& final(self).fire_tick_accum == (a0 + dt) % (FIRE_TICK_PERIOD as int)
                        &&& final(self).fire_timer == if t - dt <= 0 {
                            Option::<i64>::None
                        } else {
                            Some((t - dt) as i64)
                        }
                        &&& (cmd.ticks == 0 ==> final(bots)@ == old(bots)@)
                        &&& (cmd.ticks > 0 ==> forall|i: int|
                            0 <= i < final(bots)@.len() ==> final(bots)@[i] == after_fire_tick(
                                old(bots)@[i],
                            ))
                    },
                }
            }),
    {
        let mut cmd = FireCommands { activated: false, hide_fire: false, ticks: 0 };
        match fire_pos {
            Some(fp) => {
                if dist_sq(player_pos, fp) < PICKUP_RANGE_SQ {
                    cmd.activated = true;
                    cmd.hide_fire = true;
                    self.fire_timer = Some(FIRE_DURATION);
                    self.fire_tick_accum = 0;
                }
            },
            None => {},
        }
        match self.fire_timer {
            Some(t) => {
                let ghost sum = self.fire_tick_accum + dt;
                let mut acc: i64 = self.fire_tick_accum + dt;
                let mut fired: i64 = 0;
                while acc >= FIRE_TICK_PERIOD
                    invariant
                        0 <= sum <= FIRE_TICK_PERIOD + MAX_DT,
                        0 <= acc,
                        0 <= fired,
                        acc + FIRE_TICK_PERIOD * fired == sum,
                        bots@.len() == old(bots)@.len(),
                        fired == 0 ==> bots@ == old(bots)@,
                        fired > 0 ==> forall|i: int|
                            0 <= i < bots@.len() ==> bots@[i] == after_fire_tick(old(bots)@[i]),
                    decreases acc,
                {
                    acc = acc - FIRE_TICK_PERIOD;
                    fired = fired + 1;
                    fire_tick_damage(bots);
                }
                proof {
                    lemma_fundamental_div_mod_converse(
                        sum as int,
                        FIRE_TICK_PERIOD as int,
                        fired as int,
                        acc as int,
                    );
                }
                self.fire_tick_accum = acc;
                cmd.ticks = fired;
                if t - dt <= 0 {
                    self.fire_timer = None;
                } else {
                    self.fire_timer = Some(t - dt);
                }
            },
            None => {},
        }
        cmd
    }

    /// One tick of the player controller.  A tick with zero health sets the
    /// sticky game-over latch and does nothing else; a tick under the latch
    /// does nothing at all.  Otherwise the restorative pickup, the periodic
    /// hazard spawner, the explosive device and the lingering hazard run in
    /// that order, then the held-key movement velocity and the animation
    /// selection.
    pub fn update(
        &mut self,
        player_pos: Vec2,
        heart_pos: Option<Vec2>,
        bomb_pos: Option<Vec2>,
        fire_pos: Option<Vec2>,
        bots: &mut Vec<Bot>,
        bot_positions: &Vec<Vec2>,
        dt: i64,
    ) -> (cmd: PlayerCommands)
        requires
            old(self).wf(),
            coord_ok(player_pos),
            match heart_pos {
                Some(p) => coord_ok(p),
                None => true,
            },
            match bomb_pos {
                Some(p) => coord_ok(p),
                None => true,
            },
            match fire_pos {
                Some(p) => coord_ok(p),
                None => true,
            },
            old(bots)@.len() == bot_positions@.len(),
            forall|i: int| 0 <= i < bot_positions@.len() ==> coord_ok(#[trigger] bot_positions@[i]),
            0 <= dt <= MAX_DT,
        ensures
            final(self).wf(),
            final(self).max_health == old(self).max_health,
            final(bots)@.len() == old(bots)@.len(),
            // Defeat latch: a tick at zero health only latches game over; a
            // latched tick changes nothing.
            (old(self).health == 0 && !old(self).has_printed_game_over) ==> (*final(self)
                == (Player { game_over: true, has_printed_game_over: true, ..*old(self) })
                && final(bots)@ == old(bots)@ && cmd == idle_commands()),
            (!(old(self).health == 0 && !old(self).has_printed_game_over) && old(self).game_over)
                ==> (*final(self) == *old(self) && final(bots)@ == old(bots)@ && cmd
                == idle_commands()),
            // Active tick: the four sub-systems behave exactly as their own
            // steps specify, on disjoint parts of the state, and the
            // movement velocity and animation follow the held keys.
            ({
                let active = !(old(self).health == 0 && !old(self).has_printed_game_over) && !old(
                    self,
                ).game_over;
                let picked = match heart_pos {
                    Some(hp) => dist_sq_spec(player_pos, hp) < PICKUP_RANGE_SQ,
                    None => false,
                };
                let spawning = heart_pos is None && old(self).health < LOW_HEALTH_THRESHOLD
                    && old(self).item_timer is None;
                let t1: Option<int> = if picked {
                    None
                } else if spawning {
                    Some(0int)
                } else {
                    match old(self).item_timer {
                        Some(t) => Some(t as int),
                        None => None,
                    }
                };
                let expired = match t1 {
                    Some(t) => t + dt >= ITEM_LIFETIME,
                    None => false,
                };
                let detonates = match bomb_pos {
                    Some(bp) => old(self).explosion_timer is None && dist_sq_spec(player_pos, bp)
                        < PICKUP_RANGE_SQ,
                    None => false,
                };
                let et0: Option<int> = if detonates {
                    Some(EXPLOSION_HIDE_DELAY as int)
                } else {
                    match old(self).explosion_timer {
                        Some(t) => Some(t as int),
                        None => None,
                    }
                };
                let act = match fire_pos {
                    Some(fp) => dist_sq_spec(player_pos, fp) < PICKUP_RANGE_SQ,
                    None => false,
                };
                let ft0: Option<int> = if act {
                    Some(FIRE_DURATION as int)
                } else {
                    match old(self).fire_timer {
                        Some(t) => Some(t as int),
                        None => None,
                    }
                };
                let a0 = if act {
                    0int
                } else {
                    old(self).fire_tick_accum as int
                };
                active ==> {
                    &&& final(self).health == if picked {
                        if old(self).health + HEAL_AMOUNT <= old(self).max_health {
                            old(self).health + HEAL_AMOUNT
                        } else {
                            old(self).max_health as int
                        }
                    } else {
                        old(self).health as int
                    }
                    &&& final(self).item_timer == (match t1 {
                        Some(t) => if t + dt >= ITEM_LIFETIME {
                            Option::<i64>::None
                        } else {
                            Some((t + dt) as i64)
                        },
                        None => Option::<i64>::None,
                    })
                    &&& cmd.hide_heart == (picked || expired)
                    &&& (spawning <==> cmd.spawn_heart_at is Some)
                    &&& match cmd.spawn_heart_at {
                        Some(p) => in_arena(p),
                        None => true,
                    }
                    &&& cmd.spawn_hazards == (old(self).bomb_timer + dt >= BOMB_PERIOD)
                    &&& final(self).bomb_timer == if cmd.spawn_hazards {
                        0int
                    } else {
                        old(self).bomb_timer + dt
                    }
                    &&& cmd.exploded == detonates
                    &&& match bomb_pos {
                        Some(bp) => {
                            match et0 {
                                Some(t) => if t - dt <= 0 {
                                    cmd.hide_bomb && final(self).explosion_timer is None
                                } else {
                                    !cmd.hide_bomb && final(self).explosion_timer == Some(
                                        (t - dt) as i64,
                                    )
                                },
                                None => !cmd.hide_bomb && final(self).explosion_timer is None,
                            }
                        },
                        None => !cmd.hide_bomb && final(self).explosion_timer == old(
                            self,
                        ).explosion_timer,
                    }
                    &&& cmd.fire_activated == act
                    &&& cmd.hide_fire == act
                    &&& match ft0 {
                        None => {
                            &&& cmd.fire_ticks == 0
                            &&& final(self).fire_timer is None
                            &&& final(self).fire_tick_accum == a0
                        },
                        Some(t) => {
                            &&& cmd.fire_ticks == (a0 + dt) / (FIRE_TICK_PERIOD as int)
                            &&& final(self).fire_tick_accum == (a0 + dt) % (
                            FIRE_TICK_PERIOD as int)
                            &&& final(self).fire_timer == if t - dt <= 0 {
                                Option::<i64>::None
                            } else {
                                Some((t - dt) as i64)
                            }
                        },
                    }
                    // Bots pass first through the detonation, then through
                    // this frame's lingering-hazard ticks.
                    &&& forall|i: int|
                        0 <= i < final(bots)@.len() ==> final(bots)@[i] == ({
                            let mid = if detonates {
                                after_explosion(
                                    old(bots)@[i],
                                    dist_sq_spec(
                                        bot_positions@[i],
                                        match bomb_pos {
                                            Some(bp) => bp,
                                            None => player_pos,
                                        },
                                    ),
                                )
                            } else {
                                old(bots)@[i]
                            };
                            let fire_ticks = match ft0 {
                                None => 0int,
                                Some(t) => (a0 + dt) / (FIRE_TICK_PERIOD as int),
                            };
                            if fire_ticks > 0 {
                                after_fire_tick(mid)
                            } else {
                                mid
                            }
                        })
                    &&& cmd.velocity.x == if old(self).move_left && !old(self).move_right {
                        MOVE_SPEED as int
                    } else if old(self).move_right && !old(self).move_left {
                        -MOVE_SPEED as int
                    } else {
                        0
                    }
                    &&& cmd.velocity.y == if old(self).move_up && !old(self).move_down {
                        MOVE_SPEED as int
                    } else if old(self).move_down && !old(self).move_up {
                        -MOVE_SPEED as int
                    } else {
                        0
                    }
                    &&& final(self).current_animation == if (old(self).move_left != old(
                        self,
                    ).move_right) || (old(self).move_up != old(self).move_down) {
                        0int
                    } else {
                        1int
                    }
                    &&& final(self).game_over == old(self).game_over
                    &&& final(self).has_printed_game_over == old(self).has_printed_game_over
                    &&& final(self).move_left == old(self).move_left
                    &&& final(self).move_right == old(self).move_right
                    &&& final(self).move_up == old(self).move_up
                    &&& final(self).move_down == old(self).move_down
                    &&& final(self).initial_position == old(self).initial_position
                }
            }),
    {
        let mut cmd = PlayerCommands {
            spawn_heart_at: None,
            hide_heart: false,
            spawn_hazards: false,
            exploded: false,
            hide_bomb: false,
            fire_activated: false,
            hide_fire: false,
            fire_ticks: 0,
            velocity: Vec2 { x: 0, y: 0 },
        };
        // Defeat latch: set once when health reaches zero, then suppress
        // every per-tick system until an explicit restart.
        if self.health == 0 && !self.has_printed_game_over {
            self.game_over = true;
            self.has_printed_game_over = true;
            return cmd;
        }
        if self.game_over {
            return cmd;
        }
        let hc = self.heart_step(player_pos, heart_pos, dt);
        cmd.spawn_heart_at = hc.spawn_at;
        cmd.hide_heart = hc.hide_heart;
        cmd.spawn_hazards = self.hazard_spawn_step(dt);
        let bc = self.bomb_step(player_pos, bomb_pos, bots, bot_positions, dt);
        cmd.exploded = bc.exploded;
        cmd.hide_bomb = bc.hide_bomb;
        let fc = self.fire_step(player_pos, fire_pos, bots, dt);
        cmd.fire_activated = fc.activated;
        cmd.hide_fire = fc.hide_fire;
        cmd.fire_ticks = fc.ticks;
        cmd.velocity = self.movement_velocity();
        self.current_animation = self.select_animation();
        cmd
    }

    /// The animation clip the controller shows: the moving clip while any
    /// axis is in motion, the idle clip otherwise.
    pub fn select_animation(&self) -> (a: u32)
        ensures
            a == if (self.move_left != self.move_right) || (self.move_up != self.move_down) {
                0u32
            } else {
                1u32
            },
    {
        let v = self.movement_velocity();
        if v.x != 0 || v.y != 0 {
            0
        } else {
            1
        }
    }
}

impl Default for Player {
    /// A player in its session-start state.
    fn default() -> (p: Player)
        ensures
            p.wf(),
            p == Player::initial(),
    {
        Player::new()
    }
}

} // verus!
