//! The bot state machine: reaction trigger, deferred health updates, the
//! defeat and respawn loop, chase steering, contact damage and the target
//! marker.

use nysodi::bot::has_obstacle_contact;
use nysodi::bot::BodyKind;
use nysodi::bot::SensorSide;
use nysodi::bot::ANIM_ATTACK;
use nysodi::bot::ANIM_DEFEAT;
use nysodi::bot::ANIM_IDLE;
use nysodi::bot::ANIM_WALK;
use nysodi::Bot;
use nysodi::Game;
use nysodi::Player;
use nysodi::ReactionState;
use nysodi::Vec2;

const ORIGIN: Vec2 = Vec2 { x: 0, y: 0 };
const FAR: Vec2 = Vec2 { x: 9000, y: 9000 };

#[test]
fn test_bot_trigger_reaction() {
    let mut bot = Bot::default();
    // Initially no reaction is pending
    assert_eq!(bot.reaction_timer, 0);
    // Trigger a reaction
    bot.trigger_reaction();
    // Should reset timer to exactly 3.0 seconds
    assert_eq!(bot.reaction_timer, 3000);
    // State must be one of the two variants
    match bot.reaction_state {
        ReactionState::Motionless | ReactionState::RunningAway => {}
    }
}

#[test]
fn trigger_reaction_reaches_both_states() {
    // The coin is fair, so over many trials both behaviours must occur, and
    // every trial sets the countdown to exactly 3.0 time-units.
    let mut motionless = 0u32;
    let mut fleeing = 0u32;
    for _ in 0..200 {
        let mut bot = Bot::default();
        bot.trigger_reaction();
        assert_eq!(bot.reaction_timer, 3000);
        match bot.reaction_state {
            ReactionState::Motionless => motionless += 1,
            ReactionState::RunningAway => fleeing += 1,
        }
    }
    assert!(motionless > 0, "the coin never chose freezing");
    assert!(fleeing > 0, "the coin never chose fleeing");
}

#[test]
fn pending_update_is_last_write_wins() {
    let mut bot = Bot::default();
    let mut game = Game::default();
    let mut player = Player::default();
    bot.set_health(40);
    bot.set_health(70);
    assert_eq!(bot.pending_health_update, Some(70));
    bot.update(&mut game, &mut player, FAR, ORIGIN, 16);
    assert_eq!(bot.health, 70);
    assert_eq!(bot.pending_health_update, None);
}

#[test]
fn commit_clamps_health_into_observable_range() {
    let mut game = Game::default();
    let mut player = Player::default();

    let mut bot = Bot::default();
    bot.set_health(250);
    bot.update(&mut game, &mut player, FAR, ORIGIN, 16);
    assert_eq!(bot.health, 100);

    // A write below zero commits as zero and enters the defeated path.
    let mut bot = Bot::default();
    bot.set_health(-30);
    bot.update(&mut game, &mut player, FAR, ORIGIN, 16);
    assert_eq!(bot.health, 0);
    assert!(!bot.visible);
}

#[test]
fn defeat_and_respawn_loop() {
    let mut bot = Bot::default();
    let mut game = Game::default();
    let mut player = Player::default();

    // A scripted hit of -10: next tick commits health 90, no respawn.
    bot.set_health(bot.get_health() - 10);
    bot.update(&mut game, &mut player, FAR, ORIGIN, 16);
    assert_eq!(bot.health, 90);
    assert_eq!(bot.respawn_timer, None);
    assert_eq!(game.total_score, 0);
    assert_eq!(game.bot_kill_count, 0);
    assert!(bot.visible);

    // Four further hits of -20 wear it down to 10.
    for expected in [70, 50, 30, 10] {
        bot.set_health(bot.get_health() - 20);
        bot.update(&mut game, &mut player, FAR, ORIGIN, 16);
        assert_eq!(bot.health, expected);
        assert!(bot.visible);
    }

    // The fifth hit crosses zero: the kill is scored once and the entity
    // hides, with the respawn clock started.
    bot.set_health(bot.get_health() - 20);
    bot.update(&mut game, &mut player, FAR, ORIGIN, 16);
    assert_eq!(bot.health, 0);
    assert_eq!(bot.current_animation, ANIM_DEFEAT);
    assert!(!bot.visible);
    assert_eq!(bot.respawn_timer, Some(0));
    assert_eq!(game.total_score, 10);
    assert_eq!(game.bot_kill_count, 1);

    // 3.0 time-units of accumulated respawn time restore full health and
    // visibility, at a spot near the player inside the arena.
    bot.update(&mut game, &mut player, FAR, ORIGIN, 1000);
    assert_eq!(bot.respawn_timer, Some(1000));
    bot.update(&mut game, &mut player, FAR, ORIGIN, 1000);
    assert_eq!(bot.respawn_timer, Some(2000));
    let cmd = bot.update(&mut game, &mut player, FAR, ORIGIN, 1000);
    assert_eq!(bot.health, 100);
    assert_eq!(bot.respawn_timer, None);
    assert!(bot.visible);
    let spot = cmd.teleport.expect("respawn places the bot");
    assert!((-11000..=11000).contains(&spot.x));
    assert!((-4000..=17000).contains(&spot.y));
    assert!((spot.x - ORIGIN.x).abs() <= 5000);
    assert!((spot.y - ORIGIN.y).abs() <= 5000);
    // The kill was scored exactly once.
    assert_eq!(game.total_score, 10);
}

#[test]
fn chase_steering_and_animation() {
    let mut bot = Bot::default();
    let mut game = Game::default();
    let mut player = Player::default();

    // Far away: steer straight at the player at chase speed, walk clip.
    let bot_pos = Vec2 { x: 4000, y: 1000 };
    bot.update(&mut game, &mut player, bot_pos, ORIGIN, 16);
    assert_eq!(bot.direction, Vec2 { x: -4000, y: -1000 });
    assert_eq!(bot.speed, 1200);
    assert_eq!(bot.current_animation, ANIM_WALK);

    // Inside the near threshold: stop; close enough for the attack pose.
    let near = Vec2 { x: 1000, y: 0 };
    bot.update(&mut game, &mut player, near, ORIGIN, 0);
    assert_eq!(bot.direction, ORIGIN);
    assert_eq!(bot.speed, 0);
    assert_eq!(bot.current_animation, ANIM_ATTACK);

    // Hidden: steering is left untouched, and a bot at rest far from the
    // player shows the idle clip.
    bot.visible = false;
    bot.update(&mut game, &mut player, FAR, ORIGIN, 0);
    assert_eq!(bot.direction, ORIGIN);
    assert_eq!(bot.speed, 0);
    assert_eq!(bot.current_animation, ANIM_IDLE);
}

#[test]
fn contact_damage_wears_the_player_down() {
    let mut bot = Bot::default();
    let mut game = Game::default();
    let mut player = Player::default();
    let near = Vec2 { x: 1000, y: 0 };

    // Sustained contact for 0.75 time-units costs the player 20 health.
    bot.update(&mut game, &mut player, near, ORIGIN, 500);
    assert_eq!(player.health, 100);
    assert_eq!(bot.damage_timer, 500);
    bot.update(&mut game, &mut player, near, ORIGIN, 250);
    assert_eq!(player.health, 80);
    assert_eq!(bot.damage_timer, 0);

    // Leaving contact range resets the accumulator outright.
    bot.update(&mut game, &mut player, near, ORIGIN, 500);
    assert_eq!(bot.damage_timer, 500);
    bot.update(&mut game, &mut player, FAR, ORIGIN, 16);
    assert_eq!(bot.damage_timer, 0);
    assert_eq!(player.health, 80);
}

#[test]
fn contact_damage_flags_game_over_at_zero() {
    let mut bot = Bot::default();
    let mut game = Game::default();
    let mut player = Player::default();
    player.health = 20;
    let near = Vec2 { x: 1000, y: 0 };
    bot.update(&mut game, &mut player, near, ORIGIN, 750);
    assert_eq!(player.health, 0);
    assert!(player.game_over);
    // A defeated player takes no further contact damage.
    bot.update(&mut game, &mut player, near, ORIGIN, 750);
    assert_eq!(player.health, 0);
}

#[test]
fn reaction_gate_consumes_kills_and_cooldown() {
    let mut bot = Bot::default();
    let mut game = Game::default();
    let mut player = Player::default();

    // Build the cooldown without enough kills: nothing triggers.
    bot.update(&mut game, &mut player, FAR, ORIGIN, 10_000);
    assert_eq!(bot.reaction_timer, 0);
    assert_eq!(bot.reaction_cooldown, 10_000);

    // With six kills banked the next tick triggers a reaction.
    game.bot_kill_count = 6;
    bot.update(&mut game, &mut player, FAR, ORIGIN, 16);
    assert_eq!(bot.reaction_timer, 3000 - 16);
    assert_eq!(bot.reaction_cooldown, 0);
    assert_eq!(game.bot_kill_count, 0);
    match bot.reaction_state {
        ReactionState::Motionless => {
            assert_eq!(bot.speed, 0);
            assert_eq!(bot.direction, ORIGIN);
        }
        ReactionState::RunningAway => {
            assert_eq!(bot.speed, 2000);
            assert_eq!(bot.direction, Vec2 { x: FAR.x, y: FAR.y });
        }
    }
}

#[test]
fn attack_queues_damage_and_spawns_marker() {
    let mut bot = Bot::default();
    let player = Player::default();
    let near = Vec2 { x: 1500, y: 0 };

    let spawn = bot.attack(&player, near, ORIGIN);
    assert!(spawn);
    assert_eq!(bot.pending_health_update, Some(90));
    assert!(bot.marker_present);
    assert!(bot.marker_shown);
    assert_eq!(bot.marker_timer, Some(0));

    // A second press refreshes the existing marker instead of spawning.
    let spawn = bot.attack(&player, near, ORIGIN);
    assert!(!spawn);
    assert!(bot.marker_present);

    // Releasing the input removes the marker.
    let removed = bot.release_attack();
    assert!(removed);
    assert!(!bot.marker_present);
    assert!(!bot.marker_shown);
    assert_eq!(bot.marker_timer, None);
    assert!(!bot.release_attack());
}

#[test]
fn attack_out_of_reach_or_hidden_does_nothing() {
    let mut bot = Bot::default();
    let player = Player::default();

    let spawn = bot.attack(&player, Vec2 { x: 2100, y: 0 }, ORIGIN);
    assert!(!spawn);
    assert_eq!(bot.pending_health_update, None);
    assert!(!bot.marker_present);

    bot.visible = false;
    let spawn = bot.attack(&player, Vec2 { x: 1000, y: 0 }, ORIGIN);
    assert!(!spawn);
    assert_eq!(bot.pending_health_update, None);
}

#[test]
fn marker_auto_hides_after_delay() {
    let mut bot = Bot::default();
    let mut game = Game::default();
    let mut player = Player::default();
    let near = Vec2 { x: 1500, y: 0 };

    bot.attack(&player, near, ORIGIN);
    // The freshly queued hit commits on the next tick; the marker then
    // counts toward its auto-hide.
    bot.update(&mut game, &mut player, near, ORIGIN, 40);
    assert_eq!(bot.health, 90);
    assert!(bot.marker_shown);
    assert_eq!(bot.marker_timer, Some(40));
    bot.update(&mut game, &mut player, near, ORIGIN, 60);
    assert!(!bot.marker_shown);
    assert_eq!(bot.marker_timer, None);
    assert!(bot.marker_present);
}

#[test]
fn obstacle_sensing() {
    let bot = Bot::default();
    assert_eq!(bot.obstacle_sensor(), SensorSide::Front);
    let mut facing_left = Bot::default();
    facing_left.direction = Vec2 { x: -500, y: 0 };
    assert_eq!(facing_left.obstacle_sensor(), SensorSide::Back);

    assert!(!has_obstacle_contact(&vec![]));
    assert!(!has_obstacle_contact(&vec![BodyKind::Dynamic, BodyKind::Kinematic]));
    assert!(has_obstacle_contact(&vec![BodyKind::Dynamic, BodyKind::Fixed]));
}

#[test]
fn facing_and_health_bar() {
    let bot = Bot::default();
    assert_eq!(bot.facing_scale_x(0, 5000), -1);
    assert_eq!(bot.facing_scale_x(5000, 0), 1);
    assert_eq!(bot.facing_scale_x(0, 0), -1);

    let mut hurt = Bot::default();
    hurt.health = 25;
    assert_eq!(hurt.health_bar_width(100_000), 25_000);
    assert_eq!(bot.health_bar_width(100_000), 100_000);
}
