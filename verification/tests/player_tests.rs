//! The player controller: movement intent, key handling, the game-over
//! latch, the per-tick driver, and the bot-respawn scheduler.

use nysodi::Bot;
use nysodi::Game;
use nysodi::Player;
use nysodi::PlayerKey;
use nysodi::Vec2;

const ORIGIN: Vec2 = Vec2 { x: 0, y: 0 };

#[test]
fn movement_velocity_from_held_keys() {
    let mut player = Player::default();
    assert_eq!(player.movement_velocity(), ORIGIN);

    player.handle_key(PlayerKey::MoveLeft, true);
    assert_eq!(player.movement_velocity(), Vec2 { x: 3000, y: 0 });

    // Opposing keys cancel per axis.
    player.handle_key(PlayerKey::MoveRight, true);
    assert_eq!(player.movement_velocity(), ORIGIN);

    player.handle_key(PlayerKey::MoveLeft, false);
    assert_eq!(player.movement_velocity(), Vec2 { x: -3000, y: 0 });

    // Diagonal motion is expressible.
    player.handle_key(PlayerKey::MoveUp, true);
    assert_eq!(player.movement_velocity(), Vec2 { x: -3000, y: 3000 });

    player.handle_key(PlayerKey::MoveDown, true);
    assert_eq!(player.movement_velocity(), Vec2 { x: -3000, y: 0 });
}

#[test]
fn self_damage_floors_at_zero() {
    let mut player = Player::default();
    player.handle_key(PlayerKey::SelfDamage, true);
    assert_eq!(player.health, 80);
    player.health = 10;
    player.handle_key(PlayerKey::SelfDamage, true);
    assert_eq!(player.health, 0);
    // A release deals nothing.
    player.health = 50;
    player.handle_key(PlayerKey::SelfDamage, false);
    assert_eq!(player.health, 50);
}

#[test]
fn restart_only_after_game_over() {
    let mut player = Player::default();
    player.initial_position = Vec2 { x: 2000, y: 6000 };

    // Without the latch, restart does nothing.
    let cmd = player.handle_key(PlayerKey::Restart, true);
    assert!(cmd.teleport.is_none());

    player.health = 0;
    player.game_over = true;
    player.has_printed_game_over = true;
    let cmd = player.handle_key(PlayerKey::Restart, true);
    assert_eq!(cmd.teleport, Some(Vec2 { x: 1000, y: 2000 }));
    assert_eq!(player.health, 100);
    assert!(!player.game_over);
    assert!(!player.has_printed_game_over);
}

#[test]
fn quit_only_after_game_over() {
    let mut player = Player::default();
    let cmd = player.handle_key(PlayerKey::Quit, true);
    assert!(!cmd.quit);
    player.game_over = true;
    let cmd = player.handle_key(PlayerKey::Quit, true);
    assert!(cmd.quit);
    let cmd = player.handle_key(PlayerKey::Quit, false);
    assert!(!cmd.quit);
}

#[test]
fn game_over_latches_and_suppresses_the_tick() {
    let mut player = Player::default();
    player.health = 0;
    player.move_left = true;
    let mut bots: Vec<Bot> = vec![];
    let positions: Vec<Vec2> = vec![];

    // The tick that sees zero health only sets the latch.
    let cmd = player.update(ORIGIN, None, None, None, &mut bots, &positions, 16);
    assert!(player.game_over);
    assert!(player.has_printed_game_over);
    assert_eq!(cmd.velocity, ORIGIN);
    assert!(!cmd.spawn_hazards);

    // A latched tick changes nothing, whatever is held or nearby.
    let before_timer = player.bomb_timer;
    let cmd = player.update(ORIGIN, None, None, None, &mut bots, &positions, 40_000);
    assert_eq!(player.bomb_timer, before_timer);
    assert_eq!(cmd.velocity, ORIGIN);
    assert!(!cmd.spawn_hazards);
}

#[test]
fn update_moves_and_animates() {
    let mut player = Player::default();
    let mut bots: Vec<Bot> = vec![];
    let positions: Vec<Vec2> = vec![];
    player.handle_key(PlayerKey::MoveRight, true);
    let cmd = player.update(ORIGIN, None, None, None, &mut bots, &positions, 16);
    assert_eq!(cmd.velocity, Vec2 { x: -3000, y: 0 });
    assert_eq!(player.current_animation, 0);

    player.handle_key(PlayerKey::MoveRight, false);
    let cmd = player.update(ORIGIN, None, None, None, &mut bots, &positions, 16);
    assert_eq!(cmd.velocity, ORIGIN);
    assert_eq!(player.current_animation, 1);
}

#[test]
fn hazard_pair_spawns_every_period() {
    let mut player = Player::default();
    let mut bots: Vec<Bot> = vec![];
    let positions: Vec<Vec2> = vec![];
    let cmd = player.update(ORIGIN, None, None, None, &mut bots, &positions, 29_999);
    assert!(!cmd.spawn_hazards);
    assert_eq!(player.bomb_timer, 29_999);
    let cmd = player.update(ORIGIN, None, None, None, &mut bots, &positions, 1);
    assert!(cmd.spawn_hazards);
    assert_eq!(player.bomb_timer, 0);
}

#[test]
fn update_drives_pickup_and_hazards_together() {
    let mut player = Player::default();
    player.health = 40;
    let mut bots = vec![Bot::default()];
    let positions = vec![Vec2 { x: 2000, y: 0 }];

    // One tick: a pickup is offered, the touched bomb detonates, the
    // touched fire arms, and one whole time-unit of fire damage lands.
    let cmd = player.update(
        ORIGIN,
        None,
        Some(Vec2 { x: 500, y: 0 }),
        Some(Vec2 { x: 0, y: 500 }),
        &mut bots,
        &positions,
        1000,
    );
    assert!(cmd.spawn_heart_at.is_some());
    assert!(cmd.exploded);
    assert!(cmd.fire_activated);
    assert!(cmd.hide_fire);
    assert_eq!(cmd.fire_ticks, 1);
    // The bot 2.0 units from the blast takes the innermost tier, then the
    // fire tick recomputes from the same committed health.
    assert_eq!(bots[0].pending_health_update, Some(95));
    // The long frame also outlives the explosion display: the spent device
    // hides within the same tick.
    assert!(cmd.hide_bomb);
    assert_eq!(player.explosion_timer, None);
    assert_eq!(player.item_timer, Some(1000));
    assert_eq!(player.fire_timer, Some(7000));
}

#[test]
fn bot_spawn_scheduler_fires_every_period() {
    let mut game = Game::default();
    assert!(!game.update(9_999));
    assert_eq!(game.bot_spawn_timer, 9_999);
    assert!(game.update(1));
    assert_eq!(game.bot_spawn_timer, 0);
    assert!(!game.update(5_000));
    assert!(game.update(5_000));
}

#[test]
fn kill_accounting() {
    let mut game = Game::default();
    game.record_kill();
    game.record_kill();
    assert_eq!(game.total_score, 20);
    assert_eq!(game.bot_kill_count, 2);
    game.consume_kills();
    assert_eq!(game.bot_kill_count, 0);
    assert_eq!(game.total_score, 20);
}
