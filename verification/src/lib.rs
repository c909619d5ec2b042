//! Scripted gameplay behaviours for a 2D top-down action game: the enemy bot
//! state machine (chase, reaction, defeat and respawn), the hazard system
//! (explosive device, lingering hazard, restorative pickup), the player
//! controller and the process-wide game state.
//!
//! All quantities are fixed-point integers: positions, speeds and timers are
//! kept in thousandths of a world unit or time unit ("milli" values), health
//! and score in whole points.  The rendering, physics and input substrate is
//! expected to translate between its own representation and these values.

pub mod arena;
pub mod bot;
pub mod game;
pub mod hazard;
pub mod player;
pub mod rng;

pub use arena::accept_spawn_candidate;
pub use arena::clamp_to_arena;
pub use arena::dist_sq;
pub use arena::random_point_near;
pub use arena::Vec2;
pub use bot::Bot;
pub use bot::BotCommands;
pub use bot::ReactionState;
pub use game::Game;
pub use player::Player;
pub use player::PlayerKey;
