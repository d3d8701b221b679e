//! Simulation core of a small top-down arcade game: a boundary path that
//! places spawn points, per-actor animation clocks, actor motion with culling
//! and clamping, a rate-limited enemy spawner and the game-state machine that
//! reacts to collisions.
//!
//! Units: positions are in thousandths of a pixel, directions are vectors of
//! length about `DIR_SCALE`, speeds are in pixels per second and time is in
//! milliseconds.
mod random;
pub mod geometry;
pub mod timer;
pub mod animation;
pub mod motion;
pub mod path;
pub mod world;
pub mod spawn;
pub mod state;
pub mod game;

pub use geometry::{Point, DIR_SCALE};
pub use timer::Timer;
pub use animation::{update_animation, Animation, AppearanceHandle};
pub use motion::{keyboard_move_player, move_enemy, Bounds, Enemy, Player, PlayerInput, PlayerTextureAtlas};
pub use path::{DirectedLineSegment, Path, PathError, ScreenPath};
pub use world::{Actor, ActorKind, EnemyKind, SpawnError, World};
pub use spawn::{spawn_enemy, spawn_player, EnemyTextureAtlas};
pub use state::{GameState, StateError};
pub use game::{collision_event, CollisionEvent, Game, GameOverEvent, TickReport};
