//! Core of a turn-based combat simulation: initiative sequencing, per-actor
//! action and movement budgets, tick-scoped intent queues, and staged
//! resolution of movement and end-of-turn requests.

pub mod actors;
pub mod combat_action_type;
pub mod combat_systems;
pub mod components;
pub mod game_map;
pub mod gamestate;
pub mod init_ecs;
pub mod moi;
pub mod rpg_components;
pub mod systems;
pub mod weapons;
