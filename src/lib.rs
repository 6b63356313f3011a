//! Game rules of a small side-scrolling platformer: the session-wide
//! advantage, the level compiler, collision dispatch, the health and hit
//! state machine, and enemy patrol decisions.

pub mod advantage;
pub mod tilemap;
pub mod collision;
pub mod player;
pub mod enemy;
pub mod game;
pub mod clock;
pub mod hud;
