//! Verified game logic of the Gauntlet Complex engine: input bindings and
//! their latches, menu navigation, room visibility and the path-node index,
//! the entity table, the asset cache, and the small codes and rules that
//! travel between the game, its physics and its renderer.

pub mod asset;
pub mod keycode;
pub mod locale;
pub mod meta;
pub mod physical;
pub mod r3d;
pub mod scene;
pub mod setting;
pub mod tutorial;
pub mod user;
pub mod weapon;
pub mod window;
pub mod world;
