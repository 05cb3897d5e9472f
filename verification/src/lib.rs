//! A reflex-training arcade game, as a library: circular targets drift around a
//! window and bounce off its walls, and the player clicks them away. The library
//! holds the per-frame simulation, the hit test, the three-screen state machine,
//! the session clock and the draw lists; a front end polls the input devices and
//! paints what the draw lists say.

pub mod geometry;
pub mod target;
pub mod engine;
pub mod policy;
pub mod spawner;
pub mod text;
pub mod ledger;
pub mod screen;
pub mod render;
