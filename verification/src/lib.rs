//! Verified game logic of a prop-hunt game: physics layer masks, the jump
//! controller, timers and tweens, the connection and pause state machines,
//! morph arbitration on the server, and a few small decision rules.

pub mod camera;
pub mod crosshair;
pub mod morphing;
pub mod movement;
pub mod network;
pub mod pause;
pub mod physics;
pub mod player;
pub mod texture;
pub mod time;
pub mod tween;
