use vstd::prelude::*;

/// Smoothed angles and recoil.
pub mod angle;
/// Generational arenas of values.
pub mod arena;
/// Fixed-point positions and directions.
pub mod geometry;
/// Hit-scan resolution of a ray against actors' hit boxes.
pub mod hit;
/// Raw input events, bindings and the intent snapshot.
pub mod input;
/// What logical actions do to the snapshot and ask of the host.
pub mod intent;
/// Items, elevators and call buttons within reach.
pub mod interaction;
/// Item counts and all-or-nothing extraction.
pub mod inventory;
/// Velocity and run-factor easing.
pub mod locomotion;
/// Requests sent to the rest of the game.
pub mod message;
/// The playable character's controller.
pub mod player;
/// Queues of animation signals.
pub mod signal;
/// Fading shot trails.
pub mod trail;
/// Weapons, their definitions and their container.
pub mod weapon;

verus! {

} // verus!
