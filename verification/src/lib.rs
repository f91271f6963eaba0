//! Verified simulation core of a 2D tile-world action game.
//!
//! A player, wandering enemies and their projectiles move over two tile
//! layers (walls and floors), with axis-separated collision, interactive
//! door and chest tiles, per-entity animation state machines and a lagging,
//! clamped follow camera.  All world quantities are fixed-point integers:
//! coordinates in milli-units (`units::MILLI` per world unit) and time in
//! ticks (`units::TICKS_PER_SECOND` per second), so every per-frame rule is
//! exact and verified.  Rendering, input polling, asset loading and file
//! I/O are left to the embedding program; the core consumes plain values
//! (key states, elapsed ticks, spawn velocities) and produces plain values
//! (positions, frame indices, camera offsets).

pub mod units;
pub mod anim;
pub mod geom;
pub mod map;
pub mod codec;
pub mod collision;
pub mod motion;
pub mod camera;
pub mod player;
pub mod rng;
pub mod coruja;
pub mod enemies;
pub mod world;
