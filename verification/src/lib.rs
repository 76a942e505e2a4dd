//! Simulation core of a side-scrolling arcade runner.
//!
//! The per-frame world transition, the difficulty scheduler, the player
//! action state machine, collision resolution and the score/currency economy
//! are all implemented here and verified. Rendering, key polling and the
//! window loop are left to the embedding program, which reads world state and
//! feeds back plain input flags and random draws each frame.
//!
//! All quantities are integers in fixed units:
//! lengths in milli-pixels, times in milliseconds, speeds in milli-pixels
//! per second, dimensionless ratios in thousandths (so `1_000` is `1.0`),
//! and the day/night phase in millionths of a cycle.

pub mod collectibles;
pub mod collision;
pub mod constants;
pub mod geom;
pub mod input;
pub mod obstacles;
pub mod particles;
pub mod player;
pub mod rng;
pub mod types;
pub mod update;
pub mod utils;
pub mod world;
