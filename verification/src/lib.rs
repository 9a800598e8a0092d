//! Core simulation engine for an obstacle-dodging game: time-stepped physics
//! for a single controlled entity, a play-phase state machine, a recycled
//! obstacle pool with a per-obstacle scoring protocol, and axis-aligned
//! collision detection. Coordinates are integers (fixed-point screen units);
//! rendering, audio and input live outside this crate and exchange plain
//! values with it.

pub mod bird;
pub mod config;
pub mod entity;
pub mod game_state;
pub mod num;
pub mod pipe;
pub mod rect;
