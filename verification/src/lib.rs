//! The deterministic core of a two-player rollback-netcode game: a fixed
//! twelve-hue color wheel, a one-byte input codec, a pure per-frame step
//! function over integer world state, a snapshot ring, per-peer input lanes
//! with hold-last-input prediction, and the rollback engine that advances,
//! rewinds and replays them in lockstep. Every step is exact integer
//! arithmetic and every in-step random draw is derived from the frame number
//! and entity identity, so the same inputs give bit-identical worlds on both
//! peers — the property the whole synchronization scheme rests on, stated
//! here as contracts and proved.
pub mod color;
pub mod config;
pub mod engine;
pub mod input;
pub mod queue;
pub mod rng;
pub mod session;
pub mod snapshot;
pub mod world;
