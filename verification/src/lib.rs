//! Runtime core of a small arcade shell: a hierarchical state machine for
//! screen and game transitions, and the real-time simulation for a
//! single-paddle, survive-style pong game.
//!
//! Space is measured in micro-units (one millionth of a world unit) and time
//! in milliseconds, so that per-frame integration, collision tests and timers
//! are exact integer arithmetic.

pub mod entities;
pub mod flow;
pub mod geometry;
pub mod pong;
pub mod session;
pub mod timer;
