//! Buffering, mixing and pacing of a two-stage audio output.

pub mod behaviour;
pub mod callback;
pub mod calls;
pub mod drain;
pub mod encode;
pub mod history;
pub mod laws;
pub mod model;
pub mod open;
pub mod output;
pub mod ring;
pub mod sizes;
pub mod volume;
