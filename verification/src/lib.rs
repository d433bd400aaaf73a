//! A shared slot for one numeric vector, with the script of a small timed
//! demonstration that fills it.
//!
//! The library decides; the host acts. Nothing here reads a clock, writes a
//! log or draws a random number: the host does, and reports back.

pub mod demo;
pub mod greeting;
pub mod slot;

pub use demo::{loop_with_delay, Action, Event, Message, Pause, Stage, PAUSE_MS, RNG_SEED, VECTOR_LEN};
pub use greeting::{greet, greeting};
pub use slot::{load_weights, put_vector, read_vector, TestModel};
