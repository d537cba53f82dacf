//! A generic first-in-first-out queue whose behaviour is stated over a
//! sequence model and proved against it.

pub mod lemmas;
pub mod model;
pub mod queue;

pub use queue::Queue;
