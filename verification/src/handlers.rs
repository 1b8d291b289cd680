//! The executors: one per kind of event.

pub mod message;
pub mod head_movement;
pub mod walk;
pub mod hand;
pub mod fly;
pub mod finished;
