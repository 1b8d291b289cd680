//! A waypoint autopilot: the decisions that steer a remote agent along a
//! scripted route, from telemetry to timed synthetic input.
//!
//! The library decides and leaves the doing to its caller. The control
//! loop ([`control_loop`]) turns a snapshot of the agent ([`telemetry`],
//! [`minecraft_resource`]) and the instruction in progress
//! ([`instructions`]) into messages; the dispatcher ([`dispatch`]) hands
//! each message to its executor ([`handlers`], [`try_action`]), which
//! updates the movement state ([`ace_state`]) and appends the input
//! commands it decides on to a script ([`input`]). The caller keeps the
//! clock, delivers the messages and carries the scripts out on the input
//! device.
//!
//! Quantities that are fractional by nature (positions, distances, angles)
//! are fixed-point integers, see [`fixed`] and [`vectors`]; times are
//! milliseconds, see [`timing`]. What an executor does is stated as a value
//! ([`step`]), and so are the laws that hold of the executors: before all,
//! that no key is pressed while it is down and that the state says what is
//! pressed, whatever messages arrive in whatever order.
//!
//! The relay that passes telemetry on has its decisions in [`server`].

pub mod ace_state;
pub mod control_loop;
pub mod dispatch;
pub mod fixed;
pub mod handlers;
pub mod input;
pub mod instructions;
pub mod minecraft_resource;
pub mod server;
pub mod step;
pub mod telemetry;
pub mod timing;
pub mod try_action;
pub mod vectors;
