//! Core of a shapes interoperability client for a publish/subscribe
//! middleware. A process either publishes a moving shape at a steady pace
//! or subscribes to the topic and reports what arrives, and in both roles
//! it is driven by readiness notifications alone.
//!
//! The library decides and the program around it performs:
//!
//! - [`shape`] holds the shape and the motion model: one step inside the
//!   arena, with reflection at the walls.
//! - [`velocity`] draws the first velocity of a shape, never zero.
//! - [`motion`] keeps a shape and its velocity together, step after step.
//! - [`role`] and [`settings`] turn the values of the command line into the
//!   role, the domain and the quality of service of a run.
//! - [`registry`] is the table of event sources and their tokens.
//! - [`event`] lists what the control loop asks of its driver and what the
//!   driver answers.
//! - [`model`] defines the control loop as a state machine, [`control`]
//!   runs it, and [`laws`] proves what holds of every run.

pub mod control;
pub mod event;
pub mod laws;
pub mod model;
pub mod motion;
pub mod registry;
pub mod role;
pub mod settings;
pub mod shape;
pub mod velocity;
