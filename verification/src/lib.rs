//! An in-memory to-do list: an ordered collection of tasks together with the
//! transient state of the window that shows it, changed only through a closed
//! set of messages.
//!
//! Every executable function carries a contract over the mathematical model in
//! [`model`]; the properties that relate several operations are proved in
//! [`laws`].

pub mod filter;
pub mod laws;
pub mod message;
pub mod model;
pub mod task;
pub mod tasker;
pub mod theme;
