//! Lifecycle control for a database environment.
//!
//! The crate decides, step by step, what has to happen to bring a target
//! database into a known state: present, absent, or freshly migrated. It
//! performs no I/O itself. Each [`database::Step`] names one piece of outside
//! work (an existence check, a prompt, a driver call, a pause); the caller
//! carries it out and hands the reply to that step's `resolve`, which yields
//! the next step until the operation is [`database::Step::Done`].
//!
//! [`retry`] decides how an existence check is repeated, [`confirm`] how a
//! prompt session is settled, and [`database`] strings the steps together.
//! [`model`] describes collaborators to run the operations against, and
//! [`laws`] proves what the operations then do.

pub mod confirm;
pub mod database;
pub mod failure;
pub mod laws;
pub mod model;
pub mod retry;
