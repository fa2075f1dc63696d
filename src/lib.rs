//! A harness around an external review hook: the events it is sent, the
//! envelope they travel in, how its answer is read, and the statistics of a
//! benchmark run.

pub mod bench;
pub mod event;
pub mod invoke;
pub mod json;
pub mod response;
pub mod text;
pub mod wire;
