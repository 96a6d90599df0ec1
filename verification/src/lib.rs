//! Event translation, frame-loop control and widget composition for a
//! window backend built on the Orbital client library.

pub mod event;
pub mod native;
pub mod backend;
pub mod runner;
pub mod widget;
