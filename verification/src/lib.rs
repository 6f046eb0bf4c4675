//! The logic of `wl-copy`, a program that copies data to the Wayland clipboard.
//!
//! * [`wl_copy`] holds the command-line options, the errors of source
//!   resolution, and the resolution itself as other programs use it.
//! * [`mime`] and [`source`] hold what resolution results in.
//! * [`resolution`] says what the options resolve to, and [`resolver`] finds it
//!   with one question about the world at a time.
//! * [`program`] and [`session`] hold what the program itself makes of its
//!   options, and the course of a call of it.
//! * [`laws`] states what holds of all of these together, and [`promises`] what
//!   the options promise to whoever gives them.

pub mod laws;
pub mod mime;
pub mod program;
pub mod promises;
pub mod resolution;
pub mod resolver;
pub mod session;
pub mod source;
pub mod wl_copy;
