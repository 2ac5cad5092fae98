//! Turns a DHAT heap profile into folded stack traces.
//!
//! A profile lists program points, each with allocation statistics and a call
//! stack given as indices into a frame table. A metric and a unit pick the
//! statistic to report; every program point then becomes one folded line,
//! `frame;frame;...;frame frequency`, as flame graph renderers read them.

pub mod dhat;
pub mod error;
pub mod folded;
pub mod metric;
pub mod selector;
pub mod text;
pub mod unit;
