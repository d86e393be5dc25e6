//! Verified core of a terminal step sequencer: the tracker grid, its cursor,
//! the step edits, and the small pieces of display and input logic around it.

pub mod column;
pub mod table;
pub mod tracker;
pub mod pitch;
pub mod visual;
pub mod trigger;
pub mod ring;
pub mod display;
pub mod controls;
