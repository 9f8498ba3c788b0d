//! Calendar and time-scale logic of the NREL Solar Position Algorithm.

pub mod calendar;
pub mod julian;
pub mod delta_t;
pub mod time;
