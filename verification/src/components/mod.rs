//! The hourly list: a screen that names every cold hour of the forecast on
//! its own, without merging hours into phases.
pub mod frost;
pub mod record;
