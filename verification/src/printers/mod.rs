//! The printers of the panel: for each source of a widget's value, what
//! is made of the readings that the caller takes.

pub mod battery;
pub mod brightness;
pub mod bspwm;
pub mod datetime;
pub mod keyboard;
pub mod socket;
pub mod title;
pub mod volume;
