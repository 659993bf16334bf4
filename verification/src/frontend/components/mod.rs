//! What each part of the screen shows.
pub mod frost;
pub mod header;
pub mod place_picker;
pub mod record;
pub mod status;
