//! What each settings screen does with the keys of a frame.
pub mod channels;
pub mod elrs;
pub mod main_menu;
pub mod mixer;
pub mod model;
pub mod setup;
