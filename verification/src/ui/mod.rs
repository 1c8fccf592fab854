//! User interface logic: the text formatters, the dashboard's alarms and
//! pages, and the settings menu's navigation and edits. Drawing happens
//! outside this crate, from the state kept here.
pub mod dashboard;
pub mod format;
pub mod menu;
pub mod telemetry;
