//! The 128x64 monochrome LCD.
pub mod st7567;
