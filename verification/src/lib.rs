//! Verified control logic of a FlySky FS-i6X transmitter firmware: stick
//! conditioning, the channel mixer, curves, trims, CRSF and AFHDS 2A framing,
//! stored configuration, audio sequencing and display formatting.
pub mod adc;
pub mod arith;
pub mod audio;
pub mod input;
pub mod storage;
pub mod mixer;
pub mod trim;
pub mod curve;
pub mod display;
pub mod flight;
pub mod crsf;
pub mod boot;
pub mod chip;
pub mod buzzer;
pub mod calib;
pub mod rf;
pub mod ui;
pub mod usb;
