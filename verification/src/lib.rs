//! Verified logic of three small ESP32 display firmwares: the CYD 3248S035
//! board, the LilyGo T-Display S3 and the M5StickC Plus2.
//!
//! Everything the firmwares decide or compute lives here: what a button does,
//! which page is shown, when a counter is published, how pixels become bytes on
//! a bus and in which pieces they are sent. Pins, buses, timers and the user
//! interface are driven from outside; they hand in plain values and perform what
//! comes back.
pub mod clock;
pub mod color;
pub mod counters;
pub mod edges;
pub mod line;
pub mod pages;
pub mod panel;
pub mod shared;

pub mod cyd;
pub mod stickc;
pub mod tdisplay;
