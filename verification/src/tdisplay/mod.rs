//! The LilyGo T-Display S3 board: an ST7789 panel of 320 by 170 pixels on a
//! parallel bus, two buttons and a green light.
//!
//! The BOOT button toggles the dark theme, and the light shows it; the second
//! button turns the page.
pub mod bus;
pub mod controls;
pub mod frame;
pub mod st7789;
pub mod stats;

use vstd::prelude::*;

verus! {

/// Columns of the panel, in landscape.
pub const LCD_H_RES: u16 = 320;

/// Rows of the panel, in landscape.
pub const LCD_V_RES: u16 = 170;

/// The row of the controller's memory where the panel begins.
pub const ROW_OFFSET: u16 = 35;

/// Pixels of the panel: columns times rows.
pub const PIXEL_COUNT: usize = 54_400;

/// Bytes that the buffer of the bus holds.
pub const DMA_BUFFER_LEN: usize = 32_000;

/// Pages that the user interface has.
pub const PAGE_COUNT: i32 = 3;

} // verus!
