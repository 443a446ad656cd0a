//! Verified logic of a UEFI driver that lists attached USB devices in a box
//! drawn on the graphics framebuffer when F4 is pressed, and logs over a
//! PL011 UART.

pub mod utf16;
pub mod font;
pub mod framebuffer;
pub mod text_format;
pub mod usb;
pub mod screen;
pub mod keys;
pub mod uart;
pub mod startup;
