//! A PS/2 keyboard and mouse controller driver: controller bring-up as a
//! step machine, scancode decoding and modifier-aware ASCII translation.

pub mod controller;
pub mod decode;
pub mod flags;
pub mod key;
pub mod protocol;
pub mod translate;
