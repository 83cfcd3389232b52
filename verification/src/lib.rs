//! Verified core of the OpenHarmony ability and clipboard bridge: lifecycle
//! events, the display layout overlay, and the clipboard's request checks and
//! image decoding.

pub mod clipboard;
pub mod decimal;
pub mod display;
pub mod event;
pub mod image;
