//! Control logic for a network-connected scrolling character display.
//!
//! The library covers everything the device decides on its own: turning a
//! text into an endless sequence of fixed-width marquee frames, the padding
//! and blank-text policy applied to inbound payloads, the first-in first-out
//! bridge that carries payloads from the messaging callback to the render
//! loop, the staged wireless bring-up with its progress indicator, and the
//! derivation of the device identifier and subscription topic. The hardware
//! bus, the wireless stack and the messaging transport stay outside and are
//! driven by a thin shell around this crate.

pub mod text;
pub mod scroll;
pub mod bridge;
pub mod connect;
pub mod message;
pub mod render;
