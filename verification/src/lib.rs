//! A keyboard-firmware core: matrix scanning, diode-aware address
//! translation, layered keymap resolution, and the per-tick poll loop that
//! connects them to a host-facing uplink.
//!
//! Hardware access (pins, delays, the transport to the host) is abstracted
//! behind narrow traits; everything the crate computes over those traits is
//! specified and verified.

pub mod backlight;
pub mod diodes;
pub mod keycode;
pub mod keymap;
pub mod pin_group;
pub mod scanner;
pub mod system;
pub mod tri_state;
pub mod uplink;
