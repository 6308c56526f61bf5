//! A multi-monitor screen-capture compositor core. Given the set of
//! physical displays - each with its own origin, size and pixel-scale
//! factor - it normalizes every monitor into one shared virtual-desktop
//! coordinate space, decides which monitors a requested region touches,
//! plans what each one must capture, and composites the captured frames
//! into a single RGBA image with correct per-monitor offsets, degenerate
//! placeholder frames and per-monitor failures included.
//!
//! The platform work itself - enumerating monitors, reading the pointer,
//! grabbing a monitor's pixels, writing files - stays with the caller,
//! who follows the capture plan and hands the results back.

pub mod channels;
pub mod compose;
pub mod encode;
pub mod geometry;
pub mod imaging;
pub mod monitor;
pub mod scale;
pub mod text;
