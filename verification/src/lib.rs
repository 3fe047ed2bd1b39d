//! Interaction core of a borderless, always-on-top overlay window that the
//! user moves, resizes and fades with the mouse.
//!
//! The core takes no input and draws nothing by itself. Once per frame the
//! host hands it what the pointer did and gets back what to show and what to
//! ask of the window. All quantities are whole numbers:
//!
//! - lengths and positions in units of 1/64 logical point
//!   ([`geometry::UNITS_PER_POINT`]), `y` growing downward;
//! - opacity in steps, from [`app::ALPHA_MIN`] (one half) to
//!   [`app::ALPHA_MAX`] (opaque);
//! - time in nanoseconds of a monotonic clock.

pub mod app;
pub mod cursor;
pub mod geometry;
pub mod range;
pub mod zones;
