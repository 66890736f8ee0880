//! OpenHarmony platform support for GPUI.

pub mod credentials;
pub mod demo;
pub mod display;
pub mod geometry;
pub mod ime;
pub mod input;
pub mod keyboard;
pub mod mouse;
pub mod platform;
pub mod renderer;
pub mod screen_capture;
pub mod text;
pub mod touch;
pub mod window;

pub use platform::current_platform;
