//! The rendering and windowing core of a multichannel strip-chart viewer.
pub mod session;
pub mod store;
pub mod viewport;
pub mod window;
