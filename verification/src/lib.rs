//! The rules of Snap, a tray utility that captures the screen and files
//! annotated captures into an inbox.
pub mod annotation;
pub mod capture;
pub mod clock;
pub mod codec;
pub mod instance;
pub mod json;
pub mod log;
pub mod overlay;
pub mod places;
pub mod text;
pub mod tray;
pub mod utf16;
pub mod window;
