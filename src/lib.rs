//! Fetches a random artwork, prepares it as a desktop wallpaper, and names
//! the file it is saved under. The decisions and the pixel transforms live
//! here; network, disk and the desktop are driven from outside.

pub mod border;
pub mod caption;
pub mod naming;
pub mod pixels;
pub mod request;
pub mod resize;
pub mod selector;
pub mod session;
mod strings;
