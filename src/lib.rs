pub mod buffer_helper;
pub mod key;
pub mod key_handler;
pub mod menu;
pub mod mouse_handler;
pub mod qt_keys;
pub mod rate;
pub mod scaler;
pub mod window;

pub use buffer_helper::Error;
