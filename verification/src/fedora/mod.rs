pub mod base;
pub mod browsers;
pub mod hardware;
