pub mod base;
pub mod browsers;
pub mod config;
pub mod hardware;
pub mod steps;
pub mod desktops;
pub mod displaymanagers;
pub mod shells;
pub mod terminals;
pub mod themes;
pub mod users;
