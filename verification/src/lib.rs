//! Verified decision logic of the brainmux desktop launcher.
pub mod bootstrap;
pub mod command;
pub mod desktop;
pub mod launcher;
pub mod models;
pub mod paths;
pub mod port_wait;
pub mod process;
pub mod provision;
