//! Session lifecycle, command registry, hotkey dispatch and preference logic
//! of a desktop controller for cloud-connected smart-home devices.
//!
//! Everything here is decision logic: the host application performs the file,
//! network and window operations that the functions of this crate ask for,
//! and hands their outcomes back as plain values.

pub mod commands;
pub mod dispatch;
pub mod session;
pub mod settings;
