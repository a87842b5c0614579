//! Audio-profile monitoring for wireless headsets: mode detection, session
//! scanning, guarded process termination and service reconnection, stated
//! as verified functions over plain values.

pub mod text;
pub mod device;
pub mod session;
pub mod monitor;
pub mod process;
pub mod bluetooth;
pub mod logging;
pub mod error;
pub mod i18n;
pub mod notifications;
pub mod config;
pub mod ui;
pub mod update;
