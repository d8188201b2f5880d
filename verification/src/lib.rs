//! Supervision core for a fleet of long-running streaming worker processes.

pub mod agent;
pub mod app_state;
pub mod backoff;
pub mod bignum;
pub mod camera_manager;
pub mod camera_start;
pub mod config_manager;
pub mod error;
pub mod events;
pub mod laws;
pub mod log_buffer;
pub mod persistence;
pub mod process_manager;
pub mod reconnect;
pub mod tags;
pub mod text;
