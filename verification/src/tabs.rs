//! The tabs of the dashboard: what each remembers and how keys move it.

pub mod about;
pub mod channels;
pub mod config;
pub mod device_config;
pub mod messages;
pub mod modules_config;
pub mod nodes;
