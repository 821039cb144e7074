//! State reconciliation for a mesh-radio dashboard: the interpreter that turns each frame
//! from the radio into one state update, the node registry, the bounded message log, the
//! device configuration store and the session supervisor's decisions.

pub mod consts;
pub mod frame;
pub mod codec;
pub mod util;
pub mod node;
pub mod config;
pub mod order;
pub mod nav;
pub mod app;
pub mod ipc;
pub mod packet_handler;
pub mod tabs;
pub mod meshtastic_interaction;
pub mod clap;
