//! Acquisition of a bundled Node.js runtime: the platform table, the install
//! layout, the shared progress state and the decisions of an install attempt.

pub mod platform;
pub mod paths;
pub mod progress;
pub mod state;
pub mod install;
mod host;
pub mod manager;
