//! A coordinator for a fleet of container hosts: per-resource action flags
//! that admit one action at a time, the audit record of every action, the
//! two-phase deployment and server actions around each agent call, the
//! read handlers, variable and secret interpolation, alert formatting and
//! the poller's status rules.

pub mod action_state;
pub mod alert;
pub mod api;
pub mod entities;
pub mod id_map;
pub mod interpolate;
pub mod laws;
pub mod monitor;
pub mod resources;
pub mod state;
pub mod stats;
pub mod update;
