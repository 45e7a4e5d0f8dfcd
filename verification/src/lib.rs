//! A status-bar helper library for selecting and controlling one "active"
//! media player among several running players.
//!
//! The library holds the pure, verified logic: the selection policy, the
//! click-driven state transitions, and the report formatting. The process
//! shell around it (bus enumeration, the selection-store file, printing)
//! hands plain values in and takes plain values out.

pub mod actions;
pub mod cycle;
pub mod model;
pub mod order;
pub mod policy;
pub mod render;
pub mod text;
