//! Scene-graph switch discovery and configuration reconciliation.
//!
//! The crate maps named geometry nodes of a 3D cockpit model onto typed
//! interactive switches and named teleport zones, and reconciles freshly
//! discovered scene structure with a previously persisted, possibly
//! hand-edited JSON configuration without destroying user data.

pub mod config;
pub mod import;
pub mod jsonio;
pub mod jsonobj;
pub mod laws;
pub mod jsontext;
pub mod model;
pub mod scene;
pub mod tags;
pub mod text;
pub mod view;
