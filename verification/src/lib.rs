//! What LOCKIN decides: which game server and which agent a player gets, when a lobby is there, and what
//! to do next on the way from arming to a locked agent.
use vstd::prelude::*;

pub mod agents;
pub mod app;
pub mod arming;
pub mod assignments;
pub mod catalog_laws;
pub mod config_laws;
pub mod dashboard;
pub mod detection;
pub mod detection_laws;
pub mod json;
pub mod listening;
pub mod listening_laws;
pub mod maps;
pub mod presence;
pub mod presence_laws;
pub mod region;
pub mod region_laws;
pub mod riot;
pub mod selection;
pub mod selection_laws;
pub mod sorting;
pub mod state_laws;
pub mod text;
pub mod text_laws;
pub mod transition_laws;
pub mod watching;
