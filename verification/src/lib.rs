//! A terminal music-browsing client for a Subsonic-protocol media server:
//! the verified core of its playback queue, view navigation, and playback
//! orchestration logic.

pub mod api;
pub mod bus;
pub mod client;
pub mod config;
pub mod egg;
pub mod nav;
pub mod orchestrator;
pub mod queue;
pub mod render;
pub mod text;
pub mod types;
pub mod view;
