//! Windows desktop automation toolkit: selectors, safety policy, profile planning,
//! advanced-backend protocol state and workflow planning, all with verified contracts.
#![allow(unused_imports)]

pub mod protocol;
pub mod session;
pub mod backend;
pub mod config;
pub mod text;
pub mod types;
pub mod perception;
pub mod workflows;
pub mod attachment;
pub mod agent;
pub mod transport;
pub mod host;
pub mod layered_input;
pub mod roblox;
pub mod profile;
pub mod observers;
pub mod security;
pub mod uia;
pub mod keyboard;
pub mod order;
pub mod desktop;
pub mod discovery;
pub mod navigation;
pub mod mcp;
pub mod memory_schema;
pub mod patrol_step;
pub mod roblox_agent;
pub mod detection;
pub mod tracking;
pub mod live_frame;
pub mod human;
