//! Agent environment core: workers, jobs, events, commands and their views,
//! with the decisions of the user interfaces and the web server.
use vstd::prelude::*;

pub mod agent_loop;
pub mod cancellation;
pub mod commands;
pub mod context;
pub mod environment;
pub mod conversation;
pub mod event_bus;
pub mod events;
pub mod ids;
pub mod metadata;
pub mod model;
pub mod properties;
pub mod session;
pub mod structured_io;
pub mod text;
pub mod ui_utils;
pub mod web;
pub mod worker;
pub mod worker_builder;

verus! {

} // verus!
