//! Verified core of the Claw10 agent-swarm runtime: policy evaluation,
//! lifecycle state machines, the TOON context encoder, memory admission,
//! spawn validation, the key-value store and the schema validator.
use vstd::prelude::*;

pub mod agent;
pub mod chat_view;
pub mod collections;
pub mod contracts;
pub mod domain;
pub mod ids;
pub mod json;
pub mod memory;
pub mod mission;
pub mod openai_compat;
pub mod order;
pub mod pickers;
pub mod roles;
pub mod router;
pub mod scheduler;
pub mod setup_wizard;
pub mod sidebar;
pub mod policy;
pub mod prompt;
pub mod providers;
pub mod skill;
pub mod spawn;
pub mod store;
pub mod table;
pub mod task;
pub mod telemetry;
pub mod text;
pub mod tool;
pub mod toon;
pub mod tui;
pub mod validation;
pub mod worker;

verus! {

} // verus!
