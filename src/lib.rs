//! Control-plane core of a robot command protocol: a session proxy that turns
//! robot commands into correlated request frames, and routes inbound reply and
//! event frames back to completion callbacks and event handlers.
//!
//! Callbacks are named by caller-chosen tokens (`u64`). Commands hand back the
//! frame that the caller's write sink must carry; `deliver` hands back the
//! callbacks to invoke, in order, with their decoded payloads.

pub mod wire;
pub mod goal;
pub mod frame;
pub mod session;
pub mod laws;

pub use goal::{Goal, GoalController, GoalType};
pub use wire::DecodeError;
