//! Verified request-validation, decision and encoding logic of the Sprout
//! server routes: what each route decides from the values it has read, and the
//! exact bytes it derives, hashes and persists.

pub mod error;
pub mod codec;
pub mod text;
pub mod domain;
pub mod device_keys;
pub mod agent_tools;
pub mod agents;
pub mod agent_runs;
pub mod assignments;
pub mod comments;
pub mod dev_auth;
pub mod agent_chat;
