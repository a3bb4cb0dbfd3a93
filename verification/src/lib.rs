//! An agent that works on prompts in Codex conversations and speaks the Agent Client Protocol.
//!
//! The agent decides here what to do; whoever runs it talks to the client and to the conversations.
//! `turn` takes a prompt from its arrival to its answer, `agent` keeps the tool calls that are under
//! way, and `request` answers all other requests. `outcomes` and `steps` state what comes of each
//! event and each step, `laws` and `run` what holds of all of them together, and `models` that the
//! models leave nothing out.

pub mod agent;
pub mod command;
pub mod conversation;
pub mod error;
pub mod event;
pub mod json;
pub mod laws;
pub mod mcp;
pub mod models;
pub mod outcomes;
pub mod permission;
pub mod request;
pub mod run;
pub mod steps;
pub mod text;
pub mod tool_call;
pub mod turn;
pub mod update;
