//! Orchestration core of a personal assistant: conversation state, context
//! assembly, the bounded tool-calling loop, retry policy and tool dispatch.
//!
//! Nothing in this crate reads a file, opens a socket or starts a process.
//! Where such work is needed a function returns a request for it, and a
//! second function takes what came of it: [`tools::ToolStep`] for the tools,
//! [`agent::ToolLoop`] for the exchange with the model, [`turn::Turn`] for
//! an inbound message as a whole. The process around the crate does the
//! work and reports back.

pub mod agent;
pub mod api;
pub mod bus;
pub mod config;
pub mod context;
pub mod llm;
pub mod mcp;
pub mod memory;
pub mod session;
pub mod skills;
pub mod text;
pub mod tools;
pub mod turn;
