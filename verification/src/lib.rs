//! A personal AI-agent gateway: the conversation loop, its context window,
//! the job scheduler and the rules around them, with their contracts.

pub mod agent;
pub mod bus;
pub mod channel;
pub mod clock;
pub mod config;
pub mod cron;
pub mod error;
pub mod json;
pub mod llm;
pub mod memory;
pub mod number;
pub mod session;
pub mod text;
pub mod tools;
