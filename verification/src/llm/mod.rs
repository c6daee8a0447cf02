//! Conversation messages, tool definitions and the agent's decision logic.
pub mod agent;
pub mod http;
pub mod ollama;
pub mod provider;
pub mod reply;
pub mod tools;
pub mod wire;
pub mod workflow;
