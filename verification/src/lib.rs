//! Verified core of a semantic browser for AI agents.
pub mod annotator;
pub mod api;
pub mod api_client;
pub mod auth;
pub mod auth_manager;
pub mod browser;
pub mod form_analyzer;
pub mod form_interaction;
pub mod json;
pub mod kg;
pub mod kg_integration;
pub mod llm;
pub mod mcp;
pub mod models;
pub mod page_meta;
pub mod parser;
pub mod security;
pub mod strmap;
pub mod text;
