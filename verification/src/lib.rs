//! A chat and English-learning assistant: the engine, the channels and the rules they follow.

pub mod backtracking;
pub mod capability;
pub mod channel;
pub mod config;
pub mod encoding;
pub mod engine;
pub mod http_api;
pub mod laws;
pub mod number;
pub mod outside;
pub mod session_store;
pub mod text;
pub mod tools;
pub mod web;
pub mod words;
