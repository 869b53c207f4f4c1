//! Settings of the assistant, and how they are read from environment variables.

pub mod app;
pub mod channel;
pub mod env;
pub mod form;
pub mod learning;
pub mod llm;
pub mod speech;
pub mod tools;
