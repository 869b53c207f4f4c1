//! The Weixin channel.

pub mod api;
pub mod crypto;
pub mod login;
pub mod monitor;
pub mod qr;
pub mod service;
pub mod store;
pub mod supervisor;
pub mod types;
