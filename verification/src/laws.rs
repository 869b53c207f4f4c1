//! What the operations are for, stated on what goes into them and what comes out.

pub mod answers;
pub mod feishu;
pub mod hub;
pub mod interface;
pub mod login;
pub mod messages;
pub mod monitor;
pub mod numbers;
pub mod pictures;
pub mod planning;
pub mod registry;
pub mod requests;
pub mod searching;
pub mod sessions;
pub mod settings;
pub mod shell;
pub mod sound;
pub mod speech;
pub mod storage;
pub mod supervisor;
pub mod text;
pub mod turn;
pub mod weixin;
