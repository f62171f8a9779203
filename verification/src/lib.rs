//! A local secrets vault and permissions broker.

pub mod audit;
pub mod broker;
pub mod broker_identity;
pub mod cli;
pub mod client;
pub mod crypto;
pub mod dashboard;
pub mod dotenv;
pub mod envelope;
pub mod error;
pub mod fdpass;
pub mod fsops;
pub mod json;
pub mod limits;
pub mod order;
pub mod paths;
pub mod stamp;
pub mod text;
pub mod transfer;
pub mod wire;
