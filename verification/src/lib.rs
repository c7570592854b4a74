//! Core logic of the rs-chat server: stream accumulation, provider event parsing,
//! request building and tool configuration.

pub mod ids;
pub mod json;
pub mod provider;
pub mod provider_models;
pub mod text;
pub mod tools;
pub mod utils;
pub mod storage;
pub mod stream;
