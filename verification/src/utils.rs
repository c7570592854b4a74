//! Utilities of the server: encryption of API keys, provider selection, and chat titles.

pub mod create_provider;
pub mod encryption;
pub mod generate_title;
pub mod llm_stream;
pub mod stored_stream;
