//! Provider-side logic of the token2token inference network client.

pub mod text;
pub mod protocol;
pub mod connectors;
pub mod config;
pub mod managed_vllm;
pub mod session;
