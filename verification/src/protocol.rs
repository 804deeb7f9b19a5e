//! Messages exchanged with the relay, as plain data.

use vstd::prelude::*;

verus! {

/// The kind of a relay message.
#[derive(Clone, Copy, Debug, PartialEq, Eq, Structural)]
pub enum MessageType {
    Hello,
    Heartbeat,
    Catalog,
    Job,
    Chunk,
    Completed,
    Failed,
}

/// How a provider offers its models: a fixed ready set or a dynamic pool.
#[derive(Clone, Copy, Debug, PartialEq, Eq, Structural)]
pub enum ProviderMode {
    Static,
    Dynamic,
}

/// The models a node publishes.
#[derive(Clone, Debug)]
pub struct Catalog {
    pub models: Vec<CatalogModel>,
}

/// One published model with its prices and terms.
#[derive(Clone, Debug)]
pub struct CatalogModel {
    pub id: String,
    pub display_name: String,
    pub engine_model_id: String,
    pub description: String,
    pub architecture: String,
    pub context_length: u32,
    pub input_modalities: Vec<String>,
    pub output_modalities: Vec<String>,
    pub parameters: Vec<String>,
    pub license_id: String,
    pub commercial_hosting_confirmed: bool,
    pub quantization: Option<String>,
    pub input_price: String,
    pub output_price: String,
    pub mode: ProviderMode,
    pub ready: bool,
}

/// The periodic status report of a node.
#[derive(Clone, Debug)]
pub struct Heartbeat {
    pub engine: String,
    pub engine_url: String,
    pub accepting_jobs: bool,
    pub active_jobs: u32,
    pub earned_this_month: String,
    pub earnings_cap: String,
    pub client_version: String,
}

} // verus!
