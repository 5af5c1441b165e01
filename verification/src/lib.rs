//! The decisions behind relaying the traffic of foreign networks: which
//! connections a public server lets into which virtual network, what it
//! remembers of the networks and peers it serves, and where it sends each
//! packet that reaches it.
pub mod admission;
pub mod admission_laws;
pub mod context;
pub mod conversation;
pub mod data;
pub mod entry;
pub mod error;
pub mod events;
pub mod history;
pub mod identity;
pub mod laws;
pub mod listing;
pub mod listing_laws;
pub mod manager;
pub mod memory_laws;
pub mod model_laws;
pub mod packet;
pub mod packet_laws;
pub mod record_laws;
pub mod route;
pub mod rpc;
pub mod step_laws;
pub mod tables;
pub mod text;
pub mod text_laws;
pub mod verdict;
