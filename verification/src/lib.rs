//! Offline-first peer-to-peer messaging core: identities, encrypted events,
//! wire framing, file manifests and the decisions a node takes on requests.

pub mod command;
pub mod crypto;
pub mod error;
pub mod files;
pub mod model;
pub mod node;
pub mod identity;
pub mod primitives;
pub mod protocol;
pub mod storage;
pub mod text;
pub mod transport;
