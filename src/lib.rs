//! Proof of physical presence: attestation, latency triangulation, continental
//! shards, resource and stake gates, and per-epoch validator selection.

pub mod types;
pub mod shard;
pub mod vrf;
pub mod checks;
pub mod registry;
pub mod validator;
pub mod laws;

pub use types::{
    same_id, GeoLocation, LatencyMeasurement, MeshXNode, NodeId, NodeResources, Shard,
    TeeAttestation, TeeType, ValidationError, VrfProof,
};
pub use shard::minimum_stake;
pub use vrf::{bytes_lt, compute_vrf_input, compute_vrf_output};
pub use checks::{verify_resources, verify_tee_attestation};
pub use registry::{find_link, find_node};
pub use validator::{PopValidator, VALIDATORS_PER_EPOCH};
