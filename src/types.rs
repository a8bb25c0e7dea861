use vstd::prelude::*;

verus! {

/// The trusted-execution backends that can attest a node.
#[derive(Clone, Copy, Debug, PartialEq, Eq, Structural)]
pub enum TeeType {
    IntelSgx,
    ArmTrustZone,
    AppleSecureEnclave,
    AmdSev,
}

/// Continental partitions of the validator set.
#[derive(Clone, Copy, Debug, PartialEq, Eq, Hash, Structural)]
pub enum Shard {
    NorthAmerica,
    Europe,
    Asia,
    SouthAmerica,
    Africa,
    Oceania,
    Antarctica,
}

/// A node identity: the 32 bytes of its public key.
#[derive(Clone, Copy, Debug, PartialEq, Eq, Hash)]
pub struct NodeId {
    pub bytes: [u8; 32],
}

/// A point on the globe. Latitude and longitude are in millionths of a
/// degree (signed); the claimed accuracy is in whole metres.
#[derive(Clone, Copy, Debug, PartialEq, Eq, Structural)]
pub struct GeoLocation {
    pub latitude: i64,
    pub longitude: i64,
    pub accuracy_meters: u64,
}

/// Largest latitude magnitude, in millionths of a degree.
pub const MAX_LATITUDE: i64 = 90_000_000;

/// Largest longitude magnitude, in millionths of a degree.
pub const MAX_LONGITUDE: i64 = 180_000_000;

impl GeoLocation {
    /// Latitude within [-90, 90] degrees and longitude within [-180, 180].
    pub open spec fn wf(&self) -> bool {
        -MAX_LATITUDE <= self.latitude <= MAX_LATITUDE
            && -MAX_LONGITUDE <= self.longitude <= MAX_LONGITUDE
    }
}

/// A report produced by a node's trusted execution environment.
#[derive(Clone, Debug)]
pub struct TeeAttestation {
    pub tee_type: TeeType,
    pub enclave_hash: [u8; 32],
    pub signer_pubkey: NodeId,
    /// Seconds since the Unix epoch.
    pub timestamp: u64,
    pub quote: Vec<u8>,
}

/// One directed latency measurement between two nodes.
#[derive(Clone, Copy, Debug)]
pub struct LatencyMeasurement {
    pub from_node: NodeId,
    pub to_node: NodeId,
    pub latency_ms: u32,
    pub timestamp: u64,
}

/// The input and output of the per-epoch selection hash chain.
#[derive(Clone, Debug)]
pub struct VrfProof {
    pub input: [u8; 32],
    pub output: [u8; 32],
    pub proof: Vec<u8>,
}

/// Declared hardware of a node.
#[derive(Clone, Copy, Debug, PartialEq, Eq, Structural)]
pub struct NodeResources {
    pub cpu_cores: u32,
    pub ram_gb: u32,
    pub storage_gb: u64,
    pub bandwidth_mbps: u32,
    pub gpu_memory_gb: Option<u32>,
}

/// A registered node.
#[derive(Clone, Debug)]
pub struct MeshXNode {
    pub pubkey: NodeId,
    pub tee_attestation: TeeAttestation,
    pub geo_location: GeoLocation,
    pub shard: Shard,
    /// Tokens staked.
    pub stake_amount: u64,
    /// Carried for future weighting, in thousandths.
    pub reputation_score: u32,
    pub resources: NodeResources,
}

/// Why a node or a selection was rejected.
#[derive(Clone, Copy, Debug, PartialEq, Eq, Structural)]
pub enum ValidationError {
    StaleAttestation,
    InvalidEnclaveCode,
    InvalidQuote,
    InsufficientStake,
    InsufficientLatencyData,
    LocationMismatch,
    InsufficientValidators,
    InsufficientCPU,
    InsufficientRAM,
    InsufficientStorage,
    InsufficientBandwidth,
}

impl ValidationError {
    /// A human-readable description of the error.
    pub fn message(&self) -> (r: &'static str) {
        match self {
            ValidationError::StaleAttestation => "TEE attestation is too old",
            ValidationError::InvalidEnclaveCode => "Invalid enclave code hash",
            ValidationError::InvalidQuote => "Invalid TEE quote",
            ValidationError::InsufficientStake => "Insufficient stake amount",
            ValidationError::InsufficientLatencyData => "Not enough latency measurements",
            ValidationError::LocationMismatch => "Location doesn't match latency triangulation",
            ValidationError::InsufficientValidators => "Not enough validators available",
            ValidationError::InsufficientCPU => "Insufficient CPU cores",
            ValidationError::InsufficientRAM => "Insufficient RAM",
            ValidationError::InsufficientStorage => "Insufficient storage",
            ValidationError::InsufficientBandwidth => "Insufficient bandwidth",
        }
    }
}

/// Whether two identities hold the same bytes.
pub fn same_id(a: &NodeId, b: &NodeId) -> (r: bool)
    ensures
        r == (a.bytes@ == b.bytes@),
{
    let mut i: usize = 0;
    while i < 32
        invariant
            i <= 32,
            a.bytes@.len() == 32,
            b.bytes@.len() == 32,
            forall|k: int| 0 <= k < i ==> a.bytes@[k] == b.bytes@[k],
        decreases 32 - i,
    {
        if a.bytes[i] != b.bytes[i] {
            return false;
        }
        i = i + 1;
    }
    proof {
        assert(a.bytes@ =~= b.bytes@);
    }
    true
}

} // verus!
