use meshx_pop::{
    bytes_lt, compute_vrf_input, compute_vrf_output, minimum_stake, verify_resources,
    verify_tee_attestation, GeoLocation, LatencyMeasurement, MeshXNode, NodeId, NodeResources,
    PopValidator, Shard, TeeAttestation, TeeType, ValidationError,
};
use sha3::Digest;

const NOW: u64 = 1_750_000_000;

fn id(n: u8) -> NodeId {
    NodeId { bytes: [n; 32] }
}

fn loc(latitude: i64, longitude: i64, accuracy_meters: u64) -> GeoLocation {
    GeoLocation { latitude, longitude, accuracy_meters }
}

fn good_resources() -> NodeResources {
    NodeResources {
        cpu_cores: 8,
        ram_gb: 16,
        storage_gb: 500,
        bandwidth_mbps: 100,
        gpu_memory_gb: None,
    }
}

fn attestation(key: NodeId, timestamp: u64) -> TeeAttestation {
    TeeAttestation {
        tee_type: TeeType::IntelSgx,
        enclave_hash: [0x42; 32],
        signer_pubkey: key,
        timestamp,
        quote: vec![1, 2, 3],
    }
}

fn node(n: u8, location: GeoLocation) -> MeshXNode {
    MeshXNode {
        pubkey: id(n),
        tee_attestation: attestation(id(n), NOW),
        geo_location: location,
        shard: PopValidator::assign_shard(&location),
        stake_amount: 100_000,
        reputation_score: 1000,
        resources: good_resources(),
    }
}

fn link(from: u8, to: u8, latency_ms: u32) -> LatencyMeasurement {
    LatencyMeasurement { from_node: id(from), to_node: id(to), latency_ms, timestamp: NOW }
}

/// Three peers around (20, 40) degrees, all 10 ms from each node in
/// `targets`, so that each target triangulates to (20, 40).
fn registry_with_targets(minimum_nodes: usize, targets: &[u8]) -> PopValidator {
    let mut v = PopValidator::new(minimum_nodes);
    v.register_node(node(1, loc(10_000_000, 20_000_000, 1000)));
    v.register_node(node(2, loc(20_000_000, 40_000_000, 1000)));
    v.register_node(node(3, loc(30_000_000, 60_000_000, 1000)));
    for &t in targets {
        v.register_node(node(t, loc(20_000_000, 40_000_000, 60_000)));
        for p in 1..=3u8 {
            v.record_latency(link(p, t, 10));
        }
    }
    v
}

#[test]
fn test_shard_assignment() {
    let ny = loc(40_712_800, -74_006_000, 1000);
    assert_eq!(PopValidator::assign_shard(&ny), Shard::NorthAmerica);
    let london = loc(51_507_400, -127_800, 1000);
    assert_eq!(PopValidator::assign_shard(&london), Shard::Europe);
    let tokyo = loc(35_676_200, 139_650_300, 1000);
    assert_eq!(PopValidator::assign_shard(&tokyo), Shard::Asia);
}

#[test]
fn shard_boxes_and_fallbacks() {
    assert_eq!(PopValidator::assign_shard(&loc(-15_000_000, -60_000_000, 0)), Shard::SouthAmerica);
    assert_eq!(PopValidator::assign_shard(&loc(0, 20_000_000, 0)), Shard::Africa);
    assert_eq!(PopValidator::assign_shard(&loc(-25_000_000, 135_000_000, 0)), Shard::Oceania);
    assert_eq!(PopValidator::assign_shard(&loc(-75_000_000, 0, 0)), Shard::Antarctica);
    assert_eq!(PopValidator::assign_shard(&loc(80_000_000, 0, 0)), Shard::NorthAmerica);
    // Europe and Africa overlap: Europe is checked first.
    assert_eq!(PopValidator::assign_shard(&loc(37_000_000, 10_000_000, 0)), Shard::Europe);
    // Asia and Africa overlap: Asia is checked first.
    assert_eq!(PopValidator::assign_shard(&loc(20_000_000, 50_000_000, 0)), Shard::Asia);
    // Box edges are exclusive: latitude 15 exactly is neither North nor South America.
    assert_eq!(PopValidator::assign_shard(&loc(15_000_000, -100_000_000, 0)), Shard::NorthAmerica);
    assert_eq!(PopValidator::assign_shard(&loc(15_000_000, -60_000_000, 0)), Shard::NorthAmerica);
    assert_eq!(PopValidator::assign_shard(&loc(-60_000_000, 0, 0)), Shard::NorthAmerica);
}

#[test]
fn minimum_stake_tiers() {
    assert_eq!(minimum_stake(&Shard::NorthAmerica), 100_000);
    assert_eq!(minimum_stake(&Shard::Europe), 100_000);
    assert_eq!(minimum_stake(&Shard::Asia), 100_000);
    assert_eq!(minimum_stake(&Shard::SouthAmerica), 50_000);
    assert_eq!(minimum_stake(&Shard::Africa), 50_000);
    assert_eq!(minimum_stake(&Shard::Oceania), 50_000);
    assert_eq!(minimum_stake(&Shard::Antarctica), 10_000);
}

#[test]
fn attestation_checks() {
    assert_eq!(verify_tee_attestation(&attestation(id(1), NOW), NOW), Ok(()));
    assert_eq!(verify_tee_attestation(&attestation(id(1), NOW - 3600), NOW), Ok(()));
    assert_eq!(
        verify_tee_attestation(&attestation(id(1), NOW - 3601), NOW),
        Err(ValidationError::StaleAttestation)
    );
    // Dated after the clock: not stale.
    assert_eq!(verify_tee_attestation(&attestation(id(1), NOW + 10), NOW), Ok(()));
    let mut bad_hash = attestation(id(1), NOW);
    bad_hash.enclave_hash[31] = 0x43;
    assert_eq!(verify_tee_attestation(&bad_hash, NOW), Err(ValidationError::InvalidEnclaveCode));
    for tee in [TeeType::IntelSgx, TeeType::ArmTrustZone, TeeType::AppleSecureEnclave, TeeType::AmdSev] {
        let mut a = attestation(id(1), NOW);
        a.tee_type = tee;
        assert_eq!(verify_tee_attestation(&a, NOW), Ok(()));
        a.quote = Vec::new();
        assert_eq!(verify_tee_attestation(&a, NOW), Err(ValidationError::InvalidQuote));
    }
}

#[test]
fn resource_gate_one_field_at_a_time() {
    assert_eq!(verify_resources(&good_resources()), Ok(()));
    let mut r = good_resources();
    r.cpu_cores = 1;
    assert_eq!(verify_resources(&r), Err(ValidationError::InsufficientCPU));
    let mut r = good_resources();
    r.ram_gb = 3;
    assert_eq!(verify_resources(&r), Err(ValidationError::InsufficientRAM));
    let mut r = good_resources();
    r.storage_gb = 99;
    assert_eq!(verify_resources(&r), Err(ValidationError::InsufficientStorage));
    let mut r = good_resources();
    r.bandwidth_mbps = 9;
    assert_eq!(verify_resources(&r), Err(ValidationError::InsufficientBandwidth));
    // CPU is checked first.
    let r = NodeResources { cpu_cores: 1, ram_gb: 0, storage_gb: 0, bandwidth_mbps: 0, gpu_memory_gb: Some(8) };
    assert_eq!(verify_resources(&r), Err(ValidationError::InsufficientCPU));
}

#[test]
fn node_with_one_cpu_core_fails_validation() {
    let v = registry_with_targets(1, &[10]);
    let mut n = v.nodes()[3].clone();
    assert_eq!(v.validate_node(&n, NOW, 0), Ok(true));
    n.resources.cpu_cores = 1;
    assert_eq!(v.validate_node(&n, NOW, 0), Err(ValidationError::InsufficientCPU));
}

#[test]
fn triangulation_equal_latencies() {
    let v = registry_with_targets(1, &[10]);
    let est = v.triangulate_position(&id(10)).unwrap();
    assert_eq!(est, loc(20_000_000, 40_000_000, 50_000));
}

#[test]
fn triangulation_weights_by_inverse_latency() {
    let mut v = PopValidator::new(1);
    v.register_node(node(1, loc(0, 0, 0)));
    v.register_node(node(2, loc(30_000_000, 30_000_000, 0)));
    v.record_latency(link(1, 9, 1));
    v.record_latency(link(2, 9, 2));
    // Peer 3 is not registered: it counts, but carries no weight.
    v.record_latency(link(3, 9, 7));
    let est = v.triangulate_position(&id(9)).unwrap();
    assert_eq!(est, loc(10_000_000, 10_000_000, 50_000));
    // A zero latency weighs as one millisecond.
    v.record_latency(link(1, 9, 0));
    assert_eq!(v.triangulate_position(&id(9)).unwrap(), loc(10_000_000, 10_000_000, 50_000));
}

#[test]
fn triangulation_needs_three_measurements() {
    let mut v = PopValidator::new(1);
    v.register_node(node(1, loc(0, 0, 0)));
    v.register_node(node(2, loc(0, 0, 0)));
    v.record_latency(link(1, 9, 5));
    v.record_latency(link(2, 9, 5));
    // A measurement in the other direction does not count.
    v.record_latency(link(9, 1, 5));
    assert_eq!(v.triangulate_position(&id(9)), Err(ValidationError::InsufficientLatencyData));
    // Re-recording a pair replaces it rather than adding a source.
    v.record_latency(link(1, 9, 6));
    assert_eq!(v.latencies().len(), 3);
    assert_eq!(v.triangulate_position(&id(9)), Err(ValidationError::InsufficientLatencyData));
}

#[test]
fn triangulation_with_only_unknown_peers_mismatches() {
    let mut v = PopValidator::new(1);
    for p in 1..=3u8 {
        v.record_latency(link(p, 9, 5));
    }
    assert_eq!(v.triangulate_position(&id(9)), Err(ValidationError::LocationMismatch));
}

#[test]
fn validate_node_stale_attestation() {
    let v = registry_with_targets(1, &[10]);
    let mut n = v.nodes()[3].clone();
    n.tee_attestation.timestamp = NOW - 3601;
    n.resources.cpu_cores = 0;
    n.stake_amount = 0;
    assert_eq!(v.validate_node(&n, NOW, 1_000_000), Err(ValidationError::StaleAttestation));
}

#[test]
fn validate_node_insufficient_latency_data() {
    let mut v = registry_with_targets(1, &[]);
    let n = node(10, loc(20_000_000, 40_000_000, 60_000));
    v.register_node(n.clone());
    v.record_latency(link(1, 10, 10));
    v.record_latency(link(2, 10, 10));
    assert_eq!(v.validate_node(&n, NOW, 0), Err(ValidationError::InsufficientLatencyData));
}

#[test]
fn validate_node_location_and_stake() {
    let v = registry_with_targets(1, &[10]);
    let mut n = v.nodes()[3].clone();
    assert_eq!(v.validate_node(&n, NOW, 60_000), Ok(true));
    assert_eq!(v.validate_node(&n, NOW, 60_001), Err(ValidationError::LocationMismatch));
    // (20, 40) lies in the Africa shard, whose minimum is 50,000.
    assert_eq!(n.shard, Shard::Africa);
    n.stake_amount = 50_000;
    assert_eq!(v.validate_node(&n, NOW, 0), Ok(true));
    n.stake_amount = 49_999;
    assert_eq!(v.validate_node(&n, NOW, 0), Err(ValidationError::InsufficientStake));
    let mut bad = v.nodes()[3].clone();
    bad.tee_attestation.enclave_hash = [0; 32];
    assert_eq!(v.validate_node(&bad, NOW, 0), Err(ValidationError::InvalidEnclaveCode));
}

#[test]
fn register_node_assigns_shard_and_replaces() {
    let mut v = PopValidator::new(1);
    let mut n = node(5, loc(51_507_400, -127_800, 10));
    n.shard = Shard::Antarctica;
    v.register_node(n.clone());
    assert_eq!(v.nodes().len(), 1);
    assert_eq!(v.nodes()[0].shard, Shard::Europe);
    n.geo_location = loc(35_676_200, 139_650_300, 10);
    v.register_node(n);
    assert_eq!(v.nodes().len(), 1);
    assert_eq!(v.nodes()[0].shard, Shard::Asia);
    assert_eq!(v.nodes()[0].geo_location.latitude, 35_676_200);
}

#[test]
fn vrf_chain_matches_sha3() {
    let epoch: u64 = 0x0102_0304_0506_0708;
    let key = id(7);
    let mut data = b"MESHX_VRF_INPUT".to_vec();
    data.extend_from_slice(&epoch.to_le_bytes());
    data.extend_from_slice(&key.bytes);
    let expected_input: [u8; 32] = sha3::Sha3_256::digest(&data).into();
    let input = compute_vrf_input(epoch, &key);
    assert_eq!(input, expected_input);

    let mut data = b"MESHX_VRF_OUTPUT".to_vec();
    data.extend_from_slice(&input);
    data.extend_from_slice(&key.bytes);
    let expected_output: [u8; 32] = sha3::Sha3_256::digest(&data).into();
    assert_eq!(compute_vrf_output(&input, &key), expected_output);
    assert_ne!(compute_vrf_input(epoch + 1, &key), input);
}

#[test]
fn byte_order() {
    let a = [0u8; 32];
    let mut b = [0u8; 32];
    b[31] = 1;
    assert!(bytes_lt(&a, &b));
    assert!(!bytes_lt(&b, &a));
    assert!(!bytes_lt(&a, &a));
    let mut c = [0u8; 32];
    c[0] = 1;
    assert!(bytes_lt(&b, &c));
}

fn score(epoch: u64, key: &NodeId) -> [u8; 32] {
    compute_vrf_output(&compute_vrf_input(epoch, key), key)
}

#[test]
fn selection_is_ranked_and_deterministic() {
    let targets = [10u8, 11, 12, 13, 14];
    let v = registry_with_targets(3, &targets);
    let distances = vec![0u64; v.nodes().len()];
    let first = v.select_validators(5, NOW, &distances).unwrap();
    let second = v.select_validators(5, NOW, &distances).unwrap();
    assert_eq!(first, second);
    // Only the targets have three measurements towards them.
    assert_eq!(first.len(), targets.len());
    for w in first.windows(2) {
        assert!(score(5, &w[0]) < score(5, &w[1]));
    }
    let again = registry_with_targets(3, &targets);
    assert_eq!(again.select_validators(5, NOW, &distances).unwrap(), first);
}

#[test]
fn selection_fails_one_short_of_minimum() {
    let targets = [10u8, 11, 12];
    let v = registry_with_targets(4, &targets);
    let distances = vec![0u64; v.nodes().len()];
    assert_eq!(
        v.select_validators(1, NOW, &distances),
        Err(ValidationError::InsufficientValidators)
    );
    let v = registry_with_targets(3, &targets);
    assert_eq!(v.select_validators(1, NOW, &distances).unwrap().len(), 3);
}

#[test]
fn error_messages() {
    assert_eq!(ValidationError::StaleAttestation.message(), "TEE attestation is too old");
    assert_eq!(ValidationError::InsufficientBandwidth.message(), "Insufficient bandwidth");
}

#[test]
fn epoch_advances_and_keeps_registry() {
    let mut v = registry_with_targets(2, &[10]);
    assert_eq!(v.current_epoch(), 0);
    assert_eq!(v.minimum_nodes(), 2);
    v.advance_epoch();
    v.advance_epoch();
    assert_eq!(v.current_epoch(), 2);
    assert_eq!(v.nodes().len(), 4);
    assert_eq!(v.latencies().len(), 3);
}
