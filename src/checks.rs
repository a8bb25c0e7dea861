use vstd::prelude::*;
use crate::types::{NodeResources, TeeAttestation, TeeType, ValidationError};

verus! {

/// An attestation older than this many seconds is stale.
pub const MAX_ATTESTATION_AGE_SECS: u64 = 3600;

/// The byte that fills the expected enclave code hash.
pub const EXPECTED_ENCLAVE_BYTE: u8 = 0x42;

/// The code identity every validator enclave must report.
pub open spec fn expected_enclave_hash() -> Seq<u8> {
    Seq::new(32, |i: int| EXPECTED_ENCLAVE_BYTE)
}

/// Whether the quote backend for a TEE type accepts a quote: every backend
/// rejects an empty quote.
pub open spec fn quote_accepted(tee_type: TeeType, quote: Seq<u8>) -> bool {
    match tee_type {
        TeeType::IntelSgx => quote.len() > 0,
        TeeType::ArmTrustZone => quote.len() > 0,
        TeeType::AppleSecureEnclave => quote.len() > 0,
        TeeType::AmdSev => quote.len() > 0,
    }
}

/// The outcome of checking an attestation at time `now` (seconds since the
/// Unix epoch): freshness, then code identity, then the quote.
pub open spec fn attestation_outcome(att: TeeAttestation, now: u64) -> Result<(), ValidationError> {
    if now - att.timestamp > MAX_ATTESTATION_AGE_SECS {
        Err(ValidationError::StaleAttestation)
    } else if att.enclave_hash@ != expected_enclave_hash() {
        Err(ValidationError::InvalidEnclaveCode)
    } else if !quote_accepted(att.tee_type, att.quote@) {
        Err(ValidationError::InvalidQuote)
    } else {
        Ok(())
    }
}

/// The outcome of the resource gate: CPU, RAM, storage, bandwidth, in that
/// order, the first short of its minimum failing.
pub open spec fn resources_outcome(res: NodeResources) -> Result<(), ValidationError> {
    if res.cpu_cores < 2 {
        Err(ValidationError::InsufficientCPU)
    } else if res.ram_gb < 4 {
        Err(ValidationError::InsufficientRAM)
    } else if res.storage_gb < 100 {
        Err(ValidationError::InsufficientStorage)
    } else if res.bandwidth_mbps < 10 {
        Err(ValidationError::InsufficientBandwidth)
    } else {
        Ok(())
    }
}

fn enclave_hash_matches(hash: &[u8; 32]) -> (r: bool)
    ensures
        r == (hash@ == expected_enclave_hash()),
{
    let mut i: usize = 0;
    while i < 32
        invariant
            i <= 32,
            hash@.len() == 32,
            forall|k: int| 0 <= k < i ==> hash@[k] == EXPECTED_ENCLAVE_BYTE,
        decreases 32 - i,
    {
        if hash[i] != EXPECTED_ENCLAVE_BYTE {
            assert(hash@[i as int] != expected_enclave_hash()[i as int]);
            return false;
        }
        i = i + 1;
    }
    assert(hash@ =~= expected_enclave_hash());
    true
}

fn verify_sgx_quote(quote: &Vec<u8>) -> (r: Result<(), ValidationError>)
    ensures
        r == (if quote_accepted(TeeType::IntelSgx, quote@) { Ok(()) } else { Err(ValidationError::InvalidQuote) }),
{
    if quote.len() == 0 {
        return Err(ValidationError::InvalidQuote);
    }
    Ok(())
}

fn verify_trustzone_quote(quote: &Vec<u8>) -> (r: Result<(), ValidationError>)
    ensures
        r == (if quote_accepted(TeeType::ArmTrustZone, quote@) { Ok(()) } else { Err(ValidationError::InvalidQuote) }),
{
    if quote.len() == 0 {
        return Err(ValidationError::InvalidQuote);
    }
    Ok(())
}

fn verify_secure_enclave_quote(quote: &Vec<u8>) -> (r: Result<(), ValidationError>)
    ensures
        r == (if quote_accepted(TeeType::AppleSecureEnclave, quote@) { Ok(()) } else { Err(ValidationError::InvalidQuote) }),
{
    if quote.len() == 0 {
        return Err(ValidationError::InvalidQuote);
    }
    Ok(())
}

fn verify_sev_quote(quote: &Vec<u8>) -> (r: Result<(), ValidationError>)
    ensures
        r == (if quote_accepted(TeeType::AmdSev, quote@) { Ok(()) } else { Err(ValidationError::InvalidQuote) }),
{
    if quote.len() == 0 {
        return Err(ValidationError::InvalidQuote);
    }
    Ok(())
}

/// Checks an attestation at time `now` (seconds since the Unix epoch). An
/// attestation dated after `now` counts as fresh.
pub fn verify_tee_attestation(attestation: &TeeAttestation, now: u64) -> (r: Result<(), ValidationError>)
    ensures
        r == attestation_outcome(*attestation, now),
{
    if now > attestation.timestamp && now - attestation.timestamp > MAX_ATTESTATION_AGE_SECS {
        return Err(ValidationError::StaleAttestation);
    }
    if !enclave_hash_matches(&attestation.enclave_hash) {
        return Err(ValidationError::InvalidEnclaveCode);
    }
    match attestation.tee_type {
        TeeType::IntelSgx => verify_sgx_quote(&attestation.quote),
        TeeType::ArmTrustZone => verify_trustzone_quote(&attestation.quote),
        TeeType::AppleSecureEnclave => verify_secure_enclave_quote(&attestation.quote),
        TeeType::AmdSev => verify_sev_quote(&attestation.quote),
    }
}

/// Checks declared hardware against the minimums: 2 CPU cores, 4 GB of RAM,
/// 100 GB of storage, 10 Mbps of bandwidth, in that order.
pub fn verify_resources(resources: &NodeResources) -> (r: Result<(), ValidationError>)
    ensures
        r == resources_outcome(*resources),
{
    if resources.cpu_cores < 2 {
        return Err(ValidationError::InsufficientCPU);
    }
    if resources.ram_gb < 4 {
        return Err(ValidationError::InsufficientRAM);
    }
    if resources.storage_gb < 100 {
        return Err(ValidationError::InsufficientStorage);
    }
    if resources.bandwidth_mbps < 10 {
        return Err(ValidationError::InsufficientBandwidth);
    }
    Ok(())
}

} // verus!
