use vstd::prelude::*;
use crate::types::NodeId;

verus! {

/// The SHA3-256 digest of a byte string.
pub uninterp spec fn sha3_256_of(data: Seq<u8>) -> Seq<u8>;

/// Relies on sha3::Sha3_256 through sha3::Digest::digest: the result is the
/// SHA3-256 digest of `data`, which depends on the bytes alone.
#[verifier::external_body]
fn sha3_256(data: &Vec<u8>) -> (r: [u8; 32])
    ensures
        r@ == sha3_256_of(data@),
{
    let digest = <sha3::Sha3_256 as sha3::Digest>::digest(data.as_slice());
    let mut r = [0u8; 32];
    r.copy_from_slice(&digest[..]);
    r
}

/// Domain tag of the first hash of the chain: "MESHX_VRF_INPUT".
pub open spec fn input_tag() -> Seq<u8> {
    seq![77u8, 69, 83, 72, 88, 95, 86, 82, 70, 95, 73, 78, 80, 85, 84]
}

/// Domain tag of the second hash of the chain: "MESHX_VRF_OUTPUT".
pub open spec fn output_tag() -> Seq<u8> {
    seq![77u8, 69, 83, 72, 88, 95, 86, 82, 70, 95, 79, 85, 84, 80, 85, 84]
}

/// The eight little-endian bytes of a 64-bit integer.
pub open spec fn le_bytes(x: u64) -> Seq<u8> {
    Seq::new(8, |k: int| (x >> ((8 * k) as u64)) as u8)
}

/// The first hash of the chain: tag, epoch, identity.
pub open spec fn vrf_input_of(epoch: u64, id: NodeId) -> Seq<u8> {
    sha3_256_of(input_tag() + le_bytes(epoch) + id.bytes@)
}

/// The second hash of the chain: tag, first hash, identity.
pub open spec fn vrf_output_of(input: Seq<u8>, id: NodeId) -> Seq<u8> {
    sha3_256_of(output_tag() + input + id.bytes@)
}

/// The selection score of a node in an epoch.
pub open spec fn vrf_score(epoch: u64, id: NodeId) -> Seq<u8> {
    vrf_output_of(vrf_input_of(epoch, id), id)
}

fn push_le_bytes(out: &mut Vec<u8>, x: u64)
    ensures
        final(out)@ == old(out)@ + le_bytes(x),
{
    let ghost start = out@;
    let mut k: u64 = 0;
    while k < 8
        invariant
            k <= 8,
            out@ == start + le_bytes(x).take(k as int),
        decreases 8 - k,
    {
        out.push((x >> (8 * k)) as u8);
        proof {
            assert(le_bytes(x).take(k + 1) =~= le_bytes(x).take(k as int).push(le_bytes(x)[k as int]));
        }
        k = k + 1;
    }
    assert(le_bytes(x).take(8) =~= le_bytes(x));
}

fn push_id(out: &mut Vec<u8>, id: &NodeId)
    ensures
        final(out)@ == old(out)@ + id.bytes@,
{
    let ghost start = out@;
    let mut k: usize = 0;
    while k < 32
        invariant
            k <= 32,
            id.bytes@.len() == 32,
            out@ == start + id.bytes@.take(k as int),
        decreases 32 - k,
    {
        out.push(id.bytes[k]);
        proof {
            assert(id.bytes@.take(k + 1) =~= id.bytes@.take(k as int).push(id.bytes@[k as int]));
        }
        k = k + 1;
    }
    assert(id.bytes@.take(32) =~= id.bytes@);
}

fn push_array(out: &mut Vec<u8>, a: &[u8; 32])
    ensures
        final(out)@ == old(out)@ + a@,
{
    let ghost start = out@;
    let mut k: usize = 0;
    while k < 32
        invariant
            k <= 32,
            a@.len() == 32,
            out@ == start + a@.take(k as int),
        decreases 32 - k,
    {
        out.push(a[k]);
        proof {
            assert(a@.take(k + 1) =~= a@.take(k as int).push(a@[k as int]));
        }
        k = k + 1;
    }
    assert(a@.take(32) =~= a@);
}

/// First stage of the selection hash chain for a node in an epoch.
pub fn compute_vrf_input(epoch: u64, pubkey: &NodeId) -> (r: [u8; 32])
    ensures
        r@ == vrf_input_of(epoch, *pubkey),
{
    let mut data: Vec<u8> = vec![77u8, 69, 83, 72, 88, 95, 86, 82, 70, 95, 73, 78, 80, 85, 84];
    assert(data@ == input_tag());
    push_le_bytes(&mut data, epoch);
    push_id(&mut data, pubkey);
    sha3_256(&data)
}

/// Second stage of the selection hash chain, over the first stage's result.
pub fn compute_vrf_output(input: &[u8; 32], pubkey: &NodeId) -> (r: [u8; 32])
    ensures
        r@ == vrf_output_of(input@, *pubkey),
{
    let mut data: Vec<u8> = vec![77u8, 69, 83, 72, 88, 95, 86, 82, 70, 95, 79, 85, 84, 80, 85, 84];
    assert(data@ == output_tag());
    push_array(&mut data, input);
    push_id(&mut data, pubkey);
    sha3_256(&data)
}

/// Whether `a` sorts strictly before `b`, comparing from position `i` on.
pub open spec fn lex_lt_from(a: Seq<u8>, b: Seq<u8>, i: int) -> bool
    decreases a.len() - i,
{
    if i < 0 || i >= a.len() || i >= b.len() {
        i >= 0 && i >= a.len() && i < b.len()
    } else if a[i] < b[i] {
        true
    } else if a[i] > b[i] {
        false
    } else {
        lex_lt_from(a, b, i + 1)
    }
}

/// Lexicographic order on byte strings.
pub open spec fn lex_lt(a: Seq<u8>, b: Seq<u8>) -> bool {
    lex_lt_from(a, b, 0)
}

/// Whether the 32-byte string `a` sorts strictly before `b`.
pub fn bytes_lt(a: &[u8; 32], b: &[u8; 32]) -> (r: bool)
    ensures
        r == lex_lt(a@, b@),
{
    let mut i: usize = 0;
    while i < 32
        invariant
            i <= 32,
            a@.len() == 32,
            b@.len() == 32,
            lex_lt(a@, b@) == lex_lt_from(a@, b@, i as int),
        decreases 32 - i,
    {
        if a[i] < b[i] {
            return true;
        } else if a[i] > b[i] {
            return false;
        }
        i = i + 1;
    }
    false
}

} // verus!
