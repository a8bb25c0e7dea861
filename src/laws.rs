use vstd::prelude::*;
use crate::types::{LatencyMeasurement, MeshXNode, NodeId, Shard, ValidationError};
use crate::shard::{
    in_africa, in_antarctica, in_asia, in_europe, in_north_america, in_oceania, in_south_america,
    minimum_stake_of, shard_of,
};
use crate::checks::{attestation_outcome, resources_outcome, MAX_ATTESTATION_AGE_SECS};
use crate::registry::{tri_sums, MIN_LATENCY_SOURCES};
use crate::validator::{
    insert_pos, location_outcome, node_outcome, passing, ranking, selection_outcome, PopValidator,
    VALIDATORS_PER_EPOCH,
};
use crate::vrf::{lex_lt, lex_lt_from};

verus! {

/// The number of measurements aimed at `target`.
pub open spec fn count_towards(links: Seq<LatencyMeasurement>, target: NodeId) -> nat
    decreases links.len(),
{
    if links.len() == 0 {
        0
    } else {
        count_towards(links.drop_last(), target) + (if links.last().to_node.bytes@ == target.bytes@ { 1nat } else { 0nat })
    }
}

/// A coordinate inside a continental box lands in that box's shard, unless
/// an earlier box in the order North America, Europe, Asia, South America,
/// Africa, Oceania holds it too; of these boxes only Africa overlaps
/// earlier ones (Europe and Asia). South of 60 degrees, outside every box,
/// is Antarctica; anywhere else is North America.
pub proof fn lemma_shard_boxes(lat: int, lon: int)
    ensures
        in_north_america(lat, lon) ==> shard_of(lat, lon) == Shard::NorthAmerica,
        in_europe(lat, lon) ==> shard_of(lat, lon) == Shard::Europe,
        in_asia(lat, lon) ==> shard_of(lat, lon) == Shard::Asia,
        in_south_america(lat, lon) ==> shard_of(lat, lon) == Shard::SouthAmerica,
        in_africa(lat, lon) && !in_europe(lat, lon) && !in_asia(lat, lon) ==> shard_of(lat, lon) == Shard::Africa,
        in_africa(lat, lon) && in_europe(lat, lon) ==> shard_of(lat, lon) == Shard::Europe,
        in_africa(lat, lon) && in_asia(lat, lon) ==> shard_of(lat, lon) == Shard::Asia,
        in_oceania(lat, lon) ==> shard_of(lat, lon) == Shard::Oceania,
        in_antarctica(lat) ==> shard_of(lat, lon) == Shard::Antarctica,
        !in_north_america(lat, lon) && !in_europe(lat, lon) && !in_asia(lat, lon)
            && !in_south_america(lat, lon) && !in_africa(lat, lon) && !in_oceania(lat, lon)
            && !in_antarctica(lat) ==> shard_of(lat, lon) == Shard::NorthAmerica,
{
}

/// An attestation more than an hour older than `now` fails validation with
/// `StaleAttestation`, whatever the rest of the node and the registry hold.
pub proof fn lemma_stale_attestation_fails(
    links: Seq<LatencyMeasurement>,
    nodes: Seq<MeshXNode>,
    node: MeshXNode,
    now: u64,
    distance_m: u64,
)
    requires
        now - node.tee_attestation.timestamp > MAX_ATTESTATION_AGE_SECS,
    ensures
        node_outcome(links, nodes, node, now, distance_m) == Err::<bool, ValidationError>(ValidationError::StaleAttestation),
{
}

/// Triangulation counts exactly the measurements aimed at the node.
pub proof fn lemma_tri_count(links: Seq<LatencyMeasurement>, nodes: Seq<MeshXNode>, target: NodeId)
    ensures
        tri_sums(links, nodes, target).0 == count_towards(links, target),
    decreases links.len(),
{
    if links.len() > 0 {
        lemma_tri_count(links.drop_last(), nodes, target);
    }
}

/// A node with a valid attestation but fewer than three measurements aimed
/// at it fails validation with `InsufficientLatencyData`.
pub proof fn lemma_too_few_measurements_fails(
    links: Seq<LatencyMeasurement>,
    nodes: Seq<MeshXNode>,
    node: MeshXNode,
    now: u64,
    distance_m: u64,
)
    requires
        attestation_outcome(node.tee_attestation, now) is Ok,
        count_towards(links, node.pubkey) < MIN_LATENCY_SOURCES,
    ensures
        node_outcome(links, nodes, node, now, distance_m) == Err::<bool, ValidationError>(ValidationError::InsufficientLatencyData),
{
    lemma_tri_count(links, nodes, node.pubkey);
}

/// Selection is a function of the registry, the epoch, the time and the
/// distances: two registries with the same nodes, latencies and minimum
/// select the same validators in the same order.
pub proof fn lemma_selection_deterministic(
    a: &PopValidator,
    b: &PopValidator,
    epoch: u64,
    now: u64,
    distances: Seq<u64>,
)
    requires
        a.node_seq() == b.node_seq(),
        a.link_seq() == b.link_seq(),
        a.min_validators() == b.min_validators(),
    ensures
        selection_outcome(a.link_seq(), a.node_seq(), a.min_validators(), epoch, now, distances)
            == selection_outcome(b.link_seq(), b.node_seq(), b.min_validators(), epoch, now, distances),
{
}

/// No more nodes pass than were looked at.
pub proof fn lemma_passing_len(
    links: Seq<LatencyMeasurement>,
    nodes: Seq<MeshXNode>,
    ranked: Seq<int>,
    k: nat,
    now: u64,
    distances: Seq<u64>,
)
    ensures
        passing(links, nodes, ranked, k, now, distances).len() <= k,
    decreases k,
{
    if k > 0 {
        lemma_passing_len(links, nodes, ranked, (k - 1) as nat, now, distances);
    }
}

/// Selection fails with `InsufficientValidators` when fewer nodes pass
/// validation than the minimum, in particular when fewer nodes are
/// registered than the minimum.
pub proof fn lemma_too_few_validators_fails(
    links: Seq<LatencyMeasurement>,
    nodes: Seq<MeshXNode>,
    minimum_nodes: usize,
    epoch: u64,
    now: u64,
    distances: Seq<u64>,
)
    requires
        nodes.len() < minimum_nodes,
    ensures
        selection_outcome(links, nodes, minimum_nodes, epoch, now, distances)
            == Err::<Seq<NodeId>, ValidationError>(ValidationError::InsufficientValidators),
{
    let k = if nodes.len() < VALIDATORS_PER_EPOCH { nodes.len() } else { VALIDATORS_PER_EPOCH as nat };
    let ranked = crate::validator::ranking(crate::validator::score_seq(nodes, epoch), nodes.len());
    lemma_passing_len(links, nodes, ranked, k, now, distances);
}

/// The resource gate checks CPU, RAM, storage and bandwidth in that order:
/// a single field short of its minimum gives its own error whatever the
/// others hold, and a node that passes every earlier check fails
/// validation with exactly that error.
pub proof fn lemma_resource_gate_order(
    links: Seq<LatencyMeasurement>,
    nodes: Seq<MeshXNode>,
    node: MeshXNode,
    now: u64,
    distance_m: u64,
)
    ensures
        node.resources.cpu_cores < 2 ==> resources_outcome(node.resources)
            == Err::<(), ValidationError>(ValidationError::InsufficientCPU),
        node.resources.cpu_cores >= 2 && node.resources.ram_gb < 4 ==> resources_outcome(node.resources)
            == Err::<(), ValidationError>(ValidationError::InsufficientRAM),
        node.resources.cpu_cores >= 2 && node.resources.ram_gb >= 4 && node.resources.storage_gb < 100
            ==> resources_outcome(node.resources) == Err::<(), ValidationError>(ValidationError::InsufficientStorage),
        node.resources.cpu_cores >= 2 && node.resources.ram_gb >= 4 && node.resources.storage_gb >= 100
            && node.resources.bandwidth_mbps < 10 ==> resources_outcome(node.resources)
            == Err::<(), ValidationError>(ValidationError::InsufficientBandwidth),
        attestation_outcome(node.tee_attestation, now) is Ok
            && location_outcome(links, nodes, node.pubkey, node.geo_location, distance_m) is Ok
            && node.stake_amount >= minimum_stake_of(node.shard) ==> node_outcome(links, nodes, node, now, distance_m)
            == (match resources_outcome(node.resources) {
                Ok(_) => Ok::<bool, ValidationError>(true),
                Err(e) => Err(e),
            }),
{
}


/// The byte order is asymmetric: no string sorts before one that sorts
/// before it.
pub proof fn lemma_lex_lt_asymmetric(a: Seq<u8>, b: Seq<u8>, i: int)
    requires
        0 <= i,
    ensures
        lex_lt_from(a, b, i) ==> !lex_lt_from(b, a, i),
    decreases a.len() - i,
{
    if i < a.len() && i < b.len() && a[i] == b[i] {
        lemma_lex_lt_asymmetric(a, b, i + 1);
    }
}

proof fn lemma_insert_pos(order: Seq<int>, scores: Seq<Seq<u8>>, x: int, i: int)
    requires
        0 <= i <= order.len(),
        forall|q: int| 0 <= q < i ==> !lex_lt(scores[x], scores[#[trigger] order[q]]),
    ensures
        i <= insert_pos(order, scores, x, i) <= order.len(),
        forall|q: int| 0 <= q < insert_pos(order, scores, x, i) ==> !lex_lt(scores[x], scores[#[trigger] order[q]]),
        insert_pos(order, scores, x, i) < order.len() ==> lex_lt(scores[x], scores[order[insert_pos(order, scores, x, i)]]),
    decreases order.len() - i,
{
    if i < order.len() && !lex_lt(scores[x], scores[order[i]]) {
        lemma_insert_pos(order, scores, x, i + 1);
    }
}

/// The ranking of `n` scores lists each index below `n` exactly once, in
/// ascending order of score: no entry's score sorts before the score of the
/// entry ahead of it.
pub proof fn lemma_ranking_sorted(scores: Seq<Seq<u8>>, n: nat)
    requires
        n <= scores.len(),
    ensures
        ranking(scores, n).len() == n,
        forall|k: int| 0 <= k < n ==> 0 <= #[trigger] ranking(scores, n)[k] < n,
        forall|k: int, j: int| 0 <= k < j < n ==> ranking(scores, n)[k] != ranking(scores, n)[j],
        forall|i: int| 0 <= i < n ==> ranking(scores, n).contains(i),
        forall|k: int| 0 <= k < n - 1 ==> !lex_lt(
            scores[ranking(scores, n)[k + 1]],
            scores[#[trigger] ranking(scores, n)[k]],
        ),
    decreases n,
{
    if n > 0 {
        let m = (n - 1) as nat;
        lemma_ranking_sorted(scores, m);
        let r = ranking(scores, m);
        let x = m as int;
        lemma_insert_pos(r, scores, x, 0);
        let p = insert_pos(r, scores, x, 0);
        let r2 = r.insert(p, x);
        r.insert_ensures(p, x);
        assert(r2 == ranking(scores, n));
        assert forall|k: int| 0 <= k < n - 1 implies !lex_lt(scores[r2[k + 1]], scores[#[trigger] r2[k]]) by {
            if k + 1 < p {
                assert(r2[k] == r[k] && r2[k + 1] == r[k + 1]);
            } else if k + 1 == p {
                assert(r2[k] == r[k] && r2[k + 1] == x);
            } else if k == p {
                assert(r2[k] == x && r2[k + 1] == r[k]);
                lemma_lex_lt_asymmetric(scores[x], scores[r[k]], 0);
            } else {
                assert(r2[k] == r[k - 1] && r2[k + 1] == r[k]);
            }
        }
        assert forall|k: int, j: int| 0 <= k < j < n implies r2[k] != r2[j] by {
            if k < p {
                assert(r2[k] == r[k]);
            } else if k > p {
                assert(r2[k] == r[k - 1]);
            }
            if j < p {
                assert(r2[j] == r[j]);
            } else if j > p {
                assert(r2[j] == r[j - 1]);
            }
        }
        assert forall|k: int| 0 <= k < n implies 0 <= #[trigger] r2[k] < n by {
            if k < p {
                assert(r2[k] == r[k]);
            } else if k > p {
                assert(r2[k] == r[k - 1]);
            }
        }
        assert forall|i: int| 0 <= i < n implies r2.contains(i) by {
            if i == x {
                assert(r2[p] == x);
            } else {
                assert(r.contains(i));
                let k = choose|k: int| 0 <= k < r.len() && r[k] == i;
                if k < p {
                    assert(r2[k] == i);
                } else {
                    assert(r2[k + 1] == i);
                }
            }
        }
    }
}

} // verus!
