use vstd::prelude::*;
use vstd::arithmetic::div_mod::{lemma_div_by_multiple, lemma_div_is_ordered};
use crate::types::{GeoLocation, LatencyMeasurement, MeshXNode, NodeId, Shard, ValidationError, same_id};
use crate::shard::{minimum_stake, minimum_stake_of, shard_of};
use crate::checks::{attestation_outcome, resources_outcome, verify_resources, verify_tee_attestation};
use crate::registry::{
    find_link, find_node, link_index, links_wf, node_index, nodes_wf, tri_sums, triangulated,
    MIN_LATENCY_SOURCES, TRIANGULATION_ACCURACY_M, WEIGHT_SCALE,
};
use crate::laws::lemma_ranking_sorted;
use crate::vrf::{bytes_lt, compute_vrf_input, compute_vrf_output, lex_lt, vrf_score};

verus! {

/// How many of the best-ranked nodes an epoch's selection considers.
pub const VALIDATORS_PER_EPOCH: usize = 1000;

/// The outcome of the location check of a node with identity `target`
/// claiming `claimed`, where `distance_m` is the great-circle distance in
/// metres between the triangulated position and the claimed one.
pub open spec fn location_outcome(
    links: Seq<LatencyMeasurement>,
    nodes: Seq<MeshXNode>,
    target: NodeId,
    claimed: GeoLocation,
    distance_m: u64,
) -> Result<(), ValidationError> {
    match triangulated(links, nodes, target) {
        Err(e) => Err(e),
        Ok(_) => if distance_m > claimed.accuracy_meters {
            Err(ValidationError::LocationMismatch)
        } else {
            Ok(())
        },
    }
}

/// The outcome of full node validation: attestation, location, stake,
/// resources, the first failure short-circuiting the rest.
pub open spec fn node_outcome(
    links: Seq<LatencyMeasurement>,
    nodes: Seq<MeshXNode>,
    node: MeshXNode,
    now: u64,
    distance_m: u64,
) -> Result<bool, ValidationError> {
    match attestation_outcome(node.tee_attestation, now) {
        Err(e) => Err(e),
        Ok(_) => match location_outcome(links, nodes, node.pubkey, node.geo_location, distance_m) {
            Err(e) => Err(e),
            Ok(_) => if node.stake_amount < minimum_stake_of(node.shard) {
                Err(ValidationError::InsufficientStake)
            } else {
                match resources_outcome(node.resources) {
                    Err(e) => Err(e),
                    Ok(_) => Ok(true),
                }
            },
        },
    }
}

/// Each registered node's selection score in an epoch, in registry order.
pub open spec fn score_seq(nodes: Seq<MeshXNode>, epoch: u64) -> Seq<Seq<u8>> {
    Seq::new(nodes.len(), |i: int| vrf_score(epoch, nodes[i].pubkey))
}

/// Where index `x` goes in the ranked `order`, searching from `p`: before
/// the first entry whose score is strictly greater, so that equal scores
/// keep registry order.
pub open spec fn insert_pos(order: Seq<int>, scores: Seq<Seq<u8>>, x: int, p: int) -> int
    decreases order.len() - p,
{
    if p < 0 || p >= order.len() {
        order.len() as int
    } else if lex_lt(scores[x], scores[order[p]]) {
        p
    } else {
        insert_pos(order, scores, x, p + 1)
    }
}

/// The indices of the first `n` scores, ordered by ascending score, equal
/// scores in index order.
pub open spec fn ranking(scores: Seq<Seq<u8>>, n: nat) -> Seq<int>
    decreases n,
{
    if n == 0 {
        Seq::empty()
    } else {
        let r = ranking(scores, (n - 1) as nat);
        r.insert(insert_pos(r, scores, n - 1, 0), n - 1)
    }
}

/// The identities among the first `k` ranked nodes that pass validation,
/// in rank order; `distances[i]` is the measured distance of node `i`.
pub open spec fn passing(
    links: Seq<LatencyMeasurement>,
    nodes: Seq<MeshXNode>,
    ranked: Seq<int>,
    k: nat,
    now: u64,
    distances: Seq<u64>,
) -> Seq<NodeId>
    decreases k,
{
    if k == 0 {
        Seq::empty()
    } else {
        let prev = passing(links, nodes, ranked, (k - 1) as nat, now, distances);
        let idx = ranked[k - 1];
        if node_outcome(links, nodes, nodes[idx], now, distances[idx]) is Ok {
            prev.push(nodes[idx].pubkey)
        } else {
            prev
        }
    }
}

/// The outcome of an epoch's selection: rank every node by its score, keep
/// the best `VALIDATORS_PER_EPOCH` of them, keep those that pass validation,
/// and fail if fewer than `minimum_nodes` remain.
pub open spec fn selection_outcome(
    links: Seq<LatencyMeasurement>,
    nodes: Seq<MeshXNode>,
    minimum_nodes: usize,
    epoch: u64,
    now: u64,
    distances: Seq<u64>,
) -> Result<Seq<NodeId>, ValidationError> {
    let ranked = ranking(score_seq(nodes, epoch), nodes.len());
    let k = if nodes.len() < VALIDATORS_PER_EPOCH { nodes.len() } else { VALIDATORS_PER_EPOCH as nat };
    let chosen = passing(links, nodes, ranked, k, now, distances);
    if chosen.len() < minimum_nodes {
        Err(ValidationError::InsufficientValidators)
    } else {
        Ok(chosen)
    }
}

/// The validator registry: epoch counter, registered nodes, the latest
/// latency of each ordered pair of nodes, and the fewest validators an
/// epoch may have.
pub struct PopValidator {
    current_epoch: u64,
    nodes: Vec<MeshXNode>,
    latency_matrix: Vec<LatencyMeasurement>,
    minimum_nodes: usize,
}

impl PopValidator {
    /// The registered nodes, in registry order.
    pub closed spec fn node_seq(&self) -> Seq<MeshXNode> {
        self.nodes@
    }

    /// The recorded latencies, one per ordered pair of nodes.
    pub closed spec fn link_seq(&self) -> Seq<LatencyMeasurement> {
        self.latency_matrix@
    }

    /// The current epoch.
    pub closed spec fn epoch(&self) -> u64 {
        self.current_epoch
    }

    /// The fewest validators an epoch's selection may yield.
    pub closed spec fn min_validators(&self) -> usize {
        self.minimum_nodes
    }

    /// Identities are unique, locations valid, shards those of the
    /// locations, and each ordered pair has at most one latency.
    pub open spec fn wf(&self) -> bool {
        nodes_wf(self.node_seq()) && links_wf(self.link_seq())
    }

    /// An empty registry at epoch zero.
    pub fn new(minimum_nodes: usize) -> (r: Self)
        ensures
            r.wf(),
            r.epoch() == 0,
            r.min_validators() == minimum_nodes,
            r.node_seq().len() == 0,
            r.link_seq().len() == 0,
    {
        PopValidator { current_epoch: 0, nodes: Vec::new(), latency_matrix: Vec::new(), minimum_nodes }
    }

    /// The current epoch.
    pub fn current_epoch(&self) -> (r: u64)
        ensures
            r == self.epoch(),
    {
        self.current_epoch
    }

    /// The fewest validators an epoch's selection may yield.
    pub fn minimum_nodes(&self) -> (r: usize)
        ensures
            r == self.min_validators(),
    {
        self.minimum_nodes
    }

    /// Moves to the next epoch; nothing else changes.
    pub fn advance_epoch(&mut self)
        requires
            old(self).epoch() < u64::MAX,
        ensures
            final(self).epoch() == old(self).epoch() + 1,
            final(self).min_validators() == old(self).min_validators(),
            final(self).node_seq() == old(self).node_seq(),
            final(self).link_seq() == old(self).link_seq(),
            final(self).wf() == old(self).wf(),
    {
        self.current_epoch = self.current_epoch + 1;
    }

    /// The registered nodes.
    pub fn nodes(&self) -> (r: &Vec<MeshXNode>)
        ensures
            r@ == self.node_seq(),
    {
        &self.nodes
    }

    /// The recorded latencies.
    pub fn latencies(&self) -> (r: &Vec<LatencyMeasurement>)
        ensures
            r@ == self.link_seq(),
    {
        &self.latency_matrix
    }

    /// Assigns a location to its continental shard.
    pub fn assign_shard(location: &GeoLocation) -> (r: Shard)
        ensures
            r == shard_of(location.latitude as int, location.longitude as int),
    {
        let lat = location.latitude;
        let lon = location.longitude;
        if lat > 15_000_000 && lat < 75_000_000 && lon > -170_000_000 && lon < -50_000_000 {
            Shard::NorthAmerica
        } else if lat > 35_000_000 && lat < 75_000_000 && lon > -15_000_000 && lon < 40_000_000 {
            Shard::Europe
        } else if lat > -10_000_000 && lat < 55_000_000 && lon > 40_000_000 && lon < 150_000_000 {
            Shard::Asia
        } else if lat > -60_000_000 && lat < 15_000_000 && lon > -85_000_000 && lon < -30_000_000 {
            Shard::SouthAmerica
        } else if lat > -40_000_000 && lat < 40_000_000 && lon > -20_000_000 && lon < 55_000_000 {
            Shard::Africa
        } else if lat > -50_000_000 && lat < -10_000_000 && lon > 110_000_000 && lon < 180_000_000 {
            Shard::Oceania
        } else if lat < -60_000_000 {
            Shard::Antarctica
        } else {
            Shard::NorthAmerica
        }
    }

    /// Registers a node, or replaces the node with the same identity. The
    /// stored shard is the one its location is assigned to.
    pub fn register_node(&mut self, node: MeshXNode)
        requires
            old(self).wf(),
            node.geo_location.wf(),
        ensures
            final(self).wf(),
            final(self).epoch() == old(self).epoch(),
            final(self).min_validators() == old(self).min_validators(),
            final(self).link_seq() == old(self).link_seq(),
            final(self).node_seq() == (match node_index(old(self).node_seq(), node.pubkey) {
                Some(i) => old(self).node_seq().update(i, (MeshXNode {
                    shard: shard_of(node.geo_location.latitude as int, node.geo_location.longitude as int),
                    ..node
                })),
                None => old(self).node_seq().push((MeshXNode {
                    shard: shard_of(node.geo_location.latitude as int, node.geo_location.longitude as int),
                    ..node
                })),
            }),
    {
        let mut node = node;
        node.shard = Self::assign_shard(&node.geo_location);
        match find_node(&self.nodes, &node.pubkey) {
            Some(i) => {
                self.nodes.set(i, node);
            },
            None => {
                self.nodes.push(node);
            },
        }
    }

    /// Records a latency measurement; it replaces the one of the same
    /// ordered pair, if any.
    pub fn record_latency(&mut self, measurement: LatencyMeasurement)
        requires
            old(self).wf(),
        ensures
            final(self).wf(),
            final(self).epoch() == old(self).epoch(),
            final(self).min_validators() == old(self).min_validators(),
            final(self).node_seq() == old(self).node_seq(),
            final(self).link_seq() == (match link_index(old(self).link_seq(), measurement.from_node, measurement.to_node) {
                Some(i) => old(self).link_seq().update(i, measurement),
                None => old(self).link_seq().push(measurement),
            }),
    {
        match find_link(&self.latency_matrix, &measurement.from_node, &measurement.to_node) {
            Some(i) => {
                self.latency_matrix.set(i, measurement);
            },
            None => {
                self.latency_matrix.push(measurement);
            },
        }
    }

    /// Estimates the position of `target` from the latencies measured
    /// towards it.
    pub fn triangulate_position(&self, target: &NodeId) -> (r: Result<GeoLocation, ValidationError>)
        requires
            self.wf(),
        ensures
            r == triangulated(self.link_seq(), self.node_seq(), *target),
            r matches Ok(loc) ==> loc.wf(),
    {
        let links = &self.latency_matrix;
        let nodes = &self.nodes;
        let mut count: u64 = 0;
        let mut lat_sum: u128 = 0;
        let mut lon_sum: u128 = 0;
        let mut weight_sum: u128 = 0;
        let mut i: usize = 0;
        while i < links.len()
            invariant
                i <= links@.len(),
                nodes_wf(nodes@),
                (count as int, lat_sum as int, lon_sum as int, weight_sum as int)
                    == tri_sums(links@.take(i as int), nodes@, *target),
                count <= i,
                weight_sum <= i * WEIGHT_SCALE,
                lat_sum <= 180_000_000 * weight_sum,
                lon_sum <= 360_000_000 * weight_sum,
            decreases links@.len() - i,
        {
            let m = &links[i];
            proof {
                assert(links@.take(i + 1).drop_last() =~= links@.take(i as int));
            }
            if same_id(&m.to_node, target) {
                count = count + 1;
                match find_node(nodes, &m.from_node) {
                    Some(j) => {
                        let l: u64 = if m.latency_ms == 0 { 1 } else { m.latency_ms as u64 };
                        let w: u64 = WEIGHT_SCALE / l;
                        assert(w <= WEIGHT_SCALE) by (nonlinear_arith)
                            requires w == WEIGHT_SCALE / l, l >= 1;
                        let loc = &nodes[j].geo_location;
                        assert(nodes@[j as int].geo_location.wf());
                        let la: u128 = (loc.latitude + 90_000_000) as u128;
                        let lo: u128 = (loc.longitude + 180_000_000) as u128;
                        assert(la * w <= 180_000_000 * w) by (nonlinear_arith)
                            requires la <= 180_000_000;
                        assert(lo * w <= 360_000_000 * w) by (nonlinear_arith)
                            requires lo <= 360_000_000;
                        assert(weight_sum + w <= (i + 1) * WEIGHT_SCALE) by (nonlinear_arith)
                            requires weight_sum <= i * WEIGHT_SCALE, w <= WEIGHT_SCALE;
                        assert((i + 1) * WEIGHT_SCALE <= 0x1_0000_0000_0000_0000_0000_0000) by (nonlinear_arith)
                            requires i < 0x1_0000_0000_0000_0000;
                        lat_sum = lat_sum + la * (w as u128);
                        lon_sum = lon_sum + lo * (w as u128);
                        weight_sum = weight_sum + w as u128;
                    },
                    None => {},
                }
            }
            i = i + 1;
        }
        proof {
            assert(links@.take(links@.len() as int) =~= links@);
        }
        if count < MIN_LATENCY_SOURCES {
            return Err(ValidationError::InsufficientLatencyData);
        }
        if weight_sum == 0 {
            return Err(ValidationError::LocationMismatch);
        }
        proof {
            lemma_div_is_ordered(lat_sum as int, 180_000_000 * weight_sum, weight_sum as int);
            lemma_div_by_multiple(180_000_000, weight_sum as int);
            lemma_div_is_ordered(lon_sum as int, 360_000_000 * weight_sum, weight_sum as int);
            lemma_div_by_multiple(360_000_000, weight_sum as int);
        }
        let lat_mean = (lat_sum / weight_sum) as i64;
        let lon_mean = (lon_sum / weight_sum) as i64;
        Ok(GeoLocation {
            latitude: lat_mean - 90_000_000,
            longitude: lon_mean - 180_000_000,
            accuracy_meters: TRIANGULATION_ACCURACY_M,
        })
    }
    /// Checks the claimed location of `node_pubkey` against triangulation;
    /// `distance_m` is the great-circle distance in metres between the
    /// position `triangulate_position` gives for it and `claimed_location`.
    pub fn verify_location(
        &self,
        node_pubkey: &NodeId,
        claimed_location: &GeoLocation,
        distance_m: u64,
    ) -> (r: Result<(), ValidationError>)
        requires
            self.wf(),
        ensures
            r == location_outcome(self.link_seq(), self.node_seq(), *node_pubkey, *claimed_location, distance_m),
    {
        match self.triangulate_position(node_pubkey) {
            Err(e) => Err(e),
            Ok(_) => {
                if distance_m > claimed_location.accuracy_meters {
                    Err(ValidationError::LocationMismatch)
                } else {
                    Ok(())
                }
            },
        }
    }

    /// Validates a node at time `now` (seconds since the Unix epoch):
    /// attestation, location, stake, resources, in that order, the first
    /// failure returned. `distance_m` is the great-circle distance in metres
    /// between the node's triangulated position and its claimed location.
    pub fn validate_node(&self, node: &MeshXNode, now: u64, distance_m: u64) -> (r: Result<bool, ValidationError>)
        requires
            self.wf(),
        ensures
            r == node_outcome(self.link_seq(), self.node_seq(), *node, now, distance_m),
    {
        match verify_tee_attestation(&node.tee_attestation, now) {
            Err(e) => {
                return Err(e);
            },
            Ok(_) => {},
        }
        match self.verify_location(&node.pubkey, &node.geo_location, distance_m) {
            Err(e) => {
                return Err(e);
            },
            Ok(_) => {},
        }
        if node.stake_amount < minimum_stake(&node.shard) {
            return Err(ValidationError::InsufficientStake);
        }
        match verify_resources(&node.resources) {
            Err(e) => Err(e),
            Ok(_) => Ok(true),
        }
    }

    /// Ranks the registered nodes by their score in `epoch`, ascending, equal
    /// scores in registry order.
    pub fn rank_nodes(&self, epoch: u64) -> (r: Vec<usize>)
        ensures
            r@.map_values(|k: usize| k as int) == ranking(score_seq(self.node_seq(), epoch), self.node_seq().len()),
            r@.len() == self.node_seq().len(),
            forall|k: int| 0 <= k < r@.len() ==> r@[k] < self.node_seq().len(),
            forall|k: int, j: int| 0 <= k < j < r@.len() ==> r@[k] != r@[j],
            forall|k: int| 0 <= k < r@.len() - 1 ==> !lex_lt(
                score_seq(self.node_seq(), epoch)[r@[k + 1] as int],
                score_seq(self.node_seq(), epoch)[#[trigger] r@[k] as int],
            ),
    {
        let nodes = &self.nodes;
        let ghost ss = score_seq(nodes@, epoch);
        let mut scores: Vec<[u8; 32]> = Vec::new();
        let mut i: usize = 0;
        while i < nodes.len()
            invariant
                i <= nodes@.len(),
                ss == score_seq(nodes@, epoch),
                scores@.len() == i,
                forall|k: int| 0 <= k < i ==> (#[trigger] scores@[k])@ == ss[k],
            decreases nodes@.len() - i,
        {
            let input = compute_vrf_input(epoch, &nodes[i].pubkey);
            let output = compute_vrf_output(&input, &nodes[i].pubkey);
            scores.push(output);
            i = i + 1;
        }
        let mut order: Vec<usize> = Vec::new();
        let mut x: usize = 0;
        while x < nodes.len()
            invariant
                x <= nodes@.len(),
                scores@.len() == nodes@.len(),
                ss.len() == nodes@.len(),
                forall|k: int| 0 <= k < nodes@.len() ==> (#[trigger] scores@[k])@ == ss[k],
                order@.map_values(|k: usize| k as int) == ranking(ss, x as nat),
                order@.len() == x,
                forall|k: int| 0 <= k < order@.len() ==> order@[k] < x,
            decreases nodes@.len() - x,
        {
            let ghost r = order@.map_values(|k: usize| k as int);
            let mut p: usize = 0;
            while p < order.len() && !bytes_lt(&scores[x], &scores[order[p]])
                invariant
                    p <= order@.len(),
                    x < nodes@.len(),
                    scores@.len() == nodes@.len(),
                    forall|k: int| 0 <= k < nodes@.len() ==> (#[trigger] scores@[k])@ == ss[k],
                    forall|k: int| 0 <= k < order@.len() ==> order@[k] < x,
                    r == order@.map_values(|k: usize| k as int),
                    insert_pos(r, ss, x as int, 0) == insert_pos(r, ss, x as int, p as int),
                decreases order@.len() - p,
            {
                p = p + 1;
            }
            order.insert(p, x);
            proof {
                assert(order@.map_values(|k: usize| k as int) =~= r.insert(p as int, x as int));
            }
            x = x + 1;
        }
        proof {
            lemma_ranking_sorted(ss, nodes@.len());
            let r = order@.map_values(|k: usize| k as int);
            assert forall|k: int| 0 <= k < order@.len() implies #[trigger] order@[k] as int == r[k] by {}
        }
        order
    }

    /// Selects the validators of `epoch` at time `now`: the registered nodes
    /// ranked by score, the best `VALIDATORS_PER_EPOCH` kept, those that pass
    /// `validate_node` kept in rank order. `distances[i]` is the measured
    /// distance of the `i`-th registered node (see `validate_node`). Fails
    /// with `InsufficientValidators` when fewer than `minimum_nodes` remain.
    pub fn select_validators(&self, epoch: u64, now: u64, distances: &Vec<u64>) -> (r: Result<Vec<NodeId>, ValidationError>)
        requires
            self.wf(),
            distances@.len() == self.node_seq().len(),
        ensures
            r matches Ok(v) ==> selection_outcome(self.link_seq(), self.node_seq(), self.min_validators(), epoch, now, distances@) == Ok::<Seq<NodeId>, ValidationError>(v@),
            r matches Err(e) ==> selection_outcome(self.link_seq(), self.node_seq(), self.min_validators(), epoch, now, distances@) == Err::<Seq<NodeId>, ValidationError>(e),
    {
        let order = self.rank_nodes(epoch);
        let ghost ranked = ranking(score_seq(self.nodes@, epoch), self.nodes@.len());
        let limit: usize = if self.nodes.len() < VALIDATORS_PER_EPOCH { self.nodes.len() } else { VALIDATORS_PER_EPOCH };
        let mut selected: Vec<NodeId> = Vec::new();
        let mut k: usize = 0;
        while k < limit
            invariant
                self.wf(),
                limit <= self.nodes@.len(),
                k <= limit,
                distances@.len() == self.nodes@.len(),
                ranked == order@.map_values(|q: usize| q as int),
                order@.len() == self.nodes@.len(),
                forall|q: int| 0 <= q < order@.len() ==> order@[q] < self.nodes@.len(),
                selected@ == passing(self.latency_matrix@, self.nodes@, ranked, k as nat, now, distances@),
            decreases limit - k,
        {
            let idx = order[k];
            let node = &self.nodes[idx];
            if self.validate_node(node, now, distances[idx]).is_ok() {
                selected.push(node.pubkey);
            }
            k = k + 1;
        }
        if selected.len() < self.minimum_nodes {
            return Err(ValidationError::InsufficientValidators);
        }
        Ok(selected)
    }
}

} // verus!
