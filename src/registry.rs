use vstd::prelude::*;
use crate::types::{same_id, GeoLocation, LatencyMeasurement, MeshXNode, NodeId, ValidationError};
use crate::shard::shard_of;

verus! {

/// Weight numerator of the inverse-latency centroid: a peer at `l`
/// milliseconds weighs `WEIGHT_SCALE / l`.
pub const WEIGHT_SCALE: u64 = 4_294_967_296;

/// Accuracy radius, in metres, of a triangulated position.
pub const TRIANGULATION_ACCURACY_M: u64 = 50_000;

/// Fewest measurements towards a node that triangulation accepts.
pub const MIN_LATENCY_SOURCES: u64 = 3;

/// The first index at or after `i` whose node has identity `id`.
pub open spec fn node_index_from(nodes: Seq<MeshXNode>, id: NodeId, i: int) -> Option<int>
    decreases nodes.len() - i,
{
    if i < 0 || i >= nodes.len() {
        None
    } else if nodes[i].pubkey.bytes@ == id.bytes@ {
        Some(i)
    } else {
        node_index_from(nodes, id, i + 1)
    }
}

/// Where the node with identity `id` stands in the registry, if anywhere.
pub open spec fn node_index(nodes: Seq<MeshXNode>, id: NodeId) -> Option<int> {
    node_index_from(nodes, id, 0)
}

/// The first index at or after `i` of a measurement from `from` to `to`.
pub open spec fn link_index_from(links: Seq<LatencyMeasurement>, from: NodeId, to: NodeId, i: int) -> Option<int>
    decreases links.len() - i,
{
    if i < 0 || i >= links.len() {
        None
    } else if links[i].from_node.bytes@ == from.bytes@ && links[i].to_node.bytes@ == to.bytes@ {
        Some(i)
    } else {
        link_index_from(links, from, to, i + 1)
    }
}

/// Where the measurement from `from` to `to` stands, if anywhere.
pub open spec fn link_index(links: Seq<LatencyMeasurement>, from: NodeId, to: NodeId) -> Option<int> {
    link_index_from(links, from, to, 0)
}

/// The weight of a peer measured at `latency_ms`; a zero latency counts as
/// one millisecond.
pub open spec fn weight_of(latency_ms: u32) -> int {
    WEIGHT_SCALE as int / (if latency_ms == 0 { 1int } else { latency_ms as int })
}

/// Running sums of triangulation over a prefix of the measurements: the
/// number aimed at `target`, the weighted sums of the known peers' latitude
/// and longitude (shifted to be non-negative), and the sum of their weights.
pub open spec fn tri_sums(links: Seq<LatencyMeasurement>, nodes: Seq<MeshXNode>, target: NodeId) -> (int, int, int, int)
    decreases links.len(),
{
    if links.len() == 0 {
        (0, 0, 0, 0)
    } else {
        let prev = tri_sums(links.drop_last(), nodes, target);
        let m = links.last();
        if m.to_node.bytes@ != target.bytes@ {
            prev
        } else {
            match node_index(nodes, m.from_node) {
                None => (prev.0 + 1, prev.1, prev.2, prev.3),
                Some(j) => {
                    let w = weight_of(m.latency_ms);
                    let loc = nodes[j].geo_location;
                    (
                        prev.0 + 1,
                        prev.1 + (loc.latitude + 90_000_000) * w,
                        prev.2 + (loc.longitude + 180_000_000) * w,
                        prev.3 + w,
                    )
                },
            }
        }
    }
}

/// The triangulated position of `target`: the inverse-latency weighted
/// centroid of the registered peers that measured it, rounded down to the
/// millionth of a degree. Fewer than three measurements towards it give
/// `InsufficientLatencyData`; measurements from unregistered peers only
/// count towards that number, and with no registered peer among them no
/// position can match (`LocationMismatch`).
pub open spec fn triangulated(links: Seq<LatencyMeasurement>, nodes: Seq<MeshXNode>, target: NodeId) -> Result<GeoLocation, ValidationError> {
    let s = tri_sums(links, nodes, target);
    if s.0 < MIN_LATENCY_SOURCES {
        Err(ValidationError::InsufficientLatencyData)
    } else if s.3 == 0 {
        Err(ValidationError::LocationMismatch)
    } else {
        Ok(GeoLocation {
            latitude: (s.1 / s.3 - 90_000_000) as i64,
            longitude: (s.2 / s.3 - 180_000_000) as i64,
            accuracy_meters: TRIANGULATION_ACCURACY_M,
        })
    }
}

/// Identities are pairwise distinct, locations are valid and each node's
/// shard is that of its location.
pub open spec fn nodes_wf(nodes: Seq<MeshXNode>) -> bool {
    &&& forall|i: int, j: int| 0 <= i < j < nodes.len() ==> nodes[i].pubkey.bytes@ != nodes[j].pubkey.bytes@
    &&& forall|i: int| 0 <= i < nodes.len() ==> (#[trigger] nodes[i]).geo_location.wf()
    &&& forall|i: int| 0 <= i < nodes.len() ==> (#[trigger] nodes[i]).shard == shard_of(
        nodes[i].geo_location.latitude as int,
        nodes[i].geo_location.longitude as int,
    )
}

/// At most one measurement per ordered pair of nodes.
pub open spec fn links_wf(links: Seq<LatencyMeasurement>) -> bool {
    forall|i: int, j: int| 0 <= i < j < links.len() ==> !(links[i].from_node.bytes@ == links[j].from_node.bytes@
        && links[i].to_node.bytes@ == links[j].to_node.bytes@)
}

/// Finds the node with identity `id`.
pub fn find_node(nodes: &Vec<MeshXNode>, id: &NodeId) -> (r: Option<usize>)
    ensures
        r is None <==> node_index(nodes@, *id) is None,
        r matches Some(i) ==> node_index(nodes@, *id) == Some(i as int),
        r is None ==> forall|k: int| 0 <= k < nodes@.len() ==> nodes@[k].pubkey.bytes@ != id.bytes@,
        r matches Some(i) ==> i < nodes@.len() && nodes@[i as int].pubkey.bytes@ == id.bytes@,
{
    let mut i: usize = 0;
    while i < nodes.len()
        invariant
            i <= nodes@.len(),
            node_index(nodes@, *id) == node_index_from(nodes@, *id, i as int),
            forall|k: int| 0 <= k < i ==> nodes@[k].pubkey.bytes@ != id.bytes@,
        decreases nodes@.len() - i,
    {
        if same_id(&nodes[i].pubkey, id) {
            return Some(i);
        }
        i = i + 1;
    }
    None
}

/// Finds the measurement from `from` to `to`.
pub fn find_link(links: &Vec<LatencyMeasurement>, from: &NodeId, to: &NodeId) -> (r: Option<usize>)
    ensures
        r is None <==> link_index(links@, *from, *to) is None,
        r matches Some(i) ==> link_index(links@, *from, *to) == Some(i as int),
        r is None ==> forall|k: int| 0 <= k < links@.len() ==> !(links@[k].from_node.bytes@ == from.bytes@
            && links@[k].to_node.bytes@ == to.bytes@),
        r matches Some(i) ==> i < links@.len() && links@[i as int].from_node.bytes@ == from.bytes@
            && links@[i as int].to_node.bytes@ == to.bytes@,
{
    let mut i: usize = 0;
    while i < links.len()
        invariant
            i <= links@.len(),
            link_index(links@, *from, *to) == link_index_from(links@, *from, *to, i as int),
            forall|k: int| 0 <= k < i ==> !(links@[k].from_node.bytes@ == from.bytes@
                && links@[k].to_node.bytes@ == to.bytes@),
        decreases links@.len() - i,
    {
        if same_id(&links[i].from_node, from) && same_id(&links[i].to_node, to) {
            return Some(i);
        }
        i = i + 1;
    }
    None
}

} // verus!
