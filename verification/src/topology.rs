//! The data model of a scenario: node references, the five instruction
//! kinds a generated topology holds, and the scenario descriptor that the
//! topology generator consumes.
//!
//! All on-chain amounts are carried in satoshis, as plain integers.

use crate::names;
use crate::names::NodeKind;
use vstd::prelude::*;

verus! {

/// One emulated network participant: an implementation kind and an index
/// within that kind. Its name is the kind's prefix plus the zero-padded
/// four-digit index, so a valid index stays below ten thousand.
#[derive(Clone, Copy, Debug, PartialEq, Eq, Structural)]
pub struct NodeRef {
    pub kind: NodeKind,
    pub index: u32,
}

/// An instruction to establish a peer link from node `a` to node `b`.
#[derive(Clone, Copy, Debug, PartialEq, Eq, Structural)]
pub struct Connection {
    pub a: NodeRef,
    pub b: NodeRef,
}

/// An instruction to give a node spendable on-chain balance. The last
/// funding instruction of a scenario carries the final-in-batch flag so the
/// collaborator can trigger block confirmation.
#[derive(Clone, Copy, Debug, PartialEq, Eq, Structural)]
pub struct Funding {
    pub node: NodeRef,
    pub amount_sat: u64,
    pub is_final: bool,
}

/// An instruction to open a payment channel: `a` is the opener, which must
/// already be connected and funded when the instruction is applied.
#[derive(Clone, Copy, Debug, PartialEq, Eq, Structural)]
pub struct ChannelSpec {
    pub a: NodeRef,
    pub b: NodeRef,
    pub capacity_sat: u64,
    pub push_sat: u64,
    pub id: u64,
    pub announce: bool,
}

/// A recurring synthetic payment definition. An absent amount bound means
/// "use the collaborator's default".
#[derive(Clone, Copy, Debug, PartialEq, Eq, Structural)]
pub struct ActivitySpec {
    pub source: NodeRef,
    pub dest: NodeRef,
    pub min_amount_sat: Option<u64>,
    pub max_amount_sat: Option<u64>,
    pub count: u64,
    pub interval: u64,
}

/// The closed set of one-shot scripted actions a scenario can fire, each
/// with its own strongly-typed payload.
#[derive(Clone, Copy, Debug, PartialEq, Eq, Structural)]
pub enum EventAction {
    /// Close the channel with the given id from the given node.
    CloseChannel { node: NodeRef, channel_id: u64 },
}

/// A one-shot scripted action at a non-negative time offset relative to
/// simulation start.
#[derive(Clone, Copy, Debug, PartialEq, Eq, Structural)]
pub struct EventSpec {
    pub offset: u64,
    pub action: EventAction,
}

/// The full generated scenario: five instruction sequences, applied phase by
/// phase in exactly this order — connections, fundings, channel opens,
/// activity registrations, event registrations.
#[derive(Debug)]
pub struct Topology {
    pub connections: Vec<Connection>,
    pub fundings: Vec<Funding>,
    pub channels: Vec<ChannelSpec>,
    pub activities: Vec<ActivitySpec>,
    pub events: Vec<EventSpec>,
}

/// One group of leaves in a hub shape: the leaves are the nodes of
/// `leaf_kind` with indices `lo..hi`, each hanging off the hub. Each leaf is
/// paired with the node of `partner_kind` at the same index, and each
/// partner links on to the group's designated secondary hub.
#[derive(Clone, Copy, Debug, PartialEq, Eq, Structural)]
pub struct LeafGroup {
    pub leaf_kind: NodeKind,
    pub partner_kind: NodeKind,
    pub lo: u32,
    pub hi: u32,
    pub secondary: NodeRef,
}

/// The hub shape of a scenario: a designated hub node wired to the leaves of
/// every group, and funded through many small increments rather than one
/// lump sum, to emulate realistic UTXO fragmentation.
#[derive(Debug)]
pub struct HubDescriptor {
    pub hub: NodeRef,
    pub groups: Vec<LeafGroup>,
    pub increment_sat: u64,
    pub increments: u32,
}

/// A scenario descriptor: how many nodes of each kind to emulate and what
/// shape to wire them into. The mesh is a list of explicit point-to-point
/// pairs; each pair yields one connection and one channel whose opener is
/// the pair's first node. A hub shape, if present, is layered on
/// independently. Generation from a descriptor is pure and deterministic.
#[derive(Debug)]
pub struct ScenarioDescriptor {
    pub num_lnd: u32,
    pub num_ldk: u32,
    pub num_cln: u32,
    pub mesh: Vec<Connection>,
    pub hub: Option<HubDescriptor>,
    pub fund_sat: u64,
    pub capacity_sat: u64,
    pub push_sat: u64,
    pub activities: Vec<ActivitySpec>,
    pub events: Vec<EventSpec>,
}

/// The one rejection the generator knows: a descriptor with a node-kind
/// count that is not positive.
#[derive(Clone, Copy, Debug, PartialEq, Eq, Structural)]
pub enum TopologyError {
    InvalidCounts,
}

impl TopologyError {
    /// A human-readable description of the rejection.
    pub fn message(&self) -> (r: String)
        ensures
            r@ == "every node kind needs a positive node count"@,
    {
        String::from_str("every node kind needs a positive node count")
    }
}

/// How many nodes of the given kind the scenario holds.
pub open spec fn kind_count(d: ScenarioDescriptor, kind: NodeKind) -> u32 {
    match kind {
        NodeKind::Lnd => d.num_lnd,
        NodeKind::Ldk => d.num_ldk,
        NodeKind::Cln => d.num_cln,
    }
}

/// A node reference that lies inside the scenario's node set.
pub open spec fn valid_node(d: ScenarioDescriptor, n: NodeRef) -> bool {
    n.index < kind_count(d, n.kind)
}

/// A well-formed scenario descriptor: positive per-kind counts inside the
/// identifier scheme's four-digit domain, and every node the shape or the
/// schedules mention exists. The hub shape, if present, funds the hub in at
/// least one increment, and every group's index range fits both its leaf
/// kind and its partner kind.
pub open spec fn wf_descriptor(d: ScenarioDescriptor) -> bool {
    &&& 1 <= d.num_lnd <= 9999
    &&& 1 <= d.num_ldk <= 9999
    &&& 1 <= d.num_cln <= 9999
    &&& forall|i: int|
        0 <= i < d.mesh@.len() ==> valid_node(d, #[trigger] d.mesh@[i].a) && valid_node(
            d,
            d.mesh@[i].b,
        )
    &&& forall|i: int|
        0 <= i < d.activities@.len() ==> valid_node(d, #[trigger] d.activities@[i].source)
            && valid_node(d, d.activities@[i].dest)
    &&& forall|i: int|
        0 <= i < d.events@.len() ==> match #[trigger] d.events@[i].action {
            EventAction::CloseChannel { node, channel_id: _ } => valid_node(d, node),
        }
    &&& match d.hub {
        Some(h) => {
            &&& valid_node(d, h.hub)
            &&& h.increments >= 1
            &&& forall|g: int|
                0 <= g < h.groups@.len() ==> {
                    let grp = #[trigger] h.groups@[g];
                    &&& grp.lo <= grp.hi
                    &&& grp.hi <= kind_count(d, grp.leaf_kind)
                    &&& grp.hi <= kind_count(d, grp.partner_kind)
                    &&& valid_node(d, grp.secondary)
                }
        },
        None => true,
    }
}

/// The display name of a node, per the identifier scheme.
pub fn node_name(n: &NodeRef) -> (r: String)
    requires
        n.index <= 9999,
    ensures
        r@ == names::spec_name(n.kind, n.index as int),
{
    names::name(n.kind, n.index)
}

} // verus!
