//! The topology generator: a pure function from a scenario descriptor to the
//! five ordered instruction sequences of a topology.
//!
//! The rules it reproduces:
//! - connections list the explicit mesh pairs first, then the hub shape
//!   (hub-to-leaf links, then each leaf's chain to its partner and the
//!   partner's link to the secondary hub);
//! - with a hub shape, funding covers every node kind by kind in index
//!   order, skips the hub there, and then funds the hub through many small
//!   increments; without one, funding covers the mesh openers in mesh order;
//!   in either case exactly the last funding instruction is flagged final;
//! - channels cover the hub shape first and the mesh pairs last; channel
//!   ids are a strictly increasing counter over the whole topology in
//!   generation order, and exactly the last channel is flagged
//!   announce/public;
//! - activity and event schedules are taken from the descriptor unchanged;
//!   a scenario without scripted events yields an empty event sequence.

use crate::names::NodeKind;
use crate::topology::{
    ActivitySpec, ChannelSpec, Connection, EventSpec, Funding, HubDescriptor, LeafGroup, NodeRef,
    ScenarioDescriptor, Topology, TopologyError, kind_count, valid_node, wf_descriptor,
};
use vstd::prelude::*;

verus! {

// ---------------------------------------------------------------------------
// Spec-level model of generation
// ---------------------------------------------------------------------------
/// Leaf `i` (zero-based within the group) of a leaf group.
pub open spec fn leaf_node(g: LeafGroup, i: int) -> NodeRef {
    NodeRef { kind: g.leaf_kind, index: (g.lo + i) as u32 }
}

/// The partner paired with leaf `i` of a leaf group.
pub open spec fn partner_node(g: LeafGroup, i: int) -> NodeRef {
    NodeRef { kind: g.partner_kind, index: (g.lo + i) as u32 }
}

/// How many leaves a group holds.
pub open spec fn group_len(g: LeafGroup) -> nat {
    if g.lo <= g.hi {
        (g.hi - g.lo) as nat
    } else {
        0
    }
}

/// The first `k` hub-to-leaf links of one group.
pub open spec fn hub_leaf_piece(hub: NodeRef, g: LeafGroup, k: nat) -> Seq<Connection> {
    Seq::new(k, |i: int| Connection { a: hub, b: leaf_node(g, i) })
}

/// The hub-to-leaf links of the first `n` groups, in group order.
pub open spec fn hub_leaf_upto(h: HubDescriptor, n: int) -> Seq<Connection>
    decreases n,
{
    if n <= 0 {
        Seq::empty()
    } else {
        hub_leaf_upto(h, n - 1) + hub_leaf_piece(h.hub, h.groups@[n - 1], group_len(h.groups@[n - 1]))
    }
}

/// The two chained links of leaf `i`: leaf to partner, then partner to the
/// group's secondary hub.
pub open spec fn partner_links(g: LeafGroup, i: int) -> Seq<Connection> {
    seq![
        Connection { a: leaf_node(g, i), b: partner_node(g, i) },
        Connection { a: partner_node(g, i), b: g.secondary },
    ]
}

/// The chained links of the first `k` leaves of one group.
pub open spec fn partner_piece(g: LeafGroup, k: nat) -> Seq<Connection>
    decreases k,
{
    if k == 0 {
        Seq::empty()
    } else {
        partner_piece(g, (k - 1) as nat) + partner_links(g, k - 1)
    }
}

/// The chained leaf links of the first `n` groups, in group order.
pub open spec fn partner_upto(h: HubDescriptor, n: int) -> Seq<Connection>
    decreases n,
{
    if n <= 0 {
        Seq::empty()
    } else {
        partner_upto(h, n - 1) + partner_piece(h.groups@[n - 1], group_len(h.groups@[n - 1]))
    }
}

/// Every link of a hub shape: hub-to-leaf links for all groups, then the
/// chained leaf links for all groups.
pub open spec fn hub_links(h: HubDescriptor) -> Seq<Connection> {
    hub_leaf_upto(h, h.groups@.len() as int) + partner_upto(h, h.groups@.len() as int)
}

/// The hub-shape part of a descriptor's link list; empty without a hub.
pub open spec fn hub_part(d: ScenarioDescriptor) -> Seq<Connection> {
    match d.hub {
        Some(h) => hub_links(h),
        None => Seq::empty(),
    }
}

/// The connection sequence: explicit mesh pairs first, then the hub shape.
pub open spec fn connections_of(d: ScenarioDescriptor) -> Seq<Connection> {
    d.mesh@ + hub_part(d)
}

/// The ordered node pairs that get a channel: the hub shape first, then the
/// mesh pairs. The first node of each pair is the channel's opener.
pub open spec fn chan_pairs(d: ScenarioDescriptor) -> Seq<Connection> {
    hub_part(d) + d.mesh@
}

/// Channel `j` of the generated topology: ids follow generation order from
/// zero, and exactly the last channel carries the announce flag.
pub open spec fn chan_at(d: ScenarioDescriptor, j: int) -> ChannelSpec {
    ChannelSpec {
        a: chan_pairs(d)[j].a,
        b: chan_pairs(d)[j].b,
        capacity_sat: d.capacity_sat,
        push_sat: d.push_sat,
        id: j as u64,
        announce: j == chan_pairs(d).len() - 1,
    }
}

/// The channel sequence of the generated topology.
pub open spec fn channels_of(d: ScenarioDescriptor) -> Seq<ChannelSpec> {
    Seq::new(chan_pairs(d).len(), |j: int| chan_at(d, j))
}

/// Where per-kind funding skips the hub: only where the hub is of that kind
/// and inside the kind's index range.
pub open spec fn eff_skip(kind: NodeKind, count: u32, hub: NodeRef) -> Option<u32> {
    if hub.kind == kind && hub.index < count {
        Some(hub.index)
    } else {
        None
    }
}

/// The node index funded at position `j` of a per-kind funding run, stepping
/// over the skipped index if there is one.
pub open spec fn kind_fund_index(skip: Option<u32>, j: int) -> int {
    match skip {
        Some(s) => if j < s {
            j
        } else {
            j + 1
        },
        None => j,
    }
}

/// The first `k` fundings of a per-kind funding run.
pub open spec fn kind_fund_piece(kind: NodeKind, amount_sat: u64, skip: Option<u32>, k: nat) -> Seq<
    Funding,
> {
    Seq::new(
        k,
        |j: int|
            Funding {
                node: NodeRef { kind, index: kind_fund_index(skip, j) as u32 },
                amount_sat,
                is_final: false,
            },
    )
}

/// How many fundings a per-kind run issues: one per node of the kind, less
/// the skipped hub if there is one.
pub open spec fn kind_fund_len(count: u32, skip: Option<u32>) -> nat {
    match skip {
        Some(_) => (count - 1) as nat,
        None => count as nat,
    }
}

/// The per-kind funding run: every node of the kind in index order, the hub
/// skipped where it is of this kind, none flagged final.
pub open spec fn kind_fundings(d: ScenarioDescriptor, kind: NodeKind, hub: NodeRef) -> Seq<
    Funding,
> {
    let skip = eff_skip(kind, kind_count(d, kind), hub);
    kind_fund_piece(kind, d.fund_sat, skip, kind_fund_len(kind_count(d, kind), skip))
}

/// The first `k` of the hub's funding increments; exactly the last increment
/// of the full run is flagged final.
pub open spec fn increments_piece(h: HubDescriptor, k: nat) -> Seq<Funding> {
    Seq::new(
        k,
        |j: int|
            Funding {
                node: h.hub,
                amount_sat: h.increment_sat,
                is_final: j == h.increments - 1,
            },
    )
}

/// The hub's fragmented funding: many small increments, the last one final.
pub open spec fn hub_increments(h: HubDescriptor) -> Seq<Funding> {
    increments_piece(h, h.increments as nat)
}

/// The first `k` mesh fundings: one standard funding per mesh pair's opener,
/// in mesh order; exactly the last one of the full run is flagged final.
pub open spec fn mesh_fund_piece(mesh: Seq<Connection>, amount_sat: u64, k: nat) -> Seq<Funding> {
    Seq::new(
        k,
        |j: int| Funding { node: mesh[j].a, amount_sat, is_final: j == mesh.len() - 1 },
    )
}

/// The funding sequence: with a hub shape, every node kind by kind (the hub
/// skipped) and then the hub increments; without one, the mesh openers.
pub open spec fn fundings_of(d: ScenarioDescriptor) -> Seq<Funding> {
    match d.hub {
        Some(h) => kind_fundings(d, NodeKind::Lnd, h.hub) + kind_fundings(d, NodeKind::Ldk, h.hub)
            + kind_fundings(d, NodeKind::Cln, h.hub) + hub_increments(h),
        None => mesh_fund_piece(d.mesh@, d.fund_sat, d.mesh@.len()),
    }
}

// ---------------------------------------------------------------------------
// Executable generation
// ---------------------------------------------------------------------------
/// A fresh copy of a vector of plain values.
fn copy_vec<T: Copy>(src: &Vec<T>) -> (r: Vec<T>)
    ensures
        r@ == src@,
{
    let mut r: Vec<T> = Vec::new();
    let n: usize = src.len();
    for i in 0..n
        invariant
            n == src@.len(),
            r@ == src@.take(i as int),
    {
        r.push(src[i]);
        proof {
            assert(src@.take(i + 1) =~= src@.take(i as int).push(src@[i as int]));
        }
    }
    proof {
        assert(src@.take(n as int) =~= src@);
    }
    r
}

/// Append a copy of `src` to `dst`.
fn append_copy<T: Copy>(dst: Vec<T>, src: &Vec<T>) -> (r: Vec<T>)
    ensures
        r@ == dst@ + src@,
{
    let mut r: Vec<T> = dst;
    let n: usize = src.len();
    for i in 0..n
        invariant
            n == src@.len(),
            r@ == dst@ + src@.take(i as int),
    {
        r.push(src[i]);
        proof {
            assert(src@.take(i + 1) =~= src@.take(i as int).push(src@[i as int]));
            assert((dst@ + src@.take(i as int)).push(src@[i as int]) =~= dst@ + src@.take(i + 1));
        }
    }
    proof {
        assert(src@.take(n as int) =~= src@);
    }
    r
}

/// Build the hub shape's link list: hub-to-leaf links group by group, then
/// the chained leaf links group by group.
fn build_hub_links(h: &HubDescriptor) -> (v: Vec<Connection>)
    ensures
        v@ == hub_links(*h),
{
    let mut v: Vec<Connection> = Vec::new();
    let ng: usize = h.groups.len();
    for g in 0..ng
        invariant
            ng == h.groups@.len(),
            v@ == hub_leaf_upto(*h, g as int),
    {
        let grp: LeafGroup = h.groups[g];
        let ghost base = v@;
        let mut i: u32 = grp.lo;
        while i < grp.hi
            invariant
                grp == h.groups@[g as int],
                grp.lo <= i,
                i <= grp.hi || i == grp.lo,
                v@ == base + hub_leaf_piece(h.hub, grp, (i - grp.lo) as nat),
            decreases grp.hi - i,
        {
            v.push(Connection { a: h.hub, b: NodeRef { kind: grp.leaf_kind, index: i } });
            proof {
                assert(hub_leaf_piece(h.hub, grp, (i + 1 - grp.lo) as nat) =~= hub_leaf_piece(
                    h.hub,
                    grp,
                    (i - grp.lo) as nat,
                ).push(Connection { a: h.hub, b: leaf_node(grp, i - grp.lo) }));
            }
            i = i + 1;
        }
        proof {
            assert(v@ =~= hub_leaf_upto(*h, g + 1));
        }
    }
    let ghost leaf_all = v@;
    for g in 0..ng
        invariant
            ng == h.groups@.len(),
            leaf_all == hub_leaf_upto(*h, ng as int),
            v@ == leaf_all + partner_upto(*h, g as int),
    {
        let grp: LeafGroup = h.groups[g];
        let ghost base = v@;
        let mut i: u32 = grp.lo;
        while i < grp.hi
            invariant
                grp == h.groups@[g as int],
                grp.lo <= i,
                i <= grp.hi || i == grp.lo,
                v@ == base + partner_piece(grp, (i - grp.lo) as nat),
            decreases grp.hi - i,
        {
            let leaf = NodeRef { kind: grp.leaf_kind, index: i };
            let partner = NodeRef { kind: grp.partner_kind, index: i };
            v.push(Connection { a: leaf, b: partner });
            v.push(Connection { a: partner, b: grp.secondary });
            proof {
                let k = (i - grp.lo) as nat;
                assert(partner_piece(grp, k + 1) == partner_piece(grp, k) + partner_links(
                    grp,
                    k as int,
                ));
                assert(base + partner_piece(grp, k + 1) =~= (base + partner_piece(grp, k)).push(
                    partner_links(grp, k as int)[0],
                ).push(partner_links(grp, k as int)[1]));
            }
            i = i + 1;
        }
        proof {
            assert(v@ =~= leaf_all + partner_upto(*h, g + 1));
        }
    }
    proof {
        assert(v@ == hub_links(*h));
    }
    v
}

/// Append the per-kind funding run for one node kind.
fn push_kind_fundings(v: Vec<Funding>, kind: NodeKind, count: u32, hub: NodeRef, amount_sat: u64) -> (r: Vec<Funding>)
    ensures
        r@ == v@ + kind_fund_piece(
            kind,
            amount_sat,
            eff_skip(kind, count, hub),
            kind_fund_len(count, eff_skip(kind, count, hub)),
        ),
{
    let mut r: Vec<Funding> = v;
    let ghost skip = eff_skip(kind, count, hub);
    let skip_here: bool = hub.kind == kind && hub.index < count;
    for i in 0..count
        invariant
            skip == eff_skip(kind, count, hub),
            skip_here == (hub.kind == kind && hub.index < count),
            r@ == v@ + kind_fund_piece(
                kind,
                amount_sat,
                skip,
                (if skip_here && i > hub.index {
                    i - 1
                } else {
                    i as int
                }) as nat,
            ),
    {
        if skip_here && i == hub.index {
        } else {
            r.push(Funding { node: NodeRef { kind, index: i }, amount_sat, is_final: false });
            proof {
                let k = (if skip_here && i > hub.index {
                    i - 1
                } else {
                    i as int
                }) as nat;
                assert(kind_fund_index(skip, k as int) == i);
                assert(kind_fund_piece(kind, amount_sat, skip, k + 1) =~= kind_fund_piece(
                    kind,
                    amount_sat,
                    skip,
                    k,
                ).push(Funding { node: NodeRef { kind, index: i }, amount_sat, is_final: false }));
            }
        }
    }
    proof {
        let done = (if skip_here && count > hub.index {
            count - 1
        } else {
            count as int
        }) as nat;
        assert(done == kind_fund_len(count, skip));
    }
    r
}

/// Build the funding sequence for a descriptor.
fn build_fundings(d: &ScenarioDescriptor) -> (v: Vec<Funding>)
    ensures
        v@ == fundings_of(*d),
{
    match &d.hub {
        Some(h) => {
            let mut v: Vec<Funding> = Vec::new();
            v = push_kind_fundings(v, NodeKind::Lnd, d.num_lnd, h.hub, d.fund_sat);
            v = push_kind_fundings(v, NodeKind::Ldk, d.num_ldk, h.hub, d.fund_sat);
            v = push_kind_fundings(v, NodeKind::Cln, d.num_cln, h.hub, d.fund_sat);
            let ghost base = v@;
            for j in 0..h.increments
                invariant
                    base == kind_fundings(*d, NodeKind::Lnd, h.hub) + kind_fundings(
                        *d,
                        NodeKind::Ldk,
                        h.hub,
                    ) + kind_fundings(*d, NodeKind::Cln, h.hub),
                    v@ == base + increments_piece(*h, j as nat),
            {
                v.push(
                    Funding {
                        node: h.hub,
                        amount_sat: h.increment_sat,
                        is_final: j == h.increments - 1,
                    },
                );
                proof {
                    assert(increments_piece(*h, (j + 1) as nat) =~= increments_piece(
                        *h,
                        j as nat,
                    ).push(
                        Funding {
                            node: h.hub,
                            amount_sat: h.increment_sat,
                            is_final: j == h.increments - 1,
                        },
                    ));
                }
            }
            proof {
                assert(v@ == fundings_of(*d));
            }
            v
        },
        None => {
            let mut v: Vec<Funding> = Vec::new();
            let n: usize = d.mesh.len();
            for j in 0..n
                invariant
                    n == d.mesh@.len(),
                    d.hub is None,
                    v@ == mesh_fund_piece(d.mesh@, d.fund_sat, j as nat),
            {
                let last: bool = j == n - 1;
                v.push(Funding { node: d.mesh[j].a, amount_sat: d.fund_sat, is_final: last });
                proof {
                    assert(mesh_fund_piece(d.mesh@, d.fund_sat, (j + 1) as nat)
                        =~= mesh_fund_piece(d.mesh@, d.fund_sat, j as nat).push(
                        Funding {
                            node: d.mesh@[j as int].a,
                            amount_sat: d.fund_sat,
                            is_final: j == d.mesh@.len() - 1,
                        },
                    ));
                }
            }
            v
        },
    }
}

/// Build the channel sequence from the ordered pair list.
fn build_channels(d: &ScenarioDescriptor, pairs: &Vec<Connection>) -> (v: Vec<ChannelSpec>)
    requires
        pairs@ == chan_pairs(*d),
    ensures
        v@ == channels_of(*d),
{
    let n: usize = pairs.len();
    let mut v: Vec<ChannelSpec> = Vec::new();
    for j in 0..n
        invariant
            n == chan_pairs(*d).len(),
            pairs@ == chan_pairs(*d),
            v@.len() == j,
            forall|k: int| 0 <= k < j ==> v@[k] == chan_at(*d, k),
    {
        let c: Connection = pairs[j];
        v.push(
            ChannelSpec {
                a: c.a,
                b: c.b,
                capacity_sat: d.capacity_sat,
                push_sat: d.push_sat,
                id: j as u64,
                announce: j == n - 1,
            },
        );
    }
    proof {
        assert(v@ =~= channels_of(*d));
    }
    v
}

/// Generate the full topology for a scenario descriptor.
///
/// Pure and deterministic: the result is exactly the model sequences of this
/// module. The only rejection is a descriptor with a node-kind count of
/// zero, refused before any generation work.
pub fn generate(d: &ScenarioDescriptor) -> (r: Result<Topology, TopologyError>)
    ensures
        r is Err <==> (d.num_lnd == 0 || d.num_ldk == 0 || d.num_cln == 0),
        r matches Err(e) ==> e == TopologyError::InvalidCounts,
        r matches Ok(t) ==> {
            &&& t.connections@ == connections_of(*d)
            &&& t.fundings@ == fundings_of(*d)
            &&& t.channels@ == channels_of(*d)
            &&& t.activities@ == d.activities@
            &&& t.events@ == d.events@
        },
{
    if d.num_lnd == 0 || d.num_ldk == 0 || d.num_cln == 0 {
        return Err(TopologyError::InvalidCounts);
    }
    let hub_part_v: Vec<Connection> = match &d.hub {
        Some(h) => build_hub_links(h),
        None => Vec::new(),
    };
    proof {
        assert(hub_part_v@ == hub_part(*d));
    }
    let connections: Vec<Connection> = append_copy(copy_vec(&d.mesh), &hub_part_v);
    let pairs: Vec<Connection> = append_copy(hub_part_v, &d.mesh);
    let channels: Vec<ChannelSpec> = build_channels(d, &pairs);
    let fundings: Vec<Funding> = build_fundings(d);
    let activities: Vec<ActivitySpec> = copy_vec(&d.activities);
    let events: Vec<EventSpec> = copy_vec(&d.events);
    Ok(Topology { connections, fundings, channels, activities, events })
}

// ---------------------------------------------------------------------------
// Laws of the generated sequences
// ---------------------------------------------------------------------------
/// Law: channel ids are pairwise distinct and strictly increasing in
/// generation order.
pub proof fn lemma_channel_ids_increasing(d: ScenarioDescriptor, i: int, j: int)
    requires
        0 <= i < j < channels_of(d).len(),
        channels_of(d).len() <= u64::MAX,
    ensures
        channels_of(d)[i].id < channels_of(d)[j].id,
{
    assert(channels_of(d)[i].id == i as u64);
    assert(channels_of(d)[j].id == j as u64);
}

/// Law: exactly one channel is flagged announce/public, and it is the last
/// channel issued in generation order.
pub proof fn lemma_single_announce(d: ScenarioDescriptor)
    requires
        channels_of(d).len() > 0,
    ensures
        channels_of(d)[channels_of(d).len() - 1].announce,
        forall|j: int| 0 <= j < channels_of(d).len() - 1 ==> !(#[trigger] channels_of(d)[j]).announce,
{
}

/// Law: exactly one funding instruction is flagged final, and it is the
/// last one issued in generation order.
pub proof fn lemma_single_final_funding(d: ScenarioDescriptor)
    requires
        wf_descriptor(d),
        fundings_of(d).len() > 0,
    ensures
        fundings_of(d)[fundings_of(d).len() - 1].is_final,
        forall|j: int|
            0 <= j < fundings_of(d).len() - 1 ==> !(#[trigger] fundings_of(d)[j]).is_final,
{
    match d.hub {
        Some(h) => {
            let ks = kind_fundings(d, NodeKind::Lnd, h.hub) + kind_fundings(
                d,
                NodeKind::Ldk,
                h.hub,
            ) + kind_fundings(d, NodeKind::Cln, h.hub);
            assert(fundings_of(d) == ks + hub_increments(h));
            assert(h.increments >= 1);
            assert(fundings_of(d)[fundings_of(d).len() - 1] == hub_increments(h)[h.increments
                - 1]);
            assert forall|j: int|
                0 <= j < fundings_of(d).len() - 1 implies !(#[trigger] fundings_of(
                d,
            )[j]).is_final by {
                if j < ks.len() {
                    assert(fundings_of(d)[j] == ks[j]);
                } else {
                    assert(fundings_of(d)[j] == hub_increments(h)[j - ks.len()]);
                    assert(j - ks.len() < h.increments - 1);
                }
            }
        },
        None => {},
    }
}

/// Some funding instruction of the generated sequence targets node `n`.
pub open spec fn funded(d: ScenarioDescriptor, n: NodeRef) -> bool {
    exists|j: int| #![auto] 0 <= j < fundings_of(d).len() && fundings_of(d)[j].node == n
}

/// A group's chained-link run holds two links per leaf.
proof fn lemma_partner_piece_len(g: LeafGroup, k: nat)
    ensures
        partner_piece(g, k).len() == 2 * k,
    decreases k,
{
    if k != 0 {
        lemma_partner_piece_len(g, (k - 1) as nat);
    }
}

/// Every hub-to-leaf link of the first `n` groups opens from the hub.
proof fn lemma_hub_leaf_upto_opener(h: HubDescriptor, n: int, i: int)
    requires
        0 <= i < hub_leaf_upto(h, n).len(),
    ensures
        hub_leaf_upto(h, n)[i].a == h.hub,
    decreases n,
{
    if n > 0 {
        let pre = hub_leaf_upto(h, n - 1);
        if i < pre.len() {
            lemma_hub_leaf_upto_opener(h, n - 1, i);
        }
    }
}

/// Every chained link of one group opens from the group's leaf or partner
/// at some offset below `k`.
proof fn lemma_partner_piece_opener(g: LeafGroup, k: nat, i: int)
    requires
        0 <= i < partner_piece(g, k).len(),
    ensures
        exists|j: int|
            #![auto]
            0 <= j < k && (partner_piece(g, k)[i].a == leaf_node(g, j) || partner_piece(
                g,
                k,
            )[i].a == partner_node(g, j)),
    decreases k,
{
    if k != 0 {
        let pre = partner_piece(g, (k - 1) as nat);
        lemma_partner_piece_len(g, (k - 1) as nat);
        if i < pre.len() {
            lemma_partner_piece_opener(g, (k - 1) as nat, i);
            assert(partner_piece(g, k)[i] == pre[i]);
        } else {
            assert(partner_piece(g, k)[i] == partner_links(g, k - 1)[i - pre.len()]);
            assert(partner_piece(g, k)[i].a == leaf_node(g, k - 1) || partner_piece(g, k)[i].a
                == partner_node(g, k - 1));
        }
    }
}

/// Every chained leaf link of the first `n` groups opens from a leaf or a
/// partner of one of those groups.
proof fn lemma_partner_upto_opener(h: HubDescriptor, n: int, i: int)
    requires
        0 <= i < partner_upto(h, n).len(),
    ensures
        exists|g: int, j: int|
            #![auto]
            0 <= g < n && 0 <= j < group_len(h.groups@[g]) && (partner_upto(h, n)[i].a
                == leaf_node(h.groups@[g], j) || partner_upto(h, n)[i].a == partner_node(
                h.groups@[g],
                j,
            )),
    decreases n,
{
    if n > 0 {
        let pre = partner_upto(h, n - 1);
        if i < pre.len() {
            lemma_partner_upto_opener(h, n - 1, i);
            assert(partner_upto(h, n)[i] == pre[i]);
        } else {
            let g = h.groups@[n - 1];
            assert(partner_upto(h, n)[i] == partner_piece(g, group_len(g))[i - pre.len()]);
            lemma_partner_piece_opener(h.groups@[n - 1], group_len(g), i - pre.len());
        }
    }
}

/// The per-kind funding run covers every node of the kind but the skipped
/// hub.
proof fn lemma_kind_fundings_contains(d: ScenarioDescriptor, kind: NodeKind, hub: NodeRef, idx: u32)
    requires
        idx < kind_count(d, kind),
        !(hub.kind == kind && hub.index == idx),
    ensures
        exists|j: int|
            #![auto]
            0 <= j < kind_fundings(d, kind, hub).len() && kind_fundings(d, kind, hub)[j].node
                == (NodeRef { kind, index: idx }),
{
    let skip = eff_skip(kind, kind_count(d, kind), hub);
    let w: int = match skip {
        Some(s) => if idx < s {
            idx as int
        } else {
            idx - 1
        },
        None => idx as int,
    };
    assert(kind_fund_index(skip, w) == idx);
    assert(kind_fundings(d, kind, hub)[w].node == (NodeRef { kind, index: idx }));
}

/// With a hub shape, every existing node of the scenario is funded: either
/// in its kind's run or, for the hub itself, by the hub increments.
proof fn lemma_node_funded(d: ScenarioDescriptor, h: HubDescriptor, n: NodeRef)
    requires
        wf_descriptor(d),
        d.hub == Some(h),
        valid_node(d, n),
    ensures
        funded(d, n),
{
    let a = kind_fundings(d, NodeKind::Lnd, h.hub);
    let b = kind_fundings(d, NodeKind::Ldk, h.hub);
    let c = kind_fundings(d, NodeKind::Cln, h.hub);
    assert(fundings_of(d) == a + b + c + hub_increments(h));
    if n == h.hub {
        let w = a.len() + b.len() + c.len();
        assert(h.increments >= 1);
        assert(fundings_of(d)[w as int] == hub_increments(h)[0]);
        assert(fundings_of(d)[w as int].node == n);
    } else {
        lemma_kind_fundings_contains(d, n.kind, h.hub, n.index);
        let j = choose|j: int|
            #![auto]
            0 <= j < kind_fundings(d, n.kind, h.hub).len() && kind_fundings(d, n.kind, h.hub)[j].node
                == n;
        match n.kind {
            NodeKind::Lnd => {
                assert(fundings_of(d)[j] == a[j]);
                assert(fundings_of(d)[j].node == n);
            },
            NodeKind::Ldk => {
                assert(fundings_of(d)[a.len() + j] == b[j]);
                assert(fundings_of(d)[a.len() + j].node == n);
            },
            NodeKind::Cln => {
                assert(fundings_of(d)[a.len() + b.len() + j] == c[j]);
                assert(fundings_of(d)[a.len() + b.len() + j].node == n);
            },
        }
    }
}

/// Law: for every channel of a well-formed scenario, a funding instruction
/// for the channel's opener exists in the funding sequence — which the
/// lifecycle applies in full before the first channel open, so the funding
/// comes earlier in generation order.
pub proof fn lemma_opener_funded(d: ScenarioDescriptor, i: int)
    requires
        wf_descriptor(d),
        0 <= i < channels_of(d).len(),
    ensures
        funded(d, channels_of(d)[i].a),
{
    let pairs = chan_pairs(d);
    assert(channels_of(d)[i].a == pairs[i].a);
    match d.hub {
        None => {
            assert(pairs =~= d.mesh@);
            assert(fundings_of(d)[i].node == d.mesh@[i].a);
        },
        Some(h) => {
            let hp = hub_links(h);
            let ng = h.groups@.len() as int;
            if i < hp.len() {
                assert(pairs[i] == hp[i]);
                let leaf_part = hub_leaf_upto(h, ng);
                if i < leaf_part.len() {
                    assert(hp[i] == leaf_part[i]);
                    lemma_hub_leaf_upto_opener(h, ng, i);
                    lemma_node_funded(d, h, h.hub);
                } else {
                    assert(hp[i] == partner_upto(h, ng)[i - leaf_part.len()]);
                    lemma_partner_upto_opener(h, ng, i - leaf_part.len());
                    let (g, j) = choose|g: int, j: int|
                        #![auto]
                        0 <= g < ng && 0 <= j < group_len(h.groups@[g]) && (partner_upto(
                            h,
                            ng,
                        )[i - leaf_part.len()].a == leaf_node(h.groups@[g], j) || partner_upto(
                            h,
                            ng,
                        )[i - leaf_part.len()].a == partner_node(h.groups@[g], j));
                    let grp = h.groups@[g];
                    assert(grp.lo + j < grp.hi);
                    assert(valid_node(d, leaf_node(grp, j)));
                    assert(valid_node(d, partner_node(grp, j)));
                    lemma_node_funded(d, h, pairs[i].a);
                }
            } else {
                assert(pairs[i] == d.mesh@[i - hp.len()]);
                assert(valid_node(d, pairs[i].a));
                lemma_node_funded(d, h, pairs[i].a);
            }
        },
    }
}

} // verus!
