//! The shipped scenario variants, each expressed as a descriptor value for
//! the topology generator: a small pure-mesh scenario and a large
//! hub-and-spoke scenario layered over an explicit mesh.

use crate::names::NodeKind;
use crate::topology::{
    ActivitySpec, Connection, HubDescriptor, LeafGroup, NodeRef, ScenarioDescriptor,
    wf_descriptor,
};
use vstd::prelude::*;

verus! {

/// Shorthand for a node reference.
pub open spec fn spec_nd(kind: NodeKind, index: u32) -> NodeRef {
    NodeRef { kind, index }
}

/// Node reference constructor.
fn nd(kind: NodeKind, index: u32) -> (n: NodeRef)
    ensures
        n == spec_nd(kind, index),
{
    NodeRef { kind, index }
}

/// The explicit mesh of the small scenario: six point-to-point pairs over
/// four nodes of each kind.
pub open spec fn simple_mesh() -> Seq<Connection> {
    seq![
        Connection { a: spec_nd(NodeKind::Lnd, 0), b: spec_nd(NodeKind::Cln, 0) },
        Connection { a: spec_nd(NodeKind::Cln, 1), b: spec_nd(NodeKind::Lnd, 1) },
        Connection { a: spec_nd(NodeKind::Cln, 2), b: spec_nd(NodeKind::Ldk, 2) },
        Connection { a: spec_nd(NodeKind::Ldk, 2), b: spec_nd(NodeKind::Lnd, 2) },
        Connection { a: spec_nd(NodeKind::Lnd, 3), b: spec_nd(NodeKind::Ldk, 3) },
        Connection { a: spec_nd(NodeKind::Ldk, 3), b: spec_nd(NodeKind::Cln, 3) },
    ]
}

/// The payment activity of the small scenario: one low-rate flow along each
/// mesh direction, capped at a small maximum amount.
pub open spec fn simple_activities() -> Seq<ActivitySpec> {
    seq![
        ActivitySpec {
            source: spec_nd(NodeKind::Lnd, 0),
            dest: spec_nd(NodeKind::Cln, 0),
            min_amount_sat: None,
            max_amount_sat: Some(40),
            count: 1,
            interval: 4000,
        },
        ActivitySpec {
            source: spec_nd(NodeKind::Cln, 1),
            dest: spec_nd(NodeKind::Lnd, 1),
            min_amount_sat: None,
            max_amount_sat: Some(40),
            count: 1,
            interval: 4000,
        },
        ActivitySpec {
            source: spec_nd(NodeKind::Cln, 2),
            dest: spec_nd(NodeKind::Lnd, 2),
            min_amount_sat: None,
            max_amount_sat: Some(40),
            count: 1,
            interval: 4000,
        },
        ActivitySpec {
            source: spec_nd(NodeKind::Lnd, 3),
            dest: spec_nd(NodeKind::Cln, 3),
            min_amount_sat: None,
            max_amount_sat: Some(40),
            count: 1,
            interval: 4000,
        },
    ]
}

/// The small scenario: four nodes of each kind in a pure mesh, no hub, no
/// scripted events.
pub fn simple_descriptor() -> (d: ScenarioDescriptor)
    ensures
        d.num_lnd == 4 && d.num_ldk == 4 && d.num_cln == 4,
        d.mesh@ == simple_mesh(),
        d.hub is None,
        d.fund_sat == 100_000_000,
        d.capacity_sat == 500_000,
        d.push_sat == 0,
        d.activities@ == simple_activities(),
        d.events@ == Seq::<crate::topology::EventSpec>::empty(),
        wf_descriptor(d),
{
    let mut mesh: Vec<Connection> = Vec::new();
    mesh.push(Connection { a: nd(NodeKind::Lnd, 0), b: nd(NodeKind::Cln, 0) });
    mesh.push(Connection { a: nd(NodeKind::Cln, 1), b: nd(NodeKind::Lnd, 1) });
    mesh.push(Connection { a: nd(NodeKind::Cln, 2), b: nd(NodeKind::Ldk, 2) });
    mesh.push(Connection { a: nd(NodeKind::Ldk, 2), b: nd(NodeKind::Lnd, 2) });
    mesh.push(Connection { a: nd(NodeKind::Lnd, 3), b: nd(NodeKind::Ldk, 3) });
    mesh.push(Connection { a: nd(NodeKind::Ldk, 3), b: nd(NodeKind::Cln, 3) });
    let mut activities: Vec<ActivitySpec> = Vec::new();
    activities.push(
        ActivitySpec {
            source: nd(NodeKind::Lnd, 0),
            dest: nd(NodeKind::Cln, 0),
            min_amount_sat: None,
            max_amount_sat: Some(40),
            count: 1,
            interval: 4000,
        },
    );
    activities.push(
        ActivitySpec {
            source: nd(NodeKind::Cln, 1),
            dest: nd(NodeKind::Lnd, 1),
            min_amount_sat: None,
            max_amount_sat: Some(40),
            count: 1,
            interval: 4000,
        },
    );
    activities.push(
        ActivitySpec {
            source: nd(NodeKind::Cln, 2),
            dest: nd(NodeKind::Lnd, 2),
            min_amount_sat: None,
            max_amount_sat: Some(40),
            count: 1,
            interval: 4000,
        },
    );
    activities.push(
        ActivitySpec {
            source: nd(NodeKind::Lnd, 3),
            dest: nd(NodeKind::Cln, 3),
            min_amount_sat: None,
            max_amount_sat: Some(40),
            count: 1,
            interval: 4000,
        },
    );
    let d = ScenarioDescriptor {
        num_lnd: 4,
        num_ldk: 4,
        num_cln: 4,
        mesh,
        hub: None,
        fund_sat: 100_000_000,
        capacity_sat: 500_000,
        push_sat: 0,
        activities,
        events: Vec::new(),
    };
    proof {
        assert(d.mesh@ =~= simple_mesh());
        assert(d.activities@ =~= simple_activities());
        assert(d.events@ =~= Seq::<crate::topology::EventSpec>::empty());
        assert(wf_descriptor(d));
    }
    d
}

/// The explicit mesh of the big scenario: thirteen point-to-point pairs
/// layered independently of the hub shape.
pub open spec fn big_mesh() -> Seq<Connection> {
    seq![
        Connection { a: spec_nd(NodeKind::Lnd, 0), b: spec_nd(NodeKind::Cln, 0) },
        Connection { a: spec_nd(NodeKind::Cln, 1), b: spec_nd(NodeKind::Lnd, 1) },
        Connection { a: spec_nd(NodeKind::Lnd, 2), b: spec_nd(NodeKind::Ldk, 0) },
        Connection { a: spec_nd(NodeKind::Cln, 3), b: spec_nd(NodeKind::Ldk, 1) },
        Connection { a: spec_nd(NodeKind::Ldk, 0), b: spec_nd(NodeKind::Cln, 2) },
        Connection { a: spec_nd(NodeKind::Ldk, 1), b: spec_nd(NodeKind::Lnd, 3) },
        Connection { a: spec_nd(NodeKind::Cln, 7), b: spec_nd(NodeKind::Ldk, 2) },
        Connection { a: spec_nd(NodeKind::Cln, 8), b: spec_nd(NodeKind::Ldk, 3) },
        Connection { a: spec_nd(NodeKind::Cln, 9), b: spec_nd(NodeKind::Ldk, 4) },
        Connection { a: spec_nd(NodeKind::Ldk, 2), b: spec_nd(NodeKind::Ldk, 5) },
        Connection { a: spec_nd(NodeKind::Ldk, 3), b: spec_nd(NodeKind::Lnd, 4) },
        Connection { a: spec_nd(NodeKind::Ldk, 4), b: spec_nd(NodeKind::Lnd, 4) },
        Connection { a: spec_nd(NodeKind::Ldk, 5), b: spec_nd(NodeKind::Lnd, 4) },
    ]
}

/// The two leaf groups of the big scenario's hub shape: twenty lnd leaves
/// partnered with ldk nodes behind one secondary hub, and twenty ldk leaves
/// partnered with lnd nodes behind another.
pub open spec fn big_groups() -> Seq<LeafGroup> {
    seq![
        LeafGroup {
            leaf_kind: NodeKind::Lnd,
            partner_kind: NodeKind::Ldk,
            lo: 5,
            hi: 25,
            secondary: spec_nd(NodeKind::Cln, 5),
        },
        LeafGroup {
            leaf_kind: NodeKind::Ldk,
            partner_kind: NodeKind::Lnd,
            lo: 25,
            hi: 45,
            secondary: spec_nd(NodeKind::Cln, 6),
        },
    ]
}

/// The payment activity of the big scenario: low-rate mesh flows plus
/// heavier flows into and out of the hub.
pub open spec fn big_activities() -> Seq<ActivitySpec> {
    seq![
        ActivitySpec {
            source: spec_nd(NodeKind::Lnd, 0),
            dest: spec_nd(NodeKind::Cln, 0),
            min_amount_sat: None,
            max_amount_sat: None,
            count: 1,
            interval: 2000,
        },
        ActivitySpec {
            source: spec_nd(NodeKind::Cln, 1),
            dest: spec_nd(NodeKind::Lnd, 1),
            min_amount_sat: None,
            max_amount_sat: None,
            count: 1,
            interval: 3000,
        },
        ActivitySpec {
            source: spec_nd(NodeKind::Lnd, 2),
            dest: spec_nd(NodeKind::Cln, 2),
            min_amount_sat: None,
            max_amount_sat: None,
            count: 1,
            interval: 4000,
        },
        ActivitySpec {
            source: spec_nd(NodeKind::Cln, 3),
            dest: spec_nd(NodeKind::Lnd, 3),
            min_amount_sat: None,
            max_amount_sat: None,
            count: 1,
            interval: 5000,
        },
        ActivitySpec {
            source: spec_nd(NodeKind::Lnd, 4),
            dest: spec_nd(NodeKind::Cln, 5),
            min_amount_sat: None,
            max_amount_sat: None,
            count: 5,
            interval: 6000,
        },
        ActivitySpec {
            source: spec_nd(NodeKind::Lnd, 4),
            dest: spec_nd(NodeKind::Cln, 6),
            min_amount_sat: None,
            max_amount_sat: None,
            count: 5,
            interval: 7000,
        },
        ActivitySpec {
            source: spec_nd(NodeKind::Cln, 7),
            dest: spec_nd(NodeKind::Lnd, 4),
            min_amount_sat: None,
            max_amount_sat: None,
            count: 10,
            interval: 8000,
        },
        ActivitySpec {
            source: spec_nd(NodeKind::Cln, 8),
            dest: spec_nd(NodeKind::Lnd, 4),
            min_amount_sat: None,
            max_amount_sat: None,
            count: 10,
            interval: 9000,
        },
        ActivitySpec {
            source: spec_nd(NodeKind::Cln, 9),
            dest: spec_nd(NodeKind::Lnd, 4),
            min_amount_sat: None,
            max_amount_sat: None,
            count: 10,
            interval: 9500,
        },
    ]
}

/// The big scenario: forty-five lnd and ldk nodes and ten cln nodes, an
/// explicit mesh, and a hub at the fifth lnd node funded through forty
/// small increments, with no scripted events.
pub fn big_descriptor() -> (d: ScenarioDescriptor)
    ensures
        d.num_lnd == 45 && d.num_ldk == 45 && d.num_cln == 10,
        d.mesh@ == big_mesh(),
        d.hub matches Some(h) && {
            &&& h.hub == spec_nd(NodeKind::Lnd, 4)
            &&& h.groups@ == big_groups()
            &&& h.increment_sat == 2_500_000
            &&& h.increments == 40
        },
        d.fund_sat == 100_000_000,
        d.capacity_sat == 500_000,
        d.push_sat == 0,
        d.activities@ == big_activities(),
        d.events@ == Seq::<crate::topology::EventSpec>::empty(),
        wf_descriptor(d),
{
    let mut mesh: Vec<Connection> = Vec::new();
    mesh.push(Connection { a: nd(NodeKind::Lnd, 0), b: nd(NodeKind::Cln, 0) });
    mesh.push(Connection { a: nd(NodeKind::Cln, 1), b: nd(NodeKind::Lnd, 1) });
    mesh.push(Connection { a: nd(NodeKind::Lnd, 2), b: nd(NodeKind::Ldk, 0) });
    mesh.push(Connection { a: nd(NodeKind::Cln, 3), b: nd(NodeKind::Ldk, 1) });
    mesh.push(Connection { a: nd(NodeKind::Ldk, 0), b: nd(NodeKind::Cln, 2) });
    mesh.push(Connection { a: nd(NodeKind::Ldk, 1), b: nd(NodeKind::Lnd, 3) });
    mesh.push(Connection { a: nd(NodeKind::Cln, 7), b: nd(NodeKind::Ldk, 2) });
    mesh.push(Connection { a: nd(NodeKind::Cln, 8), b: nd(NodeKind::Ldk, 3) });
    mesh.push(Connection { a: nd(NodeKind::Cln, 9), b: nd(NodeKind::Ldk, 4) });
    mesh.push(Connection { a: nd(NodeKind::Ldk, 2), b: nd(NodeKind::Ldk, 5) });
    mesh.push(Connection { a: nd(NodeKind::Ldk, 3), b: nd(NodeKind::Lnd, 4) });
    mesh.push(Connection { a: nd(NodeKind::Ldk, 4), b: nd(NodeKind::Lnd, 4) });
    mesh.push(Connection { a: nd(NodeKind::Ldk, 5), b: nd(NodeKind::Lnd, 4) });
    let mut groups: Vec<LeafGroup> = Vec::new();
    groups.push(
        LeafGroup {
            leaf_kind: NodeKind::Lnd,
            partner_kind: NodeKind::Ldk,
            lo: 5,
            hi: 25,
            secondary: nd(NodeKind::Cln, 5),
        },
    );
    groups.push(
        LeafGroup {
            leaf_kind: NodeKind::Ldk,
            partner_kind: NodeKind::Lnd,
            lo: 25,
            hi: 45,
            secondary: nd(NodeKind::Cln, 6),
        },
    );
    let hub = HubDescriptor {
        hub: nd(NodeKind::Lnd, 4),
        groups,
        increment_sat: 2_500_000,
        increments: 40,
    };
    let mut activities: Vec<ActivitySpec> = Vec::new();
    activities.push(
        ActivitySpec {
            source: nd(NodeKind::Lnd, 0),
            dest: nd(NodeKind::Cln, 0),
            min_amount_sat: None,
            max_amount_sat: None,
            count: 1,
            interval: 2000,
        },
    );
    activities.push(
        ActivitySpec {
            source: nd(NodeKind::Cln, 1),
            dest: nd(NodeKind::Lnd, 1),
            min_amount_sat: None,
            max_amount_sat: None,
            count: 1,
            interval: 3000,
        },
    );
    activities.push(
        ActivitySpec {
            source: nd(NodeKind::Lnd, 2),
            dest: nd(NodeKind::Cln, 2),
            min_amount_sat: None,
            max_amount_sat: None,
            count: 1,
            interval: 4000,
        },
    );
    activities.push(
        ActivitySpec {
            source: nd(NodeKind::Cln, 3),
            dest: nd(NodeKind::Lnd, 3),
            min_amount_sat: None,
            max_amount_sat: None,
            count: 1,
            interval: 5000,
        },
    );
    activities.push(
        ActivitySpec {
            source: nd(NodeKind::Lnd, 4),
            dest: nd(NodeKind::Cln, 5),
            min_amount_sat: None,
            max_amount_sat: None,
            count: 5,
            interval: 6000,
        },
    );
    activities.push(
        ActivitySpec {
            source: nd(NodeKind::Lnd, 4),
            dest: nd(NodeKind::Cln, 6),
            min_amount_sat: None,
            max_amount_sat: None,
            count: 5,
            interval: 7000,
        },
    );
    activities.push(
        ActivitySpec {
            source: nd(NodeKind::Cln, 7),
            dest: nd(NodeKind::Lnd, 4),
            min_amount_sat: None,
            max_amount_sat: None,
            count: 10,
            interval: 8000,
        },
    );
    activities.push(
        ActivitySpec {
            source: nd(NodeKind::Cln, 8),
            dest: nd(NodeKind::Lnd, 4),
            min_amount_sat: None,
            max_amount_sat: None,
            count: 10,
            interval: 9000,
        },
    );
    activities.push(
        ActivitySpec {
            source: nd(NodeKind::Cln, 9),
            dest: nd(NodeKind::Lnd, 4),
            min_amount_sat: None,
            max_amount_sat: None,
            count: 10,
            interval: 9500,
        },
    );
    let d = ScenarioDescriptor {
        num_lnd: 45,
        num_ldk: 45,
        num_cln: 10,
        mesh,
        hub: Some(hub),
        fund_sat: 100_000_000,
        capacity_sat: 500_000,
        push_sat: 0,
        activities,
        events: Vec::new(),
    };
    proof {
        assert(d.mesh@ =~= big_mesh());
        assert(d.activities@ =~= big_activities());
        assert(d.events@ =~= Seq::<crate::topology::EventSpec>::empty());
        let h = d.hub->Some_0;
        assert(h.groups@ =~= big_groups());
        assert(wf_descriptor(d));
    }
    d
}

} // verus!
