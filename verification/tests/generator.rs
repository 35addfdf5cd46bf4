use interop_sim::generator::generate;
use interop_sim::names::NodeKind;
use interop_sim::scenarios::{big_descriptor, simple_descriptor};
use interop_sim::topology::{node_name, NodeRef, ScenarioDescriptor, Topology, TopologyError};

fn nd(kind: NodeKind, index: u32) -> NodeRef {
    NodeRef { kind, index }
}

fn generated(d: &ScenarioDescriptor) -> Topology {
    match generate(d) {
        Ok(t) => t,
        Err(_) => panic!("descriptor unexpectedly rejected"),
    }
}

#[test]
fn small_scenario_counts_and_flags() {
    let d = simple_descriptor();
    let t = generated(&d);
    assert_eq!(t.connections.len(), 6);
    assert_eq!(t.fundings.len(), 6);
    assert_eq!(t.channels.len(), 6);
    assert_eq!(t.activities.len(), 4);
    assert_eq!(t.events.len(), 0);
    // exactly one announce channel, and it is the last one issued
    for (i, c) in t.channels.iter().enumerate() {
        assert_eq!(c.announce, i == 5);
    }
    // exactly one final funding, and it is the last one issued
    for (i, f) in t.fundings.iter().enumerate() {
        assert_eq!(f.is_final, i == 5);
    }
    // node names per kind run from 0000 to 0003
    for kind in [NodeKind::Lnd, NodeKind::Ldk, NodeKind::Cln] {
        for i in 0..4u32 {
            let n = node_name(&nd(kind, i));
            assert!(n.ends_with(&format!("000{}", i)));
        }
    }
    // every referenced node stays inside the four indices of its kind
    for c in t.connections.iter() {
        assert!(c.a.index < 4 && c.b.index < 4);
    }
}

#[test]
fn small_scenario_exact_sequences() {
    let d = simple_descriptor();
    let t = generated(&d);
    let pairs: Vec<(NodeRef, NodeRef)> = t.connections.iter().map(|c| (c.a, c.b)).collect();
    assert_eq!(
        pairs,
        vec![
            (nd(NodeKind::Lnd, 0), nd(NodeKind::Cln, 0)),
            (nd(NodeKind::Cln, 1), nd(NodeKind::Lnd, 1)),
            (nd(NodeKind::Cln, 2), nd(NodeKind::Ldk, 2)),
            (nd(NodeKind::Ldk, 2), nd(NodeKind::Lnd, 2)),
            (nd(NodeKind::Lnd, 3), nd(NodeKind::Ldk, 3)),
            (nd(NodeKind::Ldk, 3), nd(NodeKind::Cln, 3)),
        ]
    );
    // channels reuse the mesh pairs, with ids assigned in generation order
    for (i, c) in t.channels.iter().enumerate() {
        assert_eq!((c.a, c.b), pairs[i]);
        assert_eq!(c.id, i as u64);
        assert_eq!(c.capacity_sat, 500_000);
        assert_eq!(c.push_sat, 0);
    }
    // funding covers the channel openers in order, one standard amount each
    for (i, f) in t.fundings.iter().enumerate() {
        assert_eq!(f.node, pairs[i].0);
        assert_eq!(f.amount_sat, 100_000_000);
    }
}

#[test]
fn channel_ids_strictly_increasing() {
    for t in [generated(&simple_descriptor()), generated(&big_descriptor())] {
        for w in t.channels.windows(2) {
            assert!(w[0].id < w[1].id);
        }
    }
}

#[test]
fn opener_funded_before_channels() {
    for t in [generated(&simple_descriptor()), generated(&big_descriptor())] {
        for c in t.channels.iter() {
            assert!(
                t.fundings.iter().any(|f| f.node == c.a),
                "channel opener without a funding instruction"
            );
        }
    }
}

#[test]
fn big_scenario_counts() {
    let d = big_descriptor();
    let t = generated(&d);
    // 13 mesh pairs, 40 hub-to-leaf links, and 2 chained links per leaf
    assert_eq!(t.connections.len(), 13 + 40 + 80);
    // 44 lnd (hub skipped) + 45 ldk + 10 cln + 40 hub increments
    assert_eq!(t.fundings.len(), 44 + 45 + 10 + 40);
    assert_eq!(t.channels.len(), 13 + 40 + 80);
    assert_eq!(t.activities.len(), 9);
    assert_eq!(t.events.len(), 0);
}

#[test]
fn big_scenario_hub_funding_increments() {
    let hub = nd(NodeKind::Lnd, 4);
    let t = generated(&big_descriptor());
    let hub_fundings: Vec<_> = t.fundings.iter().filter(|f| f.node == hub).collect();
    assert_eq!(hub_fundings.len(), 40);
    for f in hub_fundings.iter() {
        assert_eq!(f.amount_sat, 2_500_000);
    }
    // exactly one funding in the whole scenario is final: the hub's last increment
    let finals: Vec<usize> = t
        .fundings
        .iter()
        .enumerate()
        .filter(|(_, f)| f.is_final)
        .map(|(i, _)| i)
        .collect();
    assert_eq!(finals, vec![t.fundings.len() - 1]);
    assert_eq!(t.fundings[t.fundings.len() - 1].node, hub);
    // every other node gets one standard lump sum
    for f in t.fundings.iter().filter(|f| f.node != hub) {
        assert_eq!(f.amount_sat, 100_000_000);
    }
}

#[test]
fn big_scenario_leaf_links_follow_the_shape() {
    let hub = nd(NodeKind::Lnd, 4);
    let sec1 = nd(NodeKind::Cln, 5);
    let sec2 = nd(NodeKind::Cln, 6);
    let t = generated(&big_descriptor());
    let is_leaf1 = |n: NodeRef| n.kind == NodeKind::Lnd && (5..25).contains(&n.index);
    let is_partner1 = |n: NodeRef| n.kind == NodeKind::Ldk && (5..25).contains(&n.index);
    let is_leaf2 = |n: NodeRef| n.kind == NodeKind::Ldk && (25..45).contains(&n.index);
    let is_partner2 = |n: NodeRef| n.kind == NodeKind::Lnd && (25..45).contains(&n.index);
    let mut hub_links: usize = 0;
    for c in t.connections.iter() {
        if c.a == hub || c.b == hub {
            hub_links += 1;
        }
    }
    // the hub fans out to all forty leaves, plus its three mesh links
    assert_eq!(hub_links, 43);
    // the hub-shape region follows the explicit mesh prefix; the mesh is
    // layered independently and not constrained by the shape
    for c in t.connections[13..].iter() {
        // a first-group leaf links only to the hub or to its same-index partner
        if is_leaf1(c.a) || is_leaf1(c.b) {
            let (leaf, other) = if is_leaf1(c.a) { (c.a, c.b) } else { (c.b, c.a) };
            assert!(other == hub || (is_partner1(other) && other.index == leaf.index));
        }
        // a first-group partner links only to its leaf or to the secondary hub
        if is_partner1(c.a) || is_partner1(c.b) {
            let (p, other) = if is_partner1(c.a) { (c.a, c.b) } else { (c.b, c.a) };
            assert!(other == sec1 || (is_leaf1(other) && other.index == p.index));
        }
        // the second group mirrors the first behind its own secondary hub
        if is_leaf2(c.a) || is_leaf2(c.b) {
            let (leaf, other) = if is_leaf2(c.a) { (c.a, c.b) } else { (c.b, c.a) };
            assert!(other == hub || (is_partner2(other) && other.index == leaf.index));
        }
        if is_partner2(c.a) || is_partner2(c.b) {
            let (p, other) = if is_partner2(c.a) { (c.a, c.b) } else { (c.b, c.a) };
            assert!(other == sec2 || (is_leaf2(other) && other.index == p.index));
        }
    }
}

#[test]
fn hub_without_mesh_still_marks_the_last_channel_announce() {
    let mut d = big_descriptor();
    d.mesh.clear();
    let t = generated(&d);
    assert_eq!(t.connections.len(), 120);
    assert_eq!(t.channels.len(), 120);
    for (i, c) in t.channels.iter().enumerate() {
        assert_eq!(c.id, i as u64);
        assert_eq!(c.announce, i == 119);
    }
    // funding still covers every node kind by kind plus the hub increments
    assert_eq!(t.fundings.len(), 44 + 45 + 10 + 40);
    assert!(t.fundings[t.fundings.len() - 1].is_final);
}

#[test]
fn zero_count_descriptor_rejected() {
    let mut d = simple_descriptor();
    d.num_cln = 0;
    match generate(&d) {
        Ok(_) => panic!("a zero node count must be rejected"),
        Err(e) => {
            assert_eq!(e, TopologyError::InvalidCounts);
            assert_eq!(e.message(), "every node kind needs a positive node count");
        }
    }
}

#[test]
fn empty_event_schedule_is_valid() {
    let d = simple_descriptor();
    assert!(d.events.is_empty());
    assert!(generate(&d).is_ok());
}
