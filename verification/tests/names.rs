use interop_sim::names::{blast_cln_node, blast_ldk_node, blast_lnd_node, name, NodeKind};
use std::collections::HashSet;

#[test]
fn name_format_exact() {
    assert_eq!(blast_lnd_node(0), "blast_lnd-0000");
    assert_eq!(blast_ldk_node(0), "blast_ldk-0000");
    assert_eq!(blast_cln_node(0), "blast_cln-0000");
    assert_eq!(blast_lnd_node(7), "blast_lnd-0007");
    assert_eq!(blast_ldk_node(123), "blast_ldk-0123");
    assert_eq!(blast_cln_node(9999), "blast_cln-9999");
    assert_eq!(name(NodeKind::Lnd, 42), "blast_lnd-0042");
}

#[test]
fn name_always_four_digit_padding() {
    for i in [0u32, 1, 9, 10, 99, 100, 999, 1000, 9999] {
        for kind in [NodeKind::Lnd, NodeKind::Ldk, NodeKind::Cln] {
            let n = name(kind, i);
            assert_eq!(n.len(), 14);
            let digits = &n[10..];
            assert_eq!(digits.len(), 4);
            assert!(digits.chars().all(|c| c.is_ascii_digit()));
            assert_eq!(digits.parse::<u32>().unwrap(), i);
        }
    }
}

#[test]
fn names_unique_across_kinds_and_indices() {
    let mut seen: HashSet<String> = HashSet::new();
    for kind in [NodeKind::Lnd, NodeKind::Ldk, NodeKind::Cln] {
        for i in 0..10000u32 {
            assert!(seen.insert(name(kind, i)));
        }
    }
    assert_eq!(seen.len(), 30000);
}
