use erp_example::graph::{edge, node, SUPPLIES};

#[test]
fn node_ids_follow_the_sdk_convention() {
    assert_eq!(node("customer", "C-1"), "customer:C-1");
    assert_eq!(node("invoice", "INV-2026-1"), "invoice:INV-2026-1");
}

#[test]
fn edge_ids_are_rebuildable() {
    assert_eq!(
        edge(SUPPLIES, "supplier:S-1", "product:P-1"),
        "supplies|supplier:S-1|product:P-1"
    );
}

use erp_example::erp::{demo_products, Erp};
use erp_example::graph::{keyed_link, product_nodes, supplier_edges, REQUESTED};

#[test]
fn product_nodes_point_back_at_their_documents() {
    let erp = Erp::new("demo", 7);
    let products = demo_products();
    let nodes = product_nodes(&erp, &products);
    assert_eq!(nodes.len(), 5);
    assert_eq!(nodes[0].node_id, "product:P-001");
    assert_eq!(nodes[0].valeur.collection, "products");
    assert_eq!(nodes[0].valeur.id, "P-001");
    assert_eq!(nodes[0].valeur.reference, "SCR-4X30");
    assert_eq!(nodes[0].valeur.name, "Wood screw 4x30 (box of 200)");
    assert_eq!(nodes[4].request_id, "run-7:node:P-005");
}

#[test]
fn supplier_edges_go_from_the_supplier_to_each_product() {
    let erp = Erp::new("demo", 7);
    let edges = supplier_edges(&erp, "S-002", &[("P-004".to_string(), 9800), ("P-001".to_string(), 830)]);
    assert_eq!(edges.len(), 2);
    assert_eq!(edges[0].arete.edge_id, "supplies|supplier:S-002|product:P-004");
    assert_eq!(edges[0].arete.from, "supplier:S-002");
    assert_eq!(edges[0].arete.to, "product:P-004");
    assert_eq!(edges[0].arete.label, "supplies");
    assert_eq!(edges[0].valeur, 9800);
    assert_eq!(edges[1].valeur, 830);
    assert_eq!(edges[1].request_id, "run-7:supplies:S-002:P-001");
}

#[test]
fn a_keyed_link_is_rebuildable_and_keyed_by_its_ends() {
    let erp = Erp::new("demo", 7);
    let (edge_, key) = keyed_link(&erp, REQUESTED, "customer:C-001", "quote:Q-2026-0001");
    assert_eq!(edge_.edge_id, edge(REQUESTED, "customer:C-001", "quote:Q-2026-0001"));
    assert_eq!(key, "run-7:requested:customer:C-001:quote:Q-2026-0001");
}
