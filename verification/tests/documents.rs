use erp_example::documents::{below_minimum, CLEANUP_ORDER, CUSTOMERS, INVOICES, PRODUCTS, STOCK_MOVES, SUPPLIERS};
use erp_example::erp::demo_products;

#[test]
fn only_products_below_their_minimum_are_reordered_in_order() {
    let reorder = below_minimum(demo_products());
    let references: Vec<&str> = reorder.iter().map(|p| p.reference.as_str()).collect();
    assert_eq!(references, vec!["SCR-5X50", "DOC-FIT"]);
}

#[test]
fn a_product_exactly_at_its_minimum_is_not_reordered() {
    let mut products = demo_products();
    products[1].stock = products[1].min_stock;
    let reorder = below_minimum(products);
    assert_eq!(reorder.len(), 1);
    assert_eq!(reorder[0].id, "P-005");
    assert!(below_minimum(Vec::new()).is_empty());
}

#[test]
fn cleanup_empties_dependent_documents_first() {
    assert_eq!(CLEANUP_ORDER.len(), 7);
    assert_eq!(CLEANUP_ORDER[0], STOCK_MOVES);
    assert_eq!(CLEANUP_ORDER[1], INVOICES);
    assert_eq!(CLEANUP_ORDER[4], PRODUCTS);
    assert_eq!(CLEANUP_ORDER[5], CUSTOMERS);
    assert_eq!(CLEANUP_ORDER[6], SUPPLIERS);
}
