use erp_example::model::can_total;
use erp_example::erp::can_value;
use erp_example::erp::{
    accept_quote, advice, demo_customers, demo_products, demo_suppliers, extra_product, invoice_from_order, join,
    move_stock, new_quote, order_from_quote, pay_invoice, quote_line, ship_order, stock_delta, stock_worth, Erp,
    BUCKET, DUE_DATE, GRAPH, TODAY,
};
use erp_example::erp::{decline_removals, Removal, StockWrite};
use erp_example::erreur::{CodeGrpc, ErreurRocia};
use erp_example::model::{
    totals, Product, StockMove, INVOICE_ISSUED, INVOICE_PAID, ORDER_PREPARING, ORDER_SHIPPED, QUOTE_ACCEPTED, QUOTE_SENT,
};

/// The two writes of a move, checked to come stock first, record second.
fn split(writes: Vec<StockWrite>) -> (Product, StockMove) {
    assert_eq!(writes.len(), 2);
    match (writes[0].clone(), writes[1].clone()) {
        (StockWrite::SaveProduct(product), StockWrite::RecordMove(record)) => (product, record),
        other => panic!("writes out of order: {other:?}"),
    }
}

fn demo_erp() -> Erp {
    Erp::new("demo", 1_788_000_000)
}

fn product(id: &str, stock: i64) -> Product {
    Product {
        id: id.to_string(),
        reference: "REF".to_string(),
        name: "Thing".to_string(),
        family: "hardware".to_string(),
        unit_price: 450,
        vat_rate: 1000,
        stock,
        min_stock: 25,
        active: true,
    }
}

#[test]
fn keys_are_prefixed_by_the_run() {
    let erp = demo_erp();
    assert_eq!(erp.tenant, "demo");
    assert_eq!(erp.run, "run-1788000000");
    assert_eq!(erp.key("supplier:S-001"), "run-1788000000:supplier:S-001");
}

#[test]
fn two_runs_give_two_keys_for_one_write() {
    let first = Erp::new("demo", 1);
    let second = Erp::new("demo", 2);
    assert_ne!(first.key("import:P-001"), second.key("import:P-001"));
    assert_ne!(first.key("import:P-001"), first.key("import:P-002"));
}

#[test]
fn fixed_names_and_dates() {
    assert_eq!(GRAPH, "erp");
    assert_eq!(BUCKET, "attachments");
    assert_eq!(TODAY, "2026-09-01");
    assert_eq!(DUE_DATE, "2026-10-01");
}

#[test]
fn each_error_variant_has_its_advice() {
    let status = ErreurRocia::Status {
        operation: "failed to get document".to_string(),
        code: CodeGrpc::NotFound,
        description_code: "Some requested entity was not found".to_string(),
        raison: Some("not_found".to_string()),
        message: "missing".to_string(),
        affichage: "failed to get document".to_string(),
    };
    assert_eq!(advice(&status), "the server refused the call; read reason() to know why");
    assert_eq!(
        advice(&ErreurRocia::Connection { message: "refused".to_string() }),
        "check the server is up, and that the host carries no path"
    );
    assert_eq!(
        advice(&ErreurRocia::Auth { message: "no token".to_string() }),
        "check AUTH_TOKEN_URL / AUTH_CLIENT_ID / AUTH_CLIENT_SECRET"
    );
    assert_eq!(
        advice(&ErreurRocia::Encode { context: "c".to_string(), source: "s".to_string() }),
        "the value could not be serialized; fix the model"
    );
    assert_eq!(
        advice(&ErreurRocia::Decode { context: "c".to_string(), source: "s".to_string() }),
        "the stored document no longer matches the Rust type"
    );
    assert_eq!(
        advice(&ErreurRocia::Validation("limit".to_string())),
        "rejected client-side; nothing was sent"
    );
}

#[test]
fn join_lists_or_says_none() {
    assert_eq!(join(&[]), "none");
    assert_eq!(join(&["a".to_string()]), "a");
    assert_eq!(
        join(&["SCR-5X50 (18/30)".to_string(), "DOC-FIT (2/25)".to_string(), "x".to_string()]),
        "SCR-5X50 (18/30), DOC-FIT (2/25), x"
    );
}

#[test]
fn delta_follows_the_direction() {
    assert_eq!(stock_delta("in", 50), 50);
    assert_eq!(stock_delta("out", 12), -12);
    assert_eq!(stock_delta("anything", 3), -3);
}

#[test]
fn a_delivery_adds_stock_and_records_the_move() {
    let erp = demo_erp();
    let (moved, record) =
        split(move_stock(&erp, product("P-005", 2), "P-005", "in", 50, "delivery from S-001").unwrap());
    assert_eq!(moved.stock, 52);
    assert_eq!(moved.id, "P-005");
    assert_eq!(record.id, "MOV-P-005-in-run-1788000000");
    assert_eq!(record.product_id, "P-005");
    assert_eq!(record.direction, "in");
    assert_eq!(record.quantity, 50);
    assert_eq!(record.source, "delivery from S-001");
}

#[test]
fn a_shipment_takes_stock_down_to_zero_but_not_below() {
    let erp = demo_erp();
    let (moved, record) = split(move_stock(&erp, product("P-001", 12), "P-001", "out", 12, "SO-2026-0001").unwrap());
    assert_eq!(moved.stock, 0);
    assert_eq!(record.id, "MOV-P-001-out-run-1788000000");

    let refused = move_stock(&erp, product("P-001", 11), "P-001", "out", 12, "SO-2026-0001");
    assert_eq!(refused.unwrap_err(), "not enough stock on P-001");
}

#[test]
fn in_then_out_leaves_the_stock_unchanged() {
    let erp = demo_erp();
    let (after_in, _) = split(move_stock(&erp, product("P-002", 18), "P-002", "in", 7, "d").unwrap());
    let (after_out, _) = split(move_stock(&erp, after_in, "P-002", "out", 7, "s").unwrap());
    assert_eq!(after_out.stock, 18);
}

#[test]
fn stock_worth_adds_price_times_stock() {
    let products = demo_products();
    // 1250*120 + 1890*18 + 340*640 + 14900*7 + 450*2
    assert_eq!(stock_worth(&products), 150_000 + 34_020 + 217_600 + 104_300 + 900);
    assert_eq!(stock_worth(&[]), 0);
}

#[test]
fn a_sale_from_quote_to_paid_invoice_keeps_its_amounts() {
    let products = demo_products();
    let lines = vec![quote_line(&products[0], 12), quote_line(&products[2], 80)];
    assert_eq!(lines[0].product_id, "P-001");
    assert_eq!(lines[0].name, "Wood screw 4x30 (box of 200)");
    assert_eq!(lines[1].unit_price, 340);
    let expected = totals(&lines);

    let quote = new_quote("Q-2026-0001", "C-001", lines.clone());
    assert_eq!(quote.status, QUOTE_SENT);
    assert_eq!(quote.date, TODAY);
    assert_eq!(quote.totals, expected);
    // 12 x 12.50 + 80 x 3.40 = 150.00 + 272.00 net, 20% VAT
    assert_eq!(quote.totals.net, 42_200);
    assert_eq!(quote.totals.vat, 8_440);
    assert_eq!(quote.totals.gross, 50_640);

    let accepted = accept_quote(quote.clone());
    assert_eq!(accepted.status, QUOTE_ACCEPTED);
    assert_eq!(accepted.lines, quote.lines);

    let order = order_from_quote(quote.clone(), "SO-2026-0001");
    assert_eq!(order.quote_id, "Q-2026-0001");
    assert_eq!(order.customer_id, "C-001");
    assert_eq!(order.status, ORDER_PREPARING);
    assert_eq!(order.totals, quote.totals);
    assert_eq!(order.lines, quote.lines);

    let shipped = ship_order(order.clone());
    assert_eq!(shipped.status, ORDER_SHIPPED);
    assert_eq!(shipped.id, order.id);

    let invoice = invoice_from_order(order.clone(), "INV-2026-0001");
    assert_eq!(invoice.order_id, "SO-2026-0001");
    assert_eq!(invoice.status, INVOICE_ISSUED);
    assert_eq!(invoice.due_date, DUE_DATE);
    assert_eq!(invoice.totals, expected);
    assert_eq!(invoice.lines, lines);

    let paid = pay_invoice(invoice.clone());
    assert_eq!(paid.status, INVOICE_PAID);
    assert_eq!(paid.totals, invoice.totals);
}

#[test]
fn the_demo_data_is_the_documented_one() {
    let customers = demo_customers();
    assert_eq!(customers.len(), 3);
    assert_eq!(customers[0].email, "orders@bertrand.example");
    assert!(!customers[2].active);

    let suppliers = demo_suppliers();
    assert_eq!(suppliers.len(), 2);
    assert_eq!(suppliers[1].name, "ProTools");
    assert_eq!(suppliers[1].lead_time_days, 12);

    let products = demo_products();
    assert_eq!(products.len(), 5);
    assert_eq!(products[4].reference, "DOC-FIT");
    assert_eq!(products[4].vat_rate, 1000);

    let extra = extra_product();
    assert_eq!(extra.id, "P-006");
    assert_eq!(extra.unit_price, 890);
}

#[test]
fn worth_and_totals_are_checked_before_they_overflow() {
    let products = demo_products();
    assert!(can_value(&products));
    let mut huge = products.clone();
    huge[0].stock = i64::MAX;
    assert!(!can_value(&huge));

    let lines = vec![quote_line(&products[0], 12)];
    assert!(can_total(&lines));
    let mut over = lines.clone();
    over[0].quantity = i64::MAX / 1000;
    assert!(!can_total(&over));
    assert!(can_total(&[]));
}

#[test]
fn a_declined_quote_loses_its_document_before_its_edge() {
    let erp = demo_erp();
    let removals = decline_removals(&erp, "C-002", "Q-2026-0002");
    assert_eq!(
        removals,
        vec![
            Removal::Document {
                collection: "quotes".to_string(),
                id: "Q-2026-0002".to_string(),
                key: "run-1788000000:delete:quotes:Q-2026-0002".to_string(),
            },
            Removal::Edge {
                edge_id: "requested|customer:C-002|quote:Q-2026-0002".to_string(),
                key: "run-1788000000:unlink:requested|customer:C-002|quote:Q-2026-0002".to_string(),
            },
        ]
    );
}

#[test]
fn each_write_has_its_key() {
    let erp = demo_erp();
    assert_eq!(erp.supplier_key("S-001"), "run-1788000000:supplier:S-001");
    assert_eq!(erp.import_key("P-001"), "run-1788000000:import:P-001");
    assert_eq!(erp.bound_key("quotes", "Q-1"), "run-1788000000:quotes:Q-1");
    assert_eq!(erp.delete_key("quotes", "Q-1"), "run-1788000000:delete:quotes:Q-1");
    assert_eq!(erp.delete_file_key("notes/reorder.txt"), "run-1788000000:delete-file:notes/reorder.txt");
    assert_eq!(erp.repair_key("customer:C-003"), "run-1788000000:repair:customer:C-003");
    assert_eq!(erp.unlink_key("e"), "run-1788000000:unlink:e");
}
