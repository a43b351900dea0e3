use erp_example::erp::Erp;
use erp_example::files::{raw_request, streamed_upload_plan, upload_options};
use erp_example::pieces::{TAILLE_CHUNK, TAILLE_MORCEAU_FLUX};
use sha2::{Digest, Sha256};

fn demo_erp() -> Erp {
    Erp::new("demo", 42)
}

#[test]
fn an_in_memory_upload_carries_the_sha256_and_its_key() {
    let content = b"INVOICE INV-2026-0001\n".to_vec();
    let options = upload_options(&demo_erp(), "invoices/INV-2026-0001.txt", &content, "text/plain");
    assert_eq!(options.content_type, "text/plain");
    assert_eq!(options.checksum.len(), 32);
    assert_eq!(options.checksum, Sha256::digest(&content).to_vec());
    assert_ne!(options.checksum, content);
    assert_eq!(options.request_id, "run-42:upload:invoices/INV-2026-0001.txt");
}

#[test]
fn a_streamed_upload_announces_size_and_hash_and_cuts_64_kib_pieces() {
    let content = vec![9u8; 2 * TAILLE_MORCEAU_FLUX + 5];
    let plan = streamed_upload_plan(&demo_erp(), "exports/stock-2026-09-01.csv", &content, "text/csv");
    assert_eq!(plan.taille, content.len() as u64);
    assert_eq!(plan.empreinte, Sha256::digest(&content).to_vec());
    assert_eq!(plan.morceaux.len(), 3);
    assert_eq!(plan.morceaux[0].len(), 64 * 1024);
    assert_eq!(plan.morceaux[2].len(), 5);
    assert_eq!(plan.morceaux.concat(), content);
    assert_eq!(plan.content_type, "text/csv");
    assert_eq!(plan.request_id, "run-42:export:exports/stock-2026-09-01.csv");
}

#[test]
fn a_short_note_is_one_hand_built_message() {
    let note = b"Check P-005 before the next order.\n";
    let message = raw_request(&demo_erp(), "notes/reorder.txt", note).unwrap();
    assert_eq!(message.tenant_id, "demo");
    assert_eq!(message.bucket, "attachments");
    assert_eq!(message.file_id, "notes/reorder.txt");
    assert_eq!(message.size_bytes, note.len() as u64);
    assert_eq!(message.content_type, "text/plain");
    assert_eq!(message.checksum, Sha256::digest(note).to_vec());
    assert_eq!(message.chunk, note.to_vec());
    assert_eq!(message.request_id, "run-42:raw:notes/reorder.txt");
}

#[test]
fn exactly_one_mib_still_fits_one_more_byte_does_not() {
    let full = vec![0u8; TAILLE_CHUNK];
    assert_eq!(raw_request(&demo_erp(), "f", &full).unwrap().chunk.len(), TAILLE_CHUNK);
    let over = vec![0u8; TAILLE_CHUNK + 1];
    assert_eq!(
        raw_request(&demo_erp(), "f", &over).unwrap_err(),
        "upload_raw only handles content that fits in one 1 MiB message"
    );
}

use erp_example::erp::{demo_products, invoice_from_order, new_quote, order_from_quote, quote_line};
use erp_example::files::{can_print, export_file, invoice_file, invoice_text, stock_csv};

#[test]
fn the_invoice_text_lists_each_line_and_the_gross_total() {
    let products = demo_products();
    let lines = vec![quote_line(&products[0], 12), quote_line(&products[2], 80)];
    let quote = new_quote("Q-2026-0001", "C-001", lines);
    let invoice = invoice_from_order(order_from_quote(quote, "SO-2026-0001"), "INV-2026-0001");
    assert!(can_print(&invoice));
    assert_eq!(
        invoice_text(&invoice),
        "INVOICE INV-2026-0001\nDue 2026-10-01\n\n\
         12 x Wood screw 4x30 (box of 200) = 150.00 EUR\n\
         80 x Galvanised rafter bracket = 272.00 EUR\n\
         \nTotal: 506.40 EUR\n"
    );
    assert_eq!(invoice_file(&invoice.id), "invoices/INV-2026-0001.txt");
}

#[test]
fn an_unprintable_amount_is_detected_before_printing() {
    let products = demo_products();
    let quote = new_quote("Q", "C", vec![quote_line(&products[0], 1)]);
    let mut invoice = invoice_from_order(order_from_quote(quote, "O"), "I");
    invoice.totals.gross = i64::MIN;
    assert!(!can_print(&invoice));
    invoice.totals.gross = 0;
    invoice.lines[0].quantity = i64::MAX;
    assert!(!can_print(&invoice));
}

#[test]
fn the_stock_export_has_a_header_and_one_line_per_product() {
    let products = demo_products();
    let csv = stock_csv(&products[..2]);
    assert_eq!(
        csv,
        "reference;name;family;stock;min_stock;unit_price\n\
         SCR-4X30;Wood screw 4x30 (box of 200);hardware;120;40;1250\n\
         SCR-5X50;Wood screw 5x50 (box of 100);hardware;18;30;1890\n"
    );
    assert_eq!(stock_csv(&[]), "reference;name;family;stock;min_stock;unit_price\n");
    assert_eq!(export_file(), "exports/stock-2026-09-01.csv");
}
