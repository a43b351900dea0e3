use erp_example::model::{money, totals, vat, Cents, Line, Totals, VAT_REDUCED, VAT_STANDARD};

fn line(quantity: i64, unit_price: Cents, vat_rate: i64) -> Line {
    Line {
        product_id: "P-1".to_string(),
        name: "Product".to_string(),
        quantity,
        unit_price,
        vat_rate,
    }
}

#[test]
fn vat_rounds_to_the_nearest_cent() {
    // 9.99 at 20% is 1.998: rounds up.
    assert_eq!(vat(999, VAT_STANDARD), 200);
    // 0.01 at 10% is 0.001: rounds down to nothing.
    assert_eq!(vat(1, VAT_REDUCED), 0);
    // Exactly half a cent rounds up.
    assert_eq!(vat(5, VAT_REDUCED), 1);
    assert_eq!(vat(0, VAT_STANDARD), 0);
}

#[test]
fn totals_sum_vat_line_by_line() {
    // 3 x 9.99 = 29.97 net, 5.99 VAT; 2 x 45.50 = 91.00 net, 9.10 VAT.
    let result = totals(&[line(3, 999, VAT_STANDARD), line(2, 4550, VAT_REDUCED)]);
    assert_eq!(result.net, 2997 + 9100);
    assert_eq!(result.vat, 599 + 910);
    assert_eq!(result.gross, result.net + result.vat);
}

#[test]
fn totals_of_nothing_are_zero() {
    assert_eq!(totals(&[]), Totals::default());
}

#[test]
fn money_is_readable() {
    assert_eq!(money(123_456), "1234.56 EUR");
    assert_eq!(money(5), "0.05 EUR");
    assert_eq!(money(0), "0.00 EUR");
    assert_eq!(money(-999), "-9.99 EUR");
}

#[test]
fn vat_on_a_credit_note_is_the_opposite_of_the_sale() {
    // -9.99 at 20% is -1.998: the nearest cent is -2.00.
    assert_eq!(vat(-999, VAT_STANDARD), -200);
    assert_eq!(vat(999, VAT_STANDARD), 200);
    // -0.08 at 20% is -0.016, nearest -0.02; -0.02 at 20% is -0.004, nearest 0.
    assert_eq!(vat(-8, VAT_STANDARD), -2);
    assert_eq!(vat(-2, VAT_STANDARD), 0);
    // Exactly half a cent rounds away from zero, both ways.
    assert_eq!(vat(-5, VAT_REDUCED), -1);
    assert_eq!(vat(5, VAT_REDUCED), 1);
}

#[test]
fn the_order_of_lines_changes_no_amount() {
    let a = vec![line(3, 999, VAT_STANDARD), line(1, 5, VAT_REDUCED)];
    let b = vec![line(7, 333, VAT_REDUCED)];
    let ab: Vec<Line> = a.iter().chain(b.iter()).cloned().collect();
    let ba: Vec<Line> = b.iter().chain(a.iter()).cloned().collect();
    assert_eq!(totals(&ab), totals(&ba));
    let (ta, tb) = (totals(&a), totals(&b));
    assert_eq!(totals(&ab).net, ta.net + tb.net);
    assert_eq!(totals(&ab).vat, ta.vat + tb.vat);
}
