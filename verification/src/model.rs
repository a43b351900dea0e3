//! Business types, and the small amount of arithmetic that needs no server.

use vstd::prelude::*;
use crate::modele::{div_tronquee, ecrire_montant, montant_lisible};

verus! {

/// Money is stored in cents, so no rounding depends on operation order.
pub type Cents = i64;

/// VAT rates in basis points: 2000 is 20.00%.
pub const VAT_STANDARD: i64 = 2000;
pub const VAT_REDUCED: i64 = 1000;

// Statuses are plain strings. They are written into documents and used as-is
// in query filters, so one constant per value keeps both sides in sync: a
// typo in a filter returns zero rows instead of failing.
pub const QUOTE_SENT: &'static str = "sent";
pub const QUOTE_ACCEPTED: &'static str = "accepted";
pub const ORDER_PREPARING: &'static str = "preparing";
pub const ORDER_SHIPPED: &'static str = "shipped";
pub const INVOICE_ISSUED: &'static str = "issued";
pub const INVOICE_OVERDUE: &'static str = "overdue";
pub const INVOICE_PAID: &'static str = "paid";

#[derive(Debug, Clone, PartialEq, Eq)]
pub struct Customer {
    pub id: String,
    pub name: String,
    pub email: String,
    pub city: String,
    pub active: bool,
}

#[derive(Debug, Clone, PartialEq, Eq)]
pub struct Supplier {
    pub id: String,
    pub name: String,
    pub email: String,
    pub lead_time_days: i64,
}

#[derive(Debug, Clone, PartialEq, Eq)]
pub struct Product {
    pub id: String,
    pub reference: String,
    pub name: String,
    pub family: String,
    pub unit_price: Cents,
    pub vat_rate: i64,
    pub stock: i64,
    pub min_stock: i64,
    pub active: bool,
}

#[derive(Debug, Clone, PartialEq, Eq)]
pub struct Line {
    pub product_id: String,
    pub name: String,
    pub quantity: i64,
    pub unit_price: Cents,
    pub vat_rate: i64,
}

#[derive(Debug, Clone, Copy, Default, PartialEq, Eq, Structural)]
pub struct Totals {
    pub net: Cents,
    pub vat: Cents,
    pub gross: Cents,
}

#[derive(Debug, Clone, PartialEq, Eq)]
pub struct Quote {
    pub id: String,
    pub customer_id: String,
    pub status: String,
    pub date: String,
    pub lines: Vec<Line>,
    pub totals: Totals,
}

#[derive(Debug, Clone, PartialEq, Eq)]
pub struct Order {
    pub id: String,
    pub customer_id: String,
    pub quote_id: String,
    pub status: String,
    pub date: String,
    pub lines: Vec<Line>,
    pub totals: Totals,
}

#[derive(Debug, Clone, PartialEq, Eq)]
pub struct Invoice {
    pub id: String,
    pub customer_id: String,
    pub order_id: String,
    pub status: String,
    pub date: String,
    pub due_date: String,
    pub lines: Vec<Line>,
    pub totals: Totals,
}

#[derive(Debug, Clone, PartialEq, Eq)]
pub struct StockMove {
    pub id: String,
    pub product_id: String,
    /// `"in"` on a delivery from a supplier, `"out"` on a shipment.
    pub direction: String,
    pub quantity: i64,
    pub source: String,
}

/// VAT on a net amount: `net * rate / 10000` rounded to the nearest cent,
/// half a cent rounding away from zero, so that a credit note carries
/// exactly the opposite VAT of the sale it cancels.
pub open spec fn vat_spec(net: int, rate: int) -> int {
    let product = net * rate;
    if product >= 0 {
        div_tronquee(product + 5000, 10000)
    } else {
        div_tronquee(product - 5000, 10000)
    }
}

/// `net * rate` and its half-cent shift fit in 64 bits.
pub open spec fn vat_computable(net: int, rate: int) -> bool {
    i64::MIN <= net * rate - 5000 && net * rate + 5000 <= i64::MAX
}

/// VAT on a net amount, rounded to the nearest cent.
pub fn vat(net: Cents, rate: i64) -> (v: Cents)
    requires
        vat_computable(net as int, rate as int),
    ensures
        v == vat_spec(net as int, rate as int),
{
    let product = net * rate;
    if product >= 0 {
        (product + 5_000) / 10_000
    } else {
        (product - 5_000) / 10_000
    }
}

/// Net amount of one line.
pub open spec fn line_net(line: Line) -> int {
    line.unit_price * line.quantity
}

/// VAT of one line, rounded on the line.
pub open spec fn line_vat(line: Line) -> int {
    vat_spec(line_net(line), line.vat_rate as int)
}

/// Sum of the line nets.
pub open spec fn sum_net(lines: Seq<Line>) -> int
    decreases lines.len(),
{
    if lines.len() == 0 {
        0
    } else {
        sum_net(lines.drop_last()) + line_net(lines.last())
    }
}

/// Sum of the per-line VAT amounts.
pub open spec fn sum_vat(lines: Seq<Line>) -> int
    decreases lines.len(),
{
    if lines.len() == 0 {
        0
    } else {
        sum_vat(lines.drop_last()) + line_vat(lines.last())
    }
}

/// Every line amount, every running sum, and the gross total fit in 64 bits.
pub open spec fn summable(lines: Seq<Line>) -> bool {
    &&& forall|i: int|
        0 <= i < lines.len() ==> {
            &&& i64::MIN <= line_net(#[trigger] lines[i]) <= i64::MAX
            &&& vat_computable(line_net(lines[i]), lines[i].vat_rate as int)
        }
    &&& forall|k: int|
        0 <= k <= lines.len() ==> i64::MIN <= #[trigger] sum_net(lines.take(k)) <= i64::MAX
    &&& forall|k: int|
        0 <= k <= lines.len() ==> i64::MIN <= #[trigger] sum_vat(lines.take(k)) <= i64::MAX
    &&& i64::MIN <= sum_net(lines) + sum_vat(lines) <= i64::MAX
}

/// Add up lines. VAT is computed per line and then summed, the way it is
/// printed on the invoice: rounding once at the end would be off by a cent
/// against the printed detail.
pub fn totals(lines: &[Line]) -> (t: Totals)
    requires
        summable(lines@),
    ensures
        t.net == sum_net(lines@),
        t.vat == sum_vat(lines@),
        t.gross == t.net + t.vat,
{
    let mut net: i64 = 0;
    let mut vat_total: i64 = 0;
    let mut i: usize = 0;
    assert(lines@.take(0) =~= Seq::<Line>::empty());
    while i < lines.len()
        invariant
            i <= lines.len(),
            summable(lines@),
            net == sum_net(lines@.take(i as int)),
            vat_total == sum_vat(lines@.take(i as int)),
        decreases lines.len() - i,
    {
        let l = &lines[i];
        assert(lines@.take(i + 1).drop_last() =~= lines@.take(i as int));
        assert(lines@.take(i + 1).last() == lines@[i as int]);
        assert(i64::MIN <= sum_net(lines@.take(i + 1)) <= i64::MAX);
        assert(i64::MIN <= sum_vat(lines@.take(i + 1)) <= i64::MAX);
        let line_amount = l.unit_price * l.quantity;
        net = net + line_amount;
        vat_total = vat_total + vat(line_amount, l.vat_rate);
        i = i + 1;
    }
    assert(lines@.take(lines.len() as int) =~= lines@);
    Totals { net, vat: vat_total, gross: net + vat_total }
}

/// Whether lines can be totalled in 64 bits: every line amount, every
/// running sum and the gross total. This is the test to make before
/// [`totals`] on lines that come from outside.
pub fn can_total(lines: &[Line]) -> (b: bool)
    ensures
        b == summable(lines@),
{
    let mut net: i128 = 0;
    let mut vat_total: i128 = 0;
    let mut i: usize = 0;
    assert(lines@.take(0) =~= Seq::<Line>::empty());
    while i < lines.len()
        invariant
            i <= lines.len(),
            net == sum_net(lines@.take(i as int)),
            vat_total == sum_vat(lines@.take(i as int)),
            forall|j: int| 0 <= j < i ==> {
                &&& i64::MIN <= line_net(#[trigger] lines@[j]) <= i64::MAX
                &&& vat_computable(line_net(lines@[j]), lines@[j].vat_rate as int)
            },
            forall|k: int| 0 <= k <= i ==> i64::MIN <= #[trigger] sum_net(lines@.take(k)) <= i64::MAX,
            forall|k: int| 0 <= k <= i ==> i64::MIN <= #[trigger] sum_vat(lines@.take(k)) <= i64::MAX,
        decreases lines.len() - i,
    {
        let l = &lines[i];
        assert(lines@.take(i + 1).drop_last() =~= lines@.take(i as int));
        assert(lines@.take(i + 1).last() == lines@[i as int]);
        let price = l.unit_price;
        let quantity = l.quantity;
        assert(-0x4000_0000_0000_0000_0000_0000_0000_0000 <= (price as int) * (quantity as int)
            <= 0x4000_0000_0000_0000_0000_0000_0000_0000) by (nonlinear_arith)
            requires
                i64::MIN <= price <= i64::MAX,
                i64::MIN <= quantity <= i64::MAX,
        ;
        let amount: i128 = (price as i128) * (quantity as i128);
        if amount < i64::MIN as i128 || amount > i64::MAX as i128 {
            return false;
        }
        let rate = l.vat_rate;
        assert(-0x4000_0000_0000_0000_0000_0000_0000_0000 <= (amount as int) * (rate as int)
            <= 0x4000_0000_0000_0000_0000_0000_0000_0000) by (nonlinear_arith)
            requires
                i64::MIN <= amount <= i64::MAX,
                i64::MIN <= rate <= i64::MAX,
        ;
        let product: i128 = amount * (rate as i128);
        if product - 5000 < i64::MIN as i128 || product + 5000 > i64::MAX as i128 {
            return false;
        }
        let line_vat_exec = vat(amount as i64, rate);
        net = net + amount;
        vat_total = vat_total + line_vat_exec as i128;
        if net < i64::MIN as i128 || net > i64::MAX as i128 {
            assert(!(i64::MIN <= sum_net(lines@.take(i + 1)) <= i64::MAX));
            return false;
        }
        if vat_total < i64::MIN as i128 || vat_total > i64::MAX as i128 {
            assert(!(i64::MIN <= sum_vat(lines@.take(i + 1)) <= i64::MAX));
            return false;
        }
        i = i + 1;
    }
    assert(lines@.take(lines.len() as int) =~= lines@);
    let gross = net + vat_total;
    gross >= i64::MIN as i128 && gross <= i64::MAX as i128
}

/// `123456` becomes `"1234.56 EUR"`.
pub fn money(amount: Cents) -> (s: String)
    requires
        amount > i64::MIN,
    ensures
        s@ == montant_lisible(amount as int, '.'),
{
    ecrire_montant(amount, '.')
}

/// VAT is the exact amount rounded to the nearest cent: it is off by at most
/// half a cent, and exactly half a cent rounds away from zero.
pub proof fn vat_rounds_to_nearest(net: int, rate: int)
    ensures
        net * rate >= 0 ==> -5000 <= net * rate - 10000 * vat_spec(net, rate) < 5000,
        net * rate < 0 ==> -5000 < net * rate - 10000 * vat_spec(net, rate) <= 5000,
{
}

/// The VAT of a credit note is the opposite of the VAT of the sale it
/// cancels.
pub proof fn vat_is_symmetric(net: int, rate: int)
    ensures
        vat_spec(-net, rate) == -vat_spec(net, rate),
{
    assert((-net) * rate == -(net * rate)) by (nonlinear_arith);
}

/// Sums of lines add up: totalling two lists put end to end is adding their
/// totals, because VAT is rounded on each line and never on the total. So
/// the order in which lines are listed changes no amount.
pub proof fn sums_are_additive(a: Seq<Line>, b: Seq<Line>)
    ensures
        sum_net(a + b) == sum_net(a) + sum_net(b),
        sum_vat(a + b) == sum_vat(a) + sum_vat(b),
        sum_net(a + b) == sum_net(b + a),
        sum_vat(a + b) == sum_vat(b + a),
{
    sums_concatenate(a, b);
    sums_concatenate(b, a);
}

proof fn sums_concatenate(a: Seq<Line>, b: Seq<Line>)
    ensures
        sum_net(a + b) == sum_net(a) + sum_net(b),
        sum_vat(a + b) == sum_vat(a) + sum_vat(b),
    decreases b.len(),
{
    if b.len() == 0 {
        assert(a + b =~= a);
    } else {
        sums_concatenate(a, b.drop_last());
        assert((a + b).drop_last() =~= a + b.drop_last());
        assert((a + b).last() == b.last());
    }
}

} // verus!
