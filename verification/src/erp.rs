//! A small ERP — quotes, orders, invoices, stock, customers, suppliers —
//! built on the RociaDB document, graph and file services.
//!
//! This module holds what the demo decides between two server calls: the
//! idempotency keys of one run, the stock a move leaves, the documents of a
//! sale as it moves from quote to paid invoice, and the demo data itself.

use vstd::prelude::*;
use crate::erreur::ErreurRocia;
use crate::model::{
    summable, sum_net, sum_vat, totals, Cents, Customer, Invoice, Line, Order, Product, Quote, StockMove, Supplier,
    Totals, INVOICE_ISSUED, INVOICE_PAID, ORDER_PREPARING, ORDER_SHIPPED, QUOTE_ACCEPTED, QUOTE_SENT, VAT_REDUCED,
    VAT_STANDARD,
};
use crate::documents::QUOTES;
use crate::graph::{edge, node, REQUESTED};
use crate::schema::{arete_spec, noeud_spec};
use crate::texte::{ajouter, ajouter_decimal, composer, decimal, depuis, egal, reunir};

verus! {

/// Graphs and buckets are never declared either: they exist from the first
/// node or file written to them.
pub const GRAPH: &'static str = "erp";
pub const BUCKET: &'static str = "attachments";

// Fixed dates keep the demo readable and its output stable.
pub const TODAY: &'static str = "2026-09-01";
pub const DUE_DATE: &'static str = "2026-10-01";

/// The tenant, and the prefix for idempotency keys. The client that talks
/// to the server lives beside it, with the caller.
pub struct Erp {
    pub tenant: String,
    /// The prefix of this run's idempotency keys. See [`Erp::key`].
    pub run: String,
}

/// The prefix of the run started at this many seconds since the epoch.
pub open spec fn run_named(started: nat) -> Seq<char> {
    "run-"@ + decimal(started)
}

impl Erp {
    /// The ERP of a tenant, for a run started at `started` seconds since the
    /// epoch: its keys are prefixed `run-{started}`.
    pub fn new(tenant: &str, started: u64) -> (erp: Erp)
        ensures
            erp.tenant@ == tenant@,
            erp.run@ == run_named(started as nat),
    {
        let mut run = depuis("run-");
        ajouter_decimal(&mut run, started);
        Erp { tenant: depuis(tenant), run }
    }

    /// An idempotency key for one write.
    ///
    /// The server deduplicates on `(tenant, operation, request_id)` for 24
    /// hours. A *stable* key is what makes an interrupted import safe to
    /// replay — but if this demo reused the same keys on every run, a second
    /// run after a cleanup would write nothing at all: the server would see
    /// yesterday's writes replayed. So the prefix changes per run, and the
    /// key is stable within one.
    pub fn key(&self, name: &str) -> (k: String)
        ensures
            k@ == reunir(self.run@, ':', name@),
    {
        composer(self.run.as_str(), ':', name)
    }

    /// The idempotency key for writing a supplier document.
    pub fn supplier_key(&self, supplier_id: &str) -> (k: String)
        ensures
            k@ == operation_key(self.run@, "supplier"@, supplier_id@),
    {
        let name = composer("supplier", ':', supplier_id);
        self.key(name.as_str())
    }

    /// The idempotency key for importing a product: an interrupted import replays safely.
    pub fn import_key(&self, product_id: &str) -> (k: String)
        ensures
            k@ == operation_key(self.run@, "import"@, product_id@),
    {
        let name = composer("import", ':', product_id);
        self.key(name.as_str())
    }

    /// The idempotency key for deleting a file.
    pub fn delete_file_key(&self, file_id: &str) -> (k: String)
        ensures
            k@ == operation_key(self.run@, "delete-file"@, file_id@),
    {
        let name = composer("delete-file", ':', file_id);
        self.key(name.as_str())
    }

    /// The idempotency key for re-asserting a node binding.
    pub fn repair_key(&self, node_id: &str) -> (k: String)
        ensures
            k@ == operation_key(self.run@, "repair"@, node_id@),
    {
        let name = composer("repair", ':', node_id);
        self.key(name.as_str())
    }

    /// The idempotency key for deleting an edge.
    pub fn unlink_key(&self, edge_id: &str) -> (k: String)
        ensures
            k@ == operation_key(self.run@, "unlink"@, edge_id@),
    {
        let name = composer("unlink", ':', edge_id);
        self.key(name.as_str())
    }

    /// The idempotency key for writing a bound document: `{collection}:{id}`.
    pub fn bound_key(&self, collection: &str, id: &str) -> (k: String)
        ensures
            k@ == operation_key(self.run@, collection@, id@),
    {
        let name = composer(collection, ':', id);
        self.key(name.as_str())
    }

    /// The idempotency key for deleting a document: `delete:{collection}:{id}`.
    pub fn delete_key(&self, collection: &str, id: &str) -> (k: String)
        ensures
            k@ == operation_key(self.run@, reunir("delete"@, ':', collection@), id@),
    {
        let operation = composer("delete", ':', collection);
        let name = composer(operation.as_str(), ':', id);
        self.key(name.as_str())
    }
}

/// The idempotency key of an operation on an id, for this run:
/// `{run}:{operation}:{id}`.
pub open spec fn operation_key(run: Seq<char>, operation: Seq<char>, id: Seq<char>) -> Seq<char> {
    reunir(run, ':', reunir(operation, ':', id))
}

/// Two runs started at different times share no idempotency key, and within
/// one run two different names give two different keys.
pub proof fn keys_belong_to_their_run(started1: nat, name1: Seq<char>, started2: nat, name2: Seq<char>)
    requires
        started1 != started2 || name1 != name2,
    ensures
        reunir(run_named(started1), ':', name1) != reunir(run_named(started2), ':', name2),
{
    reveal_strlit("run-");
    crate::texte::decimal_sans_separateur(started1);
    crate::texte::decimal_sans_separateur(started2);
    assert(!run_named(started1).contains(':')) by {
        if run_named(started1).contains(':') {
            let i = choose|i: int| 0 <= i < run_named(started1).len() && run_named(started1)[i] == ':';
            if i < 4 {
                assert(run_named(started1)[i] == "run-"@[i]);
            } else {
                assert(run_named(started1)[i] == decimal(started1)[i - 4]);
            }
        }
    }
    assert(!run_named(started2).contains(':')) by {
        if run_named(started2).contains(':') {
            let i = choose|i: int| 0 <= i < run_named(started2).len() && run_named(started2)[i] == ':';
            if i < 4 {
                assert(run_named(started2)[i] == "run-"@[i]);
            } else {
                assert(run_named(started2)[i] == decimal(started2)[i - 4]);
            }
        }
    }
    if started1 != started2 {
        crate::texte::decimal_injectif(started1, started2);
        assert(run_named(started1) != run_named(started2)) by {
            if run_named(started1) == run_named(started2) {
                assert(decimal(started1) =~= run_named(started1).skip(4));
                assert(decimal(started2) =~= run_named(started2).skip(4));
            }
        }
    }
    crate::contexte::cles_propres_a_l_execution(run_named(started1), name1, run_named(started2), name2);
}

// --- Reading an error ------------------------------------------------------

/// One line of guidance per error variant.
pub open spec fn advice_for(error: ErreurRocia) -> Seq<char> {
    match error {
        ErreurRocia::Status { .. } => "the server refused the call; read reason() to know why"@,
        ErreurRocia::Connection { .. } => "check the server is up, and that the host carries no path"@,
        ErreurRocia::Auth { .. } => "check AUTH_TOKEN_URL / AUTH_CLIENT_ID / AUTH_CLIENT_SECRET"@,
        ErreurRocia::Encode { .. } => "the value could not be serialized; fix the model"@,
        ErreurRocia::Decode { .. } => "the stored document no longer matches the Rust type"@,
        ErreurRocia::Validation(_) => "rejected client-side; nothing was sent"@,
    }
}

/// One line of guidance per error variant.
pub fn advice(error: &ErreurRocia) -> (a: &'static str)
    ensures
        a@ == advice_for(*error),
{
    match error {
        ErreurRocia::Status { .. } => "the server refused the call; read reason() to know why",
        ErreurRocia::Connection { .. } => "check the server is up, and that the host carries no path",
        ErreurRocia::Auth { .. } => "check AUTH_TOKEN_URL / AUTH_CLIENT_ID / AUTH_CLIENT_SECRET",
        ErreurRocia::Encode { .. } => "the value could not be serialized; fix the model",
        ErreurRocia::Decode { .. } => "the stored document no longer matches the Rust type",
        ErreurRocia::Validation(_) => "rejected client-side; nothing was sent",
    }
}

// --- Listing ---------------------------------------------------------------

/// Values separated by `", "`.
pub open spec fn joined(values: Seq<Seq<char>>) -> Seq<char>
    decreases values.len(),
{
    if values.len() == 0 {
        Seq::<char>::empty()
    } else if values.len() == 1 {
        values[0]
    } else {
        joined(values.drop_last()) + ", "@ + values.last()
    }
}

/// The text of each string.
pub open spec fn texts(values: Seq<String>) -> Seq<Seq<char>> {
    values.map_values(|v: String| v@)
}

/// A list for display: the values separated by `", "`, or `none`.
pub open spec fn listing(values: Seq<Seq<char>>) -> Seq<char> {
    if values.len() == 0 { "none"@ } else { joined(values) }
}

/// A list for display: the values separated by `", "`, or `none`.
pub fn join(values: &[String]) -> (s: String)
    ensures
        s@ == listing(texts(values@)),
{
    if values.len() == 0 {
        return depuis("none");
    }
    let mut s = depuis("");
    let mut i: usize = 0;
    proof {
        reveal_strlit("");
        assert(texts(values@).take(0) =~= Seq::<Seq<char>>::empty());
    }
    while i < values.len()
        invariant
            i <= values@.len(),
            s@ == joined(texts(values@).take(i as int)),
        decreases values@.len() - i,
    {
        let ghost before = s@;
        if i > 0 {
            ajouter(&mut s, ", ");
        }
        ajouter(&mut s, values[i].as_str());
        proof {
            let t = texts(values@);
            assert(t.take(i + 1).drop_last() =~= t.take(i as int));
            assert(t.take(i + 1).last() == values@[i as int]@);
            if i == 0 {
                assert(s@ =~= values@[0]@);
                assert(t.take(1)[0] == values@[0]@);
            } else {
                assert(s@ =~= before + ", "@ + values@[i as int]@);
            }
        }
        i = i + 1;
    }
    proof {
        assert(texts(values@).take(values@.len() as int) =~= texts(values@));
    }
    s
}

// --- Stock -----------------------------------------------------------------

/// The signed change a move makes: `"in"` adds, anything else takes away.
pub open spec fn delta_of(direction: Seq<char>, quantity: int) -> int {
    if direction == "in"@ { quantity } else { -quantity }
}

/// The signed change a move makes: `"in"` adds, anything else takes away.
pub fn stock_delta(direction: &str, quantity: i64) -> (d: i64)
    requires
        quantity > i64::MIN,
    ensures
        d == delta_of(direction@, quantity as int),
{
    if egal(direction, "in") {
        quantity
    } else {
        -quantity
    }
}

/// The refusal of a move that would leave negative stock.
pub open spec fn not_enough_stock(product_id: Seq<char>) -> Seq<char> {
    "not enough stock on "@ + product_id
}

/// The id of the move record: `MOV-{product}-{direction}-{run}`.
pub open spec fn move_id(product_id: Seq<char>, direction: Seq<char>, run: Seq<char>) -> Seq<char> {
    "MOV-"@ + product_id + "-"@ + direction + "-"@ + run
}

/// One of the two writes a stock move makes, in the order they are made.
#[derive(Debug, Clone, PartialEq, Eq)]
pub enum StockWrite {
    /// Save the product with its new stock.
    SaveProduct(Product),
    /// Record the move in the stock moves.
    RecordMove(StockMove),
}

/// Move stock and record the move.
///
/// Two writes follow, not a transaction, and this returns them in the order
/// they are made: the stock is saved first, so a crash in between leaves an
/// up-to-date stock with no trace rather than a trace with no effect — the
/// easier of the two to reconcile. Refused when the stock would go negative.
pub fn move_stock(
    erp: &Erp,
    product: Product,
    product_id: &str,
    direction: &str,
    quantity: i64,
    source: &str,
) -> (r: Result<Vec<StockWrite>, String>)
    requires
        quantity > i64::MIN,
        i64::MIN <= product.stock + delta_of(direction@, quantity as int) <= i64::MAX,
    ensures
        product.stock + delta_of(direction@, quantity as int) < 0 <==> r is Err,
        r matches Err(m) ==> m@ == not_enough_stock(product_id@),
        r matches Ok(writes) ==> {
            &&& writes@.len() == 2
            &&& writes@[0] matches StockWrite::SaveProduct(moved)
            &&& moved == (Product { stock: (product.stock + delta_of(direction@, quantity as int)) as i64, ..product })
            &&& moved.stock >= 0
            &&& writes@[1] matches StockWrite::RecordMove(record)
            &&& record.id@ == move_id(product_id@, direction@, erp.run@)
            &&& record.product_id@ == product_id@
            &&& record.direction@ == direction@
            &&& record.quantity == quantity
            &&& record.source@ == source@
        },
{
    let delta = stock_delta(direction, quantity);
    if product.stock + delta < 0 {
        let mut m = depuis("not enough stock on ");
        ajouter(&mut m, product_id);
        return Err(m);
    }
    let mut moved = product;
    moved.stock = moved.stock + delta;
    let mut id = depuis("MOV-");
    ajouter(&mut id, product_id);
    ajouter(&mut id, "-");
    ajouter(&mut id, direction);
    ajouter(&mut id, "-");
    ajouter(&mut id, erp.run.as_str());
    let record = StockMove {
        id,
        product_id: depuis(product_id),
        direction: depuis(direction),
        quantity,
        source: depuis(source),
    };
    let mut writes: Vec<StockWrite> = Vec::new();
    writes.push(StockWrite::SaveProduct(moved));
    writes.push(StockWrite::RecordMove(record));
    Ok(writes)
}

/// One of the removals that take a declined quote away, in the order they
/// are made.
#[derive(Debug, Clone, PartialEq, Eq)]
pub enum Removal {
    /// Delete a document, with this idempotency key.
    Document { collection: String, id: String, key: String },
    /// Delete an edge, with this idempotency key.
    Edge { edge_id: String, key: String },
}

/// What takes a declined quote away: its document, then the `requested`
/// edge from its customer.
///
/// Order matters: deleting a document is idempotent, deleting an edge is
/// not. With the document first, a restart after a crash passes quietly
/// over the done half and finishes the edge; the other way round it would
/// hit `NOT_FOUND`.
pub fn decline_removals(erp: &Erp, customer_id: &str, quote_id: &str) -> (r: Vec<Removal>)
    ensures
        r@.len() == 2,
        r@[0] matches Removal::Document { collection, id, key }
            && collection@ == QUOTES@
            && id@ == quote_id@
            && key@ == operation_key(erp.run@, reunir("delete"@, ':', QUOTES@), quote_id@),
        r@[1] matches Removal::Edge { edge_id, key }
            && edge_id@ == arete_spec(REQUESTED@, noeud_spec("customer"@, customer_id@), noeud_spec("quote"@, quote_id@))
            && key@ == operation_key(erp.run@, "unlink"@, edge_id@),
{
    let document = Removal::Document { collection: depuis(QUOTES), id: depuis(quote_id), key: erp.delete_key(QUOTES, quote_id) };
    let from = node("customer", customer_id);
    let to = node("quote", quote_id);
    let edge_id = edge(REQUESTED, from.as_str(), to.as_str());
    let key = erp.unlink_key(edge_id.as_str());
    let mut r: Vec<Removal> = Vec::new();
    r.push(document);
    r.push(Removal::Edge { edge_id, key });
    r
}

/// A delivery followed by a shipment of the same quantity leaves the stock
/// where it was, and a shipment is refused exactly when it asks for more
/// than the stock holds.
pub proof fn moves_cancel_out(stock: int, quantity: int)
    ensures
        stock + delta_of("in"@, quantity) + delta_of("out"@, quantity) == stock,
        stock + delta_of("out"@, quantity) < 0 <==> quantity > stock,
{
    reveal_strlit("in");
    reveal_strlit("out");
    assert("out"@ != "in"@) by {
        assert("out"@[0] != "in"@[0]);
    }
}

/// What the stock is worth at sale price.
pub open spec fn worth(products: Seq<Product>) -> int
    decreases products.len(),
{
    if products.len() == 0 {
        0
    } else {
        worth(products.drop_last()) + products.last().unit_price * products.last().stock
    }
}

/// The stock's worth is the sum, over all its products, of unit price times
/// stock, whatever their other fields: nothing is worth nothing, adding a
/// product adds its price times its stock, and two lists put end to end are
/// worth the sum of both.
pub proof fn worth_is_additive(products: Seq<Product>, others: Seq<Product>, p: Product)
    ensures
        worth(Seq::<Product>::empty()) == 0,
        worth(products.push(p)) == worth(products) + p.unit_price * p.stock,
        worth(products + others) == worth(products) + worth(others),
    decreases others.len(),
{
    assert(products.push(p).drop_last() =~= products);
    if others.len() > 0 {
        worth_is_additive(products, others.drop_last(), p);
        assert((products + others).drop_last() =~= products + others.drop_last());
        assert((products + others).last() == others.last());
    } else {
        assert(products + others =~= products);
    }
}

/// Every product's value, and every running sum, fits in 64 bits.
pub open spec fn valuable(products: Seq<Product>) -> bool {
    &&& forall|i: int| 0 <= i < products.len() ==>
        i64::MIN <= #[trigger] products[i].unit_price * products[i].stock <= i64::MAX
    &&& forall|k: int| 0 <= k <= products.len() ==> i64::MIN <= #[trigger] worth(products.take(k)) <= i64::MAX
}

/// Whether the stock's worth can be added up in 64 bits: the test to make
/// before [`stock_worth`] on products read back from the server.
pub fn can_value(products: &[Product]) -> (b: bool)
    ensures
        b == valuable(products@),
{
    let mut total: i128 = 0;
    let mut i: usize = 0;
    assert(products@.take(0) =~= Seq::<Product>::empty());
    while i < products.len()
        invariant
            i <= products.len(),
            total == worth(products@.take(i as int)),
            forall|j: int| 0 <= j < i ==>
                i64::MIN <= #[trigger] products@[j].unit_price * products@[j].stock <= i64::MAX,
            forall|k: int| 0 <= k <= i ==> i64::MIN <= #[trigger] worth(products@.take(k)) <= i64::MAX,
        decreases products.len() - i,
    {
        let p = &products[i];
        assert(products@.take(i + 1).drop_last() =~= products@.take(i as int));
        assert(products@.take(i + 1).last() == products@[i as int]);
        let price = p.unit_price;
        let stock = p.stock;
        assert(-0x4000_0000_0000_0000_0000_0000_0000_0000 <= (price as int) * (stock as int)
            <= 0x4000_0000_0000_0000_0000_0000_0000_0000) by (nonlinear_arith)
            requires
                i64::MIN <= price <= i64::MAX,
                i64::MIN <= stock <= i64::MAX,
        ;
        let value: i128 = (price as i128) * (stock as i128);
        if value < i64::MIN as i128 || value > i64::MAX as i128 {
            return false;
        }
        total = total + value;
        if total < i64::MIN as i128 || total > i64::MAX as i128 {
            assert(!(i64::MIN <= worth(products@.take(i + 1)) <= i64::MAX));
            return false;
        }
        i = i + 1;
    }
    true
}

/// What the stock is worth at sale price: the sum of price times stock.
pub fn stock_worth(products: &[Product]) -> (w: Cents)
    requires
        valuable(products@),
    ensures
        w == worth(products@),
{
    let mut total: i64 = 0;
    let mut i: usize = 0;
    assert(products@.take(0) =~= Seq::<Product>::empty());
    while i < products.len()
        invariant
            i <= products.len(),
            valuable(products@),
            total == worth(products@.take(i as int)),
        decreases products.len() - i,
    {
        let p = &products[i];
        assert(products@.take(i + 1).drop_last() =~= products@.take(i as int));
        assert(i64::MIN <= worth(products@.take(i + 1)) <= i64::MAX);
        assert(i64::MIN <= products@[i as int].unit_price * products@[i as int].stock <= i64::MAX);
        total = total + p.unit_price * p.stock;
        i = i + 1;
    }
    assert(products@.take(products@.len() as int) =~= products@);
    total
}

// --- Selling ---------------------------------------------------------------

/// A line for `quantity` units of a product, at its price and VAT rate.
pub fn quote_line(product: &Product, quantity: i64) -> (l: Line)
    ensures
        l.product_id == product.id,
        l.name == product.name,
        l.quantity == quantity,
        l.unit_price == product.unit_price,
        l.vat_rate == product.vat_rate,
{
    Line {
        product_id: product.id.clone(),
        name: product.name.clone(),
        quantity,
        unit_price: product.unit_price,
        vat_rate: product.vat_rate,
    }
}

/// The totals of some lines, as [`totals`] computes them.
pub open spec fn totals_of(lines: Seq<Line>) -> Totals {
    Totals {
        net: sum_net(lines) as i64,
        vat: sum_vat(lines) as i64,
        gross: (sum_net(lines) + sum_vat(lines)) as i64,
    }
}

/// A quote sent today to a customer, totalled from its lines.
pub fn new_quote(id: &str, customer_id: &str, lines: Vec<Line>) -> (q: Quote)
    requires
        summable(lines@),
    ensures
        q.id@ == id@,
        q.customer_id@ == customer_id@,
        q.status@ == QUOTE_SENT@,
        q.date@ == TODAY@,
        q.lines@ == lines@,
        q.totals == totals_of(lines@),
{
    let t = totals(lines.as_slice());
    Quote {
        id: depuis(id),
        customer_id: depuis(customer_id),
        status: depuis(QUOTE_SENT),
        date: depuis(TODAY),
        lines,
        totals: t,
    }
}

/// The quote, accepted by the customer.
pub fn accept_quote(quote: Quote) -> (q: Quote)
    ensures
        q.status@ == QUOTE_ACCEPTED@,
        q == (Quote { status: q.status, ..quote }),
{
    let mut q = quote;
    q.status = depuis(QUOTE_ACCEPTED);
    q
}

/// The order an accepted quote becomes: same customer, lines and totals,
/// being prepared from today.
pub fn order_from_quote(quote: Quote, id: &str) -> (o: Order)
    ensures
        o.id@ == id@,
        o.customer_id == quote.customer_id,
        o.quote_id == quote.id,
        o.status@ == ORDER_PREPARING@,
        o.date@ == TODAY@,
        o.lines@ == quote.lines@,
        o.totals == quote.totals,
{
    Order {
        id: depuis(id),
        customer_id: quote.customer_id,
        quote_id: quote.id,
        status: depuis(ORDER_PREPARING),
        date: depuis(TODAY),
        lines: quote.lines,
        totals: quote.totals,
    }
}

/// The order, shipped.
pub fn ship_order(order: Order) -> (o: Order)
    ensures
        o.status@ == ORDER_SHIPPED@,
        o == (Order { status: o.status, ..order }),
{
    let mut o = order;
    o.status = depuis(ORDER_SHIPPED);
    o
}

/// The invoice of a shipped order: same customer, lines and totals, issued
/// today and due on [`DUE_DATE`].
pub fn invoice_from_order(order: Order, id: &str) -> (i: Invoice)
    ensures
        i.id@ == id@,
        i.customer_id == order.customer_id,
        i.order_id == order.id,
        i.status@ == INVOICE_ISSUED@,
        i.date@ == TODAY@,
        i.due_date@ == DUE_DATE@,
        i.lines@ == order.lines@,
        i.totals == order.totals,
{
    Invoice {
        id: depuis(id),
        customer_id: order.customer_id,
        order_id: order.id,
        status: depuis(INVOICE_ISSUED),
        date: depuis(TODAY),
        due_date: depuis(DUE_DATE),
        lines: order.lines,
        totals: order.totals,
    }
}

/// The invoice, paid.
pub fn pay_invoice(invoice: Invoice) -> (i: Invoice)
    ensures
        i.status@ == INVOICE_PAID@,
        i == (Invoice { status: i.status, ..invoice }),
{
    let mut i = invoice;
    i.status = depuis(INVOICE_PAID);
    i
}

/// From quote to invoice, the amounts travel unchanged: an order built from
/// a quote, and an invoice built from that order, carry the quote's lines
/// and totals, and those totals are still the totals of the lines.
pub proof fn amounts_follow_the_sale(quote: Quote, order: Order, invoice: Invoice)
    requires
        summable(quote.lines@),
        quote.totals == totals_of(quote.lines@),
        order.lines@ == quote.lines@,
        order.totals == quote.totals,
        invoice.lines@ == order.lines@,
        invoice.totals == order.totals,
    ensures
        invoice.lines@ == quote.lines@,
        invoice.totals == totals_of(invoice.lines@),
        invoice.totals.net == sum_net(invoice.lines@),
        invoice.totals.vat == sum_vat(invoice.lines@),
        invoice.totals.gross == invoice.totals.net + invoice.totals.vat,
{
    let lines = quote.lines@;
    assert(lines.take(lines.len() as int) =~= lines);
    assert(i64::MIN <= sum_net(lines.take(lines.len() as int)) <= i64::MAX);
    assert(i64::MIN <= sum_vat(lines.take(lines.len() as int)) <= i64::MAX);
}

// --- Demo data -------------------------------------------------------------

/// A customer with exactly these values.
pub open spec fn customer_is(c: Customer, id: Seq<char>, name: Seq<char>, email: Seq<char>, city: Seq<char>, active: bool) -> bool {
    &&& c.id@ == id
    &&& c.name@ == name
    &&& c.email@ == email
    &&& c.city@ == city
    &&& c.active == active
}

/// A supplier with exactly these values.
pub open spec fn supplier_is(s: Supplier, id: Seq<char>, name: Seq<char>, email: Seq<char>, lead_time_days: i64) -> bool {
    &&& s.id@ == id
    &&& s.name@ == name
    &&& s.email@ == email
    &&& s.lead_time_days == lead_time_days
}

/// A product with exactly these values.
pub open spec fn product_is(
    p: Product,
    id: Seq<char>,
    reference: Seq<char>,
    name: Seq<char>,
    family: Seq<char>,
    unit_price: i64,
    vat_rate: i64,
    stock: i64,
    min_stock: i64,
    active: bool,
) -> bool {
    &&& p.id@ == id
    &&& p.reference@ == reference
    &&& p.name@ == name
    &&& p.family@ == family
    &&& p.unit_price == unit_price
    &&& p.vat_rate == vat_rate
    &&& p.stock == stock
    &&& p.min_stock == min_stock
    &&& p.active == active
}

fn customer(id: &str, name: &str, email: &str, city: &str, active: bool) -> (c: Customer)
    ensures
        customer_is(c, id@, name@, email@, city@, active),
{
    Customer { id: depuis(id), name: depuis(name), email: depuis(email), city: depuis(city), active }
}

fn supplier(id: &str, name: &str, email: &str, lead_time_days: i64) -> (s: Supplier)
    ensures
        supplier_is(s, id@, name@, email@, lead_time_days),
{
    Supplier { id: depuis(id), name: depuis(name), email: depuis(email), lead_time_days }
}

fn product(
    id: &str,
    reference: &str,
    name: &str,
    family: &str,
    unit_price: i64,
    vat_rate: i64,
    stock: i64,
    min_stock: i64,
) -> (p: Product)
    ensures
        product_is(p, id@, reference@, name@, family@, unit_price, vat_rate, stock, min_stock, true),
{
    Product {
        id: depuis(id),
        reference: depuis(reference),
        name: depuis(name),
        family: depuis(family),
        unit_price,
        vat_rate,
        stock,
        min_stock,
        active: true,
    }
}

/// The demo's customers: two active, one inactive.
pub fn demo_customers() -> (v: Vec<Customer>)
    ensures
        v@.len() == 3,
        customer_is(v@[0], "C-001"@, "Bertrand Joinery"@, "orders@bertrand.example"@, "Nantes"@, true),
        customer_is(v@[1], "C-002"@, "Woodcraft Studio"@, "buying@woodcraft.example"@, "Rennes"@, true),
        customer_is(v@[2], "C-003"@, "Morel Framing"@, "accounts@morel.example"@, "Angers"@, false),
{
    let mut v: Vec<Customer> = Vec::new();
    v.push(customer("C-001", "Bertrand Joinery", "orders@bertrand.example", "Nantes", true));
    v.push(customer("C-002", "Woodcraft Studio", "buying@woodcraft.example", "Rennes", true));
    v.push(customer("C-003", "Morel Framing", "accounts@morel.example", "Angers", false));
    v
}

/// The demo's suppliers.
pub fn demo_suppliers() -> (v: Vec<Supplier>)
    ensures
        v@.len() == 2,
        supplier_is(v@[0], "S-001"@, "Central Fasteners"@, "sales@fasteners.example"@, 5),
        supplier_is(v@[1], "S-002"@, "ProTools"@, "sales@protools.example"@, 12),
{
    let mut v: Vec<Supplier> = Vec::new();
    v.push(supplier("S-001", "Central Fasteners", "sales@fasteners.example", 5));
    v.push(supplier("S-002", "ProTools", "sales@protools.example", 12));
    v
}

/// The demo's catalogue: three hardware items, one tool, one printed guide,
/// all active.
pub fn demo_products() -> (v: Vec<Product>)
    ensures
        v@.len() == 5,
        product_is(v@[0], "P-001"@, "SCR-4X30"@, "Wood screw 4x30 (box of 200)"@, "hardware"@, 1250, VAT_STANDARD, 120, 40, true),
        product_is(v@[1], "P-002"@, "SCR-5X50"@, "Wood screw 5x50 (box of 100)"@, "hardware"@, 1890, VAT_STANDARD, 18, 30, true),
        product_is(v@[2], "P-003"@, "BRK-RAFT"@, "Galvanised rafter bracket"@, "hardware"@, 340, VAT_STANDARD, 640, 150, true),
        product_is(v@[3], "P-004"@, "DRL-18V"@, "Cordless drill 18V"@, "tools"@, 14900, VAT_STANDARD, 7, 4, true),
        product_is(v@[4], "P-005"@, "DOC-FIT"@, "Printed fitting guide"@, "documentation"@, 450, VAT_REDUCED, 2, 25, true),
{
    let mut v: Vec<Product> = Vec::new();
    v.push(product("P-001", "SCR-4X30", "Wood screw 4x30 (box of 200)", "hardware", 1250, VAT_STANDARD, 120, 40));
    v.push(product("P-002", "SCR-5X50", "Wood screw 5x50 (box of 100)", "hardware", 1890, VAT_STANDARD, 18, 30));
    v.push(product("P-003", "BRK-RAFT", "Galvanised rafter bracket", "hardware", 340, VAT_STANDARD, 640, 150));
    v.push(product("P-004", "DRL-18V", "Cordless drill 18V", "tools", 14900, VAT_STANDARD, 7, 4));
    v.push(product("P-005", "DOC-FIT", "Printed fitting guide", "documentation", 450, VAT_REDUCED, 2, 25));
    v
}

/// The product added outside the import.
pub fn extra_product() -> (p: Product)
    ensures
        product_is(p, "P-006"@, "GLUE-PU"@, "Polyurethane glue 310 ml"@, "hardware"@, 890, VAT_STANDARD, 24, 10, true),
{
    product("P-006", "GLUE-PU", "Polyurethane glue 310 ml", "hardware", 890, VAT_STANDARD, 24, 10)
}

} // verus!
