//! The file service: what an upload sends, decided before it is sent.
//!
//! Three ways to upload, from most to least help:
//!
//! | Method | Does for you | Use when |
//! |---|---|---|
//! | `upload_file` | chunks, hashes, checks the size | the file is in memory |
//! | `upload_file_chunked` | re-chunks a stream, checks the declared total | the source is a stream and you know size and hash up front |
//! | `upload_file_stream` | nothing | you build every message yourself |
//!
//! The wire contract the first two honour for you: the **first** message
//! carries the metadata (tenant, bucket, file id, `size_bytes`,
//! `content_type`, `checksum`, `request_id`); later messages are read only
//! for their `chunk`; no chunk may exceed 1 MiB; the chunks must add up to
//! `size_bytes` exactly; and `checksum` must be exactly 32 bytes — the
//! server checks its length, never its content.

use vstd::prelude::*;
use crate::erp::{Erp, BUCKET, TODAY};
use crate::model::{line_net, Invoice, Line, Product};
use crate::modele::montant_lisible;
use crate::pieces::{
    construire_messages, decouper, empreinte_sha256, morceau, nombre_morceaux, recoller, sha256, vues,
    MessageTeleversement, OptionsTeleversement, PlanFlux, TAILLE_CHUNK, TAILLE_MORCEAU_FLUX,
};
use crate::texte::{ajouter, ajouter_entier, decimal_signe, depuis, enregistrement_csv, reunir};

verus! {

/// `prefix` followed by the file id.
fn operation(prefix: &str, file_id: &str) -> (s: String)
    ensures
        s@ == prefix@ + file_id@,
{
    let mut s = depuis(prefix);
    ajouter(&mut s, file_id);
    s
}

/// What goes with a file already in memory: its type, its SHA-256, and this
/// run's idempotency key `upload:{file_id}`.
///
/// The checksum is passed explicitly to show the rule: it must be exactly
/// 32 bytes, or the call fails client-side before sending.
pub fn upload_options(erp: &Erp, file_id: &str, content: &[u8], content_type: &str) -> (o: OptionsTeleversement)
    ensures
        o.content_type@ == content_type@,
        o.checksum@ == empreinte_sha256(content@),
        o.checksum@.len() == 32,
        o.request_id@ == reunir(erp.run@, ':', "upload:"@ + file_id@),
{
    let name = operation("upload:", file_id);
    OptionsTeleversement {
        content_type: depuis(content_type),
        checksum: sha256(content),
        request_id: erp.key(name.as_str()),
    }
}

/// What a streamed upload announces, and the 64 KiB pieces it then sends.
///
/// `size_bytes` and `checksum` travel on the very first message, before a
/// single byte has been read from the stream, so both are known up front.
pub fn streamed_upload_plan(erp: &Erp, file_id: &str, content: &[u8], content_type: &str) -> (p: PlanFlux)
    ensures
        p.taille == content@.len(),
        p.empreinte@ == empreinte_sha256(content@),
        p.empreinte@.len() == 32,
        p.morceaux@.len() == nombre_morceaux(content@.len() as int, TAILLE_MORCEAU_FLUX as int),
        forall|i: int| 0 <= i < p.morceaux@.len() ==> (#[trigger] p.morceaux@[i])@ == morceau(content@, i, TAILLE_MORCEAU_FLUX as int),
        recoller(vues(p.morceaux@)) == content@,
        p.content_type@ == content_type@,
        p.request_id@ == reunir(erp.run@, ':', "export:"@ + file_id@),
{
    let name = operation("export:", file_id);
    PlanFlux {
        taille: content.len() as u64,
        empreinte: sha256(content),
        morceaux: decouper(content, TAILLE_MORCEAU_FLUX),
        content_type: depuis(content_type),
        request_id: erp.key(name.as_str()),
    }
}

/// The refusal of content too large for one hand-built message.
pub open spec fn too_large_for_one_message() -> Seq<char> {
    "upload_raw only handles content that fits in one 1 MiB message"@
}

/// The one message of a hand-built upload of a short text note.
///
/// `upload_file_stream` is the low-level escape hatch: no re-chunking, no
/// size cap applied, no checksum computed. A note that fits in one message
/// is the only case worth hand-writing, so anything over 1 MiB is refused.
pub fn raw_request(erp: &Erp, file_id: &str, content: &[u8]) -> (r: Result<MessageTeleversement, String>)
    ensures
        content@.len() > TAILLE_CHUNK <==> r is Err,
        r matches Err(m) ==> m@ == too_large_for_one_message(),
        r matches Ok(m) ==> {
            &&& m.tenant_id@ == erp.tenant@
            &&& m.bucket@ == BUCKET@
            &&& m.file_id@ == file_id@
            &&& m.size_bytes == content@.len()
            &&& m.content_type@ == "text/plain"@
            &&& m.checksum@ == empreinte_sha256(content@)
            &&& m.checksum@.len() == 32
            &&& m.chunk@ == content@
            &&& m.request_id@ == reunir(erp.run@, ':', "raw:"@ + file_id@)
        },
{
    if content.len() > TAILLE_CHUNK {
        return Err(depuis("upload_raw only handles content that fits in one 1 MiB message"));
    }
    let name = operation("raw:", file_id);
    let key = erp.key(name.as_str());
    let mut messages = construire_messages(erp.tenant.as_str(), BUCKET, file_id, content, "text/plain", key.as_str());
    proof {
        assert(messages@.len() == 1) by {
            if content@.len() > 0 {
                assert(nombre_morceaux(content@.len() as int, TAILLE_CHUNK as int) == 1) by (nonlinear_arith)
                    requires
                        0 < content@.len() <= TAILLE_CHUNK,
                        TAILLE_CHUNK == 1024 * 1024,
                ;
            }
        }
        assert(messages@[0].chunk@ =~= content@);
    }
    Ok(messages.remove(0))
}

// --- What is uploaded -------------------------------------------------------

/// The file id of an invoice's text: `invoices/{id}.txt`.
pub fn invoice_file(invoice_id: &str) -> (f: String)
    ensures
        f@ == "invoices/"@ + invoice_id@ + ".txt"@,
{
    let mut f = depuis("invoices/");
    ajouter(&mut f, invoice_id);
    ajouter(&mut f, ".txt");
    f
}

/// The file id of today's stock export: `exports/stock-{TODAY}.csv`.
pub fn export_file() -> (f: String)
    ensures
        f@ == "exports/stock-"@ + TODAY@ + ".csv"@,
{
    let mut f = depuis("exports/stock-");
    ajouter(&mut f, TODAY);
    ajouter(&mut f, ".csv");
    f
}

/// One line of an invoice's text: `12 x Wood screw = 150.00 EUR`.
pub open spec fn invoice_line_text(line: Line) -> Seq<char> {
    decimal_signe(line.quantity as int) + " x "@ + line.name@ + " = "@ + montant_lisible(line_net(line), '.') + "\n"@
}

/// The lines of an invoice's text, in order.
pub open spec fn invoice_lines_text(lines: Seq<Line>) -> Seq<char>
    decreases lines.len(),
{
    if lines.len() == 0 {
        Seq::<char>::empty()
    } else {
        invoice_lines_text(lines.drop_last()) + invoice_line_text(lines.last())
    }
}

/// An invoice as a short text document: its id and due date, one line per
/// line sold, and the gross total.
pub open spec fn invoice_text_of(invoice: Invoice) -> Seq<char> {
    "INVOICE "@ + invoice.id@ + "\nDue "@ + invoice.due_date@ + "\n\n"@ + invoice_lines_text(invoice.lines@)
        + "\nTotal: "@ + montant_lisible(invoice.totals.gross as int, '.') + "\n"@
}

/// Every amount printed on the invoice fits in 64 bits and is not the
/// smallest signed integer.
pub open spec fn printable(invoice: Invoice) -> bool {
    &&& forall|i: int| 0 <= i < invoice.lines@.len() ==> i64::MIN < #[trigger] line_net(invoice.lines@[i]) <= i64::MAX
    &&& invoice.totals.gross > i64::MIN
}

/// Whether the amounts of an invoice can be printed: the test to make
/// before [`invoice_text`] on an invoice read back from the server.
pub fn can_print(invoice: &Invoice) -> (b: bool)
    ensures
        b == printable(*invoice),
{
    let mut i: usize = 0;
    while i < invoice.lines.len()
        invariant
            i <= invoice.lines@.len(),
            forall|j: int| 0 <= j < i ==> i64::MIN < #[trigger] line_net(invoice.lines@[j]) <= i64::MAX,
        decreases invoice.lines@.len() - i,
    {
        let line = &invoice.lines[i];
        let price = line.unit_price;
        let quantity = line.quantity;
        assert(-0x4000_0000_0000_0000_0000_0000_0000_0000 <= (price as int) * (quantity as int)
            <= 0x4000_0000_0000_0000_0000_0000_0000_0000) by (nonlinear_arith)
            requires
                i64::MIN <= price <= i64::MAX,
                i64::MIN <= quantity <= i64::MAX,
        ;
        let amount: i128 = (price as i128) * (quantity as i128);
        if amount <= i64::MIN as i128 || amount > i64::MAX as i128 {
            assert(!(i64::MIN < line_net(invoice.lines@[i as int]) <= i64::MAX));
            return false;
        }
        i = i + 1;
    }
    invoice.totals.gross > i64::MIN
}

/// The invoice as a text document, ready to upload.
pub fn invoice_text(invoice: &Invoice) -> (t: String)
    requires
        printable(*invoice),
    ensures
        t@ == invoice_text_of(*invoice),
{
    let mut t = depuis("INVOICE ");
    ajouter(&mut t, invoice.id.as_str());
    ajouter(&mut t, "\nDue ");
    ajouter(&mut t, invoice.due_date.as_str());
    ajouter(&mut t, "\n\n");
    let ghost head = t@;
    let mut i: usize = 0;
    assert(invoice.lines@.take(0) =~= Seq::<Line>::empty());
    while i < invoice.lines.len()
        invariant
            i <= invoice.lines@.len(),
            printable(*invoice),
            t@ == head + invoice_lines_text(invoice.lines@.take(i as int)),
        decreases invoice.lines@.len() - i,
    {
        let line = &invoice.lines[i];
        assert(invoice.lines@.take(i + 1).drop_last() =~= invoice.lines@.take(i as int));
        assert(invoice.lines@.take(i + 1).last() == invoice.lines@[i as int]);
        assert(i64::MIN < line_net(invoice.lines@[i as int]) <= i64::MAX);
        let ghost before = t@;
        ajouter_entier(&mut t, line.quantity);
        ajouter(&mut t, " x ");
        ajouter(&mut t, line.name.as_str());
        ajouter(&mut t, " = ");
        let amount = crate::model::money(line.unit_price * line.quantity);
        ajouter(&mut t, amount.as_str());
        ajouter(&mut t, "\n");
        assert(t@ =~= before + invoice_line_text(*line));
        i = i + 1;
    }
    assert(invoice.lines@.take(invoice.lines@.len() as int) =~= invoice.lines@);
    ajouter(&mut t, "\nTotal: ");
    let total = crate::model::money(invoice.totals.gross);
    ajouter(&mut t, total.as_str());
    ajouter(&mut t, "\n");
    t
}

/// One product in the stock export.
pub open spec fn csv_line(p: Product) -> Seq<char> {
    p.reference@ + ";"@ + p.name@ + ";"@ + p.family@ + ";"@ + decimal_signe(p.stock as int) + ";"@
        + decimal_signe(p.min_stock as int) + ";"@ + decimal_signe(p.unit_price as int) + "\n"@
}

/// The stock export: a header, then one line per product, in order.
pub open spec fn stock_csv_of(products: Seq<Product>) -> Seq<char>
    decreases products.len(),
{
    if products.len() == 0 {
        "reference;name;family;stock;min_stock;unit_price\n"@
    } else {
        stock_csv_of(products.drop_last()) + csv_line(products.last())
    }
}

/// The columns of the stock export: the header names, in order, the fields
/// each line writes — reference, name, family, stock, minimum stock, unit
/// price — and each product appends one line, leaving what came before as it
/// was.
pub proof fn stock_csv_columns(products: Seq<Product>, p: Product)
    ensures
        stock_csv_of(Seq::<Product>::empty()) == enregistrement_csv(
            seq!["reference"@, "name"@, "family"@, "stock"@, "min_stock"@, "unit_price"@],
        ),
        stock_csv_of(products.push(p)) == stock_csv_of(products) + enregistrement_csv(
            seq![
                p.reference@,
                p.name@,
                p.family@,
                decimal_signe(p.stock as int),
                decimal_signe(p.min_stock as int),
                decimal_signe(p.unit_price as int),
            ],
        ),
{
    reveal_strlit("reference;name;family;stock;min_stock;unit_price\n");
    reveal_strlit("reference");
    reveal_strlit("name");
    reveal_strlit("family");
    reveal_strlit("stock");
    reveal_strlit("min_stock");
    reveal_strlit("unit_price");
    reveal_strlit(";");
    reveal_strlit("\n");
    reveal_with_fuel(crate::texte::champs_separes, 7);
    let names = seq!["reference"@, "name"@, "family"@, "stock"@, "min_stock"@, "unit_price"@];
    assert(names.drop_last().drop_last().drop_last().drop_last().drop_last() =~= seq!["reference"@]);
    assert(enregistrement_csv(names) =~= stock_csv_of(Seq::<Product>::empty()));
    assert(products.push(p).drop_last() =~= products);
    let fields = seq![
        p.reference@,
        p.name@,
        p.family@,
        decimal_signe(p.stock as int),
        decimal_signe(p.min_stock as int),
        decimal_signe(p.unit_price as int),
    ];
    assert(fields.drop_last().drop_last().drop_last().drop_last().drop_last() =~= seq![p.reference@]);
    assert(enregistrement_csv(fields) =~= csv_line(p));
}

/// The stock export as CSV, ready to upload.
pub fn stock_csv(products: &[Product]) -> (csv: String)
    ensures
        csv@ == stock_csv_of(products@),
{
    let mut csv = depuis("reference;name;family;stock;min_stock;unit_price\n");
    let mut i: usize = 0;
    assert(products@.take(0) =~= Seq::<Product>::empty());
    while i < products.len()
        invariant
            i <= products@.len(),
            csv@ == stock_csv_of(products@.take(i as int)),
        decreases products@.len() - i,
    {
        let p = &products[i];
        assert(products@.take(i + 1).drop_last() =~= products@.take(i as int));
        assert(products@.take(i + 1).last() == products@[i as int]);
        let ghost before = csv@;
        ajouter(&mut csv, p.reference.as_str());
        ajouter(&mut csv, ";");
        ajouter(&mut csv, p.name.as_str());
        ajouter(&mut csv, ";");
        ajouter(&mut csv, p.family.as_str());
        ajouter(&mut csv, ";");
        ajouter_entier(&mut csv, p.stock);
        ajouter(&mut csv, ";");
        ajouter_entier(&mut csv, p.min_stock);
        ajouter(&mut csv, ";");
        ajouter_entier(&mut csv, p.unit_price);
        ajouter(&mut csv, "\n");
        assert(csv@ =~= before + csv_line(*p));
        i = i + 1;
    }
    assert(products@.take(products@.len() as int) =~= products@);
    csv
}

} // verus!
