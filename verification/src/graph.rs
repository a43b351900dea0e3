//! The graph's naming rules — node ids, edge ids, the values written into
//! nodes — and the batches of nodes and edges to write, keys included.
//!
//! Two things shape this module:
//!
//! - **The graph is an index, not the source of truth.** No read returns an
//!   edge's value — a neighbor carries a `node_id` and an `edge_id`, nothing
//!   else. Anything you need to read lives in the document.
//! - **An edge needs both endpoints first.** Adding an edge whose `from` or
//!   `to` is not already a node fails. Nodes first, edges after.

use vstd::prelude::*;
use crate::documents::PRODUCTS;
use crate::erp::Erp;
use crate::graphe::{arete_de, arete_entre, Arete, EntreeArete, EntreeNoeud};
use crate::model::Product;
use crate::schema::{arete_spec, noeud_spec};
use crate::texte::{ajouter, composer, depuis, reunir};

verus! {

// Edge labels.
pub const SUPPLIES: &'static str = "supplies";
pub const REQUESTED: &'static str = "requested";
pub const CONVERTED_TO: &'static str = "converted_to";
pub const BILLED_AS: &'static str = "billed_as";

/// The value a bound node holds: a pointer back to the document.
#[derive(Debug, Clone, PartialEq, Eq)]
pub struct DocRef {
    pub collection: String,
    pub id: String,
}

/// A node holding the pointer plus a couple of denormalized fields, so a
/// traversal can show something readable without re-reading each document.
#[derive(Debug, Clone, PartialEq, Eq)]
pub struct ProductNode {
    pub collection: String,
    pub id: String,
    pub reference: String,
    pub name: String,
}

/// Node ids follow `"{label}:{id}"` — the same shape a bound document write
/// uses.
pub fn node(label: &str, id: &str) -> (s: String)
    ensures
        s@ == noeud_spec(label@, id@),
{
    composer(label, ':', id)
}

/// Edge ids are ours to choose; deleting an edge takes only this id, so it
/// has to be rebuildable without reading the graph first.
pub fn edge(label: &str, from: &str, to: &str) -> (s: String)
    ensures
        s@ == arete_spec(label@, from@, to@),
{
    let head = composer(label, '|', from);
    composer(head.as_str(), '|', to)
}

/// The enriched node of a product: the pointer to its document, plus its
/// reference and name.
pub open spec fn product_node_of(n: ProductNode, p: Product) -> bool {
    &&& n.collection@ == PRODUCTS@
    &&& n.id == p.id
    &&& n.reference == p.reference
    &&& n.name == p.name
}

/// The product nodes to write in one batch, one per product and in order,
/// each with this run's idempotency key `node:{id}`.
///
/// A node's value must be a JSON **object**: a scalar or an array is
/// rejected, which is why even a bare pointer is a struct.
pub fn product_nodes(erp: &Erp, products: &[Product]) -> (r: Vec<EntreeNoeud<ProductNode>>)
    ensures
        r@.len() == products@.len(),
        forall|i: int| 0 <= i < r@.len() ==> {
            &&& (#[trigger] r@[i]).node_id@ == noeud_spec("product"@, products@[i].id@)
            &&& product_node_of(r@[i].valeur, products@[i])
            &&& r@[i].request_id@ == reunir(erp.run@, ':', "node:"@ + products@[i].id@)
        },
{
    let mut r: Vec<EntreeNoeud<ProductNode>> = Vec::new();
    let mut i: usize = 0;
    while i < products.len()
        invariant
            i <= products@.len(),
            r@.len() == i,
            forall|k: int| 0 <= k < i ==> {
                &&& (#[trigger] r@[k]).node_id@ == noeud_spec("product"@, products@[k].id@)
                &&& product_node_of(r@[k].valeur, products@[k])
                &&& r@[k].request_id@ == reunir(erp.run@, ':', "node:"@ + products@[k].id@)
            },
        decreases products@.len() - i,
    {
        let product = &products[i];
        let mut name = depuis("node:");
        ajouter(&mut name, product.id.as_str());
        let entry = EntreeNoeud {
            node_id: node("product", product.id.as_str()),
            valeur: ProductNode {
                collection: depuis(PRODUCTS),
                id: product.id.clone(),
                reference: product.reference.clone(),
                name: product.name.clone(),
            },
            request_id: erp.key(name.as_str()),
        };
        r.push(entry);
        i = i + 1;
    }
    r
}

/// The `supplies` edges from a supplier to each product it supplies, the
/// value recording the purchase price, each with this run's idempotency key
/// `supplies:{supplier}:{product}`.
pub fn supplier_edges(erp: &Erp, supplier_id: &str, products: &[(String, i64)]) -> (r: Vec<EntreeArete<i64>>)
    ensures
        r@.len() == products@.len(),
        forall|i: int| 0 <= i < r@.len() ==> {
            &&& arete_entre((#[trigger] r@[i]).arete, SUPPLIES@,
                noeud_spec("supplier"@, supplier_id@), noeud_spec("product"@, products@[i].0@))
            &&& r@[i].valeur == products@[i].1
            &&& r@[i].request_id@ == reunir(erp.run@, ':', "supplies:"@ + supplier_id@ + ":"@ + products@[i].0@)
        },
{
    let from = node("supplier", supplier_id);
    let mut r: Vec<EntreeArete<i64>> = Vec::new();
    let mut i: usize = 0;
    while i < products.len()
        invariant
            i <= products@.len(),
            r@.len() == i,
            from@ == noeud_spec("supplier"@, supplier_id@),
            forall|k: int| 0 <= k < i ==> {
                &&& arete_entre((#[trigger] r@[k]).arete, SUPPLIES@,
                    noeud_spec("supplier"@, supplier_id@), noeud_spec("product"@, products@[k].0@))
                &&& r@[k].valeur == products@[k].1
                &&& r@[k].request_id@ == reunir(erp.run@, ':', "supplies:"@ + supplier_id@ + ":"@ + products@[k].0@)
            },
        decreases products@.len() - i,
    {
        let (product_id, purchase_price) = &products[i];
        let to = node("product", product_id.as_str());
        let mut name = depuis("supplies:");
        ajouter(&mut name, supplier_id);
        ajouter(&mut name, ":");
        ajouter(&mut name, product_id.as_str());
        let entry = EntreeArete {
            arete: arete_de(SUPPLIES, from.as_str(), to.as_str()),
            valeur: *purchase_price,
            request_id: erp.key(name.as_str()),
        };
        r.push(entry);
        i = i + 1;
    }
    r
}

/// One edge with this run's idempotency key `{label}:{from}:{to}`, so a
/// retry after a timeout does not create a second one.
pub fn keyed_link(erp: &Erp, label: &str, from: &str, to: &str) -> (r: (Arete, String))
    ensures
        arete_entre(r.0, label@, from@, to@),
        r.1@ == reunir(erp.run@, ':', label@ + ":"@ + from@ + ":"@ + to@),
{
    let mut name = depuis(label);
    ajouter(&mut name, ":");
    ajouter(&mut name, from);
    ajouter(&mut name, ":");
    ajouter(&mut name, to);
    (arete_de(label, from, to), erp.key(name.as_str()))
}

} // verus!
