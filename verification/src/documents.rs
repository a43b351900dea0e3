//! The document service's vocabulary, and what is decided on documents once
//! the server has returned them.

use vstd::prelude::*;
use crate::model::Product;

verus! {

// Collections are never declared: one appears the first time a document is
// written to it. Constants keep a typo from silently creating another one.
pub const CUSTOMERS: &'static str = "customers";
pub const SUPPLIERS: &'static str = "suppliers";
pub const PRODUCTS: &'static str = "products";
pub const QUOTES: &'static str = "quotes";
pub const ORDERS: &'static str = "orders";
pub const INVOICES: &'static str = "invoices";
pub const STOCK_MOVES: &'static str = "stock_moves";

/// Every collection the demo writes, in the order a cleanup empties them:
/// the documents that point at others before the ones they point at.
pub const CLEANUP_ORDER: [&'static str; 7] = [
    STOCK_MOVES,
    INVOICES,
    ORDERS,
    QUOTES,
    PRODUCTS,
    CUSTOMERS,
    SUPPLIERS,
];

/// The products whose stock is below their minimum, in the order they come.
pub open spec fn below_minimum_only(products: Seq<Product>) -> Seq<Product>
    decreases products.len(),
{
    if products.len() == 0 {
        Seq::<Product>::empty()
    } else {
        let head = below_minimum_only(products.drop_last());
        if products.last().stock < products.last().min_stock {
            head.push(products.last())
        } else {
            head
        }
    }
}

/// The reorder list loses and invents nothing: a product of the list is kept
/// exactly when its stock is strictly below its minimum, whatever that stock
/// (an out-of-stock product is one of them), and every kept product comes
/// from the list and is below its minimum.
pub proof fn reorder_list_is_exact(products: Seq<Product>)
    ensures
        forall|j: int| 0 <= j < below_minimum_only(products).len() ==> {
            &&& (#[trigger] below_minimum_only(products)[j]).stock < below_minimum_only(products)[j].min_stock
            &&& products.contains(below_minimum_only(products)[j])
        },
        forall|i: int| 0 <= i < products.len() ==>
            (below_minimum_only(products).contains(#[trigger] products[i])
                <==> products[i].stock < products[i].min_stock),
        below_minimum_only(products) == products.filter(|x: Product| x.stock < x.min_stock),
    decreases products.len(),
{
    reveal(Seq::filter);
    let r = below_minimum_only(products);
    if products.len() > 0 {
        let head = products.drop_last();
        let d = below_minimum_only(head);
        reorder_list_is_exact(head);
        assert forall|j: int| 0 <= j < r.len() implies {
            &&& (#[trigger] r[j]).stock < r[j].min_stock
            &&& products.contains(r[j])
        } by {
            if j < d.len() {
                assert(r[j] == d[j]);
                let k = choose|k: int| 0 <= k < head.len() && head[k] == d[j];
                assert(products[k] == head[k]);
            } else {
                assert(r[j] == products.last());
                assert(products[products.len() - 1] == products.last());
            }
        }
        assert forall|i: int| 0 <= i < products.len() implies
            (r.contains(#[trigger] products[i]) <==> products[i].stock < products[i].min_stock) by {
            if r.contains(products[i]) {
                let j = choose|j: int| 0 <= j < r.len() && r[j] == products[i];
                assert(r[j].stock < r[j].min_stock);
            }
            if products[i].stock < products[i].min_stock {
                if i < products.len() - 1 {
                    assert(head[i] == products[i]);
                    assert(d.contains(head[i]));
                    let j = choose|j: int| 0 <= j < d.len() && d[j] == head[i];
                    assert(r[j] == d[j]);
                } else {
                    assert(r[r.len() - 1] == products.last());
                }
            }
        }
    }
}

/// Products to reorder.
///
/// The query operators are `Eq`, `In` and `Contains` only — there is no
/// comparison between two fields, so "stock < min_stock" cannot be a filter.
/// The server returns active products sorted by stock, and the comparison
/// is made here, on a set it has already narrowed and ordered.
pub fn below_minimum(products: Vec<Product>) -> (r: Vec<Product>)
    ensures
        r@ == below_minimum_only(products@),
        r@ == products@.filter(|x: Product| x.stock < x.min_stock),
        forall|i: int| 0 <= i < products@.len() ==>
            (r@.contains(#[trigger] products@[i]) <==> products@[i].stock < products@[i].min_stock),
        forall|j: int| 0 <= j < r@.len() ==>
            (#[trigger] r@[j]).stock < r@[j].min_stock && products@.contains(r@[j]),
{
    proof {
        reorder_list_is_exact(products@);
    }
    let mut r: Vec<Product> = Vec::new();
    let ghost all = products@;
    assert(all.take(0) =~= Seq::<Product>::empty());
    for p in it: products.into_iter()
        invariant
            it.seq() == all,
            r@ == below_minimum_only(all.take(it.index() as int)),
    {
        let ghost k = it.index();
        proof {
            assert(all.take(k + 1).drop_last() =~= all.take(k as int));
            assert(all.take(k + 1).last() == p);
        }
        if p.stock < p.min_stock {
            r.push(p);
        }
    }
    assert(all.take(all.len() as int) =~= all);
    r
}

} // verus!
