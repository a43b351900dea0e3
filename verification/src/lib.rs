//! A small ERP — quotes, orders, invoices, stock, customers, suppliers —
//! on the RociaDB document, graph and file services: the rules it applies
//! between two server calls, with their contracts.
//!
//! Three rules explain the structure:
//!
//! 1. **Nothing is declared.** A collection, a graph or a bucket exists from
//!    the first write to it, so every name lives in a constant: a typo would
//!    silently create one more collection instead of failing.
//! 2. **The document is the source of truth; the graph is an index.** No
//!    read returns an edge's value: what has to be read back lives in the
//!    document.
//! 3. **No two writes are atomic.** Writing a document and its node, or a
//!    stock and its move, are two writes: their order and their idempotency
//!    keys are choices, not details.

use vstd::prelude::*;

pub mod admin;
pub mod auth_avance;
pub mod catalogue;
pub mod contexte;
pub mod documents;
pub mod erp;
pub mod erreur;
pub mod files;
pub mod graph;
pub mod graphe;
pub mod horloge;
pub mod jeu_donnees;
pub mod model;
pub mod modele;
pub mod nettoyage;
pub mod pagination;
pub mod pieces;
pub mod scenario;
pub mod schema;
pub mod texte;
pub mod tiers;
pub mod ventes;

verus! {
} // verus!
