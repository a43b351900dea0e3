//! Conventions de nommage : collections documentaires, graphe, buckets.
//!
//! RociaDB ne connait pas le metier : ni collection, ni graphe, ni bucket ne
//! sont declares a l'avance, ils apparaissent au premier ecrit. Tout le
//! vocabulaire de l'ERP tient donc dans ce module, pour qu'un identifiant ne
//! soit jamais recompose a la main ailleurs dans le projet.

use vstd::prelude::*;
use crate::texte::{ajouter, composer, depuis, reunir, reunir_injectif};

verus! {

// --- Collections documentaires ------------------------------------------

pub const CLIENTS: &'static str = "clients";
pub const FOURNISSEURS: &'static str = "fournisseurs";
pub const ARTICLES: &'static str = "articles";
pub const DEVIS: &'static str = "devis";
pub const BONS_COMMANDE: &'static str = "bons_commande";
pub const FACTURES: &'static str = "factures";
pub const MOUVEMENTS_STOCK: &'static str = "mouvements_stock";

/// Toutes les collections ecrites par cet exemple, dans l'ordre ou il faut
/// les supprimer (les pieces filles avant les tiers).
pub const TOUTES_COLLECTIONS: [&'static str; 7] = [
    MOUVEMENTS_STOCK,
    FACTURES,
    BONS_COMMANDE,
    DEVIS,
    ARTICLES,
    CLIENTS,
    FOURNISSEURS,
];

// --- Labels de noeuds ----------------------------------------------------
//
// L'ecriture d'un document lie a un noeud compose l'identifiant du noeud en
// `"{label}:{document_id}"`. Les constantes ci-dessous servent donc aux deux
// bouts : a la creation du document, et a la reconstruction de
// l'identifiant de noeud pour une traversee.

pub const LABEL_CLIENT: &'static str = "client";
pub const LABEL_FOURNISSEUR: &'static str = "fournisseur";
pub const LABEL_ARTICLE: &'static str = "article";
pub const LABEL_DEVIS: &'static str = "devis";
pub const LABEL_BON_COMMANDE: &'static str = "bon_commande";
pub const LABEL_FACTURE: &'static str = "facture";

// --- Labels d'aretes -----------------------------------------------------

/// `fournisseur:F-x` -> `article:ART-y` : qui approvisionne quoi.
pub const FOURNIT: &'static str = "fournit";
/// `client:C-x` -> `devis:DEV-y` : a qui le devis a ete adresse.
pub const A_DEMANDE: &'static str = "a_demande";
/// `devis:DEV-x` -> `article:ART-y` : les articles chiffres dans le devis.
pub const PORTE_SUR: &'static str = "porte_sur";
/// `devis:DEV-x` -> `bon_commande:BC-y` : le devis accepte.
pub const CONVERTI_EN: &'static str = "converti_en";
/// `bon_commande:BC-x` -> `facture:FAC-y` : la commande facturee.
pub const FACTURE_PAR: &'static str = "facture_par";

/// L'identifiant de noeud `"{label}:{document_id}"`.
pub open spec fn noeud_spec(label: Seq<char>, document_id: Seq<char>) -> Seq<char> {
    reunir(label, ':', document_id)
}

/// L'identifiant d'arete `"{label}|{de}|{vers}"`.
pub open spec fn arete_spec(label: Seq<char>, de: Seq<char>, vers: Seq<char>) -> Seq<char> {
    reunir(reunir(label, '|', de), '|', vers)
}

/// Identifiant de noeud a partir d'un label et d'un identifiant de document.
pub fn noeud(label: &str, document_id: &str) -> (s: String)
    ensures
        s@ == noeud_spec(label@, document_id@),
{
    composer(label, ':', document_id)
}

/// Identifiant d'arete : la suppression d'une arete ne prend que cet
/// identifiant, il doit donc etre reconstructible sans relire le graphe.
pub fn arete(label: &str, de: &str, vers: &str) -> (s: String)
    ensures
        s@ == arete_spec(label@, de@, vers@),
{
    let tete = composer(label, '|', de);
    composer(tete.as_str(), '|', vers)
}

/// Un identifiant de noeud designe un seul document : tant que le label ne
/// contient pas `:`, le label et l'identifiant se relisent dans l'identifiant
/// de noeud.
pub proof fn noeud_injectif(label1: Seq<char>, id1: Seq<char>, label2: Seq<char>, id2: Seq<char>)
    requires
        !label1.contains(':'),
        !label2.contains(':'),
        noeud_spec(label1, id1) == noeud_spec(label2, id2),
    ensures
        label1 == label2,
        id1 == id2,
{
    reunir_injectif(label1, id1, label2, id2, ':');
}

/// Une arete se reconstruit de ses trois composantes, et ses trois
/// composantes se relisent dans son identifiant, tant que ni le label ni
/// l'origine ne contiennent `|` (ce que respectent les identifiants de noeud).
pub proof fn arete_injective(
    label1: Seq<char>,
    de1: Seq<char>,
    vers1: Seq<char>,
    label2: Seq<char>,
    de2: Seq<char>,
    vers2: Seq<char>,
)
    requires
        !label1.contains('|'),
        !label2.contains('|'),
        !de1.contains('|'),
        !de2.contains('|'),
        arete_spec(label1, de1, vers1) == arete_spec(label2, de2, vers2),
    ensures
        label1 == label2,
        de1 == de2,
        vers1 == vers2,
{
    assert(arete_spec(label1, de1, vers1) =~= reunir(label1, '|', reunir(de1, '|', vers1)));
    assert(arete_spec(label2, de2, vers2) =~= reunir(label2, '|', reunir(de2, '|', vers2)));
    reunir_injectif(label1, reunir(de1, '|', vers1), label2, reunir(de2, '|', vers2), '|');
    reunir_injectif(de1, vers1, de2, vers2, '|');
}

/// Valeur JSON qu'ecrit l'ecriture liee dans le noeud qu'elle cree : un
/// simple pointeur `{collection, id}` vers la source de verite.
///
/// Le graphe est un index de navigation, jamais la source de verite : aucune
/// lecture ne rend la valeur d'une arete (un voisin ne porte que
/// `node_id` + `edge_id`), donc tout ce qui doit etre relu vit dans le
/// document.
#[derive(Debug, Clone, PartialEq, Eq)]
pub struct RefDocument {
    pub collection: String,
    pub id: String,
}

/// Noeud enrichi : le pointeur `{collection, id}` plus quelques champs
/// denormalises, pour qu'une traversee affiche un resultat lisible sans
/// relire chaque document.
#[derive(Debug, Clone, PartialEq, Eq)]
pub struct NoeudArticle {
    pub collection: String,
    pub id: String,
    pub reference: String,
    pub designation: String,
    pub famille: String,
}

// --- Stockage de fichiers ------------------------------------------------

/// Bucket des pieces jointes (PDF de facture, exports).
pub const BUCKET_PIECES: &'static str = "pieces-jointes";

/// Identifiant de fichier du PDF d'une facture.
pub fn pdf_facture(facture_id: &str) -> (s: String)
    ensures
        s@ == "factures/"@ + facture_id@ + ".pdf"@,
{
    let mut s = depuis("factures/");
    ajouter(&mut s, facture_id);
    ajouter(&mut s, ".pdf");
    s
}

/// Identifiant de fichier de l'export d'inventaire du jour.
pub fn export_stock(date: &str) -> (s: String)
    ensures
        s@ == "exports/stock-"@ + date@ + ".csv"@,
{
    let mut s = depuis("exports/stock-");
    ajouter(&mut s, date);
    ajouter(&mut s, ".csv");
    s
}

} // verus!
