//! Le jeu de donnees de la demonstration : une quincaillerie.

use vstd::prelude::*;
use crate::modele::{Article, Client, Fournisseur, PointsDeBase, TVA_NORMALE, TVA_REDUITE};
use crate::texte::depuis;

verus! {

pub const DEVIS_ID: &'static str = "DEV-2026-0001";
pub const COMMANDE_ID: &'static str = "BC-2026-0001";
pub const FACTURE_ID: &'static str = "FAC-2026-0001";

/// Un client a exactement ces valeurs.
pub open spec fn client_vaut(
    c: Client,
    id: Seq<char>,
    raison_sociale: Seq<char>,
    email: Seq<char>,
    siret: Seq<char>,
    ville: Seq<char>,
    actif: bool,
) -> bool {
    &&& c.id@ == id
    &&& c.raison_sociale@ == raison_sociale
    &&& c.email@ == email
    &&& c.siret@ == siret
    &&& c.ville@ == ville
    &&& c.actif == actif
}

/// Un fournisseur a exactement ces valeurs.
pub open spec fn fournisseur_vaut(
    f: Fournisseur,
    id: Seq<char>,
    raison_sociale: Seq<char>,
    email: Seq<char>,
    siret: Seq<char>,
    delai_jours: u32,
    actif: bool,
) -> bool {
    &&& f.id@ == id
    &&& f.raison_sociale@ == raison_sociale
    &&& f.email@ == email
    &&& f.siret@ == siret
    &&& f.delai_jours == delai_jours
    &&& f.actif == actif
}

/// Un article a exactement ces valeurs.
pub open spec fn article_vaut(
    a: Article,
    id: Seq<char>,
    reference: Seq<char>,
    designation: Seq<char>,
    famille: Seq<char>,
    prix_unitaire_ht: i64,
    taux_tva: PointsDeBase,
    stock: i64,
    stock_mini: i64,
    actif: bool,
) -> bool {
    &&& a.id@ == id
    &&& a.reference@ == reference
    &&& a.designation@ == designation
    &&& a.famille@ == famille
    &&& a.prix_unitaire_ht == prix_unitaire_ht
    &&& a.taux_tva == taux_tva
    &&& a.stock == stock
    &&& a.stock_mini == stock_mini
    &&& a.actif == actif
}

fn client(id: &str, raison_sociale: &str, email: &str, siret: &str, ville: &str, actif: bool) -> (c: Client)
    ensures
        client_vaut(c, id@, raison_sociale@, email@, siret@, ville@, actif),
{
    Client {
        id: depuis(id),
        raison_sociale: depuis(raison_sociale),
        email: depuis(email),
        siret: depuis(siret),
        ville: depuis(ville),
        actif,
    }
}

fn fournisseur(id: &str, raison_sociale: &str, email: &str, siret: &str, delai_jours: u32, actif: bool) -> (f: Fournisseur)
    ensures
        fournisseur_vaut(f, id@, raison_sociale@, email@, siret@, delai_jours, actif),
{
    Fournisseur {
        id: depuis(id),
        raison_sociale: depuis(raison_sociale),
        email: depuis(email),
        siret: depuis(siret),
        delai_jours,
        actif,
    }
}

fn article(
    id: &str,
    reference: &str,
    designation: &str,
    famille: &str,
    prix_unitaire_ht: i64,
    taux_tva: PointsDeBase,
    stock: i64,
    stock_mini: i64,
) -> (a: Article)
    ensures
        article_vaut(a, id@, reference@, designation@, famille@, prix_unitaire_ht, taux_tva, stock, stock_mini, true),
{
    Article {
        id: depuis(id),
        reference: depuis(reference),
        designation: depuis(designation),
        famille: depuis(famille),
        prix_unitaire_ht,
        taux_tva,
        stock,
        stock_mini,
        actif: true,
    }
}

pub fn clients() -> (r: Vec<Client>)
    ensures
        r@.len() == 3,
        client_vaut(r@[0], "C-001"@, "Menuiserie Bertrand"@, "contact@menuiserie-bertrand.example"@, "40483304800022"@, "Nantes"@, true),
        client_vaut(r@[1], "C-002"@, "Atelier du Bois"@, "achats@atelier-du-bois.example"@, "51234567800017"@, "Rennes"@, true),
        client_vaut(r@[2], "C-003"@, "Charpentes Morel"@, "compta@charpentes-morel.example"@, "39876543200029"@, "Angers"@, false),
{
    let mut r: Vec<Client> = Vec::new();
    r.push(client("C-001", "Menuiserie Bertrand", "contact@menuiserie-bertrand.example", "40483304800022", "Nantes", true));
    r.push(client("C-002", "Atelier du Bois", "achats@atelier-du-bois.example", "51234567800017", "Rennes", true));
    r.push(client("C-003", "Charpentes Morel", "compta@charpentes-morel.example", "39876543200029", "Angers", false));
    r
}

pub fn fournisseurs() -> (r: Vec<Fournisseur>)
    ensures
        r@.len() == 2,
        fournisseur_vaut(r@[0], "F-001"@, "Visserie Centrale"@, "commandes@visserie-centrale.example"@, "77889900100013"@, 5, true),
        fournisseur_vaut(r@[1], "F-002"@, "Outillage Pro"@, "adv@outillage-pro.example"@, "66554433200018"@, 12, true),
{
    let mut r: Vec<Fournisseur> = Vec::new();
    r.push(fournisseur("F-001", "Visserie Centrale", "commandes@visserie-centrale.example", "77889900100013", 5, true));
    r.push(fournisseur("F-002", "Outillage Pro", "adv@outillage-pro.example", "66554433200018", 12, true));
    r
}

pub fn articles() -> (r: Vec<Article>)
    ensures
        r@.len() == 5,
        article_vaut(r@[0], "ART-001"@, "VIS-4X30"@, "Vis a bois 4x30 (boite de 200)"@, "quincaillerie"@, 1250, TVA_NORMALE, 120, 40, true),
        article_vaut(r@[1], "ART-002"@, "VIS-5X50"@, "Vis a bois 5x50 (boite de 100)"@, "quincaillerie"@, 1890, TVA_NORMALE, 18, 30, true),
        article_vaut(r@[2], "ART-003"@, "EQU-CHEV"@, "Equerre de chevron galvanisee"@, "quincaillerie"@, 340, TVA_NORMALE, 640, 150, true),
        article_vaut(r@[3], "ART-004"@, "PERC-18V"@, "Perceuse visseuse 18V"@, "outillage"@, 14900, TVA_NORMALE, 7, 4, true),
        article_vaut(r@[4], "ART-005"@, "DOC-POSE"@, "Notice de pose imprimee"@, "documentation"@, 450, TVA_REDUITE, 2, 25, true),
{
    let mut r: Vec<Article> = Vec::new();
    r.push(article("ART-001", "VIS-4X30", "Vis a bois 4x30 (boite de 200)", "quincaillerie", 1250, TVA_NORMALE, 120, 40));
    r.push(article("ART-002", "VIS-5X50", "Vis a bois 5x50 (boite de 100)", "quincaillerie", 1890, TVA_NORMALE, 18, 30));
    r.push(article("ART-003", "EQU-CHEV", "Equerre de chevron galvanisee", "quincaillerie", 340, TVA_NORMALE, 640, 150));
    r.push(article("ART-004", "PERC-18V", "Perceuse visseuse 18V", "outillage", 14900, TVA_NORMALE, 7, 4));
    r.push(article("ART-005", "DOC-POSE", "Notice de pose imprimee", "documentation", 450, TVA_REDUITE, 2, 25));
    r
}

/// L'article que le scenario ajoute hors import, une fois le catalogue
/// charge : de la colle, en quincaillerie.
pub fn article_hors_import() -> (a: Article)
    ensures
        article_vaut(a, "ART-006"@, "COLLE-PU"@, "Colle polyurethane 310 ml"@, "quincaillerie"@, 890, TVA_NORMALE, 24, 10, true),
{
    article("ART-006", "COLLE-PU", "Colle polyurethane 310 ml", "quincaillerie", 890, TVA_NORMALE, 24, 10)
}

/// Un approvisionnement : l'article et son prix d'achat, en centimes.
pub open spec fn appro_vaut(a: (String, i64), article_id: Seq<char>, prix_achat: i64) -> bool {
    a.0@ == article_id && a.1 == prix_achat
}

/// Qui approvisionne quoi, et a quel prix d'achat (en centimes).
pub fn approvisionnements() -> (r: Vec<(&'static str, Vec<(String, i64)>)>)
    ensures
        r@.len() == 2,
        r@[0].0@ == "F-001"@,
        r@[0].1@.len() == 3,
        appro_vaut(r@[0].1@[0], "ART-001"@, 780),
        appro_vaut(r@[0].1@[1], "ART-002"@, 1180),
        appro_vaut(r@[0].1@[2], "ART-003"@, 190),
        r@[1].0@ == "F-002"@,
        r@[1].1@.len() == 2,
        appro_vaut(r@[1].1@[0], "ART-004"@, 9800),
        appro_vaut(r@[1].1@[1], "ART-001"@, 830),
{
    let mut premier: Vec<(String, i64)> = Vec::new();
    premier.push((depuis("ART-001"), 780));
    premier.push((depuis("ART-002"), 1180));
    premier.push((depuis("ART-003"), 190));
    let mut second: Vec<(String, i64)> = Vec::new();
    second.push((depuis("ART-004"), 9800));
    second.push((depuis("ART-001"), 830));
    let mut r: Vec<(&'static str, Vec<(String, i64)>)> = Vec::new();
    r.push(("F-001", premier));
    r.push(("F-002", second));
    r
}

} // verus!
