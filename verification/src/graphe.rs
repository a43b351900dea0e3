//! Le graphe : qui fournit quoi, quel devis porte sur quels articles, quelle
//! commande a produit quelle facture.
//!
//! Deux principes tiennent tout le module :
//!
//! - **le graphe est un index, jamais la source de verite.** Aucune lecture
//!   ne rend la valeur d'une arete (un voisin ne porte qu'un `node_id` et un
//!   `edge_id`), donc tout ce qui doit etre relu vit dans le document. Les
//!   valeurs d'aretes ecrites ici documentent la relation cote serveur ;
//!   elles ne se lisent pas.
//! - **une arete exige ses deux extremites.** Ajouter une arete dont `from`
//!   ou `to` n'existe pas deja comme noeud echoue : les noeuds d'abord, les
//!   aretes ensuite, toujours.
//!
//! Ce module prepare les lots a ecrire : identifiants, valeurs et cles
//! d'idempotence. L'envoi reste a l'appelant.

use vstd::prelude::*;
use crate::contexte::Contexte;
use crate::modele::{Article, Ligne};
use crate::schema::{arete_spec, noeud, noeud_spec, NoeudArticle, A_DEMANDE, ARTICLES, FOURNIT, LABEL_ARTICLE, LABEL_CLIENT, LABEL_DEVIS, LABEL_FOURNISSEUR, PORTE_SUR};
use crate::texte::{ajouter, depuis, reunir};

verus! {

/// Un noeud a ecrire : son identifiant, sa valeur, et sa cle d'idempotence.
#[derive(Debug, Clone, PartialEq, Eq)]
pub struct EntreeNoeud<V> {
    pub node_id: String,
    pub valeur: V,
    pub request_id: String,
}

/// Une arete : son identifiant, ses deux extremites et son label.
#[derive(Debug, Clone, PartialEq, Eq)]
pub struct Arete {
    pub edge_id: String,
    pub from: String,
    pub to: String,
    pub label: String,
}

/// Une arete a ecrire, avec la valeur qui documente la relation et sa cle
/// d'idempotence.
#[derive(Debug, Clone, PartialEq, Eq)]
pub struct EntreeArete<V> {
    pub arete: Arete,
    pub valeur: V,
    pub request_id: String,
}

/// L'arete `label` de `from` vers `to`, identifiee par `label|from|to`.
pub open spec fn arete_entre(a: Arete, label: Seq<char>, from: Seq<char>, to: Seq<char>) -> bool {
    &&& a.edge_id@ == arete_spec(label, from, to)
    &&& a.from@ == from
    &&& a.to@ == to
    &&& a.label@ == label
}

/// L'arete `label` de `from` vers `to`.
pub fn arete_de(label: &str, from: &str, to: &str) -> (a: Arete)
    ensures
        arete_entre(a, label@, from@, to@),
{
    Arete {
        edge_id: crate::schema::arete(label, from, to),
        from: depuis(from),
        to: depuis(to),
        label: depuis(label),
    }
}

/// `prefixe` suivi de `a`, de `:` puis de `b`.
fn nom_a_deux_parties(prefixe: &str, a: &str, b: &str) -> (s: String)
    ensures
        s@ == prefixe@ + a@ + ":"@ + b@,
{
    let mut s = depuis(prefixe);
    ajouter(&mut s, a);
    ajouter(&mut s, ":");
    ajouter(&mut s, b);
    s
}

/// Le noeud enrichi d'un article : le pointeur vers son document, plus la
/// reference, la designation et la famille.
pub open spec fn noeud_article_de(n: NoeudArticle, a: Article) -> bool {
    &&& n.collection@ == ARTICLES@
    &&& n.id == a.id
    &&& n.reference == a.reference
    &&& n.designation == a.designation
    &&& n.famille == a.famille
}

/// Les noeuds enrichis des articles, un par article et dans leur ordre, avec
/// la cle d'idempotence `noeud-article:{id}` de cette execution : un lot
/// rejoue apres une coupure reprend sans dupliquer.
pub fn noeuds_articles(ctx: &Contexte, articles: &[Article]) -> (r: Vec<EntreeNoeud<NoeudArticle>>)
    ensures
        r@.len() == articles@.len(),
        forall|i: int| 0 <= i < r@.len() ==> {
            &&& (#[trigger] r@[i]).node_id@ == noeud_spec(LABEL_ARTICLE@, articles@[i].id@)
            &&& noeud_article_de(r@[i].valeur, articles@[i])
            &&& r@[i].request_id@ == reunir(ctx.job@, ':', "noeud-article:"@ + articles@[i].id@)
        },
{
    let mut r: Vec<EntreeNoeud<NoeudArticle>> = Vec::new();
    let mut i: usize = 0;
    while i < articles.len()
        invariant
            i <= articles@.len(),
            r@.len() == i,
            forall|k: int| 0 <= k < i ==> {
                &&& (#[trigger] r@[k]).node_id@ == noeud_spec(LABEL_ARTICLE@, articles@[k].id@)
                &&& noeud_article_de(r@[k].valeur, articles@[k])
                &&& r@[k].request_id@ == reunir(ctx.job@, ':', "noeud-article:"@ + articles@[k].id@)
            },
        decreases articles@.len() - i,
    {
        let article = &articles[i];
        let mut nom = depuis("noeud-article:");
        ajouter(&mut nom, article.id.as_str());
        let entree = EntreeNoeud {
            node_id: noeud(LABEL_ARTICLE, article.id.as_str()),
            valeur: NoeudArticle {
                collection: depuis(ARTICLES),
                id: article.id.clone(),
                reference: article.reference.clone(),
                designation: article.designation.clone(),
                famille: article.famille.clone(),
            },
            request_id: ctx.cle(nom.as_str()),
        };
        r.push(entree);
        i = i + 1;
    }
    r
}

/// Les aretes `fournit` d'un fournisseur vers chacun de ses articles, la
/// valeur portant le prix d'achat hors taxes, avec la cle d'idempotence
/// `fournit:{fournisseur}:{article}` de cette execution.
pub fn aretes_fournisseur(ctx: &Contexte, fournisseur_id: &str, articles: &[(String, i64)]) -> (r: Vec<EntreeArete<i64>>)
    ensures
        r@.len() == articles@.len(),
        forall|i: int| 0 <= i < r@.len() ==> {
            &&& arete_entre((#[trigger] r@[i]).arete, FOURNIT@,
                noeud_spec(LABEL_FOURNISSEUR@, fournisseur_id@), noeud_spec(LABEL_ARTICLE@, articles@[i].0@))
            &&& r@[i].valeur == articles@[i].1
            &&& r@[i].request_id@ == reunir(ctx.job@, ':', "fournit:"@ + fournisseur_id@ + ":"@ + articles@[i].0@)
        },
{
    let depuis_noeud = noeud(LABEL_FOURNISSEUR, fournisseur_id);
    let mut r: Vec<EntreeArete<i64>> = Vec::new();
    let mut i: usize = 0;
    while i < articles.len()
        invariant
            i <= articles@.len(),
            r@.len() == i,
            depuis_noeud@ == noeud_spec(LABEL_FOURNISSEUR@, fournisseur_id@),
            forall|k: int| 0 <= k < i ==> {
                &&& arete_entre((#[trigger] r@[k]).arete, FOURNIT@,
                    noeud_spec(LABEL_FOURNISSEUR@, fournisseur_id@), noeud_spec(LABEL_ARTICLE@, articles@[k].0@))
                &&& r@[k].valeur == articles@[k].1
                &&& r@[k].request_id@ == reunir(ctx.job@, ':', "fournit:"@ + fournisseur_id@ + ":"@ + articles@[k].0@)
            },
        decreases articles@.len() - i,
    {
        let (article_id, prix_achat) = &articles[i];
        let vers = noeud(LABEL_ARTICLE, article_id.as_str());
        let nom = nom_a_deux_parties("fournit:", fournisseur_id, article_id.as_str());
        let entree = EntreeArete {
            arete: arete_de(FOURNIT, depuis_noeud.as_str(), vers.as_str()),
            valeur: *prix_achat,
            request_id: ctx.cle(nom.as_str()),
        };
        r.push(entree);
        i = i + 1;
    }
    r
}

/// Les aretes `porte_sur` d'un devis vers l'article de chacune de ses
/// lignes, la valeur portant la quantite et le prix unitaire hors taxes, avec
/// la cle d'idempotence `porte-sur:{devis}:{article}` de cette execution.
pub fn aretes_devis(ctx: &Contexte, devis_id: &str, lignes: &[Ligne]) -> (r: Vec<EntreeArete<(i64, i64)>>)
    ensures
        r@.len() == lignes@.len(),
        forall|i: int| 0 <= i < r@.len() ==> {
            &&& arete_entre((#[trigger] r@[i]).arete, PORTE_SUR@,
                noeud_spec(LABEL_DEVIS@, devis_id@), noeud_spec(LABEL_ARTICLE@, lignes@[i].article_id@))
            &&& r@[i].valeur == (lignes@[i].quantite, lignes@[i].prix_unitaire_ht)
            &&& r@[i].request_id@ == reunir(ctx.job@, ':', "porte-sur:"@ + devis_id@ + ":"@ + lignes@[i].article_id@)
        },
{
    let depuis_noeud = noeud(LABEL_DEVIS, devis_id);
    let mut r: Vec<EntreeArete<(i64, i64)>> = Vec::new();
    let mut i: usize = 0;
    while i < lignes.len()
        invariant
            i <= lignes@.len(),
            r@.len() == i,
            depuis_noeud@ == noeud_spec(LABEL_DEVIS@, devis_id@),
            forall|k: int| 0 <= k < i ==> {
                &&& arete_entre((#[trigger] r@[k]).arete, PORTE_SUR@,
                    noeud_spec(LABEL_DEVIS@, devis_id@), noeud_spec(LABEL_ARTICLE@, lignes@[k].article_id@))
                &&& r@[k].valeur == (lignes@[k].quantite, lignes@[k].prix_unitaire_ht)
                &&& r@[k].request_id@ == reunir(ctx.job@, ':', "porte-sur:"@ + devis_id@ + ":"@ + lignes@[k].article_id@)
            },
        decreases lignes@.len() - i,
    {
        let ligne = &lignes[i];
        let vers = noeud(LABEL_ARTICLE, ligne.article_id.as_str());
        let nom = nom_a_deux_parties("porte-sur:", devis_id, ligne.article_id.as_str());
        let entree = EntreeArete {
            arete: arete_de(PORTE_SUR, depuis_noeud.as_str(), vers.as_str()),
            valeur: (ligne.quantite, ligne.prix_unitaire_ht),
            request_id: ctx.cle(nom.as_str()),
        };
        r.push(entree);
        i = i + 1;
    }
    r
}

/// L'arete `a_demande` d'un client vers le devis qui lui a ete adresse.
pub fn arete_client_devis(client_id: &str, devis_id: &str) -> (a: Arete)
    ensures
        arete_entre(a, A_DEMANDE@, noeud_spec(LABEL_CLIENT@, client_id@), noeud_spec(LABEL_DEVIS@, devis_id@)),
{
    let depuis_noeud = noeud(LABEL_CLIENT, client_id);
    let vers = noeud(LABEL_DEVIS, devis_id);
    arete_de(A_DEMANDE, depuis_noeud.as_str(), vers.as_str())
}

/// L'arete `relation` entre deux pieces commerciales (devis -> commande,
/// commande -> facture), avec la cle d'idempotence
/// `{relation}:{piece de depart}:{piece d'arrivee}` de cette execution : une
/// conversion rejouee apres un delai reseau ne cree pas une seconde arete.
pub fn arete_pieces(
    ctx: &Contexte,
    label_depuis: &str,
    id_depuis: &str,
    label_vers: &str,
    id_vers: &str,
    relation: &str,
) -> (r: (Arete, String))
    ensures
        arete_entre(r.0, relation@, noeud_spec(label_depuis@, id_depuis@), noeud_spec(label_vers@, id_vers@)),
        r.1@ == reunir(ctx.job@, ':', relation@ + ":"@ + id_depuis@ + ":"@ + id_vers@),
{
    let depuis_noeud = noeud(label_depuis, id_depuis);
    let vers = noeud(label_vers, id_vers);
    let mut nom = depuis(relation);
    ajouter(&mut nom, ":");
    let nom = nom_a_deux_parties(nom.as_str(), id_depuis, id_vers);
    (arete_de(relation, depuis_noeud.as_str(), vers.as_str()), ctx.cle(nom.as_str()))
}

} // verus!
