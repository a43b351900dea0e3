//! Ce que le scenario de bout en bout calcule lui-meme, entre deux appels au
//! serveur : les lignes d'un devis, la valeur de l'inventaire, le corps du
//! PDF d'une facture.

use vstd::prelude::*;
use crate::modele::{formater, ht_ligne, montant_lisible, Article, Centimes, Facture, Ligne};
use crate::texte::{ajouter, ajouter_entier, decimal_signe, depuis};

verus! {

/// Une ligne de devis pour `quantite` unites d'un article, a son prix et a
/// son taux de TVA.
pub fn ligne_de(article: &Article, quantite: i64) -> (l: Ligne)
    ensures
        l.article_id == article.id,
        l.designation == article.designation,
        l.quantite == quantite,
        l.prix_unitaire_ht == article.prix_unitaire_ht,
        l.taux_tva == article.taux_tva,
{
    Ligne {
        article_id: article.id.clone(),
        designation: article.designation.clone(),
        quantite,
        prix_unitaire_ht: article.prix_unitaire_ht,
        taux_tva: article.taux_tva,
    }
}

/// La valeur d'un inventaire : la somme des valeurs de stock de ses articles.
pub open spec fn valeur_totale(articles: Seq<Article>) -> int
    decreases articles.len(),
{
    if articles.len() == 0 {
        0
    } else {
        valeur_totale(articles.drop_last()) + articles.last().prix_unitaire_ht * articles.last().stock
    }
}

/// La valeur d'un inventaire est la somme, sur tous ses articles, du prix
/// unitaire fois le stock, quels que soient ses autres champs (actif ou non) :
/// un inventaire vide ne vaut rien, ajouter un article ajoute sa valeur de
/// stock, et la valeur de deux inventaires mis bout a bout est la somme des
/// deux.
pub proof fn valeur_additive(articles: Seq<Article>, autres: Seq<Article>, a: Article)
    ensures
        valeur_totale(Seq::<Article>::empty()) == 0,
        valeur_totale(articles.push(a)) == valeur_totale(articles) + a.prix_unitaire_ht * a.stock,
        valeur_totale(articles + autres) == valeur_totale(articles) + valeur_totale(autres),
    decreases autres.len(),
{
    assert(articles.push(a).drop_last() =~= articles);
    if autres.len() > 0 {
        valeur_additive(articles, autres.drop_last(), a);
        assert((articles + autres).drop_last() =~= articles + autres.drop_last());
        assert((articles + autres).last() == autres.last());
    } else {
        assert(articles + autres =~= articles);
    }
}

/// Chaque valeur de stock, et chaque somme partielle, tient sur 64 bits.
pub open spec fn valorisable(articles: Seq<Article>) -> bool {
    &&& forall|i: int| 0 <= i < articles.len() ==>
        i64::MIN <= #[trigger] articles[i].prix_unitaire_ht * articles[i].stock <= i64::MAX
    &&& forall|k: int| 0 <= k <= articles.len() ==> i64::MIN <= #[trigger] valeur_totale(articles.take(k)) <= i64::MAX
}

/// Dit si un inventaire se valorise sur 64 bits : c'est le test a faire
/// avant [`valeur_inventaire`] sur des articles lus au serveur.
pub fn peut_valoriser(articles: &[Article]) -> (b: bool)
    ensures
        b == valorisable(articles@),
{
    let mut total: i128 = 0;
    let mut i: usize = 0;
    assert(articles@.take(0) =~= Seq::<Article>::empty());
    while i < articles.len()
        invariant
            i <= articles.len(),
            total == valeur_totale(articles@.take(i as int)),
            forall|j: int| 0 <= j < i ==>
                i64::MIN <= #[trigger] articles@[j].prix_unitaire_ht * articles@[j].stock <= i64::MAX,
            forall|k: int| 0 <= k <= i ==> i64::MIN <= #[trigger] valeur_totale(articles@.take(k)) <= i64::MAX,
        decreases articles.len() - i,
    {
        let article = &articles[i];
        assert(articles@.take(i + 1).drop_last() =~= articles@.take(i as int));
        assert(articles@.take(i + 1).last() == articles@[i as int]);
        let prix = article.prix_unitaire_ht;
        let stock = article.stock;
        assert(-0x4000_0000_0000_0000_0000_0000_0000_0000 <= (prix as int) * (stock as int)
            <= 0x4000_0000_0000_0000_0000_0000_0000_0000) by (nonlinear_arith)
            requires
                i64::MIN <= prix <= i64::MAX,
                i64::MIN <= stock <= i64::MAX,
        ;
        let valeur: i128 = (prix as i128) * (stock as i128);
        if valeur < i64::MIN as i128 || valeur > i64::MAX as i128 {
            return false;
        }
        total = total + valeur;
        if total < i64::MIN as i128 || total > i64::MAX as i128 {
            assert(!(i64::MIN <= valeur_totale(articles@.take(i + 1)) <= i64::MAX));
            return false;
        }
        i = i + 1;
    }
    true
}

/// Valorise un inventaire, article par article.
pub fn valeur_inventaire(articles: &[Article]) -> (v: Centimes)
    requires
        valorisable(articles@),
    ensures
        v == valeur_totale(articles@),
{
    let mut total: i64 = 0;
    let mut i: usize = 0;
    assert(articles@.take(0) =~= Seq::<Article>::empty());
    while i < articles.len()
        invariant
            i <= articles.len(),
            valorisable(articles@),
            total == valeur_totale(articles@.take(i as int)),
        decreases articles.len() - i,
    {
        let article = &articles[i];
        assert(articles@.take(i + 1).drop_last() =~= articles@.take(i as int));
        assert(i64::MIN <= valeur_totale(articles@.take(i + 1)) <= i64::MAX);
        let valeur = article.valeur_stock();
        total = total + valeur;
        i = i + 1;
    }
    assert(articles@.take(articles@.len() as int) =~= articles@);
    total
}

/// La ligne du corps de facture qui detaille une ligne vendue :
/// `12 x Vis a bois = 150,00 EUR`.
pub open spec fn ligne_du_corps(ligne: Ligne) -> Seq<char> {
    decimal_signe(ligne.quantite as int) + " x "@ + ligne.designation@ + " = "@
        + montant_lisible(ht_ligne(ligne), ',')
}

/// La derniere ligne du corps de facture : le total toutes taxes comprises.
pub open spec fn ligne_du_total(total_ttc: int) -> Seq<char> {
    "Total TTC : "@ + montant_lisible(total_ttc, ',')
}

/// Les montants a imprimer sur une facture s'ecrivent : ils tiennent sur
/// 64 bits et ne valent pas le plus petit entier signe.
pub open spec fn imprimable(facture: Facture) -> bool {
    &&& forall|i: int| 0 <= i < facture.lignes@.len() ==>
        i64::MIN < #[trigger] ht_ligne(facture.lignes@[i]) <= i64::MAX
    &&& facture.totaux.total_ttc > i64::MIN
}

/// Dit si les montants d'une facture s'ecrivent : c'est le test a faire
/// avant [`corps_facture`] sur une facture lue au serveur.
pub fn peut_imprimer(facture: &Facture) -> (b: bool)
    ensures
        b == imprimable(*facture),
{
    let mut i: usize = 0;
    while i < facture.lignes.len()
        invariant
            i <= facture.lignes@.len(),
            forall|j: int| 0 <= j < i ==> i64::MIN < #[trigger] ht_ligne(facture.lignes@[j]) <= i64::MAX,
        decreases facture.lignes@.len() - i,
    {
        let ligne = &facture.lignes[i];
        let prix = ligne.prix_unitaire_ht;
        let quantite = ligne.quantite;
        assert(-0x4000_0000_0000_0000_0000_0000_0000_0000 <= (prix as int) * (quantite as int)
            <= 0x4000_0000_0000_0000_0000_0000_0000_0000) by (nonlinear_arith)
            requires
                i64::MIN <= prix <= i64::MAX,
                i64::MIN <= quantite <= i64::MAX,
        ;
        let ht: i128 = (prix as i128) * (quantite as i128);
        if ht <= i64::MIN as i128 || ht > i64::MAX as i128 {
            assert(!(i64::MIN < ht_ligne(facture.lignes@[i as int]) <= i64::MAX));
            return false;
        }
        i = i + 1;
    }
    facture.totaux.total_ttc > i64::MIN
}

/// Le corps du PDF d'une facture : une ligne par ligne vendue, puis le total
/// toutes taxes comprises.
pub fn corps_facture(facture: &Facture) -> (corps: Vec<String>)
    requires
        imprimable(*facture),
    ensures
        corps@.len() == facture.lignes@.len() + 1,
        forall|i: int| 0 <= i < facture.lignes@.len() ==> (#[trigger] corps@[i])@ == ligne_du_corps(facture.lignes@[i]),
        corps@[facture.lignes@.len() as int]@ == ligne_du_total(facture.totaux.total_ttc as int),
{
    let mut corps: Vec<String> = Vec::new();
    let mut i: usize = 0;
    while i < facture.lignes.len()
        invariant
            i <= facture.lignes@.len(),
            imprimable(*facture),
            corps@.len() == i,
            forall|k: int| 0 <= k < i ==> (#[trigger] corps@[k])@ == ligne_du_corps(facture.lignes@[k]),
        decreases facture.lignes@.len() - i,
    {
        let ligne = &facture.lignes[i];
        assert(i64::MIN < ht_ligne(facture.lignes@[i as int]) <= i64::MAX);
        let mut texte = depuis("");
        ajouter_entier(&mut texte, ligne.quantite);
        ajouter(&mut texte, " x ");
        ajouter(&mut texte, ligne.designation.as_str());
        ajouter(&mut texte, " = ");
        let montant = formater(ligne.total_ht());
        ajouter(&mut texte, montant.as_str());
        proof {
            reveal_strlit("");
            assert(texte@ =~= ligne_du_corps(*ligne));
        }
        corps.push(texte);
        i = i + 1;
    }
    let mut total = depuis("Total TTC : ");
    let montant = formater(facture.totaux.total_ttc);
    ajouter(&mut total, montant.as_str());
    corps.push(total);
    corps
}

} // verus!
