//! Catalogue et stock : les regles qui s'appliquent a un article, sans
//! serveur.
//!
//! Les operateurs de requete disponibles cote serveur sont `Eq`, `In` et
//! `Contains` : il n'y a pas de comparaison entre deux champs, donc « stock
//! sous le minimum » ne se traduit pas en filtre. Le serveur ramene les
//! articles actifs tries par stock croissant, et la comparaison se fait ici.

use vstd::prelude::*;
use crate::erreur::{ErreurApp, Resultat};
use crate::horloge::Instant;
use crate::modele::{Article, MouvementStock, SensMouvement};
use crate::texte::{ajouter, ajouter_entier, decimal_signe, depuis, enregistrement_csv, pousser};

verus! {

/// Les articles passes sous leur seuil, dans l'ordre ou ils arrivent.
pub open spec fn sous_le_seuil_seulement(articles: Seq<Article>) -> Seq<Article>
    decreases articles.len(),
{
    if articles.len() == 0 {
        Seq::<Article>::empty()
    } else {
        let debut = sous_le_seuil_seulement(articles.drop_last());
        if articles.last().stock < articles.last().stock_mini {
            debut.push(articles.last())
        } else {
            debut
        }
    }
}

/// Le reapprovisionnement ne perd ni n'invente d'article : un article de la
/// liste est retenu exactement quand son stock est strictement sous son
/// seuil, quel que soit ce stock (un article en rupture en fait partie), et
/// chaque article retenu vient de la liste et est sous son seuil.
pub proof fn reapprovisionnement_exact(articles: Seq<Article>)
    ensures
        forall|j: int| 0 <= j < sous_le_seuil_seulement(articles).len() ==> {
            &&& (#[trigger] sous_le_seuil_seulement(articles)[j]).stock < sous_le_seuil_seulement(articles)[j].stock_mini
            &&& articles.contains(sous_le_seuil_seulement(articles)[j])
        },
        forall|i: int| 0 <= i < articles.len() ==>
            (sous_le_seuil_seulement(articles).contains(#[trigger] articles[i])
                <==> articles[i].stock < articles[i].stock_mini),
        sous_le_seuil_seulement(articles) == articles.filter(|x: Article| x.stock < x.stock_mini),
    decreases articles.len(),
{
    reveal(Seq::filter);
    let r = sous_le_seuil_seulement(articles);
    if articles.len() > 0 {
        let debut = articles.drop_last();
        let d = sous_le_seuil_seulement(debut);
        reapprovisionnement_exact(debut);
        assert forall|j: int| 0 <= j < r.len() implies {
            &&& (#[trigger] r[j]).stock < r[j].stock_mini
            &&& articles.contains(r[j])
        } by {
            if j < d.len() {
                assert(r[j] == d[j]);
                let k = choose|k: int| 0 <= k < debut.len() && debut[k] == d[j];
                assert(articles[k] == debut[k]);
            } else {
                assert(r[j] == articles.last());
                assert(articles[articles.len() - 1] == articles.last());
            }
        }
        assert forall|i: int| 0 <= i < articles.len() implies
            (r.contains(#[trigger] articles[i]) <==> articles[i].stock < articles[i].stock_mini) by {
            if r.contains(articles[i]) {
                let j = choose|j: int| 0 <= j < r.len() && r[j] == articles[i];
                assert(r[j].stock < r[j].stock_mini);
            }
            if articles[i].stock < articles[i].stock_mini {
                if i < articles.len() - 1 {
                    assert(debut[i] == articles[i]);
                    assert(d.contains(debut[i]));
                    let j = choose|j: int| 0 <= j < d.len() && d[j] == debut[i];
                    assert(r[j] == d[j]);
                } else {
                    assert(r[r.len() - 1] == articles.last());
                }
            }
        }
    }
}

/// Ne garde que les articles passes sous leur seuil de reapprovisionnement,
/// dans l'ordre ou ils arrivent.
pub fn filtrer_sous_le_seuil(articles: Vec<Article>) -> (r: Vec<Article>)
    ensures
        r@ == sous_le_seuil_seulement(articles@),
        r@ == articles@.filter(|x: Article| x.stock < x.stock_mini),
        forall|i: int| 0 <= i < articles@.len() ==>
            (r@.contains(#[trigger] articles@[i]) <==> articles@[i].stock < articles@[i].stock_mini),
        forall|j: int| 0 <= j < r@.len() ==>
            (#[trigger] r@[j]).stock < r@[j].stock_mini && articles@.contains(r@[j]),
{
    proof {
        reapprovisionnement_exact(articles@);
    }
    let mut r: Vec<Article> = Vec::new();
    let ghost tous = articles@;
    assert(tous.take(0) =~= Seq::<Article>::empty());
    for a in it: articles.into_iter()
        invariant
            it.seq() == tous,
            r@ == sous_le_seuil_seulement(tous.take(it.index() as int)),
    {
        let ghost k = it.index();
        proof {
            assert(tous.take(k + 1).drop_last() =~= tous.take(k as int));
            assert(tous.take(k + 1).last() == a);
        }
        if a.stock < a.stock_mini {
            r.push(a);
        }
    }
    assert(tous.take(tous.len() as int) =~= tous);
    r
}

/// Le message d'une quantite invalide.
pub open spec fn message_quantite_invalide(article_id: Seq<char>, quantite: int) -> Seq<char> {
    "quantite invalide ("@ + decimal_signe(quantite) + ") pour le mouvement sur "@ + article_id
}

/// Le message d'un stock insuffisant.
pub open spec fn message_stock_insuffisant(article_id: Seq<char>, stock: int, quantite: int) -> Seq<char> {
    "stock insuffisant sur "@ + article_id + " : "@ + decimal_signe(stock) + " disponible(s), "@
        + decimal_signe(quantite) + " demande(s)"@
}

/// Refuse une quantite nulle ou negative, avant tout appel reseau.
pub fn controler_quantite(article_id: &str, quantite: i64) -> (r: Resultat<()>)
    ensures
        quantite > 0 <==> r is Ok,
        r matches Err(e) ==> e matches ErreurApp::Metier(m) && m@ == message_quantite_invalide(article_id@, quantite as int),
{
    if quantite <= 0 {
        let mut m = depuis("quantite invalide (");
        ajouter_entier(&mut m, quantite);
        ajouter(&mut m, ") pour le mouvement sur ");
        ajouter(&mut m, article_id);
        return Err(ErreurApp::Metier(m));
    }
    Ok(())
}

/// Le stock apres un mouvement, quand il reste positif ou nul.
pub open spec fn stock_apres_spec(stock: int, sens: SensMouvement, quantite: int) -> Option<int> {
    let nouveau = stock + sens.signe_spec() * quantite;
    if nouveau < 0 { None } else { Some(nouveau) }
}

/// Le stock apres le mouvement tient sur 64 bits.
pub open spec fn mouvement_calculable(stock: int, sens: SensMouvement, quantite: int) -> bool {
    i64::MIN <= stock + sens.signe_spec() * quantite <= i64::MAX
}

/// Applique un mouvement au stock d'un article.
///
/// Une sortie qui ferait passer le stock sous zero est refusee ; sinon
/// l'article revient avec son nouveau stock, tout le reste inchange.
pub fn appliquer_mouvement(article: Article, article_id: &str, sens: SensMouvement, quantite: i64) -> (r: Resultat<Article>)
    requires
        quantite > 0,
        mouvement_calculable(article.stock as int, sens, quantite as int),
    ensures
        match stock_apres_spec(article.stock as int, sens, quantite as int) {
            Some(nouveau) => r matches Ok(a) && a == (Article { stock: nouveau as i64, ..article }),
            None => r matches Err(e) && e matches ErreurApp::Metier(m)
                && m@ == message_stock_insuffisant(article_id@, article.stock as int, quantite as int),
        },
{
    let nouveau_stock = article.stock + sens.signe() * quantite;
    if nouveau_stock < 0 {
        let mut m = depuis("stock insuffisant sur ");
        ajouter(&mut m, article_id);
        ajouter(&mut m, " : ");
        ajouter_entier(&mut m, article.stock);
        ajouter(&mut m, " disponible(s), ");
        ajouter_entier(&mut m, quantite);
        ajouter(&mut m, " demande(s)");
        return Err(ErreurApp::Metier(m));
    }
    let mut article = article;
    article.stock = nouveau_stock;
    Ok(article)
}

/// Une entree suivie d'une sortie de la meme quantite rend le stock de
/// depart, et une sortie acceptee suivie de l'entree correspondante aussi :
/// un mouvement se defait par le mouvement contraire.
pub proof fn mouvement_reversible(stock: int, quantite: int)
    requires
        stock >= 0,
        quantite > 0,
    ensures
        stock_apres_spec(stock, SensMouvement::Entree, quantite) matches Some(s)
            && stock_apres_spec(s, SensMouvement::Sortie, quantite) == Some(stock),
        stock_apres_spec(stock, SensMouvement::Sortie, quantite) matches Some(s)
            ==> stock_apres_spec(s, SensMouvement::Entree, quantite) == Some(stock),
{
}

/// Un mouvement accepte ne laisse jamais un stock negatif.
pub proof fn stock_jamais_negatif(stock: int, sens: SensMouvement, quantite: int)
    ensures
        stock_apres_spec(stock, sens, quantite) matches Some(s) ==> s >= 0,
{
}

/// La trace d'un mouvement, horodatee a l'instant donne.
pub fn mouvement(article_id: &str, sens: SensMouvement, quantite: i64, origine: &str, instant: &Instant) -> (m: MouvementStock)
    ensures
        m.id@ == "MVT-"@ + article_id@ + "-"@ + instant.compact_micro@,
        m.article_id@ == article_id@,
        m.sens == sens,
        m.quantite == quantite,
        m.origine@ == origine@,
        m.horodatage@ == instant.rfc3339@,
{
    let mut id = depuis("MVT-");
    ajouter(&mut id, article_id);
    ajouter(&mut id, "-");
    ajouter(&mut id, instant.compact_micro.as_str());
    MouvementStock {
        id,
        article_id: depuis(article_id),
        sens,
        quantite,
        origine: depuis(origine),
        horodatage: instant.rfc3339.clone(),
    }
}

/// L'une des deux ecritures d'un mouvement de stock, dans l'ordre ou elles
/// sont faites.
#[derive(Debug, Clone, PartialEq, Eq)]
pub enum EcritureStock {
    /// Reecrire l'article avec son nouveau stock.
    Article(Article),
    /// Enregistrer la trace du mouvement.
    Trace(MouvementStock),
}

/// Les ecritures d'un mouvement de stock, dans leur ordre.
///
/// Deux ecritures, pas une transaction : l'article est reecrit *avant* que
/// la trace soit enregistree, pour qu'une panne entre les deux laisse un
/// stock a jour sans sa trace plutot qu'une trace sans effet — le cas le
/// plus facile a rattraper. Une quantite nulle ou negative, ou une sortie
/// au-dela du stock, est refusee sans rien ecrire.
pub fn ecritures_du_mouvement(
    article: Article,
    article_id: &str,
    sens: SensMouvement,
    quantite: i64,
    origine: &str,
    instant: &Instant,
) -> (r: Resultat<Vec<EcritureStock>>)
    requires
        quantite > 0 ==> mouvement_calculable(article.stock as int, sens, quantite as int),
    ensures
        quantite <= 0 ==> (r matches Err(ErreurApp::Metier(m)) && m@ == message_quantite_invalide(article_id@, quantite as int)),
        quantite > 0 ==> match stock_apres_spec(article.stock as int, sens, quantite as int) {
            None => r matches Err(ErreurApp::Metier(m))
                && m@ == message_stock_insuffisant(article_id@, article.stock as int, quantite as int),
            Some(nouveau) => r matches Ok(ecritures) && {
                &&& ecritures@.len() == 2
                &&& ecritures@[0] == EcritureStock::Article(Article { stock: nouveau as i64, ..article })
                &&& ecritures@[1] matches EcritureStock::Trace(m)
                &&& m.id@ == "MVT-"@ + article_id@ + "-"@ + instant.compact_micro@
                &&& m.article_id@ == article_id@
                &&& m.sens == sens
                &&& m.quantite == quantite
                &&& m.origine@ == origine@
                &&& m.horodatage@ == instant.rfc3339@
            },
        },
{
    controler_quantite(article_id, quantite)?;
    let article = appliquer_mouvement(article, article_id, sens, quantite)?;
    let trace = mouvement(article_id, sens, quantite, origine, instant);
    let mut ecritures: Vec<EcritureStock> = Vec::new();
    ecritures.push(EcritureStock::Article(article));
    ecritures.push(EcritureStock::Trace(trace));
    Ok(ecritures)
}

/// La ligne CSV d'un article.
pub open spec fn ligne_csv(a: Article) -> Seq<char> {
    a.reference@ + seq![';'] + a.designation@ + seq![';'] + a.famille@ + seq![';'] + decimal_signe(a.stock as int)
        + seq![';'] + decimal_signe(a.stock_mini as int) + seq![';'] + decimal_signe(a.prix_unitaire_ht as int)
        + seq!['\n']
}

/// L'inventaire au format CSV : l'entete, puis une ligne par article.
pub open spec fn csv_inventaire(articles: Seq<Article>) -> Seq<char>
    decreases articles.len(),
{
    if articles.len() == 0 {
        "reference;designation;famille;stock;stock_mini;prix_ht_centimes\n"@
    } else {
        csv_inventaire(articles.drop_last()) + ligne_csv(articles.last())
    }
}

/// Les colonnes de l'inventaire CSV : l'entete nomme, dans l'ordre, les
/// champs que chaque ligne ecrit — reference, designation, famille, stock,
/// stock minimum, prix HT en centimes — et chaque article ajoute une ligne a
/// la fin, sans toucher a ce qui precede.
pub proof fn colonnes_de_l_inventaire(articles: Seq<Article>, a: Article)
    ensures
        csv_inventaire(Seq::<Article>::empty()) == enregistrement_csv(
            seq!["reference"@, "designation"@, "famille"@, "stock"@, "stock_mini"@, "prix_ht_centimes"@],
        ),
        csv_inventaire(articles.push(a)) == csv_inventaire(articles) + enregistrement_csv(
            seq![
                a.reference@,
                a.designation@,
                a.famille@,
                decimal_signe(a.stock as int),
                decimal_signe(a.stock_mini as int),
                decimal_signe(a.prix_unitaire_ht as int),
            ],
        ),
{
    reveal_strlit("reference;designation;famille;stock;stock_mini;prix_ht_centimes\n");
    reveal_strlit("reference");
    reveal_strlit("designation");
    reveal_strlit("famille");
    reveal_strlit("stock");
    reveal_strlit("stock_mini");
    reveal_strlit("prix_ht_centimes");
    reveal_with_fuel(crate::texte::champs_separes, 7);
    let noms = seq!["reference"@, "designation"@, "famille"@, "stock"@, "stock_mini"@, "prix_ht_centimes"@];
    assert(noms.drop_last().drop_last().drop_last().drop_last().drop_last() =~= seq!["reference"@]);
    assert(enregistrement_csv(noms) =~= csv_inventaire(Seq::<Article>::empty()));
    assert(articles.push(a).drop_last() =~= articles);
    let champs = seq![
        a.reference@,
        a.designation@,
        a.famille@,
        decimal_signe(a.stock as int),
        decimal_signe(a.stock_mini as int),
        decimal_signe(a.prix_unitaire_ht as int),
    ];
    assert(champs.drop_last().drop_last().drop_last().drop_last().drop_last() =~= seq![a.reference@]);
    assert(enregistrement_csv(champs) =~= ligne_csv(a));
}

/// L'inventaire au format CSV, pret a etre televerse.
pub fn exporter_csv(articles: &[Article]) -> (csv: String)
    ensures
        csv@ == csv_inventaire(articles@),
{
    let mut csv = depuis("reference;designation;famille;stock;stock_mini;prix_ht_centimes\n");
    let mut i: usize = 0;
    assert(articles@.take(0) =~= Seq::<Article>::empty());
    while i < articles.len()
        invariant
            i <= articles@.len(),
            csv@ == csv_inventaire(articles@.take(i as int)),
        decreases articles@.len() - i,
    {
        let article = &articles[i];
        let ghost avant = csv@;
        ajouter(&mut csv, article.reference.as_str());
        pousser(&mut csv, ';');
        ajouter(&mut csv, article.designation.as_str());
        pousser(&mut csv, ';');
        ajouter(&mut csv, article.famille.as_str());
        pousser(&mut csv, ';');
        ajouter_entier(&mut csv, article.stock);
        pousser(&mut csv, ';');
        ajouter_entier(&mut csv, article.stock_mini);
        pousser(&mut csv, ';');
        ajouter_entier(&mut csv, article.prix_unitaire_ht);
        pousser(&mut csv, '\n');
        proof {
            assert(articles@.take(i + 1).drop_last() =~= articles@.take(i as int));
            assert(articles@.take(i + 1).last() == articles@[i as int]);
            assert(csv@ =~= avant + ligne_csv(articles@[i as int]));
        }
        i = i + 1;
    }
    assert(articles@.take(articles@.len() as int) =~= articles@);
    csv
}

} // verus!
