//! Le modele metier de l'ERP, et les calculs qui n'ont pas besoin de
//! serveur : montants, TVA, valorisation du stock.
//!
//! Les montants sont des entiers de centimes (`Centimes`) et les taux de TVA
//! des points de base (`2000` = 20,00 %) : aucun flottant ne circule, donc
//! aucun arrondi ne depend de l'ordre des operations.

use vstd::prelude::*;
use crate::texte::{ajouter, ajouter_decimal, ajouter_deux_chiffres, decimal, deux_chiffres, pousser, vide};

verus! {

/// Un montant, en centimes d'euro.
pub type Centimes = i64;

/// Un taux, en points de base : `2000` vaut 20,00 %.
pub type PointsDeBase = u32;

pub const TVA_NORMALE: PointsDeBase = 2000;
pub const TVA_REDUITE: PointsDeBase = 1000;

/// Division entiere tronquee vers zero, celle de Rust.
pub open spec fn div_tronquee(a: int, b: int) -> int
    recommends
        b > 0,
{
    if a >= 0 { a / b } else { -((-a) / b) }
}

/// TVA sur un montant hors taxes : le produit `montant * taux` ramene en
/// centimes, arrondi au plus proche, la moitie s'eloignant de zero.
pub open spec fn tva_spec(montant_ht: int, taux: int) -> int {
    let produit = montant_ht * taux;
    if produit >= 0 {
        div_tronquee(produit + 5000, 10000)
    } else {
        div_tronquee(produit - 5000, 10000)
    }
}

/// Le produit `montant * taux` et son decalage d'arrondi tiennent sur 64 bits.
pub open spec fn tva_calculable(montant_ht: int, taux: int) -> bool {
    i64::MIN <= montant_ht * taux - 5000 && montant_ht * taux + 5000 <= i64::MAX
}

/// Formatte un montant a la francaise : `123456` -> `"1234,56 EUR"`.
pub open spec fn montant_lisible(montant: int, separateur: char) -> Seq<char> {
    let absolu = if montant < 0 { -montant } else { montant };
    (if montant < 0 { seq!['-'] } else { Seq::<char>::empty() })
        + decimal((absolu / 100) as nat)
        + seq![separateur]
        + deux_chiffres((absolu % 100) as nat)
        + " EUR"@
}

/// Ecrit un montant, son signe, ses unites, le separateur, ses centimes et
/// la devise.
pub fn ecrire_montant(montant: Centimes, separateur: char) -> (s: String)
    requires
        montant > i64::MIN,
    ensures
        s@ == montant_lisible(montant as int, separateur),
{
    let mut s = vide();
    if montant < 0 {
        pousser(&mut s, '-');
    }
    let absolu: u64 = if montant < 0 { (-montant) as u64 } else { montant as u64 };
    ajouter_decimal(&mut s, absolu / 100);
    pousser(&mut s, separateur);
    ajouter_deux_chiffres(&mut s, absolu % 100);
    ajouter(&mut s, " EUR");
    s
}

/// Formatte un montant a la francaise : `123456` -> `"1234,56 EUR"`.
pub fn formater(montant: Centimes) -> (s: String)
    requires
        montant > i64::MIN,
    ensures
        s@ == montant_lisible(montant as int, ','),
{
    ecrire_montant(montant, ',')
}

/// TVA sur un montant hors taxes, arrondie au centime le plus proche.
pub fn tva(montant_ht: Centimes, taux: PointsDeBase) -> (t: Centimes)
    requires
        tva_calculable(montant_ht as int, taux as int),
    ensures
        t == tva_spec(montant_ht as int, taux as int),
{
    let produit = montant_ht * (taux as i64);
    if produit >= 0 {
        (produit + 5_000) / 10_000
    } else {
        (produit - 5_000) / 10_000
    }
}

// --- Tiers ---------------------------------------------------------------

#[derive(Debug, Clone, PartialEq, Eq)]
pub struct Client {
    pub id: String,
    pub raison_sociale: String,
    pub email: String,
    pub siret: String,
    pub ville: String,
    pub actif: bool,
}

#[derive(Debug, Clone, PartialEq, Eq)]
pub struct Fournisseur {
    pub id: String,
    pub raison_sociale: String,
    pub email: String,
    pub siret: String,
    /// Delai d'approvisionnement annonce, en jours.
    pub delai_jours: u32,
    pub actif: bool,
}

// --- Catalogue et stock --------------------------------------------------

#[derive(Debug, Clone, PartialEq, Eq)]
pub struct Article {
    pub id: String,
    pub reference: String,
    pub designation: String,
    pub famille: String,
    pub prix_unitaire_ht: Centimes,
    pub taux_tva: PointsDeBase,
    pub stock: i64,
    /// Seuil de reapprovisionnement.
    pub stock_mini: i64,
    pub actif: bool,
}

impl Article {
    /// Vrai quand le stock est passe sous le seuil de reapprovisionnement.
    pub fn sous_le_seuil(&self) -> (b: bool)
        ensures
            b == (self.stock < self.stock_mini),
    {
        self.stock < self.stock_mini
    }

    /// Valeur du stock au prix d'achat theorique (ici, le prix de vente HT).
    pub fn valeur_stock(&self) -> (v: Centimes)
        requires
            i64::MIN <= self.prix_unitaire_ht * self.stock <= i64::MAX,
        ensures
            v == self.prix_unitaire_ht * self.stock,
    {
        self.prix_unitaire_ht * self.stock
    }
}

#[derive(Debug, Clone, Copy, PartialEq, Eq, Structural)]
pub enum SensMouvement {
    Entree,
    Sortie,
}

impl SensMouvement {
    /// La chaine sous laquelle le sens est serialise.
    pub fn code(self) -> (c: &'static str)
        ensures
            c@ == (match self {
                SensMouvement::Entree => "entree"@,
                SensMouvement::Sortie => "sortie"@,
            }),
    {
        match self {
            SensMouvement::Entree => "entree",
            SensMouvement::Sortie => "sortie",
        }
    }

    /// Signe applique au stock : `+1` a la reception, `-1` a l'expedition.
    pub open spec fn signe_spec(self) -> int {
        match self {
            SensMouvement::Entree => 1,
            SensMouvement::Sortie => -1,
        }
    }

    /// Signe applique au stock : `+1` a la reception, `-1` a l'expedition.
    pub fn signe(self) -> (s: i64)
        ensures
            s == self.signe_spec(),
    {
        match self {
            SensMouvement::Entree => 1,
            SensMouvement::Sortie => -1,
        }
    }
}

#[derive(Debug, Clone, PartialEq, Eq)]
pub struct MouvementStock {
    pub id: String,
    pub article_id: String,
    pub sens: SensMouvement,
    pub quantite: i64,
    /// Piece a l'origine du mouvement : `"BC-2026-0001"`, `"reception F-001"`.
    pub origine: String,
    pub horodatage: String,
}

// --- Pieces commerciales -------------------------------------------------

#[derive(Debug, Clone, PartialEq, Eq)]
pub struct Ligne {
    pub article_id: String,
    pub designation: String,
    pub quantite: i64,
    pub prix_unitaire_ht: Centimes,
    pub taux_tva: PointsDeBase,
}

/// Montant hors taxes d'une ligne.
pub open spec fn ht_ligne(ligne: Ligne) -> int {
    ligne.prix_unitaire_ht * ligne.quantite
}

/// TVA d'une ligne, arrondie ligne par ligne.
pub open spec fn tva_ligne(ligne: Ligne) -> int {
    tva_spec(ht_ligne(ligne), ligne.taux_tva as int)
}

/// Les montants d'une ligne tiennent sur 64 bits.
pub open spec fn ligne_calculable(ligne: Ligne) -> bool {
    &&& i64::MIN <= ht_ligne(ligne) <= i64::MAX
    &&& tva_calculable(ht_ligne(ligne), ligne.taux_tva as int)
}

impl Ligne {
    pub fn total_ht(&self) -> (t: Centimes)
        requires
            i64::MIN <= ht_ligne(*self) <= i64::MAX,
        ensures
            t == ht_ligne(*self),
    {
        self.prix_unitaire_ht * self.quantite
    }

    pub fn total_tva(&self) -> (t: Centimes)
        requires
            ligne_calculable(*self),
        ensures
            t == tva_ligne(*self),
    {
        tva(self.total_ht(), self.taux_tva)
    }

    /// Une copie de la ligne, champ pour champ.
    pub fn dupliquer(&self) -> (r: Ligne)
        ensures
            r == *self,
    {
        Ligne {
            article_id: self.article_id.clone(),
            designation: self.designation.clone(),
            quantite: self.quantite,
            prix_unitaire_ht: self.prix_unitaire_ht,
            taux_tva: self.taux_tva,
        }
    }
}

/// Une copie de chaque ligne, dans le meme ordre.
pub fn dupliquer_lignes(lignes: &Vec<Ligne>) -> (r: Vec<Ligne>)
    ensures
        r@ == lignes@,
{
    let mut r: Vec<Ligne> = Vec::new();
    let mut i: usize = 0;
    while i < lignes.len()
        invariant
            i <= lignes.len(),
            r@ == lignes@.take(i as int),
        decreases lignes.len() - i,
    {
        r.push(lignes[i].dupliquer());
        assert(lignes@.take(i + 1) =~= lignes@.take(i as int).push(lignes@[i as int]));
        i = i + 1;
    }
    assert(lignes@.take(lignes.len() as int) =~= lignes@);
    r
}

#[derive(Debug, Clone, Copy, Default, PartialEq, Eq, Structural)]
pub struct Totaux {
    pub total_ht: Centimes,
    pub total_tva: Centimes,
    pub total_ttc: Centimes,
}

/// Somme des montants hors taxes.
pub open spec fn somme_ht(lignes: Seq<Ligne>) -> int
    decreases lignes.len(),
{
    if lignes.len() == 0 {
        0
    } else {
        somme_ht(lignes.drop_last()) + ht_ligne(lignes.last())
    }
}

/// Somme des TVA arrondies ligne par ligne.
pub open spec fn somme_tva(lignes: Seq<Ligne>) -> int
    decreases lignes.len(),
{
    if lignes.len() == 0 {
        0
    } else {
        somme_tva(lignes.drop_last()) + tva_ligne(lignes.last())
    }
}

/// Toutes les sommes partielles, et le total TTC, tiennent sur 64 bits.
pub open spec fn totalisable(lignes: Seq<Ligne>) -> bool {
    &&& forall|i: int| 0 <= i < lignes.len() ==> ligne_calculable(#[trigger] lignes[i])
    &&& forall|k: int|
        0 <= k <= lignes.len() ==> i64::MIN <= #[trigger] somme_ht(lignes.take(k)) <= i64::MAX
    &&& forall|k: int|
        0 <= k <= lignes.len() ==> i64::MIN <= #[trigger] somme_tva(lignes.take(k)) <= i64::MAX
    &&& i64::MIN <= somme_ht(lignes) + somme_tva(lignes) <= i64::MAX
}

/// Les totaux d'une suite de lignes.
pub open spec fn totaux_de(lignes: Seq<Ligne>) -> Totaux {
    Totaux {
        total_ht: somme_ht(lignes) as i64,
        total_tva: somme_tva(lignes) as i64,
        total_ttc: (somme_ht(lignes) + somme_tva(lignes)) as i64,
    }
}

/// Totalise des lignes. La TVA est calculee ligne a ligne puis sommee, comme
/// sur une facture papier : arrondir une seule fois a la fin donnerait un
/// centime d'ecart avec le detail imprime.
pub fn totaliser(lignes: &[Ligne]) -> (t: Totaux)
    requires
        totalisable(lignes@),
    ensures
        t.total_ht == somme_ht(lignes@),
        t.total_tva == somme_tva(lignes@),
        t.total_ttc == t.total_ht + t.total_tva,
        t == totaux_de(lignes@),
{
    let mut total_ht: i64 = 0;
    let mut total_tva: i64 = 0;
    let mut i: usize = 0;
    assert(lignes@.take(0) =~= Seq::<Ligne>::empty());
    while i < lignes.len()
        invariant
            i <= lignes.len(),
            totalisable(lignes@),
            total_ht == somme_ht(lignes@.take(i as int)),
            total_tva == somme_tva(lignes@.take(i as int)),
        decreases lignes.len() - i,
    {
        let ligne = &lignes[i];
        assert(ligne_calculable(lignes@[i as int]));
        assert(lignes@.take(i + 1).drop_last() =~= lignes@.take(i as int));
        assert(lignes@.take(i + 1).last() == lignes@[i as int]);
        assert(i64::MIN <= somme_ht(lignes@.take(i + 1)) <= i64::MAX);
        assert(i64::MIN <= somme_tva(lignes@.take(i + 1)) <= i64::MAX);
        total_ht = total_ht + ligne.total_ht();
        total_tva = total_tva + ligne.total_tva();
        i = i + 1;
    }
    assert(lignes@.take(lignes.len() as int) =~= lignes@);
    Totaux { total_ht, total_tva, total_ttc: total_ht + total_tva }
}

/// Dit si des lignes se totalisent sur 64 bits : chaque montant de ligne,
/// chaque somme partielle et le total toutes taxes comprises. C'est le test
/// a faire avant [`totaliser`] quand les lignes viennent de l'exterieur.
pub fn peut_totaliser(lignes: &[Ligne]) -> (b: bool)
    ensures
        b == totalisable(lignes@),
{
    let mut total_ht: i128 = 0;
    let mut total_tva: i128 = 0;
    let mut i: usize = 0;
    assert(lignes@.take(0) =~= Seq::<Ligne>::empty());
    while i < lignes.len()
        invariant
            i <= lignes.len(),
            total_ht == somme_ht(lignes@.take(i as int)),
            total_tva == somme_tva(lignes@.take(i as int)),
            forall|j: int| 0 <= j < i ==> ligne_calculable(#[trigger] lignes@[j]),
            forall|k: int| 0 <= k <= i ==> i64::MIN <= #[trigger] somme_ht(lignes@.take(k)) <= i64::MAX,
            forall|k: int| 0 <= k <= i ==> i64::MIN <= #[trigger] somme_tva(lignes@.take(k)) <= i64::MAX,
        decreases lignes.len() - i,
    {
        let ligne = &lignes[i];
        assert(lignes@.take(i + 1).drop_last() =~= lignes@.take(i as int));
        assert(lignes@.take(i + 1).last() == lignes@[i as int]);
        let prix = ligne.prix_unitaire_ht;
        let quantite = ligne.quantite;
        assert(-0x4000_0000_0000_0000_0000_0000_0000_0000 <= (prix as int) * (quantite as int)
            <= 0x4000_0000_0000_0000_0000_0000_0000_0000) by (nonlinear_arith)
            requires
                i64::MIN <= prix <= i64::MAX,
                i64::MIN <= quantite <= i64::MAX,
        ;
        let ht: i128 = (prix as i128) * (quantite as i128);
        if ht < i64::MIN as i128 || ht > i64::MAX as i128 {
            return false;
        }
        let taux = ligne.taux_tva;
        assert(-0x0800_0000_0000_0000_0000_0000_0000 <= (ht as int) * (taux as int)
            <= 0x0800_0000_0000_0000_0000_0000_0000) by (nonlinear_arith)
            requires
                i64::MIN <= ht <= i64::MAX,
                0 <= taux <= u32::MAX,
        ;
        let produit: i128 = ht * (taux as i128);
        if produit - 5000 < i64::MIN as i128 || produit + 5000 > i64::MAX as i128 {
            return false;
        }
        let tva_ligne_exec = tva(ht as i64, ligne.taux_tva);
        total_ht = total_ht + ht;
        total_tva = total_tva + tva_ligne_exec as i128;
        if total_ht < i64::MIN as i128 || total_ht > i64::MAX as i128 {
            assert(!(i64::MIN <= somme_ht(lignes@.take(i + 1)) <= i64::MAX));
            return false;
        }
        if total_tva < i64::MIN as i128 || total_tva > i64::MAX as i128 {
            assert(!(i64::MIN <= somme_tva(lignes@.take(i + 1)) <= i64::MAX));
            return false;
        }
        i = i + 1;
    }
    assert(lignes@.take(lignes.len() as int) =~= lignes@);
    let ttc = total_ht + total_tva;
    ttc >= i64::MIN as i128 && ttc <= i64::MAX as i128
}

#[derive(Debug, Clone, Copy, PartialEq, Eq, Structural)]
pub enum StatutDevis {
    Brouillon,
    Envoye,
    Accepte,
    Refuse,
}

impl StatutDevis {
    /// La chaine sous laquelle le statut est serialise : c'est elle qui part
    /// dans un filtre de requete, ou une faute de frappe ne renverrait aucun
    /// resultat sans jamais lever d'erreur.
    pub fn code(self) -> (c: &'static str)
        ensures
            c@ == (match self {
                StatutDevis::Brouillon => "brouillon"@,
                StatutDevis::Envoye => "envoye"@,
                StatutDevis::Accepte => "accepte"@,
                StatutDevis::Refuse => "refuse"@,
            }),
    {
        match self {
            StatutDevis::Brouillon => "brouillon",
            StatutDevis::Envoye => "envoye",
            StatutDevis::Accepte => "accepte",
            StatutDevis::Refuse => "refuse",
        }
    }
}

#[derive(Debug, Clone, Copy, PartialEq, Eq, Structural)]
pub enum StatutCommande {
    EnPreparation,
    Expediee,
    Livree,
    Annulee,
}

impl StatutCommande {
    pub fn code(self) -> (c: &'static str)
        ensures
            c@ == (match self {
                StatutCommande::EnPreparation => "en_preparation"@,
                StatutCommande::Expediee => "expediee"@,
                StatutCommande::Livree => "livree"@,
                StatutCommande::Annulee => "annulee"@,
            }),
    {
        match self {
            StatutCommande::EnPreparation => "en_preparation",
            StatutCommande::Expediee => "expediee",
            StatutCommande::Livree => "livree",
            StatutCommande::Annulee => "annulee",
        }
    }
}

#[derive(Debug, Clone, Copy, PartialEq, Eq, Structural)]
pub enum StatutFacture {
    Emise,
    Payee,
    EnRetard,
    Annulee,
}

impl StatutFacture {
    pub fn code(self) -> (c: &'static str)
        ensures
            c@ == (match self {
                StatutFacture::Emise => "emise"@,
                StatutFacture::Payee => "payee"@,
                StatutFacture::EnRetard => "en_retard"@,
                StatutFacture::Annulee => "annulee"@,
            }),
    {
        match self {
            StatutFacture::Emise => "emise",
            StatutFacture::Payee => "payee",
            StatutFacture::EnRetard => "en_retard",
            StatutFacture::Annulee => "annulee",
        }
    }
}

#[derive(Debug, Clone, PartialEq, Eq)]
pub struct Devis {
    pub id: String,
    pub client_id: String,
    pub statut: StatutDevis,
    pub date: String,
    pub validite: String,
    pub lignes: Vec<Ligne>,
    pub totaux: Totaux,
}

#[derive(Debug, Clone, PartialEq, Eq)]
pub struct BonCommande {
    pub id: String,
    pub client_id: String,
    /// Le devis a l'origine de la commande, quand il y en a un.
    pub devis_id: Option<String>,
    pub statut: StatutCommande,
    pub date: String,
    pub lignes: Vec<Ligne>,
    pub totaux: Totaux,
}

#[derive(Debug, Clone, PartialEq, Eq)]
pub struct Facture {
    pub id: String,
    pub client_id: String,
    pub bon_commande_id: String,
    pub statut: StatutFacture,
    pub date: String,
    pub date_echeance: String,
    pub lignes: Vec<Ligne>,
    pub totaux: Totaux,
}

// --- Lois du calcul -------------------------------------------------------

/// La TVA d'un avoir est l'opposee de celle de la vente correspondante :
/// l'arrondi est symetrique par rapport a zero.
pub proof fn tva_symetrique(montant_ht: int, taux: int)
    ensures
        tva_spec(-montant_ht, taux) == -tva_spec(montant_ht, taux),
{
    assert((-montant_ht) * taux == -(montant_ht * taux)) by (nonlinear_arith);
}

/// La TVA est le produit `montant * taux / 10000` arrondi au centime le plus
/// proche : l'ecart est d'au plus un demi-centime, et une valeur pile a la
/// moitie s'arrondit en s'eloignant de zero.
pub proof fn tva_au_centime_le_plus_proche(montant_ht: int, taux: int)
    ensures
        montant_ht * taux >= 0 ==> -5000 <= montant_ht * taux - 10000 * tva_spec(montant_ht, taux) < 5000,
        montant_ht * taux < 0 ==> -5000 < montant_ht * taux - 10000 * tva_spec(montant_ht, taux) <= 5000,
{
}

/// Les sommes de lignes s'ajoutent : totaliser deux listes mises bout a bout
/// revient a additionner leurs totaux, puisque la TVA est arrondie ligne par
/// ligne et jamais sur le total.
pub proof fn sommes_additives(a: Seq<Ligne>, b: Seq<Ligne>)
    ensures
        somme_ht(a + b) == somme_ht(a) + somme_ht(b),
        somme_tva(a + b) == somme_tva(a) + somme_tva(b),
    decreases b.len(),
{
    if b.len() == 0 {
        assert(a + b =~= a);
    } else {
        sommes_additives(a, b.drop_last());
        assert((a + b).drop_last() =~= a + b.drop_last());
        assert((a + b).last() == b.last());
    }
}

} // verus!
