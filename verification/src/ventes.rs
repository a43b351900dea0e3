//! Le flux commercial : devis -> bon de commande -> facture.
//!
//! Chaque piece est un document, et chaque transition ecrit une arete. Le
//! document reste la source de verite (lignes, totaux, statut) ; ce module
//! tient les regles de chaque transition : quelle piece nait de quelle
//! autre, a quel statut, et quand la transition est refusee.

use vstd::prelude::*;
use crate::erreur::{ErreurApp, Resultat};
use crate::horloge::{date_calendaire, date_iso};
use crate::modele::{
    dupliquer_lignes, totaliser, totalisable, totaux_de, BonCommande, Devis, Facture, Ligne,
    StatutCommande, StatutDevis, StatutFacture,
};
use crate::contexte::Contexte;
use crate::schema::{arete, arete_spec, noeud, noeud_spec, A_DEMANDE, DEVIS, LABEL_CLIENT, LABEL_DEVIS, PORTE_SUR};
use crate::texte::{ajouter, depuis, reunir, vide};

verus! {

/// Duree de validite d'un devis, en jours.
pub const VALIDITE_DEVIS_JOURS: i32 = 30;

/// Delai de paiement d'une facture, en jours.
pub const DELAI_PAIEMENT_JOURS: i32 = 30;

/// La date d'un jour et celle de l'echeance, `delai` jours plus tard, au
/// format ISO. `None` quand l'une d'elles sort du calendrier represente.
pub fn date_et_echeance(jour: i32, delai: i32) -> (r: Option<(String, String)>)
    requires
        0 <= delai,
        jour <= i32::MAX - delai,
    ensures
        match r {
            Some((date, echeance)) => date_calendaire(jour as int) == Some(date@)
                && date_calendaire(jour + delai) == Some(echeance@),
            None => date_calendaire(jour as int) is None || date_calendaire(jour + delai) is None,
        },
{
    match (date_iso(jour), date_iso(jour + delai)) {
        (Some(date), Some(echeance)) => Some((date, echeance)),
        _ => None,
    }
}

/// Le message d'un devis sans ligne.
pub open spec fn message_devis_vide(devis_id: Seq<char>) -> Seq<char> {
    "le devis "@ + devis_id + " n'a aucune ligne"@
}

/// Etablit un devis : envoye au client, date du jour, valable jusqu'a la
/// date de validite, totalise ligne par ligne. Un devis sans ligne est
/// refuse.
pub fn preparer_devis(devis_id: &str, client_id: &str, lignes: Vec<Ligne>, date: String, validite: String) -> (r: Resultat<Devis>)
    requires
        totalisable(lignes@),
    ensures
        lignes@.len() == 0 ==> (r matches Err(ErreurApp::Metier(m)) && m@ == message_devis_vide(devis_id@)),
        lignes@.len() > 0 ==> (r matches Ok(d) && {
            &&& d.id@ == devis_id@
            &&& d.client_id@ == client_id@
            &&& d.statut == StatutDevis::Envoye
            &&& d.date == date
            &&& d.validite == validite
            &&& d.lignes@ == lignes@
            &&& d.totaux == totaux_de(lignes@)
        }),
{
    if lignes.len() == 0 {
        let mut m = depuis("le devis ");
        ajouter(&mut m, devis_id);
        ajouter(&mut m, " n'a aucune ligne");
        return Err(ErreurApp::Metier(m));
    }
    let totaux = totaliser(lignes.as_slice());
    Ok(Devis {
        id: depuis(devis_id),
        client_id: depuis(client_id),
        statut: StatutDevis::Envoye,
        date,
        validite,
        lignes,
        totaux,
    })
}

/// Le message d'un devis deja accepte.
pub open spec fn message_deja_accepte(devis_id: Seq<char>) -> Seq<char> {
    "le devis "@ + devis_id + " est deja accepte"@
}

/// Accepte un devis et le convertit en bon de commande.
///
/// Le devis passe a « accepte » ; la commande reprend son client, ses lignes
/// et ses totaux, pointe vers lui, et nait « en preparation ». Un devis deja
/// accepte est refuse : il a deja sa commande.
pub fn accepter(devis: Devis, commande_id: &str, date: String) -> (r: Resultat<(Devis, BonCommande)>)
    ensures
        devis.statut == StatutDevis::Accepte ==> (r matches Err(ErreurApp::Metier(m)) && m@ == message_deja_accepte(devis.id@)),
        devis.statut != StatutDevis::Accepte ==> (r matches Ok((accepte, commande)) && {
            &&& accepte == (Devis { statut: StatutDevis::Accepte, ..devis })
            &&& commande.id@ == commande_id@
            &&& commande.client_id == devis.client_id
            &&& commande.devis_id == Some(devis.id)
            &&& commande.statut == StatutCommande::EnPreparation
            &&& commande.date == date
            &&& commande.lignes@ == devis.lignes@
            &&& commande.totaux == devis.totaux
        }),
{
    if devis.statut == StatutDevis::Accepte {
        let mut m = depuis("le devis ");
        ajouter(&mut m, devis.id.as_str());
        ajouter(&mut m, " est deja accepte");
        return Err(ErreurApp::Metier(m));
    }
    let commande = BonCommande {
        id: depuis(commande_id),
        client_id: devis.client_id.clone(),
        devis_id: Some(devis.id.clone()),
        statut: StatutCommande::EnPreparation,
        date,
        lignes: dupliquer_lignes(&devis.lignes),
        totaux: devis.totaux,
    };
    let mut accepte = devis;
    accepte.statut = StatutDevis::Accepte;
    Ok((accepte, commande))
}

/// Le message d'une commande qui n'est pas en preparation.
pub open spec fn message_pas_en_preparation(commande_id: Seq<char>, statut: StatutCommande) -> Seq<char> {
    "la commande "@ + commande_id + " n'est pas en preparation (statut : "@ + code_commande(statut) + ")"@
}

/// Le code d'un statut de commande.
pub open spec fn code_commande(statut: StatutCommande) -> Seq<char> {
    match statut {
        StatutCommande::EnPreparation => "en_preparation"@,
        StatutCommande::Expediee => "expediee"@,
        StatutCommande::Livree => "livree"@,
        StatutCommande::Annulee => "annulee"@,
    }
}

/// Seule une commande en preparation peut partir.
pub fn controler_expedition(commande: &BonCommande) -> (r: Resultat<()>)
    ensures
        commande.statut == StatutCommande::EnPreparation <==> r is Ok,
        r matches Err(e) ==> e matches ErreurApp::Metier(m)
            && m@ == message_pas_en_preparation(commande.id@, commande.statut),
{
    if commande.statut != StatutCommande::EnPreparation {
        let mut m = depuis("la commande ");
        ajouter(&mut m, commande.id.as_str());
        ajouter(&mut m, " n'est pas en preparation (statut : ");
        ajouter(&mut m, commande.statut.code());
        ajouter(&mut m, ")");
        return Err(ErreurApp::Metier(m));
    }
    Ok(())
}

/// La commande, une fois toutes ses lignes sorties du stock.
pub fn marquer_expediee(commande: BonCommande) -> (r: BonCommande)
    ensures
        r == (BonCommande { statut: StatutCommande::Expediee, ..commande }),
{
    let mut commande = commande;
    commande.statut = StatutCommande::Expediee;
    commande
}

/// Le message d'une commande annulee qu'on voudrait facturer.
pub open spec fn message_commande_annulee(commande_id: Seq<char>) -> Seq<char> {
    "la commande "@ + commande_id + " est annulee, elle ne peut pas etre facturee"@
}

/// Facture une commande : la facture reprend le client, les lignes et les
/// totaux de la commande, et nait « emise ». Une commande annulee ne se
/// facture pas.
pub fn preparer_facture(commande: &BonCommande, facture_id: &str, date: String, echeance: String) -> (r: Resultat<Facture>)
    ensures
        commande.statut == StatutCommande::Annulee ==> (r matches Err(ErreurApp::Metier(m))
            && m@ == message_commande_annulee(commande.id@)),
        commande.statut != StatutCommande::Annulee ==> (r matches Ok(f) && {
            &&& f.id@ == facture_id@
            &&& f.client_id == commande.client_id
            &&& f.bon_commande_id == commande.id
            &&& f.statut == StatutFacture::Emise
            &&& f.date == date
            &&& f.date_echeance == echeance
            &&& f.lignes@ == commande.lignes@
            &&& f.totaux == commande.totaux
        }),
{
    if commande.statut == StatutCommande::Annulee {
        let mut m = depuis("la commande ");
        ajouter(&mut m, commande.id.as_str());
        ajouter(&mut m, " est annulee, elle ne peut pas etre facturee");
        return Err(ErreurApp::Metier(m));
    }
    Ok(Facture {
        id: depuis(facture_id),
        client_id: commande.client_id.clone(),
        bon_commande_id: commande.id.clone(),
        statut: StatutFacture::Emise,
        date,
        date_echeance: echeance,
        lignes: dupliquer_lignes(&commande.lignes),
        totaux: commande.totaux,
    })
}

/// Solde une facture.
pub fn encaissee(facture: Facture) -> (r: Facture)
    ensures
        r == (Facture { statut: StatutFacture::Payee, ..facture }),
{
    let mut facture = facture;
    facture.statut = StatutFacture::Payee;
    facture
}

// --- Les pieces du jour ----------------------------------------------------
//
// Les dates d'une piece se deduisent du numero du jour : la date du jour,
// et l'echeance ou la validite trente jours plus tard. `None` quand l'une
// d'elles sort du calendrier que `chrono` represente, apres les refus
// propres a la piece, qui ne dependent pas de la date.

/// Etablit le devis du jour `jour` : date du jour, valable
/// [`VALIDITE_DEVIS_JOURS`] jours.
pub fn devis_au_jour(devis_id: &str, client_id: &str, lignes: Vec<Ligne>, jour: i32) -> (r: Option<Resultat<Devis>>)
    requires
        totalisable(lignes@),
        jour <= i32::MAX - VALIDITE_DEVIS_JOURS,
    ensures
        lignes@.len() == 0 ==> (r matches Some(Err(ErreurApp::Metier(m))) && m@ == message_devis_vide(devis_id@)),
        lignes@.len() > 0 ==> match (date_calendaire(jour as int), date_calendaire(jour + VALIDITE_DEVIS_JOURS)) {
            (Some(date), Some(validite)) => r matches Some(Ok(d)) && {
                &&& d.id@ == devis_id@
                &&& d.client_id@ == client_id@
                &&& d.statut == StatutDevis::Envoye
                &&& d.date@ == date
                &&& d.validite@ == validite
                &&& d.lignes@ == lignes@
                &&& d.totaux == totaux_de(lignes@)
            },
            _ => r is None,
        },
{
    if lignes.len() == 0 {
        return Some(preparer_devis(devis_id, client_id, lignes, vide(), vide()));
    }
    match date_et_echeance(jour, VALIDITE_DEVIS_JOURS) {
        Some((date, validite)) => Some(preparer_devis(devis_id, client_id, lignes, date, validite)),
        None => None,
    }
}

/// Accepte un devis le jour `jour` : la commande est datee de ce jour.
pub fn acceptation_au_jour(devis: Devis, commande_id: &str, jour: i32) -> (r: Option<Resultat<(Devis, BonCommande)>>)
    ensures
        devis.statut == StatutDevis::Accepte ==> (r matches Some(Err(ErreurApp::Metier(m))) && m@ == message_deja_accepte(devis.id@)),
        devis.statut != StatutDevis::Accepte ==> match date_calendaire(jour as int) {
            Some(date) => r matches Some(Ok((accepte, commande))) && {
                &&& accepte == (Devis { statut: StatutDevis::Accepte, ..devis })
                &&& commande.id@ == commande_id@
                &&& commande.client_id == devis.client_id
                &&& commande.devis_id == Some(devis.id)
                &&& commande.statut == StatutCommande::EnPreparation
                &&& commande.date@ == date
                &&& commande.lignes@ == devis.lignes@
                &&& commande.totaux == devis.totaux
            },
            None => r is None,
        },
{
    if devis.statut == StatutDevis::Accepte {
        return Some(accepter(devis, commande_id, vide()));
    }
    match date_et_echeance(jour, 0) {
        Some((date, _)) => Some(accepter(devis, commande_id, date)),
        None => None,
    }
}

/// Facture une commande le jour `jour` : la facture est datee de ce jour et
/// tombe a echeance [`DELAI_PAIEMENT_JOURS`] jours plus tard.
pub fn facture_au_jour(commande: &BonCommande, facture_id: &str, jour: i32) -> (r: Option<Resultat<Facture>>)
    requires
        jour <= i32::MAX - DELAI_PAIEMENT_JOURS,
    ensures
        commande.statut == StatutCommande::Annulee ==> (r matches Some(Err(ErreurApp::Metier(m)))
            && m@ == message_commande_annulee(commande.id@)),
        commande.statut != StatutCommande::Annulee ==> match (date_calendaire(jour as int), date_calendaire(jour + DELAI_PAIEMENT_JOURS)) {
            (Some(date), Some(echeance)) => r matches Some(Ok(f)) && {
                &&& f.id@ == facture_id@
                &&& f.client_id == commande.client_id
                &&& f.bon_commande_id == commande.id
                &&& f.statut == StatutFacture::Emise
                &&& f.date@ == date
                &&& f.date_echeance@ == echeance
                &&& f.lignes@ == commande.lignes@
                &&& f.totaux == commande.totaux
            },
            _ => r is None,
        },
{
    if commande.statut == StatutCommande::Annulee {
        return Some(preparer_facture(commande, facture_id, vide(), vide()));
    }
    match date_et_echeance(jour, DELAI_PAIEMENT_JOURS) {
        Some((date, echeance)) => Some(preparer_facture(commande, facture_id, date, echeance)),
        None => None,
    }
}

/// L'une des suppressions qui annulent un devis, dans l'ordre ou elles
/// sont faites.
#[derive(Debug, Clone, PartialEq, Eq)]
pub enum Suppression {
    /// Supprimer un document, avec cette cle d'idempotence.
    Document { collection: String, id: String, cle: String },
    /// Supprimer les aretes `label` qui partent de ce noeud, telles qu'une
    /// traversee les trouve.
    AretesSortantes { noeud: String, label: String },
    /// Supprimer l'arete de cet identifiant.
    Arete { edge_id: String },
}

/// Ce qui annule un devis : son document, puis les aretes vers les articles
/// qu'il chiffre, puis l'arete depuis le client.
///
/// L'ordre est choisi : supprimer un document est idempotent, supprimer une
/// arete ne l'est pas. En commencant par le document, une reprise apres
/// coupure repasse sans bruit sur la suppression deja faite puis termine les
/// aretes. Le noeud du devis subsiste : rien ne supprime un noeud.
pub fn annulation_devis(ctx: &Contexte, devis_id: &str, client_id: &str) -> (r: Vec<Suppression>)
    ensures
        r@.len() == 3,
        r@[0] matches Suppression::Document { collection, id, cle }
            && collection@ == DEVIS@
            && id@ == devis_id@
            && cle@ == reunir(ctx.job@, ':', "annulation-devis:"@ + devis_id@),
        r@[1] matches Suppression::AretesSortantes { noeud, label }
            && noeud@ == noeud_spec(LABEL_DEVIS@, devis_id@)
            && label@ == PORTE_SUR@,
        r@[2] matches Suppression::Arete { edge_id }
            && edge_id@ == arete_spec(A_DEMANDE@, noeud_spec(LABEL_CLIENT@, client_id@), noeud_spec(LABEL_DEVIS@, devis_id@)),
{
    let mut nom = depuis("annulation-devis:");
    ajouter(&mut nom, devis_id);
    let document = Suppression::Document { collection: depuis(DEVIS), id: depuis(devis_id), cle: ctx.cle(nom.as_str()) };
    let noeud_devis = noeud(LABEL_DEVIS, devis_id);
    let noeud_client = noeud(LABEL_CLIENT, client_id);
    let edge_id = arete(A_DEMANDE, noeud_client.as_str(), noeud_devis.as_str());
    let lignes = Suppression::AretesSortantes { noeud: noeud_devis, label: depuis(PORTE_SUR) };
    let mut r: Vec<Suppression> = Vec::new();
    r.push(document);
    r.push(lignes);
    r.push(Suppression::Arete { edge_id });
    r
}

/// Une piece convertie garde les montants de sa source : de devis en
/// commande et de commande en facture, les lignes et les totaux passent tels
/// quels, et les totaux restent ceux des lignes.
pub proof fn les_montants_suivent_la_piece(devis: Devis, commande: BonCommande, facture: Facture)
    requires
        devis.totaux == totaux_de(devis.lignes@),
        commande.lignes@ == devis.lignes@,
        commande.totaux == devis.totaux,
        facture.lignes@ == commande.lignes@,
        facture.totaux == commande.totaux,
    ensures
        facture.totaux == totaux_de(facture.lignes@),
        facture.totaux.total_ttc == devis.totaux.total_ttc,
{
}

} // verus!
