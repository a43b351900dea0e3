//! Purge des donnees de demonstration : ce qui se decide a chaque reponse.
//!
//! Trois semantiques de suppression cohabitent :
//!
//! - supprimer un document ou un fichier est **idempotent** : supprimer ce
//!   qui n'existe pas reussit ;
//! - supprimer une arete ne l'est pas : une arete absente rend `NOT_FOUND`,
//!   d'ou le filtrage explicite ici ;
//! - **rien ne supprime un noeud.** Un noeud sans arete ni document reste
//!   liste : c'est une limite du service, pas un oubli.

use vstd::prelude::*;
use crate::erreur::{est_introuvable, introuvable, ErreurApp, Resultat};
use crate::schema::{A_DEMANDE, CONVERTI_EN, FACTURE_PAR, FOURNIT, PORTE_SUR};

verus! {

/// Ce qui a ete supprime.
#[derive(Debug, Default, PartialEq, Eq)]
pub struct Bilan {
    pub documents: usize,
    pub aretes: usize,
    pub fichiers: usize,
    pub noeuds_orphelins: usize,
}

/// Les labels d'aretes que la purge parcourt depuis chaque noeud.
pub const LABELS_A_PURGER: [&'static str; 5] = [FOURNIT, A_DEMANDE, PORTE_SUR, CONVERTI_EN, FACTURE_PAR];

/// Compte une suppression d'arete d'apres la reponse du serveur.
///
/// Une arete supprimee compte ; une arete deja partie (purge relancee,
/// suppression concurrente) rend `NOT_FOUND`, ce qui n'est pas un echec ici
/// et ne compte pas ; toute autre erreur arrete la purge.
pub fn compter_suppression(supprimees: usize, suppression: Resultat<()>) -> (r: Resultat<usize>)
    requires
        supprimees < usize::MAX,
    ensures
        match suppression {
            Ok(()) => r == Ok::<usize, ErreurApp>((supprimees + 1) as usize),
            Err(e) => if introuvable(e) {
                r == Ok::<usize, ErreurApp>(supprimees)
            } else {
                r == Err::<usize, ErreurApp>(e)
            },
        },
{
    match suppression {
        Ok(()) => Ok(supprimees + 1),
        Err(e) => {
            if est_introuvable(&e) {
                Ok(supprimees)
            } else {
                Err(e)
            }
        },
    }
}

/// Les identifiants lus dans les documents, dans leur ordre, en passant ceux
/// qui n'en portent pas.
pub open spec fn presents(identifiants: Seq<Option<String>>) -> Seq<String>
    decreases identifiants.len(),
{
    if identifiants.len() == 0 {
        Seq::<String>::empty()
    } else {
        let debut = presents(identifiants.drop_last());
        match identifiants.last() {
            Some(id) => debut.push(id),
            None => debut,
        }
    }
}

/// Les documents a supprimer d'une collection.
///
/// Une liste de documents rend les documents, pas leurs identifiants :
/// celui-ci est un champ `id` du document, par convention de ce projet, et
/// un document qui n'en porte pas est laisse de cote.
pub fn identifiants_a_supprimer(identifiants: Vec<Option<String>>) -> (r: Vec<String>)
    ensures
        r@ == presents(identifiants@),
{
    let mut r: Vec<String> = Vec::new();
    let ghost tous = identifiants@;
    assert(tous.take(0) =~= Seq::<Option<String>>::empty());
    for id in it: identifiants.into_iter()
        invariant
            it.seq() == tous,
            r@ == presents(tous.take(it.index() as int)),
    {
        let ghost k = it.index();
        proof {
            assert(tous.take(k + 1).drop_last() =~= tous.take(k as int));
            assert(tous.take(k + 1).last() == id);
        }
        if let Some(id) = id {
            r.push(id);
        }
    }
    assert(tous.take(tous.len() as int) =~= tous);
    r
}

} // verus!
