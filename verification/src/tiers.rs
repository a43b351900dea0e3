//! Clients et fournisseurs : les decisions prises sur la reponse du
//! serveur.
//!
//! Un tiers est ecrit avec son noeud de graphe, en deux ecritures qui ne
//! sont pas atomiques : si la seconde echoue, le document existe sans son
//! noeud. La reparation relit le noeud de chaque client, et ne recree que
//! ceux qui manquent.

use vstd::prelude::*;
use crate::erreur::{est_introuvable, introuvable, ErreurApp, ErreurRocia, Resultat};

verus! {

/// Une lecture dont l'absence n'est pas une erreur : un `NOT_FOUND` donne
/// `None`, toute autre erreur remonte telle quelle.
pub fn absence_toleree<T>(lecture: Resultat<T>) -> (r: Resultat<Option<T>>)
    ensures
        match lecture {
            Ok(v) => r == Ok::<Option<T>, ErreurApp>(Some(v)),
            Err(e) => if introuvable(e) {
                r == Ok::<Option<T>, ErreurApp>(None)
            } else {
                r == Err::<Option<T>, ErreurApp>(e)
            },
        },
{
    match lecture {
        Ok(v) => Ok(Some(v)),
        Err(e) => {
            if est_introuvable(&e) {
                Ok(None)
            } else {
                Err(e)
            }
        },
    }
}

/// Le noeud d'un client existe-t-il, d'apres la reponse a sa lecture ?
/// Un `NOT_FOUND` dit qu'il manque ; toute autre erreur remonte.
pub fn noeud_present(lecture: Result<(), ErreurRocia>) -> (r: Resultat<bool>)
    ensures
        match lecture {
            Ok(()) => r == Ok::<bool, ErreurApp>(true),
            Err(e) => if e.raison_spec() == Some("not_found"@) {
                r == Ok::<bool, ErreurApp>(false)
            } else {
                r == Err::<bool, ErreurApp>(ErreurApp::Rocia(e))
            },
        },
{
    match lecture {
        Ok(()) => Ok(true),
        Err(e) => {
            let erreur = ErreurApp::Rocia(e);
            if est_introuvable(&erreur) {
                Ok(false)
            } else {
                Err(erreur)
            }
        },
    }
}

} // verus!
