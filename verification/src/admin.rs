//! Exploration du deploiement, et cycle de vie du jeton : les decisions
//! prises sur la reponse du serveur.

use vstd::prelude::*;
use crate::erreur::{ErreurApp, ErreurRocia, Resultat};
use crate::erreur::CodeGrpc;

verus! {

/// La liste des tenants, lue sur la reponse du serveur.
///
/// C'est la seule lecture non rattachee a un tenant : elle enumere tout le
/// deploiement, et une politique d'autorisation dediee peut la refuser. Un
/// refus de portee veut dire « pas votre role », pas « en panne » : il donne
/// `None`, et toute autre erreur remonte.
pub fn tenants_ou_refus(reponse: Result<Vec<String>, ErreurRocia>) -> (r: Resultat<Option<Vec<String>>>)
    ensures
        match reponse {
            Ok(tenants) => r == Ok::<Option<Vec<String>>, ErreurApp>(Some(tenants)),
            Err(e) => if e.code_spec() == Some(CodeGrpc::PermissionDenied) {
                r == Ok::<Option<Vec<String>>, ErreurApp>(None)
            } else {
                r == Err::<Option<Vec<String>>, ErreurApp>(ErreurApp::Rocia(e))
            },
        },
{
    match reponse {
        Ok(tenants) => Ok(Some(tenants)),
        Err(e) => {
            if e.est_permission_refusee() {
                Ok(None)
            } else {
                Err(ErreurApp::Rocia(e))
            }
        },
    }
}

/// Vrai quand un appel a echoue faute d'authentification.
pub open spec fn echec_d_authentification<T>(resultat: Resultat<T>) -> bool {
    resultat matches Err(ErreurApp::Rocia(e)) && e.code_spec() == Some(CodeGrpc::Unauthenticated)
}

/// Decide s'il faut renouveler le jeton et rejouer un appel, une seule fois.
///
/// C'est la seule reprise qui ait un sens sur une erreur d'authentification :
/// un jeton expire est temporaire, un defaut de portee est definitif —
/// rejouer ne changerait rien au second.
pub fn doit_reessayer<T>(resultat: &Resultat<T>) -> (b: bool)
    ensures
        b == echec_d_authentification(*resultat),
{
    match resultat {
        Err(ErreurApp::Rocia(e)) => e.est_non_authentifie(),
        _ => false,
    }
}

} // verus!
