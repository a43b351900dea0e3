//! Erreur applicative, et lecture d'une erreur du SDK RociaDB.
//!
//! L'erreur du SDK est une enumeration typee : on decide quoi faire en
//! filtrant dessus. [`ErreurRocia`] en garde ce que les decisions lisent, en
//! valeurs simples : la variante, le code gRPC, la raison detaillee envoyee
//! par le serveur, le message du statut, et le texte affiche. Les trois
//! questions qu'on lui pose en pratique :
//!
//! 1. est-ce reessayable apres rafraichissement du jeton
//!    ([`ErreurRocia::est_non_authentifie`]) ?
//! 2. est-ce definitif faute de portee
//!    ([`ErreurRocia::est_permission_refusee`]) ?
//! 3. sinon, qu'a exactement repondu le serveur (code, raison) ?

use vstd::prelude::*;
use crate::texte::{ajouter, depuis, egal, vide};

verus! {

/// Les codes de statut gRPC.
#[derive(Debug, Clone, Copy, PartialEq, Eq, Structural)]
pub enum CodeGrpc {
    Reussi,
    Cancelled,
    Unknown,
    InvalidArgument,
    DeadlineExceeded,
    NotFound,
    AlreadyExists,
    PermissionDenied,
    ResourceExhausted,
    FailedPrecondition,
    Aborted,
    OutOfRange,
    Unimplemented,
    Internal,
    Unavailable,
    DataLoss,
    Unauthenticated,
}

/// Le numero de chaque code gRPC, tel que le fixe le protocole.
pub open spec fn numero(code: CodeGrpc) -> i32 {
    match code {
        CodeGrpc::Reussi => 0,
        CodeGrpc::Cancelled => 1,
        CodeGrpc::Unknown => 2,
        CodeGrpc::InvalidArgument => 3,
        CodeGrpc::DeadlineExceeded => 4,
        CodeGrpc::NotFound => 5,
        CodeGrpc::AlreadyExists => 6,
        CodeGrpc::PermissionDenied => 7,
        CodeGrpc::ResourceExhausted => 8,
        CodeGrpc::FailedPrecondition => 9,
        CodeGrpc::Aborted => 10,
        CodeGrpc::OutOfRange => 11,
        CodeGrpc::Unimplemented => 12,
        CodeGrpc::Internal => 13,
        CodeGrpc::Unavailable => 14,
        CodeGrpc::DataLoss => 15,
        CodeGrpc::Unauthenticated => 16,
    }
}

impl CodeGrpc {
    /// Le code gRPC de ce numero ; un numero inconnu du protocole se lit
    /// `Unknown`, comme le fait la bibliotheque gRPC.
    pub fn depuis_numero(n: i32) -> (c: CodeGrpc)
        ensures
            0 <= n <= 16 ==> numero(c) == n,
            !(0 <= n <= 16) ==> c == CodeGrpc::Unknown,
    {
        match n {
            0 => CodeGrpc::Reussi,
            1 => CodeGrpc::Cancelled,
            3 => CodeGrpc::InvalidArgument,
            4 => CodeGrpc::DeadlineExceeded,
            5 => CodeGrpc::NotFound,
            6 => CodeGrpc::AlreadyExists,
            7 => CodeGrpc::PermissionDenied,
            8 => CodeGrpc::ResourceExhausted,
            9 => CodeGrpc::FailedPrecondition,
            10 => CodeGrpc::Aborted,
            11 => CodeGrpc::OutOfRange,
            12 => CodeGrpc::Unimplemented,
            13 => CodeGrpc::Internal,
            14 => CodeGrpc::Unavailable,
            15 => CodeGrpc::DataLoss,
            16 => CodeGrpc::Unauthenticated,
            _ => CodeGrpc::Unknown,
        }
    }
}

/// Une erreur du SDK, reduite a ce que l'application en lit.
#[derive(Debug, Clone, PartialEq, Eq)]
pub enum ErreurRocia {
    /// Un appel gRPC a rendu un statut non nul.
    Status {
        /// Courte description de l'operation echouee.
        operation: String,
        /// Le code gRPC du statut.
        code: CodeGrpc,
        /// La description du code, telle que la donne la bibliotheque gRPC.
        description_code: String,
        /// La metadonnee de fin `reason` envoyee par le serveur, si lisible.
        raison: Option<String>,
        /// Le message du statut.
        message: String,
        /// Le texte complet de l'erreur, tel que l'affiche le SDK.
        affichage: String,
    },
    /// Connexion impossible, ou configuration du client incomplete.
    Connection { message: String },
    /// Jeton impossible a obtenir ou a renouveler.
    Auth { message: String },
    /// Encodage JSON d'une valeur impossible avant envoi.
    Encode { context: String, source: String },
    /// Decodage JSON d'une charge recue impossible.
    Decode { context: String, source: String },
    /// Regle de validation violee cote client, avant tout appel reseau.
    Validation(String),
}

impl ErreurRocia {
    /// Le code gRPC, present seulement sur un statut.
    pub open spec fn code_spec(self) -> Option<CodeGrpc> {
        match self {
            ErreurRocia::Status { code, .. } => Some(code),
            _ => None,
        }
    }

    /// La raison envoyee par le serveur, presente seulement sur un statut.
    pub open spec fn raison_spec(self) -> Option<Seq<char>> {
        match self {
            ErreurRocia::Status { raison, .. } => match raison {
                Some(r) => Some(r@),
                None => None,
            },
            _ => None,
        }
    }

    /// Le texte de l'erreur.
    pub open spec fn affichage_spec(self) -> Seq<char> {
        match self {
            ErreurRocia::Status { affichage, .. } => affichage@,
            ErreurRocia::Connection { message } => message@,
            ErreurRocia::Auth { message } => message@,
            ErreurRocia::Encode { context, .. } => "failed to encode "@ + context@,
            ErreurRocia::Decode { context, .. } => "failed to decode "@ + context@,
            ErreurRocia::Validation(message) => message@,
        }
    }

    /// Le code gRPC, present seulement sur un statut.
    pub fn code(&self) -> (c: Option<CodeGrpc>)
        ensures
            c == self.code_spec(),
    {
        match self {
            ErreurRocia::Status { code, .. } => Some(*code),
            _ => None,
        }
    }

    /// La raison detaillee envoyee par le serveur (`not_found`,
    /// `invalid_argument`, `already_exists`, ...), plus fine que le code.
    pub fn raison(&self) -> (r: Option<&str>)
        ensures
            r matches Some(t) ==> self.raison_spec() == Some(t@),
            r is None ==> self.raison_spec() is None,
    {
        match self {
            ErreurRocia::Status { raison, .. } => match raison {
                Some(r) => Some(r.as_str()),
                None => None,
            },
            _ => None,
        }
    }

    /// Vrai quand le serveur a refuse l'appel faute d'authentification : le
    /// signal qu'il faut renouveler le jeton, puis rejouer.
    pub fn est_non_authentifie(&self) -> (b: bool)
        ensures
            b == (self.code_spec() == Some(CodeGrpc::Unauthenticated)),
    {
        match self.code() {
            Some(CodeGrpc::Unauthenticated) => true,
            _ => false,
        }
    }

    /// Vrai quand le serveur a refuse l'appel faute de portee : c'est
    /// definitif, renouveler le jeton n'y changera rien.
    pub fn est_permission_refusee(&self) -> (b: bool)
        ensures
            b == (self.code_spec() == Some(CodeGrpc::PermissionDenied)),
    {
        match self.code() {
            Some(CodeGrpc::PermissionDenied) => true,
            _ => false,
        }
    }

    /// Le texte de l'erreur.
    pub fn affichage(&self) -> (s: String)
        ensures
            s@ == self.affichage_spec(),
    {
        match self {
            ErreurRocia::Status { affichage, .. } => affichage.clone(),
            ErreurRocia::Connection { message } => message.clone(),
            ErreurRocia::Auth { message } => message.clone(),
            ErreurRocia::Encode { context, .. } => {
                let mut s = depuis("failed to encode ");
                ajouter(&mut s, context.as_str());
                s
            },
            ErreurRocia::Decode { context, .. } => {
                let mut s = depuis("failed to decode ");
                ajouter(&mut s, context.as_str());
                s
            },
            ErreurRocia::Validation(message) => message.clone(),
        }
    }
}

/// Toute erreur de l'application.
#[derive(Debug, Clone, PartialEq, Eq)]
pub enum ErreurApp {
    /// Toute erreur remontee par le SDK.
    Rocia(ErreurRocia),
    /// Serialisation d'un objet metier avant envoi (le texte de l'erreur).
    Json(String),
    /// Flux de telechargement interrompu (le texte du statut gRPC brut).
    Flux(String),
    /// Regle metier violee avant tout appel reseau.
    Metier(String),
}

pub type Resultat<T> = Result<T, ErreurApp>;

impl ErreurApp {
    /// Une erreur metier portant ce message.
    pub fn metier(message: &str) -> (e: ErreurApp)
        ensures
            e matches ErreurApp::Metier(m) && m@ == message@,
    {
        ErreurApp::Metier(depuis(message))
    }
}

/// Vrai quand le serveur a repondu `NOT_FOUND`, lu dans la raison detaillee.
pub open spec fn introuvable(erreur: ErreurApp) -> bool {
    match erreur {
        ErreurApp::Rocia(rocia) => rocia.raison_spec() == Some("not_found"@),
        _ => false,
    }
}

/// Vrai quand le serveur a repondu `NOT_FOUND`.
///
/// La raison est la metadonnee de fin envoyee par le serveur (`not_found`,
/// `invalid_argument`, `already_exists`, ...), plus fine que le code gRPC
/// seul.
pub fn est_introuvable(erreur: &ErreurApp) -> (b: bool)
    ensures
        b == introuvable(*erreur),
{
    match erreur {
        ErreurApp::Rocia(rocia) => match rocia.raison() {
            Some(r) => egal(r, "not_found"),
            None => false,
        },
        _ => false,
    }
}

/// L'explication d'une erreur du SDK qui n'est ni un defaut
/// d'authentification ni un defaut de portee, variante par variante.
pub open spec fn explication_rocia(rocia: ErreurRocia) -> Seq<char> {
    match rocia {
        ErreurRocia::Status { operation, description_code, raison, message, .. } => {
            let r = match raison {
                Some(r) => r@,
                None => "(sans raison)"@,
            };
            "Le serveur a refuse l'operation « "@ + operation@ + " » : "@ + description_code@ + " / "@
                + r + " — "@ + message@
        },
        ErreurRocia::Connection { message } => "Connexion impossible : "@ + message@
            + ". Verifiez que le serveur ecoute, et que l'hote ne porte ni chemin ni suffixe (« http://127.0.0.1:50051 », pas « /v1 »)."@,
        ErreurRocia::Auth { message } => "Obtention du jeton impossible : "@ + message@
            + ". Verifiez AUTH_TOKEN_URL, AUTH_CLIENT_ID et AUTH_CLIENT_SECRET, ou passez --sans-auth en local."@,
        ErreurRocia::Encode { context, source } => "Encodage JSON de « "@ + context@ + " » impossible : "@
            + source@,
        ErreurRocia::Decode { context, source } => "Decodage JSON de « "@ + context@ + " » impossible : "@
            + source@ + ". Le document stocke ne correspond plus au type Rust demande."@,
        ErreurRocia::Validation(message) => "Rejete par le SDK avant tout appel reseau : "@ + message@
            + ". Rien n'a ete envoye."@,
    }
}

/// Explication lisible d'une erreur, avec la conduite a tenir.
pub open spec fn explication(erreur: ErreurApp) -> Seq<char> {
    match erreur {
        ErreurApp::Json(source) => "Objet metier non serialisable ("@ + source@ + ") : corrigez le modele."@,
        ErreurApp::Flux(message) => "Le flux gRPC s'est interrompu ("@ + message@
            + ") : relancez le telechargement."@,
        ErreurApp::Metier(message) => "Regle metier : "@ + message@,
        ErreurApp::Rocia(rocia) => if rocia.code_spec() == Some(CodeGrpc::Unauthenticated) {
            "Jeton invalide ou expire ("@ + rocia.affichage_spec()
                + "). Appelez `refresh_auth_token()` puis rejouez l'appel : c'est le seul cas ou reessayer a un sens."@
        } else if rocia.code_spec() == Some(CodeGrpc::PermissionDenied) {
            "Portee insuffisante ("@ + rocia.affichage_spec()
                + "). Rafraichir le jeton n'y changera rien : un jeton en lecture seule est refuse sur les 7 RPC d'ecriture, et un jeton d'administration l'est sur les 22. Verifiez le `client_id` utilise."@
        } else {
            explication_rocia(rocia)
        },
    }
}

fn expliquer_rocia(rocia: &ErreurRocia) -> (s: String)
    ensures
        s@ == explication_rocia(*rocia),
{
    let mut s = vide();
    match rocia {
        ErreurRocia::Status { operation, description_code, raison, message, .. } => {
            ajouter(&mut s, "Le serveur a refuse l'operation « ");
            ajouter(&mut s, operation.as_str());
            ajouter(&mut s, " » : ");
            ajouter(&mut s, description_code.as_str());
            ajouter(&mut s, " / ");
            match raison {
                Some(r) => ajouter(&mut s, r.as_str()),
                None => ajouter(&mut s, "(sans raison)"),
            }
            ajouter(&mut s, " — ");
            ajouter(&mut s, message.as_str());
        },
        ErreurRocia::Connection { message } => {
            ajouter(&mut s, "Connexion impossible : ");
            ajouter(&mut s, message.as_str());
            ajouter(
                &mut s,
                ". Verifiez que le serveur ecoute, et que l'hote ne porte ni chemin ni suffixe (« http://127.0.0.1:50051 », pas « /v1 »).",
            );
        },
        ErreurRocia::Auth { message } => {
            ajouter(&mut s, "Obtention du jeton impossible : ");
            ajouter(&mut s, message.as_str());
            ajouter(
                &mut s,
                ". Verifiez AUTH_TOKEN_URL, AUTH_CLIENT_ID et AUTH_CLIENT_SECRET, ou passez --sans-auth en local.",
            );
        },
        ErreurRocia::Encode { context, source } => {
            ajouter(&mut s, "Encodage JSON de « ");
            ajouter(&mut s, context.as_str());
            ajouter(&mut s, " » impossible : ");
            ajouter(&mut s, source.as_str());
        },
        ErreurRocia::Decode { context, source } => {
            ajouter(&mut s, "Decodage JSON de « ");
            ajouter(&mut s, context.as_str());
            ajouter(&mut s, " » impossible : ");
            ajouter(&mut s, source.as_str());
            ajouter(&mut s, ". Le document stocke ne correspond plus au type Rust demande.");
        },
        ErreurRocia::Validation(message) => {
            ajouter(&mut s, "Rejete par le SDK avant tout appel reseau : ");
            ajouter(&mut s, message.as_str());
            ajouter(&mut s, ". Rien n'a ete envoye.");
        },
    }
    s
}

/// Explication lisible d'une erreur, avec la conduite a tenir.
///
/// Les deux questions a poser en premier decident d'un reessai : un defaut
/// d'authentification se rejoue apres renouvellement du jeton, un defaut de
/// portee jamais. Pour le reste, la variante dit ce qu'un operateur doit
/// faire.
pub fn expliquer(erreur: &ErreurApp) -> (s: String)
    ensures
        s@ == explication(*erreur),
{
    match erreur {
        ErreurApp::Json(source) => {
            let mut s = depuis("Objet metier non serialisable (");
            ajouter(&mut s, source.as_str());
            ajouter(&mut s, ") : corrigez le modele.");
            s
        },
        ErreurApp::Flux(message) => {
            let mut s = depuis("Le flux gRPC s'est interrompu (");
            ajouter(&mut s, message.as_str());
            ajouter(&mut s, ") : relancez le telechargement.");
            s
        },
        ErreurApp::Metier(message) => {
            let mut s = depuis("Regle metier : ");
            ajouter(&mut s, message.as_str());
            s
        },
        ErreurApp::Rocia(rocia) => {
            if rocia.est_non_authentifie() {
                let mut s = depuis("Jeton invalide ou expire (");
                let texte = rocia.affichage();
                ajouter(&mut s, texte.as_str());
                ajouter(
                    &mut s,
                    "). Appelez `refresh_auth_token()` puis rejouez l'appel : c'est le seul cas ou reessayer a un sens.",
                );
                s
            } else if rocia.est_permission_refusee() {
                let mut s = depuis("Portee insuffisante (");
                let texte = rocia.affichage();
                ajouter(&mut s, texte.as_str());
                ajouter(
                    &mut s,
                    "). Rafraichir le jeton n'y changera rien : un jeton en lecture seule est refuse sur les 7 RPC d'ecriture, et un jeton d'administration l'est sur les 22. Verifiez le `client_id` utilise.",
                );
                s
            } else {
                expliquer_rocia(rocia)
            }
        },
    }
}

} // verus!
