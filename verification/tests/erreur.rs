use erp_example::erreur::{est_introuvable, expliquer, CodeGrpc, ErreurApp, ErreurRocia};

fn statut(code: CodeGrpc, raison: Option<&str>) -> ErreurRocia {
    ErreurRocia::Status {
        operation: "failed to get document".to_string(),
        code,
        description_code: "Some requested entity was not found".to_string(),
        raison: raison.map(str::to_string),
        message: "document absent".to_string(),
        affichage: "failed to get document: code: 'Some requested entity was not found'".to_string(),
    }
}

#[test]
fn une_erreur_de_validation_est_expliquee_sans_serveur() {
    let erreur = ErreurApp::Rocia(ErreurRocia::Validation(
        "page limit must be greater than zero".to_string(),
    ));
    let texte = expliquer(&erreur);
    assert!(texte.contains("avant tout appel reseau"), "{texte}");
    assert!(!est_introuvable(&erreur));
}

#[test]
fn une_erreur_metier_est_rendue_telle_quelle() {
    let erreur = ErreurApp::metier("stock insuffisant sur ART-001");
    assert_eq!(
        expliquer(&erreur),
        "Regle metier : stock insuffisant sur ART-001"
    );
}

#[test]
fn une_erreur_json_n_est_pas_prise_pour_une_erreur_serveur() {
    // Le texte `{}`, lu comme une liste : un objet arrive ou une liste est attendue,
    // et la lecture echoue.
    let source = serde_json::from_str::<Vec<serde_json::Value>>("{}").unwrap_err();
    let erreur = ErreurApp::Json(source.to_string());
    assert!(expliquer(&erreur).contains("non serialisable"));
    assert!(!est_introuvable(&erreur));
}

#[test]
fn un_not_found_se_lit_dans_la_raison() {
    assert!(est_introuvable(&ErreurApp::Rocia(statut(CodeGrpc::NotFound, Some("not_found")))));
    assert!(!est_introuvable(&ErreurApp::Rocia(statut(CodeGrpc::NotFound, None))));
    assert!(!est_introuvable(&ErreurApp::Metier("not_found".to_string())));
}

#[test]
fn un_statut_est_explique_code_raison_et_message() {
    let texte = expliquer(&ErreurApp::Rocia(statut(CodeGrpc::NotFound, None)));
    assert_eq!(
        texte,
        "Le serveur a refuse l'operation « failed to get document » : Some requested entity was not found / (sans raison) — document absent"
    );
}

#[test]
fn un_jeton_expire_appelle_un_renouvellement() {
    let texte = expliquer(&ErreurApp::Rocia(statut(CodeGrpc::Unauthenticated, Some("unauthenticated"))));
    assert!(texte.starts_with("Jeton invalide ou expire (failed to get document: code:"), "{texte}");
    let texte = expliquer(&ErreurApp::Rocia(statut(CodeGrpc::PermissionDenied, None)));
    assert!(texte.starts_with("Portee insuffisante ("), "{texte}");
}

#[test]
fn chaque_variante_a_sa_conduite_a_tenir() {
    assert_eq!(
        expliquer(&ErreurApp::Rocia(ErreurRocia::Decode {
            context: "document".to_string(),
            source: "missing field `id`".to_string(),
        })),
        "Decodage JSON de « document » impossible : missing field `id`. Le document stocke ne correspond plus au type Rust demande."
    );
    assert!(expliquer(&ErreurApp::Rocia(ErreurRocia::Connection { message: "refus".to_string() }))
        .starts_with("Connexion impossible : refus. "));
    assert_eq!(
        expliquer(&ErreurApp::Flux("coupure".to_string())),
        "Le flux gRPC s'est interrompu (coupure) : relancez le telechargement."
    );
}

#[test]
fn les_numeros_grpc_se_lisent_en_codes() {
    assert_eq!(CodeGrpc::depuis_numero(0), CodeGrpc::Reussi);
    assert_eq!(CodeGrpc::depuis_numero(5), CodeGrpc::NotFound);
    assert_eq!(CodeGrpc::depuis_numero(7), CodeGrpc::PermissionDenied);
    assert_eq!(CodeGrpc::depuis_numero(16), CodeGrpc::Unauthenticated);
    assert_eq!(CodeGrpc::depuis_numero(17), CodeGrpc::Unknown);
    assert_eq!(CodeGrpc::depuis_numero(-1), CodeGrpc::Unknown);
}
