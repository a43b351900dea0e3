use erp_example::admin::{doit_reessayer, tenants_ou_refus};
use erp_example::erreur::{CodeGrpc, ErreurApp, ErreurRocia};
use erp_example::tiers::{absence_toleree, noeud_present};

fn statut(code: CodeGrpc, raison: &str) -> ErreurRocia {
    ErreurRocia::Status {
        operation: "failed".to_string(),
        code,
        description_code: "desc".to_string(),
        raison: Some(raison.to_string()),
        message: "m".to_string(),
        affichage: "failed".to_string(),
    }
}

#[test]
fn un_refus_de_portee_sur_les_tenants_n_est_pas_une_panne() {
    let tenants = tenants_ou_refus(Ok(vec!["demo".to_string(), "demo-erp".to_string()])).unwrap();
    assert_eq!(tenants, Some(vec!["demo".to_string(), "demo-erp".to_string()]));
    assert_eq!(tenants_ou_refus(Err(statut(CodeGrpc::PermissionDenied, "permission_denied"))).unwrap(), None);
    let panne = tenants_ou_refus(Err(statut(CodeGrpc::Unavailable, "unavailable"))).unwrap_err();
    assert!(matches!(panne, ErreurApp::Rocia(ErreurRocia::Status { code: CodeGrpc::Unavailable, .. })));
}

#[test]
fn seul_un_defaut_d_authentification_se_rejoue() {
    let expire: Result<u64, ErreurApp> = Err(ErreurApp::Rocia(statut(CodeGrpc::Unauthenticated, "unauthenticated")));
    assert!(doit_reessayer(&expire));
    let refuse: Result<u64, ErreurApp> = Err(ErreurApp::Rocia(statut(CodeGrpc::PermissionDenied, "permission_denied")));
    assert!(!doit_reessayer(&refuse));
    assert!(!doit_reessayer(&Ok::<u64, ErreurApp>(3)));
    assert!(!doit_reessayer(&Err::<u64, ErreurApp>(ErreurApp::Metier("non".to_string()))));
}

#[test]
fn une_absence_est_une_reponse_pas_une_erreur() {
    assert_eq!(absence_toleree(Ok::<u32, ErreurApp>(7)).unwrap(), Some(7));
    let absent: Result<u32, ErreurApp> = Err(ErreurApp::Rocia(statut(CodeGrpc::NotFound, "not_found")));
    assert_eq!(absence_toleree(absent).unwrap(), None);
    let autre: Result<u32, ErreurApp> = Err(ErreurApp::Rocia(statut(CodeGrpc::Internal, "internal")));
    assert!(absence_toleree(autre).is_err());
}

#[test]
fn un_noeud_manquant_se_lit_dans_la_reponse() {
    assert!(noeud_present(Ok(())).unwrap());
    assert!(!noeud_present(Err(statut(CodeGrpc::NotFound, "not_found"))).unwrap());
    assert!(noeud_present(Err(statut(CodeGrpc::Internal, "internal"))).is_err());
}
