use erp_example::erreur::{CodeGrpc, ErreurApp, ErreurRocia};
use erp_example::nettoyage::{compter_suppression, identifiants_a_supprimer, Bilan, LABELS_A_PURGER};

fn statut(code: CodeGrpc, raison: &str) -> ErreurApp {
    ErreurApp::Rocia(ErreurRocia::Status {
        operation: "failed to delete edge".to_string(),
        code,
        description_code: "desc".to_string(),
        raison: Some(raison.to_string()),
        message: "m".to_string(),
        affichage: "failed to delete edge".to_string(),
    })
}

#[test]
fn une_arete_supprimee_compte_une_arete_absente_non() {
    assert_eq!(compter_suppression(3, Ok(())).unwrap(), 4);
    assert_eq!(compter_suppression(3, Err(statut(CodeGrpc::NotFound, "not_found"))).unwrap(), 3);
}

#[test]
fn une_autre_erreur_arrete_la_purge() {
    let erreur = compter_suppression(3, Err(statut(CodeGrpc::Unavailable, "unavailable"))).unwrap_err();
    assert!(matches!(erreur, ErreurApp::Rocia(ErreurRocia::Status { code: CodeGrpc::Unavailable, .. })));
}

#[test]
fn seuls_les_documents_porteurs_d_un_id_sont_supprimes() {
    let ids = identifiants_a_supprimer(vec![Some("C-001".to_string()), None, Some("C-002".to_string())]);
    assert_eq!(ids, vec!["C-001".to_string(), "C-002".to_string()]);
    assert!(identifiants_a_supprimer(vec![None]).is_empty());
}

#[test]
fn la_purge_parcourt_tous_les_labels_et_part_d_un_bilan_vide() {
    assert_eq!(LABELS_A_PURGER, ["fournit", "a_demande", "porte_sur", "converti_en", "facture_par"]);
    let bilan = Bilan::default();
    assert_eq!(bilan, Bilan { documents: 0, aretes: 0, fichiers: 0, noeuds_orphelins: 0 });
}
