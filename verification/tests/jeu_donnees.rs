use erp_example::jeu_donnees::{
    approvisionnements, article_hors_import, articles, clients, fournisseurs, COMMANDE_ID, DEVIS_ID, FACTURE_ID,
};
use erp_example::modele::TVA_NORMALE;

#[test]
fn le_jeu_de_donnees_est_celui_de_la_quincaillerie() {
    let c = clients();
    assert_eq!(c.len(), 3);
    assert_eq!(c[0].email, "contact@menuiserie-bertrand.example");
    assert!(!c[2].actif);

    let f = fournisseurs();
    assert!(!f.is_empty());
    assert_eq!(f[0].id, "F-001");

    let a = articles();
    assert_eq!(a.len(), 5);
    assert_eq!(a[0].reference, "VIS-4X30");
    assert_eq!(a[4].taux_tva, 1000);

    let appro = approvisionnements();
    assert_eq!(appro.len(), 2);
    assert_eq!(appro[0].1[1], ("ART-002".to_string(), 1180));
    assert_eq!(appro[1].1[0], ("ART-004".to_string(), 9800));

    assert_eq!((DEVIS_ID, COMMANDE_ID, FACTURE_ID), ("DEV-2026-0001", "BC-2026-0001", "FAC-2026-0001"));
}

#[test]
fn l_article_ajoute_hors_import_est_la_colle() {
    let a = article_hors_import();
    assert_eq!(a.id, "ART-006");
    assert_eq!(a.reference, "COLLE-PU");
    assert_eq!(a.designation, "Colle polyurethane 310 ml");
    assert_eq!(a.famille, "quincaillerie");
    assert_eq!((a.prix_unitaire_ht, a.taux_tva, a.stock, a.stock_mini, a.actif), (890, TVA_NORMALE, 24, 10, true));
    assert!(articles().iter().all(|b| b.id != a.id));
}
