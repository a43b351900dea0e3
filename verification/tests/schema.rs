use erp_example::schema::{
    arete, export_stock, noeud, pdf_facture, FOURNIT, LABEL_ARTICLE, LABEL_CLIENT, LABEL_FACTURE,
    LABEL_FOURNISSEUR, TOUTES_COLLECTIONS,
};

#[test]
fn l_identifiant_de_noeud_suit_la_convention_du_sdk() {
    assert_eq!(noeud(LABEL_CLIENT, "C-001"), "client:C-001");
    assert_eq!(
        noeud(LABEL_FACTURE, "FAC-2026-0001"),
        "facture:FAC-2026-0001"
    );
}

#[test]
fn l_identifiant_d_arete_est_reconstructible() {
    let de = noeud(LABEL_FOURNISSEUR, "F-001");
    let vers = noeud(LABEL_ARTICLE, "ART-001");
    assert_eq!(
        arete(FOURNIT, &de, &vers),
        "fournit|fournisseur:F-001|article:ART-001"
    );
}

#[test]
fn les_identifiants_de_fichier_sont_ranges_par_prefixe() {
    assert_eq!(pdf_facture("FAC-2026-0001"), "factures/FAC-2026-0001.pdf");
    assert_eq!(export_stock("2026-09-01"), "exports/stock-2026-09-01.csv");
}

#[test]
fn les_collections_se_purgent_des_pieces_filles_aux_tiers() {
    assert_eq!(
        TOUTES_COLLECTIONS,
        ["mouvements_stock", "factures", "bons_commande", "devis", "articles", "clients", "fournisseurs"]
    );
}
