use erp_example::scenario::{peut_imprimer, peut_valoriser};
use erp_example::modele::peut_totaliser;
use erp_example::jeu_donnees::articles;
use erp_example::modele::{totaliser, Facture, StatutFacture};
use erp_example::scenario::{corps_facture, ligne_de, valeur_inventaire};

#[test]
fn une_ligne_reprend_l_article() {
    let catalogue = articles();
    let ligne = ligne_de(&catalogue[1], 3);
    assert_eq!(ligne.article_id, "ART-002");
    assert_eq!(ligne.designation, "Vis a bois 5x50 (boite de 100)");
    assert_eq!(ligne.quantite, 3);
    assert_eq!(ligne.prix_unitaire_ht, 1890);
    assert_eq!(ligne.taux_tva, 2000);
}

#[test]
fn l_inventaire_se_valorise_article_par_article() {
    assert_eq!(valeur_inventaire(&articles()), 150_000 + 34_020 + 217_600 + 104_300 + 900);
    assert_eq!(valeur_inventaire(&[]), 0);
}

#[test]
fn le_corps_de_facture_detaille_chaque_ligne_puis_le_total() {
    let catalogue = articles();
    let lignes = vec![ligne_de(&catalogue[0], 12), ligne_de(&catalogue[2], 80)];
    let totaux = totaliser(&lignes);
    let facture = Facture {
        id: "FAC-2026-0001".to_string(),
        client_id: "C-001".to_string(),
        bon_commande_id: "BC-2026-0001".to_string(),
        statut: StatutFacture::Emise,
        date: "2026-09-01".to_string(),
        date_echeance: "2026-10-01".to_string(),
        lignes,
        totaux,
    };
    let corps = corps_facture(&facture);
    assert_eq!(
        corps,
        vec![
            "12 x Vis a bois 4x30 (boite de 200) = 150,00 EUR".to_string(),
            "80 x Equerre de chevron galvanisee = 272,00 EUR".to_string(),
            "Total TTC : 506,40 EUR".to_string(),
        ]
    );
}

#[test]
fn les_montants_sont_controles_avant_calcul() {
    let mut catalogue = articles();
    assert!(peut_valoriser(&catalogue));
    let lignes = vec![ligne_de(&catalogue[0], 12), ligne_de(&catalogue[2], 80)];
    assert!(peut_totaliser(&lignes));
    let trop = vec![ligne_de(&catalogue[0], i64::MAX)];
    assert!(!peut_totaliser(&trop));
    catalogue[1].stock = i64::MAX;
    assert!(!peut_valoriser(&catalogue));

    let totaux = totaliser(&lignes);
    let mut facture = Facture {
        id: "FAC-1".to_string(),
        client_id: "C-001".to_string(),
        bon_commande_id: "BC-1".to_string(),
        statut: StatutFacture::Emise,
        date: "2026-09-01".to_string(),
        date_echeance: "2026-10-01".to_string(),
        lignes,
        totaux,
    };
    assert!(peut_imprimer(&facture));
    facture.totaux.total_ttc = i64::MIN;
    assert!(!peut_imprimer(&facture));
}
