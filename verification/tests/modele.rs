use erp_example::modele::{
    formater, totaliser, tva, Article, Centimes, Ligne, PointsDeBase, SensMouvement,
    StatutCommande, StatutDevis, StatutFacture, Totaux, TVA_NORMALE, TVA_REDUITE,
};

fn ligne(quantite: i64, prix: Centimes, taux: PointsDeBase) -> Ligne {
    Ligne {
        article_id: "ART-001".to_string(),
        designation: "Article".to_string(),
        quantite,
        prix_unitaire_ht: prix,
        taux_tva: taux,
    }
}

#[test]
fn la_tva_est_arrondie_au_centime_le_plus_proche() {
    // 9,99 EUR a 20 % font 1,998 EUR : le centime superieur.
    assert_eq!(tva(999, TVA_NORMALE), 200);
    // 0,01 EUR a 10 % font 0,001 EUR : rien.
    assert_eq!(tva(1, TVA_REDUITE), 0);
    // 0,05 EUR a 10 % font 0,005 EUR : le centime superieur.
    assert_eq!(tva(5, TVA_REDUITE), 1);
    assert_eq!(tva(0, TVA_NORMALE), 0);
}

#[test]
fn la_tva_d_un_avoir_s_arrondit_symetriquement() {
    assert_eq!(tva(-999, TVA_NORMALE), -200);
    assert_eq!(tva(-5, TVA_REDUITE), -1);
}

#[test]
fn les_totaux_somment_la_tva_ligne_a_ligne() {
    let lignes = vec![ligne(3, 999, TVA_NORMALE), ligne(2, 4550, TVA_REDUITE)];

    // 3 x 9,99 = 29,97 HT, TVA 5,99 ; 2 x 45,50 = 91,00 HT, TVA 9,10.
    let totaux = totaliser(&lignes);
    assert_eq!(totaux.total_ht, 2997 + 9100);
    assert_eq!(totaux.total_tva, 599 + 910);
    assert_eq!(totaux.total_ttc, totaux.total_ht + totaux.total_tva);
}

#[test]
fn totaliser_sans_ligne_donne_zero() {
    assert_eq!(totaliser(&[]), Totaux::default());
}

#[test]
fn le_seuil_de_reapprovisionnement_se_declenche_sous_le_mini() {
    let mut article = Article {
        id: "ART-001".to_string(),
        reference: "VIS-4X30".to_string(),
        designation: "Vis 4x30".to_string(),
        famille: "quincaillerie".to_string(),
        prix_unitaire_ht: 12,
        taux_tva: TVA_NORMALE,
        stock: 10,
        stock_mini: 10,
        actif: true,
    };
    assert!(!article.sous_le_seuil(), "au seuil, rien a commander");

    article.stock = 9;
    assert!(article.sous_le_seuil());
    assert_eq!(article.valeur_stock(), 108);
}

#[test]
fn le_sens_du_mouvement_donne_le_signe_applique_au_stock() {
    assert_eq!(SensMouvement::Entree.signe(), 1);
    assert_eq!(SensMouvement::Sortie.signe(), -1);
}

#[test]
fn le_formatage_des_montants_reste_lisible() {
    assert_eq!(formater(123_456), "1234,56 EUR");
    assert_eq!(formater(5), "0,05 EUR");
    assert_eq!(formater(0), "0,00 EUR");
    assert_eq!(formater(-999), "-9,99 EUR");
}

#[test]
fn les_codes_de_statut_ont_la_forme_serialisee() {
    assert_eq!(StatutDevis::Brouillon.code(), "brouillon");
    assert_eq!(StatutDevis::Envoye.code(), "envoye");
    assert_eq!(StatutDevis::Accepte.code(), "accepte");
    assert_eq!(StatutDevis::Refuse.code(), "refuse");
    assert_eq!(StatutCommande::EnPreparation.code(), "en_preparation");
    assert_eq!(StatutCommande::Expediee.code(), "expediee");
    assert_eq!(StatutCommande::Livree.code(), "livree");
    assert_eq!(StatutCommande::Annulee.code(), "annulee");
    assert_eq!(StatutFacture::Emise.code(), "emise");
    assert_eq!(StatutFacture::Payee.code(), "payee");
    assert_eq!(StatutFacture::EnRetard.code(), "en_retard");
    assert_eq!(StatutFacture::Annulee.code(), "annulee");
    assert_eq!(SensMouvement::Entree.code(), "entree");
    assert_eq!(SensMouvement::Sortie.code(), "sortie");
}

#[test]
fn les_grands_montants_et_les_lignes_gardent_leur_valeur() {
    let l = ligne(3, 999, TVA_NORMALE);
    assert_eq!(l.total_ht(), 2997);
    assert_eq!(l.total_tva(), 599);
    assert_eq!(formater(-5), "-0,05 EUR");
    assert_eq!(formater(100), "1,00 EUR");
    assert_eq!(formater(i64::MAX), "92233720368547758,07 EUR");
    // Une demi-valeur negative s'eloigne de zero : -0,5 centime donne -1.
    assert_eq!(tva(-25, 200), -1);
    assert_eq!(tva(25, 200), 1);
}
