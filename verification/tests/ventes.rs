use chrono::Datelike;
use erp_example::erreur::ErreurApp;
use erp_example::jeu_donnees::articles;
use erp_example::modele::{totaliser, BonCommande, StatutCommande, StatutDevis, StatutFacture};
use erp_example::scenario::ligne_de;
use erp_example::contexte::Contexte;
use erp_example::ventes::{acceptation_au_jour, annulation_devis, devis_au_jour, facture_au_jour, Suppression};
use erp_example::ventes::{
    accepter, controler_expedition, date_et_echeance, encaissee, marquer_expediee, preparer_devis,
    preparer_facture, DELAI_PAIEMENT_JOURS, VALIDITE_DEVIS_JOURS,
};

fn metier(r: ErreurApp) -> String {
    match r {
        ErreurApp::Metier(m) => m,
        autre => panic!("erreur inattendue : {autre:?}"),
    }
}

#[test]
fn l_echeance_tombe_trente_jours_plus_tard() {
    let jour = chrono::NaiveDate::from_ymd_opt(2026, 9, 1).unwrap().num_days_from_ce();
    let (date, echeance) = date_et_echeance(jour, DELAI_PAIEMENT_JOURS).unwrap();
    assert_eq!(date, "2026-09-01");
    assert_eq!(echeance, "2026-10-01");
    let (date, validite) = date_et_echeance(jour + 61, VALIDITE_DEVIS_JOURS).unwrap();
    assert_eq!(date, "2026-11-01");
    assert_eq!(validite, "2026-12-01");
    assert_eq!(date_et_echeance(jour, 0).unwrap().1, "2026-09-01");
}

#[test]
fn une_date_hors_du_calendrier_n_a_pas_d_echeance() {
    assert!(date_et_echeance(i32::MAX - 30, 30).is_none());
}

#[test]
fn un_devis_sans_ligne_est_refuse() {
    let erreur = preparer_devis("DEV-1", "C-001", Vec::new(), "2026-09-01".to_string(), "2026-10-01".to_string());
    assert_eq!(metier(erreur.unwrap_err()), "le devis DEV-1 n'a aucune ligne");
}

#[test]
fn du_devis_a_la_facture_reglee() {
    let catalogue = articles();
    let lignes = vec![ligne_de(&catalogue[0], 12), ligne_de(&catalogue[2], 80)];
    let totaux = totaliser(&lignes);
    let devis = preparer_devis("DEV-2026-0001", "C-001", lignes.clone(), "2026-09-01".to_string(), "2026-10-01".to_string())
        .unwrap();
    assert_eq!(devis.statut, StatutDevis::Envoye);
    assert_eq!(devis.totaux, totaux);
    assert_eq!(devis.totaux.total_ttc, 50_640);
    assert_eq!(devis.validite, "2026-10-01");

    let (accepte, commande) = accepter(devis.clone(), "BC-2026-0001", "2026-09-02".to_string()).unwrap();
    assert_eq!(accepte.statut, StatutDevis::Accepte);
    assert_eq!(accepte.lignes, devis.lignes);
    assert_eq!(commande.id, "BC-2026-0001");
    assert_eq!(commande.devis_id.as_deref(), Some("DEV-2026-0001"));
    assert_eq!(commande.statut, StatutCommande::EnPreparation);
    assert_eq!(commande.date, "2026-09-02");
    assert_eq!(commande.lignes, lignes);
    assert_eq!(commande.totaux, totaux);

    let refus = accepter(accepte, "BC-2", "2026-09-03".to_string()).unwrap_err();
    assert_eq!(metier(refus), "le devis DEV-2026-0001 est deja accepte");

    assert!(controler_expedition(&commande).is_ok());
    let expediee = marquer_expediee(commande.clone());
    assert_eq!(expediee.statut, StatutCommande::Expediee);
    assert_eq!(
        metier(controler_expedition(&expediee).unwrap_err()),
        "la commande BC-2026-0001 n'est pas en preparation (statut : expediee)"
    );

    let facture =
        preparer_facture(&expediee, "FAC-2026-0001", "2026-09-05".to_string(), "2026-10-05".to_string()).unwrap();
    assert_eq!(facture.bon_commande_id, "BC-2026-0001");
    assert_eq!(facture.client_id, "C-001");
    assert_eq!(facture.statut, StatutFacture::Emise);
    assert_eq!(facture.date_echeance, "2026-10-05");
    assert_eq!(facture.totaux, totaux);
    assert_eq!(facture.lignes, lignes);

    let reglee = encaissee(facture.clone());
    assert_eq!(reglee.statut, StatutFacture::Payee);
    assert_eq!(reglee.totaux, facture.totaux);
}

#[test]
fn une_commande_annulee_ne_se_facture_pas() {
    let commande = BonCommande {
        id: "BC-9".to_string(),
        client_id: "C-002".to_string(),
        devis_id: None,
        statut: StatutCommande::Annulee,
        date: "2026-09-01".to_string(),
        lignes: Vec::new(),
        totaux: totaliser(&[]),
    };
    let erreur = preparer_facture(&commande, "FAC-9", "d".to_string(), "e".to_string()).unwrap_err();
    assert_eq!(metier(erreur), "la commande BC-9 est annulee, elle ne peut pas etre facturee");
}

#[test]
fn un_devis_s_annule_document_d_abord_aretes_ensuite() {
    let ctx = Contexte {
        tenant: "demo-erp".to_string(),
        graphe: "erp".to_string(),
        bucket: "pieces-jointes".to_string(),
        job: "import-1".to_string(),
    };
    assert_eq!(
        annulation_devis(&ctx, "DEV-2026-0002", "C-002"),
        vec![
            Suppression::Document {
                collection: "devis".to_string(),
                id: "DEV-2026-0002".to_string(),
                cle: "import-1:annulation-devis:DEV-2026-0002".to_string(),
            },
            Suppression::AretesSortantes { noeud: "devis:DEV-2026-0002".to_string(), label: "porte_sur".to_string() },
            Suppression::Arete { edge_id: "a_demande|client:C-002|devis:DEV-2026-0002".to_string() },
        ]
    );
}

#[test]
fn les_pieces_du_jour_portent_leurs_dates() {
    let jour = chrono::NaiveDate::from_ymd_opt(2026, 9, 1).unwrap().num_days_from_ce();
    let catalogue = articles();
    let lignes = vec![ligne_de(&catalogue[0], 12)];
    let devis = devis_au_jour("DEV-1", "C-001", lignes.clone(), jour).unwrap().unwrap();
    assert_eq!(devis.date, "2026-09-01");
    assert_eq!(devis.validite, "2026-10-01");
    assert_eq!(devis.lignes, lignes);

    let vide = devis_au_jour("DEV-2", "C-001", Vec::new(), jour).unwrap().unwrap_err();
    assert_eq!(metier(vide), "le devis DEV-2 n'a aucune ligne");

    let (accepte, commande) = acceptation_au_jour(devis, "BC-1", jour + 1).unwrap().unwrap();
    assert_eq!(accepte.statut, StatutDevis::Accepte);
    assert_eq!(commande.date, "2026-09-02");
    let refus = acceptation_au_jour(accepte, "BC-2", jour).unwrap().unwrap_err();
    assert_eq!(metier(refus), "le devis DEV-1 est deja accepte");

    let facture = facture_au_jour(&commande, "FAC-1", jour + 4).unwrap().unwrap();
    assert_eq!(facture.date, "2026-09-05");
    assert_eq!(facture.date_echeance, "2026-10-05");
    assert_eq!(facture.bon_commande_id, "BC-1");

    assert!(facture_au_jour(&commande, "FAC-2", i32::MAX - 30).is_none());
}
