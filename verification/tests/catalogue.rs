use erp_example::catalogue::{
    appliquer_mouvement, controler_quantite, exporter_csv, filtrer_sous_le_seuil, mouvement,
};
use erp_example::catalogue::{ecritures_du_mouvement, EcritureStock};
use erp_example::erreur::ErreurApp;
use erp_example::horloge::Instant;
use erp_example::modele::{Article, SensMouvement, TVA_NORMALE};

fn article(reference: &str, stock: i64) -> Article {
    Article {
        id: format!("ART-{reference}"),
        reference: reference.to_string(),
        designation: format!("Article {reference}"),
        famille: "quincaillerie".to_string(),
        prix_unitaire_ht: 1250,
        taux_tva: TVA_NORMALE,
        stock,
        stock_mini: 5,
        actif: true,
    }
}

#[test]
fn l_export_csv_porte_un_entete_et_une_ligne_par_article() {
    let csv = exporter_csv(&[article("VIS", 10), article("ECROU", 3)]);
    let lignes: Vec<&str> = csv.lines().collect();

    assert_eq!(lignes.len(), 3, "un entete + deux articles");
    assert!(lignes[0].starts_with("reference;"));
    assert_eq!(lignes[1], "VIS;Article VIS;quincaillerie;10;5;1250");
    assert_eq!(lignes[2], "ECROU;Article ECROU;quincaillerie;3;5;1250");
}

#[test]
fn l_export_d_un_inventaire_vide_garde_son_entete() {
    let csv = exporter_csv(&[]);
    assert_eq!(csv.lines().count(), 1);
}

#[test]
fn seuls_les_articles_sous_le_seuil_sont_a_reapprovisionner() {
    let garde = filtrer_sous_le_seuil(vec![article("A", 2), article("B", 5), article("C", 4), article("D", 9)]);
    let references: Vec<&str> = garde.iter().map(|a| a.reference.as_str()).collect();
    assert_eq!(references, vec!["A", "C"]);
}

#[test]
fn une_quantite_nulle_est_refusee_avant_tout_appel() {
    assert_eq!(controler_quantite("ART-001", 3), Ok(()));
    assert_eq!(
        controler_quantite("ART-001", 0),
        Err(ErreurApp::Metier("quantite invalide (0) pour le mouvement sur ART-001".to_string()))
    );
    assert_eq!(
        controler_quantite("ART-001", -4),
        Err(ErreurApp::Metier("quantite invalide (-4) pour le mouvement sur ART-001".to_string()))
    );
}

#[test]
fn un_mouvement_se_defait_par_le_mouvement_contraire() {
    let depart = article("VIS", 10);
    let recu = appliquer_mouvement(depart.clone(), "ART-VIS", SensMouvement::Entree, 7).unwrap();
    assert_eq!(recu.stock, 17);
    let rendu = appliquer_mouvement(recu, "ART-VIS", SensMouvement::Sortie, 7).unwrap();
    assert_eq!(rendu, depart);
}

#[test]
fn une_sortie_au_dela_du_stock_est_refusee() {
    assert_eq!(
        appliquer_mouvement(article("VIS", 3), "ART-VIS", SensMouvement::Sortie, 4),
        Err(ErreurApp::Metier("stock insuffisant sur ART-VIS : 3 disponible(s), 4 demande(s)".to_string()))
    );
    assert_eq!(
        appliquer_mouvement(article("VIS", 3), "ART-VIS", SensMouvement::Sortie, 3).unwrap().stock,
        0
    );
}

#[test]
fn la_trace_d_un_mouvement_porte_son_horodatage() {
    let instant = Instant {
        rfc3339: "2026-09-01T12:00:00+00:00".to_string(),
        compact: "20260901T120000".to_string(),
        compact_micro: "20260901T120000000001".to_string(),
    };
    let m = mouvement("ART-001", SensMouvement::Sortie, 12, "BC-2026-0001", &instant);
    assert_eq!(m.id, "MVT-ART-001-20260901T120000000001");
    assert_eq!(m.article_id, "ART-001");
    assert_eq!(m.sens, SensMouvement::Sortie);
    assert_eq!(m.quantite, 12);
    assert_eq!(m.origine, "BC-2026-0001");
    assert_eq!(m.horodatage, "2026-09-01T12:00:00+00:00");
}

#[test]
fn l_article_est_reecrit_avant_la_trace() {
    let instant = Instant {
        rfc3339: "2026-09-01T12:00:00+00:00".to_string(),
        compact: "20260901T120000".to_string(),
        compact_micro: "20260901T120000000001".to_string(),
    };
    let ecritures =
        ecritures_du_mouvement(article("VIS", 10), "ART-VIS", SensMouvement::Sortie, 4, "BC-1", &instant).unwrap();
    assert_eq!(ecritures.len(), 2);
    match (&ecritures[0], &ecritures[1]) {
        (EcritureStock::Article(a), EcritureStock::Trace(t)) => {
            assert_eq!(a.stock, 6);
            assert_eq!(a.reference, "VIS");
            assert_eq!(t.id, "MVT-ART-VIS-20260901T120000000001");
            assert_eq!(t.quantite, 4);
            assert_eq!(t.origine, "BC-1");
        }
        autre => panic!("ecritures dans le desordre : {autre:?}"),
    }
    let refus = ecritures_du_mouvement(article("VIS", 3), "ART-VIS", SensMouvement::Sortie, 4, "BC-1", &instant);
    assert!(matches!(refus, Err(ErreurApp::Metier(m)) if m == "stock insuffisant sur ART-VIS : 3 disponible(s), 4 demande(s)"));
    let nulle = ecritures_du_mouvement(article("VIS", 3), "ART-VIS", SensMouvement::Entree, 0, "R", &instant);
    assert!(matches!(nulle, Err(ErreurApp::Metier(m)) if m == "quantite invalide (0) pour le mouvement sur ART-VIS"));
}
