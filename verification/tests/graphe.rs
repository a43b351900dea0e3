use erp_example::contexte::Contexte;
use erp_example::graphe::{arete_client_devis, arete_de, arete_pieces, aretes_devis, aretes_fournisseur, noeuds_articles};
use erp_example::jeu_donnees::{approvisionnements, articles};
use erp_example::scenario::ligne_de;
use erp_example::schema::{CONVERTI_EN, FOURNIT, LABEL_BON_COMMANDE, LABEL_DEVIS};

fn ctx() -> Contexte {
    Contexte {
        tenant: "demo-erp".to_string(),
        graphe: "erp".to_string(),
        bucket: "pieces-jointes".to_string(),
        job: "import-1".to_string(),
    }
}

#[test]
fn les_noeuds_d_articles_sont_enrichis_et_cles() {
    let noeuds = noeuds_articles(&ctx(), &articles());
    assert_eq!(noeuds.len(), 5);
    assert_eq!(noeuds[0].node_id, "article:ART-001");
    assert_eq!(noeuds[0].valeur.collection, "articles");
    assert_eq!(noeuds[0].valeur.id, "ART-001");
    assert_eq!(noeuds[0].valeur.reference, "VIS-4X30");
    assert_eq!(noeuds[0].valeur.designation, "Vis a bois 4x30 (boite de 200)");
    assert_eq!(noeuds[0].valeur.famille, "quincaillerie");
    assert_eq!(noeuds[3].request_id, "import-1:noeud-article:ART-004");
}

#[test]
fn les_aretes_d_un_fournisseur_portent_le_prix_d_achat() {
    let (fournisseur, catalogue) = &approvisionnements()[0];
    let aretes = aretes_fournisseur(&ctx(), fournisseur, catalogue);
    assert_eq!(aretes.len(), 3);
    assert_eq!(aretes[0].arete.edge_id, "fournit|fournisseur:F-001|article:ART-001");
    assert_eq!(aretes[0].arete.from, "fournisseur:F-001");
    assert_eq!(aretes[0].arete.to, "article:ART-001");
    assert_eq!(aretes[0].arete.label, FOURNIT);
    assert_eq!(aretes[0].valeur, 780);
    assert_eq!(aretes[2].valeur, 190);
    assert_eq!(aretes[2].request_id, "import-1:fournit:F-001:ART-003");
}

#[test]
fn les_aretes_d_un_devis_portent_quantite_et_prix() {
    let catalogue = articles();
    let lignes = vec![ligne_de(&catalogue[0], 12), ligne_de(&catalogue[2], 80)];
    let aretes = aretes_devis(&ctx(), "DEV-2026-0001", &lignes);
    assert_eq!(aretes.len(), 2);
    assert_eq!(aretes[1].arete.edge_id, "porte_sur|devis:DEV-2026-0001|article:ART-003");
    assert_eq!(aretes[1].valeur, (80, 340));
    assert_eq!(aretes[0].valeur, (12, 1250));
    assert_eq!(aretes[0].request_id, "import-1:porte-sur:DEV-2026-0001:ART-001");
}

#[test]
fn l_arete_client_devis_et_celle_entre_pieces() {
    let a = arete_client_devis("C-001", "DEV-2026-0001");
    assert_eq!(a.edge_id, "a_demande|client:C-001|devis:DEV-2026-0001");
    assert_eq!(a.label, "a_demande");
    let (arete, cle) = arete_pieces(&ctx(), LABEL_DEVIS, "DEV-2026-0001", LABEL_BON_COMMANDE, "BC-2026-0001", CONVERTI_EN);
    assert_eq!(arete.edge_id, "converti_en|devis:DEV-2026-0001|bon_commande:BC-2026-0001");
    assert_eq!(arete.from, "devis:DEV-2026-0001");
    assert_eq!(arete.to, "bon_commande:BC-2026-0001");
    assert_eq!(cle, "import-1:converti_en:DEV-2026-0001:BC-2026-0001");
    assert_eq!(arete_de("x", "a", "b").edge_id, "x|a|b");
}
