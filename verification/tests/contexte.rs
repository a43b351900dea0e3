use erp_example::contexte::{cle_reparation_noeud, job_de, job_par_defaut, Contexte};

#[test]
fn le_prefixe_par_defaut_change_d_une_execution_a_l_autre() {
    let job = job_par_defaut().unwrap();
    assert!(job.starts_with("demo-"), "{job}");
    assert_eq!(job.len(), "demo-".len() + "20260901T120000".len());
    assert!(!job.contains(':'));
    assert!(!Contexte::nouveau("demo-erp").unwrap().job.contains(':'));
}

#[test]
fn une_cle_est_stable_dans_une_execution() {
    let ctx = Contexte::nouveau("demo-erp").unwrap().avec_job(Some("import-1".to_string()));
    assert_eq!(ctx.cle("devis:DEV-1"), "import-1:devis:DEV-1");
    assert_eq!(ctx.cle("devis:DEV-1"), ctx.cle("devis:DEV-1"));
    assert_eq!(ctx.graphe, "erp");
    assert_eq!(ctx.bucket, "pieces-jointes");
    assert_eq!(ctx.tenant, "demo-erp");
    let garde = ctx.clone().avec_job(None);
    assert_eq!(garde.job, "import-1");
    assert_eq!(job_de("20260901T120000"), "demo-20260901T120000");
}

#[test]
fn chaque_operation_a_sa_cle() {
    let ctx = Contexte::nouveau("demo-erp").unwrap().avec_job(Some("import-1".to_string()));
    assert_eq!(ctx.cle_devis("DEV-1"), "import-1:devis:DEV-1");
    assert_eq!(ctx.cle_commande("BC-1"), "import-1:commande:BC-1");
    assert_eq!(ctx.cle_facture("FAC-1"), "import-1:facture:FAC-1");
    assert_eq!(ctx.cle_encaissement("FAC-1"), "import-1:encaissement:FAC-1");
    assert_eq!(ctx.cle_import_article("ART-1"), "import-1:import-article:ART-1");
    assert_eq!(ctx.cle_fournisseur("F-1"), "import-1:fournisseur:F-1");
    assert_eq!(ctx.cle_suppression_fournisseur("F-1"), "import-1:suppression-fournisseur:F-1");
    assert_eq!(ctx.cle_suppression_piece("notes/a.txt"), "import-1:suppression-piece:notes/a.txt");
    assert_eq!(ctx.cle_suppression_arete("x|a|b"), "import-1:suppression-arete:x|a|b");
    assert_eq!(cle_reparation_noeud("C-003"), "reparation-noeud:C-003");
}
