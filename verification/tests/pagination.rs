use erp_example::pagination::{PageSimple, Parcours, TAILLE_PAGE};

/// Deroule un parcours, une page par appel, comme le fait l'application.
fn parcourir(mut charger: impl FnMut(u32, Option<String>) -> PageSimple<i32>, taille: u32) -> (Vec<i32>, usize) {
    let mut parcours = Parcours::nouveau();
    let mut appels = 0;
    while !parcours.termine {
        appels += 1;
        let page = charger(taille, parcours.curseur_a_demander());
        parcours.recevoir(page);
    }
    (parcours.tout, appels)
}

#[test]
fn collecter_tout_suit_le_curseur_jusqu_au_bout() {
    let (elements, appels) = parcourir(
        |limite, curseur| {
            assert_eq!(limite, 2);
            match curseur.as_deref() {
                None => PageSimple { elements: vec![1, 2], curseur_suivant: Some("p2".to_string()) },
                Some("p2") => PageSimple { elements: vec![3], curseur_suivant: None },
                autre => panic!("curseur inattendu: {autre:?}"),
            }
        },
        2,
    );
    assert_eq!(elements, vec![1, 2, 3]);
    assert_eq!(appels, 2, "une requete par page, pas une de plus");
}

#[test]
fn un_curseur_repete_arrete_le_parcours() {
    let (elements, appels) = parcourir(
        |_, _| PageSimple { elements: vec![7], curseur_suivant: Some("bloque".to_string()) },
        2,
    );
    assert_eq!(elements, vec![7, 7]);
    assert_eq!(appels, 2);
}

#[test]
fn une_page_vide_sans_curseur_rend_une_liste_vide() {
    let (elements, _) = parcourir(
        |_, _| PageSimple { elements: Vec::new(), curseur_suivant: None },
        TAILLE_PAGE,
    );
    assert!(elements.is_empty());
}
