//! Parcours de curseur, commun aux formes de page du SDK.
//!
//! Le SDK rend des pages nommees plutot qu'un tuple : une liste d'elements
//! et un curseur suivant. Toutes suivent le meme contrat : le curseur est
//! opaque, se repasse tel quel, et vaut `None` quand il n'y a plus rien.
//!
//! [`Parcours`] tient l'etat de la boucle une fois pour toutes : celui qui
//! charge les pages demande la suivante tant que le parcours n'est pas
//! termine, et lui remet chaque page recue.

use vstd::prelude::*;

verus! {

/// Taille de page par defaut de cet exemple. Le SDK utilise 20 quand on ne
/// precise rien ; le serveur plafonne a 200 par defaut et a toujours le
/// dernier mot.
pub const TAILLE_PAGE: u32 = 50;

/// Une page, debarrassee de ce qui differe entre les formes de page.
pub struct PageSimple<T> {
    pub elements: Vec<T>,
    pub curseur_suivant: Option<String>,
}

/// Le contenu d'un curseur.
pub open spec fn vue_curseur(curseur: Option<String>) -> Option<Seq<char>> {
    match curseur {
        Some(c) => Some(c@),
        None => None,
    }
}

/// L'etat d'un parcours de pages : ce qui a ete ramene, le curseur a
/// repasser, et si le parcours est fini.
pub struct Parcours<T> {
    pub tout: Vec<T>,
    pub curseur: Option<String>,
    pub termine: bool,
}

impl<T> Parcours<T> {
    /// Un parcours qui n'a encore rien ramene : la premiere page se demande
    /// sans curseur.
    pub fn nouveau() -> (p: Parcours<T>)
        ensures
            p.tout@.len() == 0,
            p.curseur is None,
            !p.termine,
    {
        Parcours { tout: Vec::new(), curseur: None, termine: false }
    }

    /// Le curseur a passer pour la page suivante.
    pub fn curseur_a_demander(&self) -> (c: Option<String>)
        ensures
            vue_curseur(c) == vue_curseur(self.curseur),
    {
        match &self.curseur {
            Some(c) => Some(c.clone()),
            None => None,
        }
    }

    /// Ajoute une page recue, et decide de la suite.
    ///
    /// Le parcours s'arrete des que le serveur ne rend plus de curseur — ou
    /// qu'il rend le meme qu'a l'appel precedent, garde-fou contre une boucle
    /// infinie sur un serveur qui repeterait son curseur.
    pub fn recevoir(&mut self, page: PageSimple<T>)
        requires
            !old(self).termine,
        ensures
            final(self).tout@ == old(self).tout@ + page.elements@,
            match page.curseur_suivant {
                Some(suivant) => if vue_curseur(old(self).curseur) == Some(suivant@) {
                    final(self).termine && vue_curseur(final(self).curseur) == vue_curseur(old(self).curseur)
                } else {
                    !final(self).termine && vue_curseur(final(self).curseur) == Some(suivant@)
                },
                None => final(self).termine && vue_curseur(final(self).curseur) == vue_curseur(old(self).curseur),
            },
    {
        let PageSimple { elements, curseur_suivant } = page;
        let mut elements = elements;
        self.tout.append(&mut elements);
        match curseur_suivant {
            Some(suivant) => {
                let repete = match &self.curseur {
                    Some(courant) => *courant == suivant,
                    None => false,
                };
                if repete {
                    self.termine = true;
                } else {
                    self.curseur = Some(suivant);
                }
            },
            None => {
                self.termine = true;
            },
        }
    }
}

} // verus!
