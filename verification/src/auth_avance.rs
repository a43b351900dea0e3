//! Ce qu'on observe du cycle de vie d'un jeton obtenu sans client RociaDB.

use vstd::prelude::*;
use std::time::Duration;

verus! {

/// Ce que la demonstration a observe du cycle de vie du jeton.
pub struct Observation {
    pub type_de_jeton: String,
    pub duree_de_vie: Duration,
    pub intervalle_de_rafraichissement: Duration,
    pub longueur_du_jeton: usize,
}

} // verus!
