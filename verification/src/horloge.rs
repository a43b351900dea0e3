//! L'heure, lue sur l'horloge de la machine, et le calendrier, tel que le
//! donne `chrono`. Une horloge reglee avant 1970 ne donne pas d'instant.
//!
//! Les jours sont numerotes dans le calendrier gregorien proleptique, le
//! 1er janvier de l'an 1 etant le jour 1 : une echeance a trente jours est
//! alors une simple addition, et seule la mise en forme passe par `chrono`.

use vstd::prelude::*;

verus! {

/// Un instant, lu une seule fois sur l'horloge, sous les trois formes qu'en
/// ecrit l'application.
pub struct Instant {
    /// RFC 3339, par exemple `2026-09-01T12:00:00.123456789+00:00`.
    pub rfc3339: String,
    /// `%Y%m%dT%H%M%S`, par exemple `20260901T120000`.
    pub compact: String,
    /// `%Y%m%dT%H%M%S%6f`, la meme a la microseconde pres.
    pub compact_micro: String,
}

/// Un horodatage `%Y%m%dT%H%M%S` : au moins quinze caracteres, tous des
/// chiffres, le `T` qui separe la date de l'heure, ou le `+` que `chrono`
/// met devant une annee au-dela de 9999. Aucun `:` donc.
pub open spec fn horodatage_compact(s: Seq<char>) -> bool {
    &&& s.len() >= 15
    &&& forall|i: int| 0 <= i < s.len() ==> ('0' <= #[trigger] s[i] <= '9' || s[i] == 'T' || s[i] == '+')
}

/// Le motif RFC 3339 de `chrono` : `2026-09-01T12:00:00.123456789+00:00`.
pub const MOTIF_RFC3339: &'static str = "%+";
/// Le motif compact, a la seconde : `20260901T120000`.
pub const MOTIF_COMPACT: &'static str = "%Y%m%dT%H%M%S";
/// Le motif compact, a la microseconde : `20260901T120000123456`.
pub const MOTIF_COMPACT_MICRO: &'static str = "%Y%m%dT%H%M%S%6f";

/// Les motifs que l'application donne a ecrire.
pub open spec fn motif_connu(motif: Seq<char>) -> bool {
    motif == MOTIF_RFC3339@ || motif == MOTIF_COMPACT@ || motif == MOTIF_COMPACT_MICRO@
}

/// Le nombre de jours du 1er janvier de l'an 1 (jour 1) au 1er janvier 1970.
pub const JOUR_EPOQUE_UNIX: i64 = 719163;

#[verifier::external_type_specification]
#[verifier::external_body]
pub struct ExSystemTime(std::time::SystemTime);

/// L'heure de la machine.
///
/// Appelle `std::time::SystemTime::now`. Rien n'est promis de sa valeur :
/// elle depend de l'horloge de la machine.
#[verifier::external_body]
fn horloge_systeme() -> std::time::SystemTime {
    std::time::SystemTime::now()
}

/// La duree ecoulee depuis le 1er janvier 1970, ou `None` quand l'horloge
/// est reglee avant.
///
/// Appelle `SystemTime::duration_since(UNIX_EPOCH)`, dont l'erreur devient
/// `None`. Rien n'est promis de la duree : elle depend de l'heure lue.
#[verifier::external_body]
fn duree_depuis_epoque(t: &std::time::SystemTime) -> Option<core::time::Duration> {
    t.duration_since(std::time::UNIX_EPOCH).ok()
}

/// Les secondes entieres d'une duree (`Duration::as_secs`) ; rien n'en est
/// promis, la duree etant opaque.
pub assume_specification[ core::time::Duration::as_secs ](d: &core::time::Duration) -> u64;

/// Les nanosecondes d'une duree au-dela de ses secondes entieres
/// (`Duration::subsec_nanos`) : sa documentation promet une valeur toujours
/// inferieure a un milliard.
pub assume_specification[ core::time::Duration::subsec_nanos ](d: &core::time::Duration) -> (n: u32)
    ensures
        n < 1_000_000_000,
;

/// Un instant UNIX, ecrit selon un motif de `chrono`, quand `chrono` le
/// represente.
pub uninterp spec fn instant_ecrit(secondes: int, nanos: int, motif: Seq<char>) -> Option<Seq<char>>;

/// Ecrit un instant UNIX selon l'un des motifs de l'application.
///
/// Appelle `chrono::DateTime::<Utc>::from_timestamp(secondes, nanos)`, qui
/// rend `None` hors de l'intervalle que `chrono` represente, puis le
/// `format(motif)` du resultat, rendu en `String`. Le contrat nomme le
/// resultat, et n'en dit qu'un fait, lu dans le code de mise en forme de
/// `chrono` : avec le motif compact, l'annee s'ecrit sur au moins quatre
/// chiffres (precedee d'un `+` au-dela de 9999 ; `secondes` positif ne donne
/// aucune annee avant 1970), puis mois, jour, heure, minute et seconde sur
/// deux chiffres, autour du `T`. Le motif est l'un des trois de
/// l'application, que `chrono` sait tous ecrire : un motif invalide ferait
/// paniquer la conversion en `String`.
#[verifier::external_body]
fn ecrire_instant(secondes: i64, nanos: u32, motif: &str) -> (r: Option<String>)
    requires
        motif_connu(motif@),
    ensures
        match r {
            Some(s) => instant_ecrit(secondes as int, nanos as int, motif@) == Some(s@),
            None => instant_ecrit(secondes as int, nanos as int, motif@) is None,
        },
        (motif@ == MOTIF_COMPACT@ && secondes >= 0) ==> (r matches Some(s) ==> horodatage_compact(s@)),
{
    chrono::DateTime::from_timestamp(secondes, nanos).map(|d| d.format(motif).to_string())
}

/// L'heure de la machine en secondes et nanosecondes depuis le 1er janvier
/// 1970, ou `None` quand l'horloge est reglee avant, ou si loin apres que
/// les secondes ne tiennent plus sur un `i64`.
fn instant_unix() -> (r: Option<(i64, u32)>)
    ensures
        r matches Some((secondes, nanos)) ==> secondes >= 0 && nanos < 1_000_000_000,
{
    let t = horloge_systeme();
    match duree_depuis_epoque(&t) {
        Some(d) => {
            let secondes = d.as_secs();
            if secondes > i64::MAX as u64 {
                None
            } else {
                Some((secondes as i64, d.subsec_nanos()))
            }
        },
        None => None,
    }
}

/// Un instant lu une fois sur l'horloge, a `secondes` et `nanos` apres le
/// 1er janvier 1970, et ecrit selon chacun des trois motifs.
pub open spec fn instant_ecrit_aux_trois_motifs(i: Instant, secondes: int, nanos: int) -> bool {
    &&& secondes >= 0
    &&& 0 <= nanos < 1_000_000_000
    &&& instant_ecrit(secondes, nanos, MOTIF_RFC3339@) == Some(i.rfc3339@)
    &&& instant_ecrit(secondes, nanos, MOTIF_COMPACT@) == Some(i.compact@)
    &&& instant_ecrit(secondes, nanos, MOTIF_COMPACT_MICRO@) == Some(i.compact_micro@)
}

/// Un instant que l'horloge a pu donner : une seule lecture, ecrite selon
/// les trois motifs, dont le compact a la forme annoncee.
pub open spec fn instant_lu(i: Instant) -> bool {
    &&& exists|secondes: int, nanos: int| instant_ecrit_aux_trois_motifs(i, secondes, nanos)
    &&& horodatage_compact(i.compact@)
}

/// L'instant present, en temps universel, sous ses trois formes, ou `None`
/// quand l'horloge de la machine ne donne pas d'instant que `chrono`
/// represente. Les trois formes viennent d'une seule lecture de l'horloge :
/// `rfc3339` est cette lecture ecrite avec `MOTIF_RFC3339`, `compact` avec
/// `MOTIF_COMPACT` et `compact_micro` avec `MOTIF_COMPACT_MICRO`. Quelle
/// lecture, le contrat ne le dit pas : elle depend de l'horloge.
pub fn instant_present() -> (r: Option<Instant>)
    ensures
        r matches Some(i) ==> instant_lu(i),
{
    let (secondes, nanos) = match instant_unix() {
        Some(lu) => lu,
        None => return None,
    };
    proof {
        reveal_strlit("%+");
        reveal_strlit("%Y%m%dT%H%M%S");
        reveal_strlit("%Y%m%dT%H%M%S%6f");
    }
    let rfc3339 = match ecrire_instant(secondes, nanos, MOTIF_RFC3339) {
        Some(s) => s,
        None => return None,
    };
    let compact = match ecrire_instant(secondes, nanos, MOTIF_COMPACT) {
        Some(s) => s,
        None => return None,
    };
    let compact_micro = match ecrire_instant(secondes, nanos, MOTIF_COMPACT_MICRO) {
        Some(s) => s,
        None => return None,
    };
    let instant = Instant { rfc3339, compact, compact_micro };
    assert(instant_ecrit_aux_trois_motifs(instant, secondes as int, nanos as int));
    Some(instant)
}

/// Le numero du jour d'un instant UNIX : le jour 1 est le 1er janvier de
/// l'an 1, le 1er janvier 1970 est le jour 719163. `None` quand le numero ne
/// tient pas sur un `i32`.
pub fn jour_de(secondes: u64) -> (r: Option<i32>)
    ensures
        secondes / 86400 + JOUR_EPOQUE_UNIX <= i32::MAX <==> r is Some,
        r matches Some(j) ==> j == secondes / 86400 + JOUR_EPOQUE_UNIX,
{
    let jours = secondes / 86400;
    if jours > (i32::MAX as u64) - (JOUR_EPOQUE_UNIX as u64) {
        None
    } else {
        Some((jours + JOUR_EPOQUE_UNIX as u64) as i32)
    }
}

/// Le numero du jour courant en temps universel, ou `None` quand l'horloge
/// ne donne pas de jour. De la valeur, qui depend de l'horloge, le contrat
/// ne dit que qu'elle ne precede pas 1970.
pub fn jour_courant() -> (r: Option<i32>)
    ensures
        r matches Some(j) ==> j >= JOUR_EPOQUE_UNIX,
{
    match instant_unix() {
        Some((secondes, _)) => jour_de(secondes as u64),
        None => None,
    }
}

/// La date `AAAA-MM-JJ` du jour de ce numero, quand `chrono` la represente.
pub uninterp spec fn date_calendaire(jour: int) -> Option<Seq<char>>;

/// La date d'un jour, au format ISO `AAAA-MM-JJ`.
///
/// Rend `NaiveDate::from_num_days_from_ce_opt(jour)`, mis en forme par son
/// `Display` : `None` hors de l'intervalle de dates que `chrono` represente.
/// Le contrat nomme ce resultat sans le decrire.
#[verifier::external_body]
pub(crate) fn date_iso(jour: i32) -> (d: Option<String>)
    ensures
        match d {
            Some(s) => date_calendaire(jour as int) == Some(s@),
            None => date_calendaire(jour as int) is None,
        },
{
    chrono::NaiveDate::from_num_days_from_ce_opt(jour).map(|date| date.to_string())
}

} // verus!
