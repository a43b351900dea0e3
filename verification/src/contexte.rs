//! Le contexte partage par tous les modules : le tenant, les noms d'espaces
//! ou ecrire, et le prefixe des cles d'idempotence.

use vstd::prelude::*;
use crate::horloge::{
    horodatage_compact, instant_ecrit, instant_ecrit_aux_trois_motifs, instant_present, MOTIF_COMPACT,
};
use crate::schema::BUCKET_PIECES;
use crate::texte::{ajouter, composer, depuis, reunir, reunir_injectif};

verus! {

/// Comment le client s'authentifie aupres du serveur.
#[derive(Debug, Clone, PartialEq, Eq)]
pub enum ModeAuth {
    /// Aucun jeton n'est demande ni envoye. Reserve au developpement local ou
    /// a un segment reseau deja chiffre.
    Desactivee,
    /// Le client lit lui-meme `AUTH_TOKEN_URL`, `AUTH_CLIENT_ID` et
    /// `AUTH_CLIENT_SECRET` a sa construction.
    VariablesEnv,
    /// Les trois valeurs sont fournies explicitement, par exemple parce
    /// qu'elles viennent d'un coffre.
    Explicite {
        token_url: String,
        client_id: String,
        client_secret: String,
    },
}

/// Ce dont les modules metier ont besoin, a cote du client : le tenant, et
/// les noms d'espaces ou ecrire.
#[derive(Debug, Clone, PartialEq, Eq)]
pub struct Contexte {
    pub tenant: String,
    pub graphe: String,
    pub bucket: String,
    /// Prefixe des cles d'idempotence de cette execution. Voir [`Contexte::cle`].
    pub job: String,
}

/// Le prefixe d'idempotence d'une execution lancee a cet horodatage.
pub fn job_de(horodatage: &str) -> (job: String)
    ensures
        job@ == "demo-"@ + horodatage@,
{
    let mut job = depuis("demo-");
    ajouter(&mut job, horodatage);
    job
}

/// Un prefixe `demo-` suivi d'un instant UNIX, de `secondes >= 0` et
/// `nanos` sous la seconde, ecrit par `chrono` avec `MOTIF_COMPACT`.
pub open spec fn prefixe_horodate(job: Seq<char>) -> bool {
    exists|h: Seq<char>|
        {
            &&& job == "demo-"@ + h
            &&& horodatage_compact(h)
            &&& exists|secondes: int, nanos: int|
                {
                    &&& secondes >= 0
                    &&& 0 <= nanos < 1_000_000_000
                    &&& #[trigger] instant_ecrit(secondes, nanos, MOTIF_COMPACT@) == Some(h)
                }
        }
}

/// Le prefixe d'idempotence par defaut : `demo-` suivi de l'horodatage
/// `%Y%m%dT%H%M%S` de l'instant present, donc different d'une execution a
/// l'autre ; `None` quand l'horloge de la machine ne donne pas d'instant.
pub fn job_par_defaut() -> (r: Option<String>)
    ensures
        r matches Some(job) ==> {
            &&& prefixe_horodate(job@)
            &&& !job@.contains(':')
        },
{
    match instant_present() {
        Some(instant) => {
            let job = job_de(instant.compact.as_str());
            proof {
                prefixe_sans_separateur(instant.compact@);
                let (s, n) = choose|s: int, n: int| instant_ecrit_aux_trois_motifs(instant, s, n);
                assert(instant_ecrit(s, n, MOTIF_COMPACT@) == Some(instant.compact@));
            }
            Some(job)
        },
        None => None,
    }
}

/// Un prefixe `demo-` suivi d'un horodatage ne contient aucun `:`.
proof fn prefixe_sans_separateur(h: Seq<char>)
    requires
        horodatage_compact(h),
    ensures
        !("demo-"@ + h).contains(':'),
{
    reveal_strlit("demo-");
    let s = "demo-"@ + h;
    if s.contains(':') {
        let i = choose|i: int| 0 <= i < s.len() && s[i] == ':';
        if i < 5 {
            assert(s[i] == "demo-"@[i]);
        } else {
            assert(s[i] == h[i - 5]);
        }
    }
}

/// La cle d'idempotence d'une operation sur un identifiant, pour
/// l'execution `job` : `{job}:{operation}:{identifiant}`.
pub open spec fn cle_operation(job: Seq<char>, operation: Seq<char>, identifiant: Seq<char>) -> Seq<char> {
    reunir(job, ':', reunir(operation, ':', identifiant))
}

/// La cle de la reparation du noeud d'un client : stable, liee au client
/// seul, pour que la reparation soit elle-meme rejouable d'une execution a
/// l'autre.
pub fn cle_reparation_noeud(client_id: &str) -> (c: String)
    ensures
        c@ == reunir("reparation-noeud"@, ':', client_id@),
{
    composer("reparation-noeud", ':', client_id)
}

impl Contexte {
    /// Le contexte d'un tenant : le graphe `erp`, le bucket des pieces
    /// jointes, et un prefixe d'idempotence neuf ; `None` quand l'horloge de
    /// la machine ne donne pas d'instant pour ce prefixe.
    pub fn nouveau(tenant: &str) -> (r: Option<Contexte>)
        ensures
            r matches Some(ctx) ==> {
                &&& ctx.tenant@ == tenant@
                &&& ctx.graphe@ == "erp"@
                &&& ctx.bucket@ == BUCKET_PIECES@
                &&& prefixe_horodate(ctx.job@)
                &&& !ctx.job@.contains(':')
            },
    {
        match job_par_defaut() {
            Some(job) => Some(Contexte {
                tenant: depuis(tenant),
                graphe: depuis("erp"),
                bucket: depuis(BUCKET_PIECES),
                job,
            }),
            None => None,
        }
    }

    /// Cle d'idempotence, prefixee par l'identifiant de cette execution.
    ///
    /// Le serveur deduplique sur `(tenant, operation, request_id)` pendant
    /// 24 h par defaut. Une cle *stable* est donc ce qu'il faut pour rejouer
    /// sans risque un import interrompu — mais si la demonstration reutilisait
    /// les memes cles a chaque lancement, un second passage apres une purge
    /// ne reecrirait rien du tout.
    ///
    /// D'ou le compromis : cle stable *a l'interieur* d'une execution, unique
    /// d'une execution a l'autre.
    pub fn cle(&self, suffixe: &str) -> (c: String)
        ensures
            c@ == reunir(self.job@, ':', suffixe@),
    {
        composer(self.job.as_str(), ':', suffixe)
    }

    /// La cle d'idempotence de la creation du devis.
    pub fn cle_devis(&self, devis_id: &str) -> (c: String)
        ensures
            c@ == cle_operation(self.job@, "devis"@, devis_id@),
    {
        let nom = composer("devis", ':', devis_id);
        self.cle(nom.as_str())
    }

    /// La cle d'idempotence de la creation du bon de commande.
    pub fn cle_commande(&self, commande_id: &str) -> (c: String)
        ensures
            c@ == cle_operation(self.job@, "commande"@, commande_id@),
    {
        let nom = composer("commande", ':', commande_id);
        self.cle(nom.as_str())
    }

    /// La cle d'idempotence de la creation de la facture.
    pub fn cle_facture(&self, facture_id: &str) -> (c: String)
        ensures
            c@ == cle_operation(self.job@, "facture"@, facture_id@),
    {
        let nom = composer("facture", ':', facture_id);
        self.cle(nom.as_str())
    }

    /// La cle d'idempotence de l'encaissement de la facture : un encaissement rejoue ne repasse pas deux fois le meme reglement.
    pub fn cle_encaissement(&self, facture_id: &str) -> (c: String)
        ensures
            c@ == cle_operation(self.job@, "encaissement"@, facture_id@),
    {
        let nom = composer("encaissement", ':', facture_id);
        self.cle(nom.as_str())
    }

    /// La cle d'idempotence de l'import de l'article : un import interrompu se relance a l'identique.
    pub fn cle_import_article(&self, article_id: &str) -> (c: String)
        ensures
            c@ == cle_operation(self.job@, "import-article"@, article_id@),
    {
        let nom = composer("import-article", ':', article_id);
        self.cle(nom.as_str())
    }

    /// La cle d'idempotence de l'ecriture du fournisseur.
    pub fn cle_fournisseur(&self, fournisseur_id: &str) -> (c: String)
        ensures
            c@ == cle_operation(self.job@, "fournisseur"@, fournisseur_id@),
    {
        let nom = composer("fournisseur", ':', fournisseur_id);
        self.cle(nom.as_str())
    }

    /// La cle d'idempotence de la suppression du fournisseur.
    pub fn cle_suppression_fournisseur(&self, fournisseur_id: &str) -> (c: String)
        ensures
            c@ == cle_operation(self.job@, "suppression-fournisseur"@, fournisseur_id@),
    {
        let nom = composer("suppression-fournisseur", ':', fournisseur_id);
        self.cle(nom.as_str())
    }

    /// La cle d'idempotence de la suppression de la piece jointe.
    pub fn cle_suppression_piece(&self, file_id: &str) -> (c: String)
        ensures
            c@ == cle_operation(self.job@, "suppression-piece"@, file_id@),
    {
        let nom = composer("suppression-piece", ':', file_id);
        self.cle(nom.as_str())
    }

    /// La cle d'idempotence de la suppression de l'arete.
    pub fn cle_suppression_arete(&self, edge_id: &str) -> (c: String)
        ensures
            c@ == cle_operation(self.job@, "suppression-arete"@, edge_id@),
    {
        let nom = composer("suppression-arete", ':', edge_id);
        self.cle(nom.as_str())
    }

    /// Fige le prefixe des cles d'idempotence.
    pub fn avec_job(self, job: Option<String>) -> (ctx: Contexte)
        ensures
            ctx.tenant == self.tenant,
            ctx.graphe == self.graphe,
            ctx.bucket == self.bucket,
            ctx.job == (match job {
                Some(j) => j,
                None => self.job,
            }),
    {
        let mut ctx = self;
        if let Some(job) = job {
            ctx.job = job;
        }
        ctx
    }
}

/// Deux executions dont les prefixes different, et ne contiennent pas `:`,
/// n'ont aucune cle d'idempotence en commun ; a l'interieur d'une execution,
/// deux suffixes distincts donnent deux cles distinctes.
pub proof fn cles_propres_a_l_execution(job1: Seq<char>, suffixe1: Seq<char>, job2: Seq<char>, suffixe2: Seq<char>)
    requires
        !job1.contains(':'),
        !job2.contains(':'),
        job1 != job2 || suffixe1 != suffixe2,
    ensures
        reunir(job1, ':', suffixe1) != reunir(job2, ':', suffixe2),
{
    if reunir(job1, ':', suffixe1) == reunir(job2, ':', suffixe2) {
        reunir_injectif(job1, suffixe1, job2, suffixe2, ':');
    }
}

} // verus!
