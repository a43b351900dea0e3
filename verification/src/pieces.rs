//! Pieces jointes : le decoupage d'un televersement, et les documents
//! produits sans serveur.
//!
//! Le contrat de fil d'un televersement : le **premier** message porte les
//! metadonnees (`tenant_id`, `bucket`, `file_id`, `size_bytes`,
//! `content_type`, `checksum`, `request_id`) ; les suivants ne sont lus que
//! pour leur `chunk` ; aucun `chunk` ne depasse 1 Mio ; la somme des `chunk`
//! doit valoir exactement `size_bytes` ; et le `checksum` fait exactement
//! 32 octets — le serveur en verifie la longueur, jamais le contenu.

use vstd::prelude::*;
use vstd::slice::{slice_subrange, slice_to_vec};
use sha2::Digest;
use vstd::utf8::encode_utf8;
use crate::contexte::Contexte;
use crate::texte::{reunir, ajouter, ajouter_decimal, ajouter_entier, ajouter_sur_dix_chiffres, decimal, decimal_signe, depuis, pousser, sur_dix_chiffres, vide};

verus! {

/// Taille de message du contrat de fil : le maximum accepte par le serveur,
/// donc le nombre minimal de messages pour un fichier donne.
pub const TAILLE_CHUNK: usize = 1024 * 1024;

/// L'empreinte SHA-256 d'une suite d'octets.
pub uninterp spec fn empreinte_sha256(contenu: Seq<u8>) -> Seq<u8>;

/// L'empreinte SHA-256 d'un contenu.
///
/// Rend `sha2::Sha256::digest(contenu)`, en vecteur. Le contrat nomme le
/// resultat sans decrire l'algorithme, et n'en dit que la taille : 32 octets,
/// la taille de sortie fixe de SHA-256.
#[verifier::external_body]
pub(crate) fn sha256(contenu: &[u8]) -> (e: Vec<u8>)
    ensures
        e@ == empreinte_sha256(contenu@),
        e@.len() == 32,
{
    sha2::Sha256::digest(contenu).to_vec()
}

/// Le morceau numero `i` d'un contenu decoupe en tranches de `taille` octets :
/// la derniere tranche est la seule qui puisse etre plus courte.
pub open spec fn morceau(contenu: Seq<u8>, i: int, taille: int) -> Seq<u8> {
    let debut = i * taille;
    let fin = if (i + 1) * taille <= contenu.len() { (i + 1) * taille } else { contenu.len() as int };
    contenu.subrange(debut, fin)
}

/// Le nombre de tranches de `taille` octets qu'il faut pour `longueur`
/// octets : aucune pour un contenu vide.
pub open spec fn nombre_morceaux(longueur: int, taille: int) -> int {
    (longueur + taille - 1) / taille
}

/// Les octets de plusieurs morceaux, mis bout a bout.
pub open spec fn recoller(morceaux: Seq<Seq<u8>>) -> Seq<u8>
    decreases morceaux.len(),
{
    if morceaux.len() == 0 {
        Seq::<u8>::empty()
    } else {
        recoller(morceaux.drop_last()) + morceaux.last()
    }
}

/// Le contenu de chaque vecteur.
pub open spec fn vues(morceaux: Seq<Vec<u8>>) -> Seq<Seq<u8>> {
    morceaux.map_values(|m: Vec<u8>| m@)
}

proof fn borne_du_nombre(i: int, taille: int, longueur: int)
    requires
        taille > 0,
        i >= 0,
        longueur >= 0,
        i * taille >= longueur,
        i == 0 || (i - 1) * taille < longueur,
    ensures
        i == nombre_morceaux(longueur, taille),
{
    if i == 0 {
        assert(0 <= longueur + taille - 1 < taille);
        assert((longueur + taille - 1) / taille == 0) by (nonlinear_arith)
            requires
                0 <= longueur + taille - 1 < taille,
        ;
    } else {
        assert((longueur + taille - 1) / taille == i) by (nonlinear_arith)
            requires
                taille > 0,
                i * taille >= longueur,
                (i - 1) * taille < longueur,
        ;
    }
}

/// Decoupe un contenu en tranches de `taille` octets, dans l'ordre.
///
/// Chaque tranche fait `taille` octets sauf la derniere, et les tranches
/// recollees redonnent le contenu : aucun octet n'est perdu ni ajoute.
pub fn decouper(contenu: &[u8], taille: usize) -> (r: Vec<Vec<u8>>)
    requires
        taille > 0,
    ensures
        r@.len() == nombre_morceaux(contenu@.len() as int, taille as int),
        forall|i: int| 0 <= i < r@.len() ==> (#[trigger] r@[i])@ == morceau(contenu@, i, taille as int),
        forall|i: int| 0 <= i < r@.len() ==> 0 < (#[trigger] r@[i])@.len() <= taille,
        recoller(vues(r@)) == contenu@,
{
    let mut r: Vec<Vec<u8>> = Vec::new();
    let mut debut: usize = 0;
    let longueur = contenu.len();
    proof {
        assert(0 * (taille as int) == 0) by (nonlinear_arith);
        assert(contenu@.take(0) =~= Seq::<u8>::empty());
        assert(vues(r@) =~= Seq::<Seq<u8>>::empty());
    }
    while debut < longueur
        invariant
            longueur == contenu@.len(),
            taille > 0,
            debut <= longueur,
            debut < longueur ==> debut as int == r@.len() * taille,
            debut == longueur ==> r@.len() * taille >= longueur,
            r@.len() == 0 || (r@.len() - 1) * taille < longueur,
            forall|i: int| 0 <= i < r@.len() ==> (#[trigger] r@[i])@ == morceau(contenu@, i, taille as int),
            forall|i: int| 0 <= i < r@.len() ==> 0 < (#[trigger] r@[i])@.len() <= taille,
            recoller(vues(r@)) == contenu@.take(debut as int),
        decreases longueur - debut,
    {
        let n = r.len();
        let fin: usize = if longueur - debut <= taille { longueur } else { debut + taille };
        let tranche = slice_to_vec(slice_subrange(contenu, debut, fin));
        proof {
            assert((n + 1) * (taille as int) == n * taille + taille) by (nonlinear_arith);
            assert(tranche@ == morceau(contenu@, n as int, taille as int));
        }
        let ghost avant = r@;
        r.push(tranche);
        proof {
            assert(vues(r@).drop_last() =~= vues(avant));
            assert(contenu@.take(fin as int) =~= contenu@.take(debut as int) + tranche@);
            assert(r@.len() - 1 == n);
        }
        debut = fin;
    }
    proof {
        borne_du_nombre(r@.len() as int, taille as int, longueur as int);
        assert(contenu@.take(longueur as int) =~= contenu@);
    }
    r
}

/// Un message de televersement, au format du contrat de fil.
#[derive(Debug, Clone, Default, PartialEq, Eq)]
pub struct MessageTeleversement {
    pub tenant_id: String,
    pub bucket: String,
    pub file_id: String,
    pub size_bytes: u64,
    pub content_type: String,
    pub checksum: Vec<u8>,
    pub chunk: Vec<u8>,
    pub request_id: String,
}

/// Un message qui ne porte que son morceau.
pub open spec fn message_de_suite(m: MessageTeleversement) -> bool {
    &&& m.tenant_id@.len() == 0
    &&& m.bucket@.len() == 0
    &&& m.file_id@.len() == 0
    &&& m.size_bytes == 0
    &&& m.content_type@.len() == 0
    &&& m.checksum@.len() == 0
    &&& m.request_id@.len() == 0
}

/// Les morceaux de chaque message.
pub open spec fn morceaux_des_messages(messages: Seq<MessageTeleversement>) -> Seq<Seq<u8>> {
    messages.map_values(|m: MessageTeleversement| m.chunk@)
}

/// Construit la suite de messages d'un televersement, en respectant le
/// contrat de fil.
///
/// Le premier message porte les metadonnees et le premier morceau ; un
/// fichier vide tient en un seul message, sans donnee. Les messages suivants
/// ne portent que leur morceau.
pub fn construire_messages(
    tenant: &str,
    bucket: &str,
    file_id: &str,
    contenu: &[u8],
    content_type: &str,
    request_id: &str,
) -> (messages: Vec<MessageTeleversement>)
    ensures
        messages@.len() == if contenu@.len() == 0 { 1 } else { nombre_morceaux(contenu@.len() as int, TAILLE_CHUNK as int) },
        messages@[0].tenant_id@ == tenant@,
        messages@[0].bucket@ == bucket@,
        messages@[0].file_id@ == file_id@,
        messages@[0].size_bytes == contenu@.len(),
        messages@[0].content_type@ == content_type@,
        messages@[0].checksum@ == empreinte_sha256(contenu@),
        messages@[0].checksum@.len() == 32,
        messages@[0].request_id@ == request_id@,
        forall|i: int| 1 <= i < messages@.len() ==> message_de_suite(#[trigger] messages@[i]),
        forall|i: int| 0 <= i < messages@.len() ==> (#[trigger] messages@[i]).chunk@ == morceau(contenu@, i, TAILLE_CHUNK as int),
        forall|i: int| 0 <= i < messages@.len() ==> (#[trigger] messages@[i]).chunk@.len() <= TAILLE_CHUNK,
        recoller(morceaux_des_messages(messages@)) == contenu@,
{
    let morceaux = decouper(contenu, TAILLE_CHUNK);
    let n = morceaux.len();
    let premier: Vec<u8> = if n > 0 { slice_to_vec(morceaux[0].as_slice()) } else { Vec::new() };
    let entete = MessageTeleversement {
        tenant_id: tenant.to_owned(),
        bucket: bucket.to_owned(),
        file_id: file_id.to_owned(),
        size_bytes: contenu.len() as u64,
        content_type: content_type.to_owned(),
        checksum: sha256(contenu),
        chunk: premier,
        request_id: request_id.to_owned(),
    };
    let mut messages: Vec<MessageTeleversement> = Vec::new();
    messages.push(entete);
    let mut i: usize = 1;
    while i < n
        invariant
            n == morceaux@.len(),
            1 <= i,
            n > 0 ==> i <= n,
            n == 0 ==> i == 1,
            messages@.len() == i,
            messages@[0] == entete,
            forall|k: int| 1 <= k < messages@.len() ==> message_de_suite(#[trigger] messages@[k]),
            forall|k: int| 1 <= k < messages@.len() ==> (#[trigger] messages@[k]).chunk@ == morceaux@[k]@,
        decreases n - i,
    {
        let suite = message_de_suite_pour(slice_to_vec(morceaux[i].as_slice()));
        messages.push(suite);
        i = i + 1;
    }
    proof {
        messages_conformes(contenu@, morceaux@, messages@);
    }
    messages
}

/// Un message de suite, qui ne porte que ce morceau.
fn message_de_suite_pour(chunk: Vec<u8>) -> (m: MessageTeleversement)
    ensures
        message_de_suite(m),
        m.chunk@ == chunk@,
{
    MessageTeleversement {
        tenant_id: String::new(),
        bucket: String::new(),
        file_id: String::new(),
        size_bytes: 0,
        content_type: String::new(),
        checksum: Vec::new(),
        chunk,
        request_id: String::new(),
    }
}

proof fn messages_conformes(contenu: Seq<u8>, morceaux: Seq<Vec<u8>>, messages: Seq<MessageTeleversement>)
    requires
        morceaux.len() == nombre_morceaux(contenu.len() as int, TAILLE_CHUNK as int),
        forall|k: int| 0 <= k < morceaux.len() ==> (#[trigger] morceaux[k])@ == morceau(contenu, k, TAILLE_CHUNK as int),
        forall|k: int| 0 <= k < morceaux.len() ==> 0 < (#[trigger] morceaux[k])@.len() <= TAILLE_CHUNK,
        recoller(vues(morceaux)) == contenu,
        messages.len() == if morceaux.len() == 0 { 1 } else { morceaux.len() },
        morceaux.len() > 0 ==> messages[0].chunk@ == morceaux[0]@,
        morceaux.len() == 0 ==> messages[0].chunk@.len() == 0,
        forall|k: int| 1 <= k < messages.len() ==> (#[trigger] messages[k]).chunk@ == morceaux[k]@,
    ensures
        messages.len() == if contenu.len() == 0 { 1 } else { nombre_morceaux(contenu.len() as int, TAILLE_CHUNK as int) },
        forall|i: int| 0 <= i < messages.len() ==> (#[trigger] messages[i]).chunk@ == morceau(contenu, i, TAILLE_CHUNK as int),
        forall|i: int| 0 <= i < messages.len() ==> (#[trigger] messages[i]).chunk@.len() <= TAILLE_CHUNK,
        recoller(morceaux_des_messages(messages)) == contenu,
{
    if morceaux.len() == 0 {
        if contenu.len() > 0 {
            assert(nombre_morceaux(contenu.len() as int, TAILLE_CHUNK as int) > 0);
        }
        assert(contenu.len() == 0);
        assert(messages[0].chunk@ =~= morceau(contenu, 0, TAILLE_CHUNK as int));
        let m = morceaux_des_messages(messages);
        assert(m.drop_last() =~= Seq::<Seq<u8>>::empty());
        assert(recoller(m.drop_last()) == Seq::<u8>::empty());
        assert(m.last() == messages[0].chunk@);
        assert(recoller(m) =~= messages[0].chunk@);
    } else {
        assert(contenu.len() > 0) by {
            if contenu.len() == 0 {
                assert(nombre_morceaux(0, TAILLE_CHUNK as int) == 0);
            }
        }
        assert(morceaux_des_messages(messages) =~= vues(morceaux));
        assert forall|i: int| 0 <= i < messages.len() implies (#[trigger] messages[i]).chunk@ == morceau(contenu, i, TAILLE_CHUNK as int) by {
            assert(messages[i].chunk@ == morceaux[i]@);
        }
        assert forall|i: int| 0 <= i < messages.len() implies (#[trigger] messages[i]).chunk@.len() <= TAILLE_CHUNK by {
            assert(messages[i].chunk@ == morceaux[i]@);
        }
    }
}

// --- Preparation des televersements ------------------------------------------

/// Ce que les trois modes de televersement envoient : la suite de messages
/// respecte le contrat de fil pour ces metadonnees et ce contenu.
pub open spec fn televersement_conforme(
    messages: Seq<MessageTeleversement>,
    tenant: Seq<char>,
    bucket: Seq<char>,
    file_id: Seq<char>,
    contenu: Seq<u8>,
    content_type: Seq<char>,
    request_id: Seq<char>,
) -> bool {
    &&& messages.len() == if contenu.len() == 0 { 1 } else { nombre_morceaux(contenu.len() as int, TAILLE_CHUNK as int) }
    &&& messages[0].tenant_id@ == tenant
    &&& messages[0].bucket@ == bucket
    &&& messages[0].file_id@ == file_id
    &&& messages[0].size_bytes == contenu.len()
    &&& messages[0].content_type@ == content_type
    &&& messages[0].checksum@ == empreinte_sha256(contenu)
    &&& messages[0].checksum@.len() == 32
    &&& messages[0].request_id@ == request_id
    &&& forall|i: int| 1 <= i < messages.len() ==> message_de_suite(#[trigger] messages[i])
    &&& forall|i: int| 0 <= i < messages.len() ==> (#[trigger] messages[i]).chunk@ == morceau(contenu, i, TAILLE_CHUNK as int)
    &&& forall|i: int| 0 <= i < messages.len() ==> (#[trigger] messages[i]).chunk@.len() <= TAILLE_CHUNK
    &&& recoller(morceaux_des_messages(messages)) == contenu
}

/// Les options d'un televersement d'un fichier tenu en memoire.
#[derive(Debug, Clone, PartialEq, Eq)]
pub struct OptionsTeleversement {
    pub content_type: String,
    /// L'empreinte SHA-256 du contenu : exactement 32 octets, sans quoi
    /// l'appel echoue cote client, avant tout envoi.
    pub checksum: Vec<u8>,
    pub request_id: String,
}

/// Ce qu'un televersement en flux annonce sur son premier message, et les
/// morceaux qu'il envoie ensuite.
#[derive(Debug, Clone, PartialEq, Eq)]
pub struct PlanFlux {
    /// Le nombre total d'octets, annonce avant le premier morceau.
    pub taille: u64,
    /// L'empreinte SHA-256 du contenu entier, annoncee elle aussi d'avance.
    pub empreinte: Vec<u8>,
    /// Le contenu en morceaux de [`TAILLE_MORCEAU_FLUX`] octets.
    pub morceaux: Vec<Vec<u8>>,
    pub content_type: String,
    pub request_id: String,
}

/// La taille des morceaux d'un televersement en flux. Le SDK les
/// reagglomere en messages de 1 Mio, quelle que soit leur taille d'origine.
pub const TAILLE_MORCEAU_FLUX: usize = 64 * 1024;

/// Le nom d'une operation sur un fichier : `prefixe` puis l'identifiant.
fn operation(prefixe: &str, file_id: &str) -> (s: String)
    ensures
        s@ == prefixe@ + file_id@,
{
    let mut s = depuis(prefixe);
    ajouter(&mut s, file_id);
    s
}

/// Les options a passer avec un fichier deja en memoire : son type, son
/// empreinte SHA-256, et la cle d'idempotence `piece:{file_id}` de cette
/// execution. Rend aussi l'empreinte, que l'appelant peut afficher.
pub fn options_televersement(ctx: &Contexte, file_id: &str, contenu: &[u8], content_type: &str) -> (o: OptionsTeleversement)
    ensures
        o.content_type@ == content_type@,
        o.checksum@ == empreinte_sha256(contenu@),
        o.checksum@.len() == 32,
        o.request_id@ == reunir(ctx.job@, ':', "piece:"@ + file_id@),
{
    let nom = operation("piece:", file_id);
    OptionsTeleversement {
        content_type: depuis(content_type),
        checksum: sha256(contenu),
        request_id: ctx.cle(nom.as_str()),
    }
}

/// Le plan d'un televersement en flux : la taille et l'empreinte connues
/// d'avance, le contenu en morceaux de 64 Kio, et la cle d'idempotence
/// `export:{file_id}` de cette execution.
pub fn plan_flux(ctx: &Contexte, file_id: &str, contenu: &[u8], content_type: &str) -> (p: PlanFlux)
    ensures
        p.taille == contenu@.len(),
        p.empreinte@ == empreinte_sha256(contenu@),
        p.empreinte@.len() == 32,
        p.morceaux@.len() == nombre_morceaux(contenu@.len() as int, TAILLE_MORCEAU_FLUX as int),
        forall|i: int| 0 <= i < p.morceaux@.len() ==> (#[trigger] p.morceaux@[i])@ == morceau(contenu@, i, TAILLE_MORCEAU_FLUX as int),
        recoller(vues(p.morceaux@)) == contenu@,
        p.content_type@ == content_type@,
        p.request_id@ == reunir(ctx.job@, ':', "export:"@ + file_id@),
{
    let nom = operation("export:", file_id);
    PlanFlux {
        taille: contenu.len() as u64,
        empreinte: sha256(contenu),
        morceaux: decouper(contenu, TAILLE_MORCEAU_FLUX),
        content_type: depuis(content_type),
        request_id: ctx.cle(nom.as_str()),
    }
}

/// Les messages d'un televersement construit a la main, dans le tenant et le
/// bucket du contexte, avec la cle d'idempotence `brut:{file_id}` de cette
/// execution.
pub fn messages_bruts(ctx: &Contexte, file_id: &str, contenu: &[u8], content_type: &str) -> (messages: Vec<MessageTeleversement>)
    ensures
        televersement_conforme(messages@, ctx.tenant@, ctx.bucket@, file_id@, contenu@, content_type@,
            reunir(ctx.job@, ':', "brut:"@ + file_id@)),
{
    let nom = operation("brut:", file_id);
    let cle = ctx.cle(nom.as_str());
    construire_messages(ctx.tenant.as_str(), ctx.bucket.as_str(), file_id, contenu, content_type, cle.as_str())
}

// --- PDF -------------------------------------------------------------------

/// Un caractere ASCII.
pub open spec fn est_ascii(c: char) -> bool {
    (c as u32) < 128
}

/// Ce que devient un caractere dans une chaine PDF : les caracteres qui
/// ferment une chaine, et la barre d'echappement, sont echappes ; le
/// non-ASCII disparait.
pub open spec fn echappement(c: char) -> Seq<char> {
    if !est_ascii(c) {
        Seq::<char>::empty()
    } else if c == '\\' {
        seq!['\\', '\\']
    } else if c == '(' {
        seq!['\\', '(']
    } else if c == ')' {
        seq!['\\', ')']
    } else {
        seq![c]
    }
}

/// Un texte pret a figurer dans une chaine PDF.
pub open spec fn texte_echappe(texte: Seq<char>) -> Seq<char>
    decreases texte.len(),
{
    if texte.len() == 0 {
        Seq::<char>::empty()
    } else {
        texte_echappe(texte.drop_last()) + echappement(texte.last())
    }
}

/// Ajoute un texte echappe pour une chaine PDF.
fn ajouter_echappe(s: &mut String, texte: &str)
    ensures
        final(s)@ == old(s)@ + texte_echappe(texte@),
{
    let ghost t = texte@;
    let ghost avant = s@;
    assert(t.take(0) =~= Seq::<char>::empty());
    for c in it: texte.chars()
        invariant
            it.seq() == t,
            s@ == avant + texte_echappe(t.take(it.index() as int)),
    {
        assert(t.take(it.index() + 1).drop_last() =~= t.take(it.index() as int));
        if (c as u32) < 128 {
            if c == '\\' {
                pousser(s, '\\');
                pousser(s, '\\');
            } else if c == '(' {
                pousser(s, '\\');
                pousser(s, '(');
            } else if c == ')' {
                pousser(s, '\\');
                pousser(s, ')');
            } else {
                pousser(s, c);
            }
        }
        assert(s@ =~= avant + texte_echappe(t.take(it.index() + 1)));
    }
    assert(t.take(t.len() as int) =~= t);
}

/// Ce qu'un lecteur PDF lit dans le contenu d'une chaine litterale : une
/// barre d'echappement suivie d'un caractere donne ce caractere, tout autre
/// caractere se lit tel quel.
pub open spec fn lire_chaine_pdf(s: Seq<char>) -> Seq<char>
    decreases s.len(),
{
    if s.len() == 0 {
        Seq::<char>::empty()
    } else if s[0] == '\\' && s.len() >= 2 {
        seq![s[1]] + lire_chaine_pdf(s.skip(2))
    } else {
        seq![s[0]] + lire_chaine_pdf(s.skip(1))
    }
}

/// Les caracteres ASCII d'un texte, dans leur ordre.
pub open spec fn ascii_seulement(texte: Seq<char>) -> Seq<char>
    decreases texte.len(),
{
    if texte.len() == 0 {
        Seq::<char>::empty()
    } else {
        (if est_ascii(texte[0]) { seq![texte[0]] } else { Seq::<char>::empty() }) + ascii_seulement(texte.skip(1))
    }
}

proof fn echappement_concatene(a: Seq<char>, b: Seq<char>)
    ensures
        texte_echappe(a + b) == texte_echappe(a) + texte_echappe(b),
    decreases b.len(),
{
    if b.len() == 0 {
        assert(a + b =~= a);
        assert(texte_echappe(a) + texte_echappe(b) =~= texte_echappe(a));
    } else {
        assert((a + b).drop_last() =~= a + b.drop_last());
        assert((a + b).last() == b.last());
        echappement_concatene(a, b.drop_last());
        assert(texte_echappe(a + b) =~= texte_echappe(a) + texte_echappe(b.drop_last()) + echappement(b.last()));
    }
}

/// Echapper un texte pour une chaine PDF n'en perd que le non-ASCII : un
/// lecteur PDF relit exactement les caracteres ASCII du texte, dans leur
/// ordre, parentheses et barres comprises, et tout ce qui est ecrit est
/// ASCII.
pub proof fn echappement_reversible(texte: Seq<char>)
    ensures
        lire_chaine_pdf(texte_echappe(texte)) == ascii_seulement(texte),
        forall|i: int| 0 <= i < texte_echappe(texte).len() ==> est_ascii(#[trigger] texte_echappe(texte)[i]),
    decreases texte.len(),
{
    if texte.len() > 0 {
        let c = texte[0];
        let reste = texte.skip(1);
        assert(texte =~= seq![c] + reste);
        echappement_concatene(seq![c], reste);
        assert(seq![c].drop_last() =~= Seq::<char>::empty());
        assert(seq![c].last() == c);
        assert(texte_echappe(Seq::<char>::empty()) == Seq::<char>::empty());
        assert(texte_echappe(seq![c]) =~= echappement(c));
        echappement_reversible(reste);
        let e = echappement(c);
        let x = texte_echappe(reste);
        assert(texte_echappe(texte) == e + x);
        if !est_ascii(c) {
            assert(e + x =~= x);
        } else if c == '\\' || c == '(' || c == ')' {
            assert((e + x)[0] == '\\');
            assert((e + x)[1] == c);
            assert((e + x).skip(2) =~= x);
        } else {
            assert((e + x)[0] == c);
            assert((e + x).skip(1) =~= x);
        }
        assert forall|i: int| 0 <= i < texte_echappe(texte).len() implies est_ascii(#[trigger] texte_echappe(texte)[i]) by {
            if i >= e.len() {
                assert(texte_echappe(texte)[i] == x[i - e.len()]);
            }
        }
    }
}

/// Neutralise les caracteres qui ferment une chaine PDF, et laisse tomber le
/// non-ASCII : la police Helvetica de base n'a pas d'encodage UTF-8, un
/// caractere multi-octets y produirait des glyphes faux.
pub fn echapper_pdf(texte: &str) -> (s: String)
    ensures
        s@ == texte_echappe(texte@),
{
    let mut s = vide();
    ajouter_echappe(&mut s, texte);
    s
}

/// La longueur en octets d'un texte encode en UTF-8, telle que la rend
/// `str::len` (un texte qui existe en memoire a une longueur qui tient dans
/// un `usize`).
pub open spec fn octets(texte: Seq<char>) -> nat {
    (encode_utf8(texte).len() as usize) as nat
}

/// La ligne de texte numero `index` sous le titre : dix-huit points plus bas
/// a chaque ligne.
pub open spec fn ligne_de_texte(index: int, ligne: Seq<char>) -> Seq<char> {
    "BT /F1 10 Tf 50 "@ + decimal_signe(750 - index * 18) + " Td ("@ + texte_echappe(ligne) + ") Tj ET\n"@
}

/// Le flux de contenu de la page : le titre, puis chaque ligne.
pub open spec fn texte_page(titre: Seq<char>, lignes: Seq<Seq<char>>) -> Seq<char>
    decreases lignes.len(),
{
    if lignes.len() == 0 {
        "BT /F1 14 Tf 50 780 Td ("@ + texte_echappe(titre) + ") Tj ET\n"@
    } else {
        texte_page(titre, lignes.drop_last()) + ligne_de_texte(lignes.len() - 1, lignes.last())
    }
}

/// Une commande de texte du flux de contenu : la police `/F1` au corps
/// `taille`, et le texte echappe pose au point `(x, y)` de la page.
pub open spec fn texte_pose(taille: int, x: int, y: int, texte: Seq<char>) -> Seq<char> {
    "BT /F1 "@ + decimal_signe(taille) + " Tf "@ + decimal_signe(x) + " "@ + decimal_signe(y) + " Td ("@
        + texte_echappe(texte) + ") Tj ET\n"@
}

/// Ou s'ecrit le texte sur la page, dont la `MediaBox` va de `(0, 0)` a
/// `(595, 842)` : le flux commence par le titre, en corps 14 au point
/// `(50, 780)`, dans le haut de la page et au-dessus de toute ligne ; la
/// ligne numero `n` suit, en corps 10 au point `(50, 750 - 18 n)`, chaque
/// ligne dix-huit points sous la precedente.
pub proof fn position_du_texte(titre: Seq<char>, lignes: Seq<Seq<char>>, ligne: Seq<char>)
    ensures
        texte_page(titre, Seq::<Seq<char>>::empty()) == texte_pose(14, 50, 780, titre),
        texte_page(titre, lignes.push(ligne)) == texte_page(titre, lignes) + texte_pose(
            10,
            50,
            750 - 18 * lignes.len(),
            ligne,
        ),
{
    reveal_strlit("BT /F1 14 Tf 50 780 Td (");
    reveal_strlit("BT /F1 10 Tf 50 ");
    reveal_strlit("BT /F1 ");
    reveal_strlit(" Tf ");
    reveal_strlit(" ");
    reveal_strlit(" Td (");
    reveal_with_fuel(crate::texte::decimal, 4);
    assert(decimal(14) =~= seq!['1', '4']);
    assert(decimal(50) =~= seq!['5', '0']);
    assert(decimal(10) =~= seq!['1', '0']);
    assert(decimal(78) =~= seq!['7', '8']);
    assert(decimal(780) =~= seq!['7', '8', '0']);
    assert(texte_page(titre, Seq::<Seq<char>>::empty()) =~= texte_pose(14, 50, 780, titre));
    let toutes = lignes.push(ligne);
    assert(toutes.drop_last() =~= lignes);
    assert(ligne_de_texte(toutes.len() - 1, toutes.last()) =~= texte_pose(10, 50, 750 - 18 * lignes.len(), ligne));
}

pub open spec fn objet_catalogue() -> Seq<char> {
    "1 0 obj\n<< /Type /Catalog /Pages 2 0 R >>\nendobj\n"@
}

pub open spec fn objet_pages() -> Seq<char> {
    "2 0 obj\n<< /Type /Pages /Kids [3 0 R] /Count 1 >>\nendobj\n"@
}

pub open spec fn objet_page() -> Seq<char> {
    "3 0 obj\n<< /Type /Page /Parent 2 0 R /MediaBox [0 0 595 842] /Resources << /Font << /F1 4 0 R >> >> /Contents 5 0 R >>\nendobj\n"@
}

pub open spec fn objet_police() -> Seq<char> {
    "4 0 obj\n<< /Type /Font /Subtype /Type1 /BaseFont /Helvetica >>\nendobj\n"@
}

/// L'objet qui porte le flux de contenu, precede de sa longueur en octets.
pub open spec fn objet_contenu(texte: Seq<char>) -> Seq<char> {
    "5 0 obj\n<< /Length "@ + decimal(octets(texte)) + " >>\nstream\n"@ + texte + "endstream\nendobj\n"@
}

/// Une entree de la table `xref` : le decalage de l'objet en octets.
pub open spec fn entree_xref(decalage: nat) -> Seq<char> {
    sur_dix_chiffres(decalage) + " 00000 n \n"@
}

/// Les entrees de la table `xref`, dans l'ordre des objets.
pub open spec fn table_xref(decalages: Seq<nat>) -> Seq<char>
    decreases decalages.len(),
{
    if decalages.len() == 0 {
        Seq::<char>::empty()
    } else {
        table_xref(decalages.drop_last()) + entree_xref(decalages.last())
    }
}

/// L'en-tete et les cinq objets, le dernier portant le contenu de la page.
pub open spec fn corps_pdf(contenu: Seq<char>) -> Seq<char> {
    "%PDF-1.4\n"@ + objet_catalogue() + objet_pages() + objet_page() + objet_police() + contenu
}

/// Le decalage en octets de chacun des cinq objets : la longueur de ce qui
/// le precede.
pub open spec fn decalages_objets() -> Seq<nat> {
    seq![
        octets("%PDF-1.4\n"@),
        octets("%PDF-1.4\n"@ + objet_catalogue()),
        octets("%PDF-1.4\n"@ + objet_catalogue() + objet_pages()),
        octets("%PDF-1.4\n"@ + objet_catalogue() + objet_pages() + objet_page()),
        octets("%PDF-1.4\n"@ + objet_catalogue() + objet_pages() + objet_page() + objet_police()),
    ]
}

/// La table `xref` et la queue du document, qui pointe sur cette table.
pub open spec fn queue_pdf(decalages: Seq<nat>, depart_xref: nat) -> Seq<char> {
    "xref\n0 "@ + decimal(decalages.len() + 1) + "\n0000000000 65535 f \n"@ + table_xref(decalages)
        + "trailer\n<< /Size "@ + decimal(decalages.len() + 1) + " /Root 1 0 R >>\nstartxref\n"@
        + decimal(depart_xref) + "\n%%EOF\n"@
}

/// Le document PDF : l'en-tete, les cinq objets, la table `xref` qui indexe
/// chaque objet par son decalage en octets depuis le debut du fichier, et
/// la queue qui pointe sur cette table.
pub open spec fn document_pdf(titre: Seq<char>, lignes: Seq<Seq<char>>) -> Seq<char> {
    let corps = corps_pdf(objet_contenu(texte_page(titre, lignes)));
    corps + queue_pdf(decalages_objets(), octets(corps))
}

/// Les decalages, en entiers naturels.
pub open spec fn naturels(decalages: Seq<usize>) -> Seq<nat> {
    decalages.map_values(|d: usize| d as nat)
}

/// Le contenu de chaque chaine.
pub open spec fn vues_textes(lignes: Seq<String>) -> Seq<Seq<char>> {
    lignes.map_values(|l: String| l@)
}

/// Ajoute un objet au document, en relevant son decalage juste avant.
fn objet(pdf: &mut String, decalages: &mut Vec<usize>, corps: &str)
    ensures
        final(decalages)@ == old(decalages)@.push(final(decalages)@.last()),
        final(decalages)@.len() == old(decalages)@.len() + 1,
        final(decalages)@.drop_last() == old(decalages)@,
        final(decalages)@.last() as nat == octets(old(pdf)@),
        final(pdf)@ == old(pdf)@ + corps@,
{
    decalages.push(pdf.as_str().len());
    ajouter(pdf, corps);
}

/// Le flux de contenu de la page.
fn ecrire_texte_page(titre: &str, lignes: &[String]) -> (texte: String)
    requires
        lignes@.len() <= LIGNES_PDF_MAX,
    ensures
        texte@ == texte_page(titre@, vues_textes(lignes@)),
{
    let mut texte = depuis("BT /F1 14 Tf 50 780 Td (");
    ajouter_echappe(&mut texte, titre);
    ajouter(&mut texte, ") Tj ET\n");
    let mut index: usize = 0;
    assert(vues_textes(lignes@).take(0) =~= Seq::<Seq<char>>::empty());
    while index < lignes.len()
        invariant
            index <= lignes@.len(),
            lignes@.len() <= LIGNES_PDF_MAX,
            texte@ == texte_page(titre@, vues_textes(lignes@).take(index as int)),
        decreases lignes@.len() - index,
    {
        let y: i32 = 750 - (index as i32) * 18;
        let ghost avant = texte@;
        ajouter(&mut texte, "BT /F1 10 Tf 50 ");
        ajouter_entier(&mut texte, y as i64);
        ajouter(&mut texte, " Td (");
        ajouter_echappe(&mut texte, lignes[index].as_str());
        ajouter(&mut texte, ") Tj ET\n");
        proof {
            let vues = vues_textes(lignes@);
            assert(vues.take(index + 1).drop_last() =~= vues.take(index as int));
            assert(vues.take(index + 1).last() == lignes@[index as int]@);
            assert(texte@ =~= avant + ligne_de_texte(index as int, lignes@[index as int]@));
        }
        index = index + 1;
    }
    assert(vues_textes(lignes@).take(lignes@.len() as int) =~= vues_textes(lignes@));
    texte
}

/// L'objet qui porte le flux de contenu.
fn ecrire_objet_contenu(texte: &str) -> (s: String)
    ensures
        s@ == objet_contenu(texte@),
{
    let mut contenu = depuis("5 0 obj\n<< /Length ");
    ajouter_decimal(&mut contenu, texte.len() as u64);
    ajouter(&mut contenu, " >>\nstream\n");
    ajouter(&mut contenu, texte);
    ajouter(&mut contenu, "endstream\nendobj\n");
    assert(contenu@ =~= objet_contenu(texte@));
    contenu
}

/// L'en-tete et les cinq objets, avec le decalage de chaque objet.
fn ecrire_corps(contenu: &str) -> (r: (String, Vec<usize>))
    ensures
        r.0@ == corps_pdf(contenu@),
        r.1@.len() == 5,
        naturels(r.1@) == decalages_objets(),
{
    let mut pdf = depuis("%PDF-1.4\n");
    let mut decalages: Vec<usize> = Vec::new();
    objet(&mut pdf, &mut decalages, "1 0 obj\n<< /Type /Catalog /Pages 2 0 R >>\nendobj\n");
    objet(&mut pdf, &mut decalages, "2 0 obj\n<< /Type /Pages /Kids [3 0 R] /Count 1 >>\nendobj\n");
    objet(
        &mut pdf,
        &mut decalages,
        "3 0 obj\n<< /Type /Page /Parent 2 0 R /MediaBox [0 0 595 842] /Resources << /Font << /F1 4 0 R >> >> /Contents 5 0 R >>\nendobj\n",
    );
    objet(&mut pdf, &mut decalages, "4 0 obj\n<< /Type /Font /Subtype /Type1 /BaseFont /Helvetica >>\nendobj\n");
    objet(&mut pdf, &mut decalages, contenu);
    assert(naturels(decalages@) =~= decalages_objets());
    (pdf, decalages)
}

/// Ajoute la table `xref` et la queue du document.
fn ajouter_xref(pdf: &mut String, decalages: &Vec<usize>)
    requires
        decalages@.len() < 1000,
    ensures
        final(pdf)@ == old(pdf)@ + queue_pdf(naturels(decalages@), octets(old(pdf)@)),
{
    let depart_xref = pdf.as_str().len();
    let ghost debut = pdf@;
    ajouter(pdf, "xref\n0 ");
    ajouter_decimal(pdf, (decalages.len() + 1) as u64);
    ajouter(pdf, "\n0000000000 65535 f \n");
    let mut i: usize = 0;
    let ghost avant = pdf@;
    assert(naturels(decalages@).take(0) =~= Seq::<nat>::empty());
    while i < decalages.len()
        invariant
            i <= decalages@.len(),
            pdf@ == avant + table_xref(naturels(decalages@).take(i as int)),
        decreases decalages@.len() - i,
    {
        ajouter_sur_dix_chiffres(pdf, decalages[i] as u64);
        ajouter(pdf, " 00000 n \n");
        proof {
            assert(naturels(decalages@).take(i + 1).drop_last() =~= naturels(decalages@).take(i as int));
            assert(naturels(decalages@).take(i + 1).last() == decalages@[i as int] as nat);
        }
        i = i + 1;
    }
    assert(naturels(decalages@).take(decalages@.len() as int) =~= naturels(decalages@));
    ajouter(pdf, "trailer\n<< /Size ");
    ajouter_decimal(pdf, (decalages.len() + 1) as u64);
    ajouter(pdf, " /Root 1 0 R >>\nstartxref\n");
    ajouter_decimal(pdf, depart_xref as u64);
    ajouter(pdf, "\n%%EOF\n");
    assert(pdf@ =~= debut + queue_pdf(naturels(decalages@), octets(debut)));
}

/// Le plus grand nombre de lignes d'un PDF minimal : au-dela, la position
/// verticale d'une ligne ne tient plus sur 32 bits.
pub const LIGNES_PDF_MAX: usize = 119304648;

/// Un PDF minimal mais valide, pour avoir une vraie piece jointe a
/// televerser sans embarquer de generateur de documents.
pub fn pdf_minimal(titre: &str, lignes: &[String]) -> (pdf: Vec<u8>)
    requires
        lignes@.len() <= LIGNES_PDF_MAX,
    ensures
        pdf@ == encode_utf8(document_pdf(titre@, vues_textes(lignes@))),
{
    let texte = ecrire_texte_page(titre, lignes);
    let contenu = ecrire_objet_contenu(texte.as_str());
    let (mut pdf, decalages) = ecrire_corps(contenu.as_str());
    ajouter_xref(&mut pdf, &decalages);
    slice_to_vec(pdf.as_str().as_bytes())
}

} // verus!
