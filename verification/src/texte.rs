//! Construction de chaines : concatenation, ecriture decimale des entiers.

use vstd::prelude::*;
use vstd::string::*;

verus! {

/// Ajoute un caractere a la fin d'une chaine.
///
/// Appelle `String::push`, dont le contrat affirme ce que dit sa
/// documentation : la chaine finit par ce caractere, le reste inchange.
#[verifier::external_body]
pub(crate) fn pousser(s: &mut String, c: char)
    ensures
        final(s)@ == old(s)@.push(c),
{
    s.push(c);
}

/// Ajoute une tranche de texte a la fin d'une chaine.
pub fn ajouter(s: &mut String, t: &str)
    ensures
        final(s)@ == old(s)@ + t@,
{
    s.append(t);
}

/// Des champs separes par `;`, dans l'ordre.
pub open spec fn champs_separes(champs: Seq<Seq<char>>) -> Seq<char>
    decreases champs.len(),
{
    if champs.len() == 0 {
        Seq::<char>::empty()
    } else if champs.len() == 1 {
        champs[0]
    } else {
        champs_separes(champs.drop_last()) + seq![';'] + champs.last()
    }
}

/// Un enregistrement CSV : ses champs separes par `;`, puis la fin de ligne.
pub open spec fn enregistrement_csv(champs: Seq<Seq<char>>) -> Seq<char> {
    champs_separes(champs) + seq!['\n']
}

/// Le chiffre decimal `d`.
pub open spec fn chiffre(d: nat) -> char {
    if d == 0 { '0' } else if d == 1 { '1' } else if d == 2 { '2' } else if d == 3 { '3' }
    else if d == 4 { '4' } else if d == 5 { '5' } else if d == 6 { '6' } else if d == 7 { '7' }
    else if d == 8 { '8' } else { '9' }
}

/// Ecriture decimale d'un entier naturel, sans zero de tete (`0` s'ecrit `"0"`).
pub open spec fn decimal(n: nat) -> Seq<char>
    decreases n,
{
    if n < 10 {
        seq![chiffre(n)]
    } else {
        decimal(n / 10).push(chiffre(n % 10))
    }
}

fn chiffre_exec(d: u64) -> (c: char)
    requires
        d < 10,
    ensures
        c == chiffre(d as nat),
{
    if d == 0 { '0' } else if d == 1 { '1' } else if d == 2 { '2' } else if d == 3 { '3' }
    else if d == 4 { '4' } else if d == 5 { '5' } else if d == 6 { '6' } else if d == 7 { '7' }
    else if d == 8 { '8' } else { '9' }
}

/// Ajoute l'ecriture decimale de `n`.
pub fn ajouter_decimal(s: &mut String, n: u64)
    ensures
        final(s)@ == old(s)@ + decimal(n as nat),
    decreases n,
{
    if n < 10 {
        pousser(s, chiffre_exec(n));
        assert(decimal(n as nat) =~= seq![chiffre(n as nat)]);
    } else {
        let ghost avant = s@;
        ajouter_decimal(s, n / 10);
        pousser(s, chiffre_exec(n % 10));
        assert(s@ =~= avant + decimal(n as nat));
    }
}

/// Une ecriture decimale ne contient que des chiffres, donc aucun
/// separateur.
pub proof fn decimal_sans_separateur(n: nat)
    ensures
        decimal(n).len() >= 1,
        n >= 10 ==> decimal(n).len() >= 2,
        forall|i: int| 0 <= i < decimal(n).len() ==> '0' <= #[trigger] decimal(n)[i] <= '9',
    decreases n,
{
    if n >= 10 {
        decimal_sans_separateur(n / 10);
        assert forall|i: int| 0 <= i < decimal(n).len() implies '0' <= #[trigger] decimal(n)[i] <= '9' by {
            if i < decimal(n / 10).len() {
                assert(decimal(n)[i] == decimal(n / 10)[i]);
            }
        }
    }
}

/// Deux entiers differents s'ecrivent differemment.
pub proof fn decimal_injectif(a: nat, b: nat)
    requires
        a != b,
    ensures
        decimal(a) != decimal(b),
    decreases a,
{
    decimal_sans_separateur(a);
    decimal_sans_separateur(b);
    if a < 10 && b < 10 {
        assert(decimal(a)[0] == chiffre(a));
        assert(decimal(b)[0] == chiffre(b));
    } else if a >= 10 && b >= 10 {
        if decimal(a) == decimal(b) {
            assert(decimal(a).last() == chiffre(a % 10));
            assert(decimal(b).last() == chiffre(b % 10));
            assert(a % 10 == b % 10);
            assert(decimal(a).drop_last() =~= decimal(a / 10));
            assert(decimal(b).drop_last() =~= decimal(b / 10));
            if a / 10 != b / 10 {
                decimal_injectif(a / 10, b / 10);
            }
            assert(a == (a / 10) * 10 + a % 10);
            assert(b == (b / 10) * 10 + b % 10);
        }
    }
}

/// Deux chiffres decimaux, avec zero de tete : `5` s'ecrit `"05"`.
pub open spec fn deux_chiffres(n: nat) -> Seq<char> {
    seq![chiffre(n / 10), chiffre(n % 10)]
}

/// Ajoute `n` sur deux chiffres.
pub fn ajouter_deux_chiffres(s: &mut String, n: u64)
    requires
        n < 100,
    ensures
        final(s)@ == old(s)@ + deux_chiffres(n as nat),
{
    pousser(s, chiffre_exec(n / 10));
    pousser(s, chiffre_exec(n % 10));
}

/// Une chaine vide.
pub fn vide() -> (s: String)
    ensures
        s@ == Seq::<char>::empty(),
{
    String::new()
}

/// Une chaine qui reprend `t`.
pub fn depuis(t: &str) -> (s: String)
    ensures
        s@ == t@,
{
    t.to_owned()
}

/// Ecriture decimale d'un entier signe : un `-` devant les negatifs.
pub open spec fn decimal_signe(n: int) -> Seq<char> {
    if n < 0 { seq!['-'] + decimal((-n) as nat) } else { decimal(n as nat) }
}

/// Ajoute l'ecriture decimale d'un entier signe.
pub fn ajouter_entier(s: &mut String, n: i64)
    ensures
        final(s)@ == old(s)@ + decimal_signe(n as int),
{
    if n < 0 {
        let ghost avant = s@;
        pousser(s, '-');
        let absolu: u64 = if n == i64::MIN { 9223372036854775808u64 } else { (-n) as u64 };
        ajouter_decimal(s, absolu);
        assert(s@ =~= avant + decimal_signe(n as int));
    } else {
        ajouter_decimal(s, n as u64);
    }
}

/// Deux morceaux de texte reunis par un separateur.
pub open spec fn reunir(a: Seq<char>, separateur: char, b: Seq<char>) -> Seq<char> {
    a + seq![separateur] + b
}

/// Reunit deux morceaux de texte autour d'un separateur.
pub fn composer(a: &str, separateur: char, b: &str) -> (s: String)
    ensures
        s@ == reunir(a@, separateur, b@),
{
    let mut s = depuis(a);
    pousser(&mut s, separateur);
    ajouter(&mut s, b);
    s
}

/// Tant que le premier morceau ne contient pas le separateur, on le retrouve,
/// et le second avec lui : ce qui precede la premiere occurrence du
/// separateur est le premier morceau, ce qui la suit est le second.
pub proof fn reunir_injectif(a1: Seq<char>, b1: Seq<char>, a2: Seq<char>, b2: Seq<char>, separateur: char)
    requires
        !a1.contains(separateur),
        !a2.contains(separateur),
        reunir(a1, separateur, b1) == reunir(a2, separateur, b2),
    ensures
        a1 == a2,
        b1 == b2,
{
    let s = reunir(a1, separateur, b1);
    if a1.len() < a2.len() {
        assert(s[a1.len() as int] == separateur);
        assert(s[a1.len() as int] == a2[a1.len() as int]);
        assert(a2.contains(separateur));
    } else if a2.len() < a1.len() {
        assert(s[a2.len() as int] == separateur);
        assert(s[a2.len() as int] == a1[a2.len() as int]);
        assert(a1.contains(separateur));
    }
    assert(a1 =~= s.take(a1.len() as int));
    assert(a2 =~= s.take(a2.len() as int));
    assert(b1 =~= s.skip(a1.len() as int + 1));
    assert(b2 =~= s.skip(a2.len() as int + 1));
}

/// Egalite de deux textes, caractere par caractere, lue sur leurs octets
/// UTF-8 : deux textes sont egaux exactement quand leurs encodages le sont.
pub(crate) fn egal(a: &str, b: &str) -> (r: bool)
    ensures
        r == (a@ == b@),
{
    let x = a.as_bytes();
    let y = b.as_bytes();
    proof {
        vstd::utf8::encode_utf8_decode_utf8(a@);
        vstd::utf8::encode_utf8_decode_utf8(b@);
    }
    if x.len() != y.len() {
        return false;
    }
    let mut i: usize = 0;
    while i < x.len()
        invariant
            i <= x@.len(),
            x@.len() == y@.len(),
            x@ == vstd::utf8::encode_utf8(a@),
            y@ == vstd::utf8::encode_utf8(b@),
            vstd::utf8::decode_utf8(x@) == a@,
            vstd::utf8::decode_utf8(y@) == b@,
            forall|j: int| 0 <= j < i ==> x@[j] == y@[j],
        decreases x@.len() - i,
    {
        if x[i] != y[i] {
            assert(x@ != y@);
            return false;
        }
        i = i + 1;
    }
    assert(x@ =~= y@);
    true
}

/// L'ecriture decimale de `n` completee de zeros a gauche jusqu'a dix
/// chiffres.
pub open spec fn sur_dix_chiffres(n: nat) -> Seq<char> {
    if decimal(n).len() < 10 {
        Seq::new((10 - decimal(n).len()) as nat, |i: int| '0') + decimal(n)
    } else {
        decimal(n)
    }
}

/// Ajoute `n` sur au moins dix chiffres, complete de zeros a gauche.
pub fn ajouter_sur_dix_chiffres(s: &mut String, n: u64)
    ensures
        final(s)@ == old(s)@ + sur_dix_chiffres(n as nat),
{
    let mut chiffres = vide();
    ajouter_decimal(&mut chiffres, n);
    let longueur = chiffres.as_str().unicode_len();
    let mut k = longueur;
    let ghost avant = s@;
    while k < 10
        invariant
            longueur == decimal(n as nat).len(),
            longueur <= k,
            k <= 10 || k == longueur,
            s@ == avant + Seq::new((k - longueur) as nat, |i: int| '0'),
        decreases 10 - k,
    {
        pousser(s, '0');
        assert(Seq::new((k + 1 - longueur) as nat, |i: int| '0') =~= Seq::new((k - longueur) as nat, |i: int| '0').push('0'));
        k = k + 1;
    }
    ajouter(s, chiffres.as_str());
    assert(s@ =~= avant + sur_dix_chiffres(n as nat));
}

} // verus!
