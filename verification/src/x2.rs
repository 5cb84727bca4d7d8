//! Sottometrica NISECI x2: struttura e densita di popolazione per le
//! specie selezionate. Qui stanno le stime di quantita per specie a
//! partire dagli esemplari contati per passaggio di cattura, e il
//! motore che somma punteggi di struttura e di densita.

use vstd::prelude::*;

use crate::aritmetica::{abs_int, arrotonda_quoziente, rdiv_i128};
use crate::domain_niseci::{
    AnagraficaNISECI, CampionamentoNISECI, ClassiEtaSpecieNISECI, MetricheX2A, RecordNISECI,
    SpecieNISECI,
};
use crate::linear_regression::{
    calculate_quantita_with_regression, risultato_stima, satura_i32, Point,
};

verus! {

/// Stima a due passaggi (formula chiusa): con catture uguali o nulle
/// vale la somma; altrimenti `c / (1 - (c2/c1)^2)` arrotondato, di
/// nuovo la somma quando la stima non e positiva.
pub open spec fn stima_due_passaggi(c1: int, c2: int) -> int {
    if c1 == c2 || c1 == 0 || c2 == 0 {
        c1 + c2
    } else {
        let grezzo = arrotonda_quoziente((c1 + c2) * c1 * c1, c1 * c1 - c2 * c2);
        let stima = satura_i32(grezzo);
        if stima > 0 {
            stima
        } else {
            c1 + c2
        }
    }
}

/// Stima della quantita da due passaggi di cattura consecutivi.
/// Non fallisce mai: ogni caso degenere torna alla somma.
pub fn calculate_passaggi_ripetuti(c1: u32, c2: u32) -> (r: Result<u32, String>)
    requires
        c1 + c2 <= u32::MAX,
    ensures
        r is Ok,
        r->Ok_0 == stima_due_passaggi(c1 as int, c2 as int),
{
    if c1 == c2 || c1 == 0 || c2 == 0 {
        return Result::Ok(c1 + c2);
    }
    let c: i128 = c1 as i128 + c2 as i128;
    proof {
        assert(0 <= c * (c1 as i128) <= 0x1_0000_0000_0000_0000_0000i128) by (nonlinear_arith)
            requires
                0 <= c <= 0x1_0000_0000i128 && 0 <= (c1 as i128) <= 0x1_0000_0000i128,
        ;
        assert(0 <= c * (c1 as i128) * (c1 as i128)
            <= 0x1_0000_0000_0000_0000_0000_0000_0000i128) by (nonlinear_arith)
            requires
                0 <= c * (c1 as i128) <= 0x1_0000_0000_0000_0000_0000i128 && 0 <= (c1 as i128)
                    <= 0x1_0000_0000i128,
        ;
    }
    let num: i128 = c * (c1 as i128) * (c1 as i128);
    proof {
        assert(0 <= (c1 as i128) * (c1 as i128) <= 0x1_0000_0000_0000_0000i128 && 0 <= (c2
            as i128) * (c2 as i128) <= 0x1_0000_0000_0000_0000i128) by (nonlinear_arith)
            requires
                0 <= (c1 as i128) <= 0x1_0000_0000i128 && 0 <= (c2 as i128)
                    <= 0x1_0000_0000i128,
        ;
    }
    let den: i128 = (c1 as i128) * (c1 as i128) - (c2 as i128) * (c2 as i128);
    proof {
        assert(den != 0) by (nonlinear_arith)
            requires
                c1 >= 1 && c2 >= 1 && c1 != c2 && den == (c1 as i128) * (c1 as i128) - (c2
                    as i128) * (c2 as i128),
        ;
        assert(abs_int(num as int) < 0x4000_0000_0000_0000_0000_0000_0000_0000int)
            by (nonlinear_arith)
            requires
                0 <= c <= 0x1_0000_0000i128 && 0 <= c1 <= 0xffff_ffffu32 && num == c * (c1
                    as i128) * (c1 as i128),
        ;
        assert(abs_int(den as int) < 0x4000_0000_0000_0000_0000_0000_0000_0000int)
            by (nonlinear_arith)
            requires
                0 <= c1 <= 0xffff_ffffu32 && 0 <= c2 <= 0xffff_ffffu32 && den == (c1 as i128)
                    * (c1 as i128) - (c2 as i128) * (c2 as i128),
        ;
    }
    let grezzo: i128 = rdiv_i128(num, den);
    let stima: i128 = if grezzo > i32::MAX as i128 {
        i32::MAX as i128
    } else if grezzo < i32::MIN as i128 {
        i32::MIN as i128
    } else {
        grezzo
    };
    if stima > 0 {
        Result::Ok(stima as u32)
    } else {
        Result::Ok(c1 + c2)
    }
}

/// Il numero di esemplari registrato per il passaggio `p`, o zero se
/// il passaggio non compare fra le coppie.
pub open spec fn valore_passaggio(s: Seq<(u8, u32)>, p: int) -> int
    decreases s.len(),
{
    if s.len() == 0 {
        0
    } else if s[0].0 == p {
        s[0].1 as int
    } else {
        valore_passaggio(s.skip(1), p)
    }
}

/// Il numero piu alto di passaggio fra le coppie.
pub open spec fn massima_chiave(s: Seq<(u8, u32)>) -> int
    decreases s.len(),
{
    if s.len() == 0 {
        0
    } else {
        let resto = massima_chiave(s.drop_last());
        if s.last().0 as int >= resto {
            s.last().0 as int
        } else {
            resto
        }
    }
}

/// Esemplari catturati complessivamente entro il passaggio `k`.
pub open spec fn cumulato(s: Seq<(u8, u32)>, k: int) -> int
    decreases k,
{
    if k <= 0 {
        0
    } else {
        cumulato(s, k - 1) + valore_passaggio(s, k)
    }
}

/// Nessuna coppia ripete il numero di passaggio di un'altra.
pub open spec fn chiavi_uniche(s: Seq<(u8, u32)>) -> bool {
    forall|i: int, j: int| 0 <= i < j < s.len() ==> s[i].0 != s[j].0
}

/// Ogni passaggio registrato e almeno il primo.
pub open spec fn chiavi_positive(s: Seq<(u8, u32)>) -> bool {
    forall|i: int| 0 <= i < s.len() ==> (#[trigger] s[i].0) >= 1
}

/// I punti del profilo di deplezione: per ogni passaggio fino
/// all'ultimo registrato, ascissa il totale cumulato e ordinata gli
/// esemplari di quel passaggio.
pub open spec fn punti_deplezione(s: Seq<(u8, u32)>) -> Seq<Point<i32>> {
    Seq::new(
        massima_chiave(s) as nat,
        |i: int| Point { x: cumulato(s, i + 1) as i32, y: valore_passaggio(s, i + 1) as i32 },
    )
}

/// Il cumulato cresce con il passaggio.
proof fn lemma_cumulato_monotono(s: Seq<(u8, u32)>, j: int, k: int)
    requires
        j <= k,
    ensures
        cumulato(s, j) <= cumulato(s, k),
    decreases k - j,
{
    if j < k {
        lemma_cumulato_monotono(s, j, k - 1);
        lemma_valore_non_negativo(s, k);
    }
}

/// Ogni valore di passaggio e non negativo.
proof fn lemma_valore_non_negativo(s: Seq<(u8, u32)>, p: int)
    ensures
        valore_passaggio(s, p) >= 0,
    decreases s.len(),
{
    if s.len() > 0 && s[0].0 != p {
        lemma_valore_non_negativo(s.skip(1), p);
    }
}

/// Nessuna chiave supera la massima.
proof fn lemma_chiave_entro_massima(s: Seq<(u8, u32)>, i: int)
    requires
        0 <= i < s.len(),
    ensures
        s[i].0 as int <= massima_chiave(s),
    decreases s.len(),
{
    if i < s.len() - 1 {
        lemma_chiave_entro_massima(s.drop_last(), i);
    }
}

/// Le somme parziali delle ordinate del profilo di deplezione sono
/// esattamente i cumulati dei passaggi.
proof fn lemma_somma_profilo(s: Seq<(u8, u32)>, j: int)
    requires
        0 <= j <= massima_chiave(s),
        cumulato(s, massima_chiave(s)) <= i32::MAX,
    ensures
        crate::linear_regression::somma_y(punti_deplezione(s).take(j)) == cumulato(s, j),
    decreases j,
{
    let punti = punti_deplezione(s);
    if j == 0 {
        assert(punti.take(0) =~= Seq::<Point<i32>>::empty());
    } else {
        lemma_somma_profilo(s, j - 1);
        assert(punti.take(j).drop_last() =~= punti.take(j - 1));
        assert(punti.take(j).last() == punti[j - 1]);
        lemma_valore_non_negativo(s, j);
        lemma_cumulato_monotono(s, 0, j - 1);
        lemma_cumulato_monotono(s, j, massima_chiave(s));
        assert(cumulato(s, j) == cumulato(s, j - 1) + valore_passaggio(s, j));
        assert(0 <= valore_passaggio(s, j) <= i32::MAX);
        assert(punti[j - 1].y as int == valore_passaggio(s, j));
    }
}

/// Cerca il numero di esemplari del passaggio `p` fra le coppie.
fn trova_valore(passaggi: &Vec<(u8, u32)>, p: u8) -> (r: u32)
    ensures
        r == valore_passaggio(passaggi@, p as int),
{
    proof {
        assert(passaggi@.skip(0) =~= passaggi@);
    }
    let mut j: usize = 0;
    while j < passaggi.len()
        invariant
            0 <= j <= passaggi@.len(),
            valore_passaggio(passaggi@, p as int) == valore_passaggio(
                passaggi@.skip(j as int),
                p as int,
            ),
        decreases passaggi@.len() - j,
    {
        proof {
            assert(passaggi@.skip(j as int)[0] == passaggi@[j as int]);
            assert(passaggi@.skip(j as int).skip(1) =~= passaggi@.skip(j + 1));
        }
        if passaggi[j].0 == p {
            return passaggi[j].1;
        }
        j = j + 1;
    }
    proof {
        assert(passaggi@.skip(passaggi@.len() as int).len() == 0);
    }
    0
}

/// Dice se un numero di passaggio compare fra le coppie.
pub open spec fn contiene_passaggio(s: Seq<(u8, u32)>, p: int) -> bool {
    exists|i: int| 0 <= i < s.len() && s[i].0 == p
}

/// Cerca se il passaggio `p` compare fra le coppie.
fn contiene(passaggi: &Vec<(u8, u32)>, p: u8) -> (r: bool)
    ensures
        r == contiene_passaggio(passaggi@, p as int),
{
    let mut j: usize = 0;
    while j < passaggi.len()
        invariant
            0 <= j <= passaggi@.len(),
            forall|i: int| 0 <= i < j ==> (#[trigger] passaggi@[i].0) != p,
        decreases passaggi@.len() - j,
    {
        if passaggi[j].0 == p {
            return true;
        }
        j = j + 1;
    }
    false
}

/// Stima della quantita con la regressione lineare sul profilo di
/// deplezione: i passaggi mancanti contano zero esemplari.
pub fn calculate_q_stimata_regression(passaggi: &Vec<(u8, u32)>) -> (r: Result<u32, String>)
    requires
        passaggi@.len() >= 1,
        chiavi_uniche(passaggi@),
        chiavi_positive(passaggi@),
        cumulato(passaggi@, massima_chiave(passaggi@)) <= i32::MAX,
    ensures
        match risultato_stima(punti_deplezione(passaggi@)) {
            Option::Some(v) => r is Ok && r->Ok_0 == v,
            Option::None => r is Err,
        },
        r is Err ==> r->Err_0@ == "quantita stimata negativa"@,
{
    let ghost s = passaggi@;
    let mut ultimo: u8 = 0;
    let mut j: usize = 0;
    while j < passaggi.len()
        invariant
            0 <= j <= s.len(),
            s == passaggi@,
            ultimo as int == massima_chiave(s.take(j as int)),
        decreases s.len() - j,
    {
        proof {
            assert(s.take(j + 1).drop_last() =~= s.take(j as int));
            assert(s.take(j + 1).last() == s[j as int]);
        }
        if passaggi[j].0 > ultimo {
            ultimo = passaggi[j].0;
        }
        j = j + 1;
    }
    proof {
        assert(s.take(s.len() as int) =~= s);
        lemma_chiave_entro_massima(s, 0);
        assert(ultimo >= 1);
    }
    let ghost punti = punti_deplezione(s);
    let mut points: Vec<Point<i32>> = Vec::new();
    let mut current_tot: u32 = 0;
    let mut i: usize = 0;
    while i < ultimo as usize
        invariant
            0 <= i <= ultimo as int,
            s == passaggi@,
            ultimo as int == massima_chiave(s),
            cumulato(s, massima_chiave(s)) <= i32::MAX,
            punti == punti_deplezione(s),
            current_tot == cumulato(s, i as int),
            points@.len() == i,
            forall|j2: int| 0 <= j2 < i ==> points@[j2] == punti[j2],
        decreases ultimo as int - i,
    {
        let v: u32 = trova_valore(passaggi, (i + 1) as u8);
        proof {
            lemma_valore_non_negativo(s, i + 1);
            lemma_cumulato_monotono(s, i + 1, ultimo as int);
            assert(cumulato(s, i + 1) == cumulato(s, i as int) + valore_passaggio(s, i + 1));
        }
        current_tot = current_tot + v;
        points.push(Point::new(current_tot as i32, v as i32));
        i = i + 1;
    }
    proof {
        assert(points@ =~= punti);
        assert(forall|j2: int|
            0 <= j2 <= punti.len() ==> crate::linear_regression::somma_y(
                #[trigger] punti.take(j2),
            ) == cumulato(s, j2)) by {
            assert forall|j2: int| 0 <= j2 <= punti.len() implies crate::linear_regression::somma_y(
                #[trigger] punti.take(j2),
            ) == cumulato(s, j2) by {
                lemma_somma_profilo(s, j2);
            }
        }
        assert forall|j2: int|
            0 <= j2 <= punti.len() implies i32::MIN <= #[trigger] crate::linear_regression::somma_y(
            punti.take(j2),
        ) <= i32::MAX by {
            lemma_somma_profilo(s, j2);
            lemma_cumulato_monotono(s, 0, j2);
            lemma_cumulato_monotono(s, j2, ultimo as int);
        }
    }
    calculate_quantita_with_regression(points.as_slice())
}

/// La quantita stimata per una specie dai suoi passaggi di cattura:
/// un solo passaggio vale il suo conteggio, due passaggi consecutivi
/// usano la formula chiusa, altrimenti decide la regressione.
pub open spec fn stima_quantita(s: Seq<(u8, u32)>) -> Option<int> {
    if s.len() == 1 {
        Option::Some(s[0].1 as int)
    } else if s.len() == 2 && contiene_passaggio(s, 1) && contiene_passaggio(s, 2) {
        Option::Some(stima_due_passaggi(valore_passaggio(s, 1), valore_passaggio(s, 2)))
    } else {
        risultato_stima(punti_deplezione(s))
    }
}

/// Quantita stimata di esemplari di una specie dai conteggi per
/// passaggio di cattura.
pub fn get_quantita_stimata(passaggi: &Vec<(u8, u32)>) -> (r: Result<u32, String>)
    requires
        passaggi@.len() >= 1,
        chiavi_uniche(passaggi@),
        chiavi_positive(passaggi@),
        passaggi@.len() == 1 || cumulato(passaggi@, massima_chiave(passaggi@)) <= i32::MAX,
    ensures
        match stima_quantita(passaggi@) {
            Option::Some(v) => r is Ok && r->Ok_0 == v,
            Option::None => r is Err,
        },
        r is Err ==> r->Err_0@ == "quantita stimata negativa"@,
{
    let ghost s = passaggi@;
    if passaggi.len() == 1 {
        return Result::Ok(passaggi[0].1);
    }
    if passaggi.len() == 2 && contiene(passaggi, 1) && contiene(passaggi, 2) {
        let c1 = trova_valore(passaggi, 1);
        let c2 = trova_valore(passaggi, 2);
        proof {
            lemma_valore_non_negativo(s, 1);
            lemma_valore_non_negativo(s, 2);
            assert(massima_chiave(s) >= 2) by {
                let i = choose|i: int| 0 <= i < s.len() && s[i].0 == 2;
                lemma_chiave_entro_massima(s, i);
            }
            lemma_cumulato_monotono(s, 2, massima_chiave(s));
            assert(cumulato(s, 0) == 0);
            assert(cumulato(s, 1) == cumulato(s, 0) + valore_passaggio(s, 1));
            assert(cumulato(s, 2) == cumulato(s, 1) + valore_passaggio(s, 2));
        }
        return calculate_passaggi_ripetuti(c1, c2);
    }
    calculate_q_stimata_regression(passaggi)
}

/// Quante catture selezionate della specie `id` portano il numero di
/// passaggio `p`.
pub open spec fn conta_passaggio(
    s: Seq<RecordNISECI>,
    sel: crate::gruppi::SelettoreSpecie,
    id: Seq<char>,
    p: int,
) -> int
    decreases s.len(),
{
    if s.len() == 0 {
        0
    } else {
        conta_passaggio(s.drop_last(), sel, id, p) + if crate::gruppi::seleziona(
            sel,
            s.last().specie,
        ) && s.last().specie.id@ == id && s.last().passaggio_cattura == p {
            1int
        } else {
            0int
        }
    }
}

/// Le coppie (passaggio, conteggio) della specie `id`, in ordine di
/// passaggio, fino al passaggio `pmax`: compaiono solo i passaggi con
/// almeno una cattura.
pub open spec fn coppie_fino(
    s: Seq<RecordNISECI>,
    sel: crate::gruppi::SelettoreSpecie,
    id: Seq<char>,
    pmax: int,
) -> Seq<(u8, u32)>
    decreases pmax,
{
    if pmax <= 0 {
        Seq::empty()
    } else {
        let pre = coppie_fino(s, sel, id, pmax - 1);
        if conta_passaggio(s, sel, id, pmax) > 0 {
            pre.push((pmax as u8, conta_passaggio(s, sel, id, pmax) as u32))
        } else {
            pre
        }
    }
}

/// Le coppie (passaggio, conteggio) complete della specie `id`.
pub open spec fn coppie_canoniche(
    s: Seq<RecordNISECI>,
    sel: crate::gruppi::SelettoreSpecie,
    id: Seq<char>,
) -> Seq<(u8, u32)> {
    coppie_fino(s, sel, id, 255)
}

/// La quantita stimata della specie `id`, se la stima riesce.
pub open spec fn stima_di(
    s: Seq<RecordNISECI>,
    sel: crate::gruppi::SelettoreSpecie,
    id: Seq<char>,
) -> Option<int> {
    stima_quantita(coppie_canoniche(s, sel, id))
}

/// Il punteggio di densita in mezzi punti: sopra la seconda soglia
/// vale 1.0, sopra la prima 0.5, altrimenti 0. Con superficie nulla
/// la densita e infinita (o indeterminata con quantita nulla), come
/// nel calcolo in virgola mobile.
pub open spec fn punteggio_densita(q: int, sp: SpecieNISECI, lm: int, wm: int) -> int {
    if lm * wm == 0 {
        if q > 0 {
            2
        } else {
            0
        }
    } else if 1000000000 * q > sp.dens_soglia2 * lm * wm {
        2
    } else if 1000000000 * q > sp.dens_soglia1 * lm * wm {
        1
    } else {
        0
    }
}

/// La densita stimata come frazione esatta: quantita per milione su
/// superficie in millimetri quadrati; indefinita su superficie nulla.
pub open spec fn frazione_densita(q: int, lm: int, wm: int) -> Option<(u64, u64)> {
    if lm * wm == 0 {
        Option::None
    } else {
        Option::Some(((q * 1000000) as u64, (lm * wm) as u64))
    }
}

/// Il punteggio di densita della specie `id` del campionamento.
pub open spec fn punteggio_dens_di(
    s: Seq<RecordNISECI>,
    sel: crate::gruppi::SelettoreSpecie,
    id: Seq<char>,
    lm: int,
    wm: int,
) -> int {
    punteggio_densita(stima_di(s, sel, id)->0, crate::x3::specie_di(s, id), lm, wm)
}

/// Ogni stima di quantita delle specie selezionate riesce.
pub open spec fn stime_riuscite(
    s: Seq<RecordNISECI>,
    sel: crate::gruppi::SelettoreSpecie,
) -> bool {
    forall|id: Seq<char>|
        crate::gruppi::ids_selezionati(s, sel).contains(id) ==> (#[trigger] stima_di(
            s,
            sel,
            id,
        )) is Some
}

/// Quante specie selezionate hanno punteggio di struttura `p`.
pub open spec fn conta_punteggio_sel(
    s: Seq<RecordNISECI>,
    sel: crate::gruppi::SelettoreSpecie,
    p: int,
) -> int {
    crate::gruppi::ids_selezionati(s, sel).filter(
        |id: Seq<char>| crate::x3::punteggio_di(s, sel, id) == p,
    ).len() as int
}

/// Quante specie selezionate hanno punteggio di densita `p`.
pub open spec fn conta_densita_sel(
    s: Seq<RecordNISECI>,
    sel: crate::gruppi::SelettoreSpecie,
    lm: int,
    wm: int,
    p: int,
) -> int {
    crate::gruppi::ids_selezionati(s, sel).filter(
        |id: Seq<char>| stima_di(s, sel, id) is Some && punteggio_dens_di(s, sel, id, lm, wm)
            == p,
    ).len() as int
}

/// La somma dei punteggi di struttura, in mezzi punti.
pub open spec fn somma_x2a(s: Seq<RecordNISECI>, sel: crate::gruppi::SelettoreSpecie) -> int {
    conta_punteggio_sel(s, sel, 1) + 2 * conta_punteggio_sel(s, sel, 2)
}

/// La somma dei punteggi di densita, in mezzi punti.
pub open spec fn somma_x2b(
    s: Seq<RecordNISECI>,
    sel: crate::gruppi::SelettoreSpecie,
    lm: int,
    wm: int,
) -> int {
    conta_densita_sel(s, sel, lm, wm, 1) + 2 * conta_densita_sel(s, sel, lm, wm, 2)
}

/// In una sequenza con chiavi uniche, la chiave di ogni coppia trova
/// il proprio valore.
proof fn lemma_valore_unico(s2: Seq<(u8, u32)>, j: int)
    requires
        chiavi_uniche(s2),
        0 <= j < s2.len(),
    ensures
        valore_passaggio(s2, s2[j].0 as int) == s2[j].1,
    decreases s2.len(),
{
    if s2[0].0 == s2[j].0 {
        assert(j == 0);
    } else {
        assert(j >= 1);
        assert(chiavi_uniche(s2.skip(1))) by {
            assert forall|a: int, b: int|
                0 <= a < b < s2.skip(1).len() implies s2.skip(1)[a].0 != s2.skip(1)[b].0 by {
                assert(s2.skip(1)[a] == s2[a + 1] && s2.skip(1)[b] == s2[b + 1]);
            }
        }
        assert(s2.skip(1)[j - 1] == s2[j]);
        lemma_valore_unico(s2.skip(1), j - 1);
    }
}

/// Un numero di passaggio che non compare vale zero esemplari.
proof fn lemma_valore_assente(s2: Seq<(u8, u32)>, p: int)
    requires
        forall|j: int| 0 <= j < s2.len() ==> (#[trigger] s2[j].0) != p,
    ensures
        valore_passaggio(s2, p) == 0,
    decreases s2.len(),
{
    if s2.len() > 0 {
        assert forall|j: int| 0 <= j < s2.skip(1).len() implies (#[trigger] s2.skip(1)[j].0)
            != p by {
            assert(s2.skip(1)[j] == s2[j + 1]);
        }
        lemma_valore_assente(s2.skip(1), p);
    }
}

/// Le coppie canoniche fino a `pmax`: chiavi in `[1, pmax]`, uniche,
/// ogni valore pari al conteggio del proprio passaggio, e ogni
/// passaggio con catture rappresentato.
proof fn lemma_coppie_fino(
    s: Seq<RecordNISECI>,
    sel: crate::gruppi::SelettoreSpecie,
    id: Seq<char>,
    pmax: int,
)
    requires
        0 <= pmax <= 255,
        s.len() <= u32::MAX,
    ensures
        forall|j: int|
            0 <= j < coppie_fino(s, sel, id, pmax).len() ==> 1 <= (#[trigger] coppie_fino(
                s,
                sel,
                id,
                pmax,
            )[j].0) <= pmax,
        chiavi_uniche(coppie_fino(s, sel, id, pmax)),
        forall|j: int|
            0 <= j < coppie_fino(s, sel, id, pmax).len() ==> (#[trigger] coppie_fino(
                s,
                sel,
                id,
                pmax,
            )[j].1) == conta_passaggio(s, sel, id, coppie_fino(s, sel, id, pmax)[j].0 as int),
        forall|p: int|
            1 <= p <= pmax && conta_passaggio(s, sel, id, p) > 0 ==> exists|j: int|
                0 <= j < coppie_fino(s, sel, id, pmax).len() && (#[trigger] coppie_fino(
                    s,
                    sel,
                    id,
                    pmax,
                )[j].0) == p,
    decreases pmax,
{
    if pmax > 0 {
        lemma_coppie_fino(s, sel, id, pmax - 1);
        lemma_conta_passaggio_limitata(s, sel, id, pmax);
        let pre = coppie_fino(s, sel, id, pmax - 1);
        let cs = coppie_fino(s, sel, id, pmax);
        if conta_passaggio(s, sel, id, pmax) > 0 {
            assert(cs == pre.push((pmax as u8, conta_passaggio(s, sel, id, pmax) as u32)));
            assert forall|p: int|
                1 <= p <= pmax && conta_passaggio(s, sel, id, p) > 0 implies exists|j: int|
                    0 <= j < cs.len() && (#[trigger] cs[j].0) == p by {
                if p == pmax {
                    assert(cs[cs.len() - 1].0 == p);
                } else {
                    let j = choose|j: int| 0 <= j < pre.len() && (#[trigger] pre[j].0) == p;
                    assert(cs[j].0 == p);
                }
            }
        } else {
            assert forall|p: int|
                1 <= p <= pmax && conta_passaggio(s, sel, id, p) > 0 implies exists|j: int|
                    0 <= j < cs.len() && (#[trigger] cs[j].0) == p by {
                let j = choose|j: int| 0 <= j < pre.len() && (#[trigger] pre[j].0) == p;
                assert(cs[j].0 == p);
            }
        }
    }
}

/// I conteggi per passaggio non superano il numero di catture.
proof fn lemma_conta_passaggio_limitata(
    s: Seq<RecordNISECI>,
    sel: crate::gruppi::SelettoreSpecie,
    id: Seq<char>,
    p: int,
)
    ensures
        0 <= conta_passaggio(s, sel, id, p) <= s.len(),
    decreases s.len(),
{
    if s.len() > 0 {
        lemma_conta_passaggio_limitata(s.drop_last(), sel, id, p);
    }
}

/// Nelle coppie canoniche ogni passaggio vale esattamente il proprio
/// conteggio.
proof fn lemma_valore_canonico(
    s: Seq<RecordNISECI>,
    sel: crate::gruppi::SelettoreSpecie,
    id: Seq<char>,
    p: int,
)
    requires
        1 <= p <= 255,
        s.len() <= u32::MAX,
    ensures
        valore_passaggio(coppie_canoniche(s, sel, id), p) == conta_passaggio(s, sel, id, p),
{
    lemma_coppie_fino(s, sel, id, 255);
    let cs = coppie_canoniche(s, sel, id);
    if conta_passaggio(s, sel, id, p) > 0 {
        let j = choose|j: int| 0 <= j < cs.len() && (#[trigger] cs[j].0) == p;
        lemma_valore_unico(cs, j);
    } else {
        lemma_conta_passaggio_limitata(s, sel, id, p);
        assert forall|j: int| 0 <= j < cs.len() implies (#[trigger] cs[j].0) != p by {
            if cs[j].0 == p {
                assert(cs[j].1 == conta_passaggio(s, sel, id, p));
                assert(cs[j].1 >= 1) by {
                    if conta_passaggio(s, sel, id, cs[j].0 as int) == 0 {
                        lemma_coppia_presente_positiva(s, sel, id, j);
                    }
                }
            }
        }
        lemma_valore_assente(cs, p);
    }
}

/// Una coppia presente nelle canoniche ha conteggio positivo.
proof fn lemma_coppia_presente_positiva(
    s: Seq<RecordNISECI>,
    sel: crate::gruppi::SelettoreSpecie,
    id: Seq<char>,
    j: int,
)
    requires
        0 <= j < coppie_canoniche(s, sel, id).len(),
        s.len() <= u32::MAX,
    ensures
        coppie_canoniche(s, sel, id)[j].1 >= 1,
{
    lemma_coppia_positiva_fino(s, sel, id, 255, j);
}

/// Una coppia presente fino a `pmax` ha conteggio positivo.
proof fn lemma_coppia_positiva_fino(
    s: Seq<RecordNISECI>,
    sel: crate::gruppi::SelettoreSpecie,
    id: Seq<char>,
    pmax: int,
    j: int,
)
    requires
        0 <= pmax,
        0 <= j < coppie_fino(s, sel, id, pmax).len(),
        s.len() <= u32::MAX,
    ensures
        coppie_fino(s, sel, id, pmax)[j].1 >= 1,
    decreases pmax,
{
    if pmax > 0 {
        let pre = coppie_fino(s, sel, id, pmax - 1);
        if conta_passaggio(s, sel, id, pmax) > 0 && j == pre.len() {
            lemma_conta_passaggio_limitata(s, sel, id, pmax);
        } else {
            lemma_coppia_positiva_fino(s, sel, id, pmax - 1, j);
        }
    }
}

/// Gli esemplari cumulati fino al passaggio `k`.
pub open spec fn somma_conte(
    s: Seq<RecordNISECI>,
    sel: crate::gruppi::SelettoreSpecie,
    id: Seq<char>,
    k: int,
) -> int
    decreases k,
{
    if k <= 0 {
        0
    } else {
        somma_conte(s, sel, id, k - 1) + conta_passaggio(s, sel, id, k)
    }
}

/// Il cumulato delle coppie canoniche coincide con la somma dei
/// conteggi dei passaggi.
proof fn lemma_cumulato_canonico(
    s: Seq<RecordNISECI>,
    sel: crate::gruppi::SelettoreSpecie,
    id: Seq<char>,
    k: int,
)
    requires
        0 <= k <= 255,
        s.len() <= u32::MAX,
    ensures
        cumulato(coppie_canoniche(s, sel, id), k) == somma_conte(s, sel, id, k),
    decreases k,
{
    if k > 0 {
        lemma_cumulato_canonico(s, sel, id, k - 1);
        lemma_valore_canonico(s, sel, id, k);
    }
}

/// Aggiungere una cattura cambia la somma dei conteggi al piu di uno.
proof fn lemma_somma_conte_passo(
    s: Seq<RecordNISECI>,
    sel: crate::gruppi::SelettoreSpecie,
    id: Seq<char>,
    k: int,
)
    requires
        s.len() > 0,
        0 <= k,
    ensures
        somma_conte(s.drop_last(), sel, id, k) <= somma_conte(s, sel, id, k) <= somma_conte(
            s.drop_last(),
            sel,
            id,
            k,
        ) + 1,
    decreases k,
{
    if k > 0 {
        lemma_somma_conte_passo(s, sel, id, k - 1);
        if crate::gruppi::seleziona(sel, s.last().specie) && s.last().specie.id@ == id && s.last().passaggio_cattura
            == k {
            assert forall|k2: int| 0 <= k2 < k implies conta_passaggio(s, sel, id, k2)
                == conta_passaggio(s.drop_last(), sel, id, k2) by {}
            assert(somma_conte(s, sel, id, k - 1) == somma_conte(s.drop_last(), sel, id, k - 1))
                by {
                lemma_somma_conte_uguale_sotto(s, sel, id, k - 1, k as int);
            }
        }
    }
}

/// Sotto il passaggio della cattura aggiunta, le somme non cambiano.
proof fn lemma_somma_conte_uguale_sotto(
    s: Seq<RecordNISECI>,
    sel: crate::gruppi::SelettoreSpecie,
    id: Seq<char>,
    k: int,
    passo_nuovo: int,
)
    requires
        s.len() > 0,
        0 <= k < passo_nuovo || !(crate::gruppi::seleziona(sel, s.last().specie)
            && s.last().specie.id@ == id) || s.last().passaggio_cattura != passo_nuovo,
        0 <= k,
        crate::gruppi::seleziona(sel, s.last().specie) && s.last().specie.id@ == id ==> s.last().passaggio_cattura
            == passo_nuovo,
    ensures
        k < passo_nuovo ==> somma_conte(s, sel, id, k) == somma_conte(s.drop_last(), sel, id, k),
    decreases k,
{
    if k > 0 {
        lemma_somma_conte_uguale_sotto(s, sel, id, k - 1, passo_nuovo);
    }
}

/// La somma dei conteggi non supera il numero di catture.
proof fn lemma_somma_conte_limite(
    s: Seq<RecordNISECI>,
    sel: crate::gruppi::SelettoreSpecie,
    id: Seq<char>,
    k: int,
)
    requires
        0 <= k,
    ensures
        0 <= somma_conte(s, sel, id, k) <= s.len(),
    decreases s.len(),
{
    if s.len() == 0 {
        lemma_somma_conte_vuota(s, sel, id, k);
    } else {
        lemma_somma_conte_limite(s.drop_last(), sel, id, k);
        lemma_somma_conte_passo(s, sel, id, k);
    }
}

/// Senza catture la somma dei conteggi e nulla.
proof fn lemma_somma_conte_vuota(
    s: Seq<RecordNISECI>,
    sel: crate::gruppi::SelettoreSpecie,
    id: Seq<char>,
    k: int,
)
    requires
        s.len() == 0,
        0 <= k,
    ensures
        somma_conte(s, sel, id, k) == 0,
    decreases k,
{
    if k > 0 {
        lemma_somma_conte_vuota(s, sel, id, k - 1);
    }
}

/// Tutte le catture portano un numero di passaggio valido (almeno il
/// primo): il tracciato validato rifiuta i passaggi nulli.
pub open spec fn passaggi_positivi(s: Seq<RecordNISECI>) -> bool {
    forall|i: int| 0 <= i < s.len() ==> (#[trigger] s[i].passaggio_cattura) >= 1
}

/// Una cattura che corrisponde rende positivo il conteggio del suo
/// passaggio.
proof fn lemma_record_conta(
    s: Seq<RecordNISECI>,
    sel: crate::gruppi::SelettoreSpecie,
    id: Seq<char>,
    i: int,
)
    requires
        0 <= i < s.len(),
        crate::gruppi::seleziona(sel, s[i].specie),
        s[i].specie.id@ == id,
    ensures
        conta_passaggio(s, sel, id, s[i].passaggio_cattura as int) >= 1,
    decreases s.len(),
{
    lemma_conta_passaggio_limitata(s.drop_last(), sel, id, s[i].passaggio_cattura as int);
    if i < s.len() - 1 {
        lemma_record_conta(s.drop_last(), sel, id, i);
    }
}

/// La chiave massima non supera un tetto comune a tutte le chiavi.
proof fn lemma_massima_limitata(s2: Seq<(u8, u32)>, b: int)
    requires
        b >= 0,
        forall|j: int| 0 <= j < s2.len() ==> (#[trigger] s2[j].0) <= b,
    ensures
        massima_chiave(s2) <= b,
    decreases s2.len(),
{
    if s2.len() > 0 {
        assert forall|j: int| 0 <= j < s2.drop_last().len() implies (#[trigger] s2.drop_last()[j].0)
            <= b by {
            assert(s2.drop_last()[j] == s2[j]);
        }
        lemma_massima_limitata(s2.drop_last(), b);
    }
}

/// Conta le catture selezionate della specie nel passaggio dato.
fn conta_passaggio_esatto(
    campionamento: &Vec<RecordNISECI>,
    sel: &crate::gruppi::SelettoreSpecie,
    id: &String,
    p: u8,
) -> (r: u32)
    requires
        campionamento@.len() <= u32::MAX,
    ensures
        r == conta_passaggio(campionamento@, *sel, id@, p as int),
{
    let ghost s = campionamento@;
    let mut conta: u32 = 0;
    let mut i: usize = 0;
    proof {
        assert(s.take(0) =~= Seq::<RecordNISECI>::empty());
    }
    while i < campionamento.len()
        invariant
            0 <= i <= s.len(),
            s == campionamento@,
            s.len() <= u32::MAX,
            conta == conta_passaggio(s.take(i as int), *sel, id@, p as int),
        decreases s.len() - i,
    {
        proof {
            assert(s.take(i + 1).drop_last() =~= s.take(i as int));
            assert(s.take(i + 1).last() == s[i as int]);
            lemma_conta_passaggio_limitata(s.take(i + 1), *sel, id@, p as int);
            assert(s.take(i + 1).len() <= s.len());
        }
        let record = &campionamento[i];
        if crate::gruppi::corrisponde(sel, &record.specie) && record.specie.id.eq(id)
            && record.passaggio_cattura == p {
            conta = conta + 1;
        }
        i = i + 1;
    }
    proof {
        assert(s.take(s.len() as int) =~= s);
    }
    conta
}

/// Le coppie (passaggio, conteggio) della specie, in ordine di
/// passaggio.
fn coppie_passaggi(
    campionamento: &Vec<RecordNISECI>,
    sel: &crate::gruppi::SelettoreSpecie,
    id: &String,
) -> (r: Vec<(u8, u32)>)
    requires
        campionamento@.len() <= u32::MAX,
    ensures
        r@ == coppie_canoniche(campionamento@, *sel, id@),
{
    let ghost s = campionamento@;
    let mut v: Vec<(u8, u32)> = Vec::new();
    let mut p: usize = 1;
    proof {
        assert(v@ =~= coppie_fino(s, *sel, id@, 0));
    }
    while p <= 255
        invariant
            1 <= p <= 256,
            s == campionamento@,
            s.len() <= u32::MAX,
            v@ == coppie_fino(s, *sel, id@, p - 1),
        decreases 256 - p,
    {
        let conta = conta_passaggio_esatto(campionamento, sel, id, p as u8);
        if conta > 0 {
            v.push((p as u8, conta));
        }
        proof {
            assert(v@ =~= coppie_fino(s, *sel, id@, p as int));
        }
        p = p + 1;
    }
    v
}

/// Gli esemplari di una specie suddivisi per passaggio di cattura:
/// la chiave di ogni coppia e il numero del passaggio.
pub struct EsemplariPerCattura {
    pub specie: SpecieNISECI,
    pub mappa: Vec<(u8, u32)>,
}

impl EsemplariPerCattura {
    /// Una mappa nuova con il primo esemplare gia registrato.
    pub fn new_prevalorized(numero_passaggio: u8, specie: &SpecieNISECI) -> (r:
        EsemplariPerCattura)
        ensures
            r.specie == *specie,
            r.mappa@ == seq![(numero_passaggio, 1u32)],
    {
        let mut mappa: Vec<(u8, u32)> = Vec::new();
        mappa.push((numero_passaggio, 1));
        proof {
            assert(mappa@ =~= seq![(numero_passaggio, 1u32)]);
        }
        EsemplariPerCattura { specie: specie.clone(), mappa }
    }
}

/// Sostituire il valore della prima coppia con la chiave data lascia
/// invariati gli altri passaggi.
proof fn lemma_valore_aggiornato(s2: Seq<(u8, u32)>, j: int, p: u8, v: u32, q: int)
    requires
        0 <= j < s2.len(),
        s2[j].0 == p,
        forall|i: int| 0 <= i < j ==> (#[trigger] s2[i].0) != p,
    ensures
        valore_passaggio(s2.update(j, (p, v)), p as int) == v,
        q != p ==> valore_passaggio(s2.update(j, (p, v)), q) == valore_passaggio(s2, q),
    decreases s2.len(),
{
    let s3 = s2.update(j, (p, v));
    if j == 0 {
        assert(s3[0] == (p, v));
        if q != p {
            assert(s3.skip(1) =~= s2.skip(1));
        }
    } else {
        assert(s3[0] == s2[0]);
        assert(s2.skip(1).update(j - 1, (p, v)) =~= s3.skip(1));
        assert forall|i: int| 0 <= i < j - 1 implies (#[trigger] s2.skip(1)[i].0) != p by {
            assert(s2.skip(1)[i] == s2[i + 1]);
        }
        assert(s2.skip(1)[j - 1] == s2[j]);
        lemma_valore_aggiornato(s2.skip(1), j - 1, p, v, q);
    }
}

/// Accodare una coppia con una chiave nuova lascia invariati gli
/// altri passaggi e da valore alla chiave nuova.
proof fn lemma_valore_accodato(s2: Seq<(u8, u32)>, p: u8, v: u32, q: int)
    requires
        forall|i: int| 0 <= i < s2.len() ==> (#[trigger] s2[i].0) != p,
    ensures
        valore_passaggio(s2.push((p, v)), p as int) == v,
        q != p ==> valore_passaggio(s2.push((p, v)), q) == valore_passaggio(s2, q),
    decreases s2.len(),
{
    let s3 = s2.push((p, v));
    if s2.len() == 0 {
        assert(s3[0] == (p, v));
        if q != p {
            assert(s3.skip(1) =~= Seq::<(u8, u32)>::empty());
            assert(valore_passaggio(s3, q) == valore_passaggio(s3.skip(1), q));
            assert(valore_passaggio(s3.skip(1), q) == 0);
        }
    } else {
        assert(s2[0].0 != p);
        assert(s3[0] == s2[0]);
        assert(s2.skip(1).push((p, v)) =~= s3.skip(1));
        assert forall|i: int| 0 <= i < s2.skip(1).len() implies (#[trigger] s2.skip(1)[i].0)
            != p by {
            assert(s2.skip(1)[i] == s2[i + 1]);
        }
        lemma_valore_accodato(s2.skip(1), p, v, q);
        if s3[0].0 == p as int {
            assert(false);
        }
        assert(valore_passaggio(s3, p as int) == valore_passaggio(s3.skip(1), p as int));
        if q != p {
            if s2[0].0 == q {
                assert(valore_passaggio(s3, q) == s3[0].1);
                assert(valore_passaggio(s2, q) == s2[0].1);
            } else {
                assert(valore_passaggio(s3, q) == valore_passaggio(s3.skip(1), q));
                assert(valore_passaggio(s2, q) == valore_passaggio(s2.skip(1), q));
            }
        }
    }
}

impl EsemplariPerCattura {
    /// Registra un esemplare in piu nel passaggio dato: il suo
    /// conteggio cresce di uno, gli altri restano come sono.
    #[verifier::loop_isolation(false)]
    pub fn fill_passaggio(&mut self, numero_passaggio: u8)
        requires
            chiavi_uniche(old(self).mappa@),
            valore_passaggio(old(self).mappa@, numero_passaggio as int) < u32::MAX,
        ensures
            final(self).specie == old(self).specie,
            chiavi_uniche(final(self).mappa@),
            valore_passaggio(final(self).mappa@, numero_passaggio as int) == valore_passaggio(
                old(self).mappa@,
                numero_passaggio as int,
            ) + 1,
            forall|q: int|
                q != numero_passaggio ==> valore_passaggio(final(self).mappa@, q)
                    == valore_passaggio(old(self).mappa@, q),
    {
        let ghost prima = self.mappa@;
        let mut j: usize = 0;
        while j < self.mappa.len()
            invariant
                0 <= j <= prima.len(),
                *self == *old(self),
                prima == self.mappa@,
                forall|i: int| 0 <= i < j ==> (#[trigger] prima[i].0) != numero_passaggio,
            decreases prima.len() - j,
        {
            if self.mappa[j].0 == numero_passaggio {
                proof {
                    lemma_valore_unico(prima, j as int);
                }
                let numero_esemplari = self.mappa[j].1 + 1;
                self.mappa[j] = (numero_passaggio, numero_esemplari);
                proof {
                    assert(self.mappa@ == prima.update(j as int, (
                        numero_passaggio,
                        numero_esemplari,
                    )));
                    assert forall|q: int|
                        q != numero_passaggio ==> valore_passaggio(self.mappa@, q)
                            == valore_passaggio(prima, q) by {
                        lemma_valore_aggiornato(
                            prima,
                            j as int,
                            numero_passaggio,
                            numero_esemplari,
                            q,
                        );
                    }
                    lemma_valore_aggiornato(
                        prima,
                        j as int,
                        numero_passaggio,
                        numero_esemplari,
                        0,
                    );
                    assert forall|a: int, b: int|
                        0 <= a < b < self.mappa@.len() implies self.mappa@[a].0
                        != self.mappa@[b].0 by {
                        assert(self.mappa@[a].0 == prima[a].0 && self.mappa@[b].0
                            == prima[b].0);
                    }
                }
                return ;
            }
            j = j + 1;
        }
        proof {
            assert(forall|i: int|
                0 <= i < prima.len() ==> (#[trigger] prima[i].0) != numero_passaggio);
            lemma_valore_assente(prima, numero_passaggio as int);
        }
        self.mappa.push((numero_passaggio, 1));
        proof {
            assert forall|q: int|
                q != numero_passaggio ==> valore_passaggio(self.mappa@, q) == valore_passaggio(
                    prima,
                    q,
                ) by {
                lemma_valore_accodato(prima, numero_passaggio, 1, q);
            }
            lemma_valore_accodato(prima, numero_passaggio, 1, 0);
            assert forall|a: int, b: int|
                0 <= a < b < self.mappa@.len() implies self.mappa@[a].0 != self.mappa@[b].0 by {
                if b < prima.len() {
                    assert(self.mappa@[a].0 == prima[a].0 && self.mappa@[b].0 == prima[b].0);
                } else {
                    assert(self.mappa@[a].0 == prima[a].0 && self.mappa@[b].0
                        == numero_passaggio);
                }
            }
        }
    }
}

/// I valori intermedi di densita di una specie: il punteggio in mezzi
/// punti, la densita stimata come frazione esatta
/// (quantita per milione, superficie in millimetri quadrati) quando
/// la superficie non e nulla, e la quantita stimata.
pub struct MetricheX2B {
    pub id_specie: String,
    pub densita_stimata: Option<(u64, u64)>,
    pub quantita_stimata: u32,
    pub x2_b: u32,
}

impl Clone for MetricheX2B {
    fn clone(&self) -> (r: MetricheX2B)
        ensures
            r == *self,
    {
        MetricheX2B {
            id_specie: self.id_specie.clone(),
            densita_stimata: self.densita_stimata,
            quantita_stimata: self.quantita_stimata,
            x2_b: self.x2_b,
        }
    }
}

impl MetricheX2B {
    pub fn new(
        id_specie: String,
        densita_stimata: Option<(u64, u64)>,
        quantita_stimata: u32,
        x2_b: u32,
    ) -> (r: MetricheX2B)
        ensures
            r.id_specie == id_specie,
            r.densita_stimata == densita_stimata,
            r.quantita_stimata == quantita_stimata,
            r.x2_b == x2_b,
    {
        MetricheX2B { id_specie, densita_stimata, quantita_stimata, x2_b }
    }

    pub fn get_id(&self) -> (r: String)
        ensures
            r@ == self.id_specie@,
    {
        self.id_specie.clone()
    }

    pub fn get_x2_b(&self) -> (r: u32)
        ensures
            r == self.x2_b,
    {
        self.x2_b
    }

    pub fn get_densita_stimata(&self) -> (r: Option<(u64, u64)>)
        ensures
            r == self.densita_stimata,
    {
        self.densita_stimata
    }

    pub fn get_quantita_stimata(&self) -> (r: u32)
        ensures
            r == self.quantita_stimata,
    {
        self.quantita_stimata
    }
}

/// I valori intermedi completi di una specie per x2.
pub struct SubmetricheX2 {
    pub metriche_x2_a: MetricheX2A,
    pub classi_eta: ClassiEtaSpecieNISECI,
    pub metriche_x2_b: MetricheX2B,
}

impl Clone for SubmetricheX2 {
    fn clone(&self) -> (r: SubmetricheX2)
        ensures
            r == *self,
    {
        SubmetricheX2 {
            metriche_x2_a: self.metriche_x2_a,
            classi_eta: self.classi_eta.clone(),
            metriche_x2_b: self.metriche_x2_b.clone(),
        }
    }
}

impl SubmetricheX2 {
    pub fn new(
        metriche_x2_a: MetricheX2A,
        classi_eta: ClassiEtaSpecieNISECI,
        metriche_x2_b: MetricheX2B,
    ) -> (r: SubmetricheX2)
        ensures
            r.metriche_x2_a == metriche_x2_a,
            r.classi_eta == classi_eta,
            r.metriche_x2_b == metriche_x2_b,
    {
        SubmetricheX2 { metriche_x2_a, classi_eta, metriche_x2_b }
    }

    pub fn get_metriche_x2_a(&self) -> (r: MetricheX2A)
        ensures
            r == self.metriche_x2_a,
    {
        self.metriche_x2_a
    }

    pub fn get_classi_eta(&self) -> (r: ClassiEtaSpecieNISECI)
        ensures
            r == self.classi_eta,
    {
        self.classi_eta.clone()
    }

    pub fn get_metriche_x2_b(&self) -> (r: MetricheX2B)
        ensures
            r == self.metriche_x2_b,
    {
        self.metriche_x2_b.clone()
    }
}

/// Le somme di x2 (struttura e densita, in mezzi punti) con i valori
/// intermedi di ogni specie selezionata.
pub struct MetricheX2 {
    pub criterio_a: u64,
    pub criterio_b: u64,
    pub submetriche: Vec<SubmetricheX2>,
}

impl MetricheX2 {
    pub fn new(criterio_a: u64, criterio_b: u64, submetriche: Vec<SubmetricheX2>) -> (r:
        MetricheX2)
        ensures
            r.criterio_a == criterio_a,
            r.criterio_b == criterio_b,
            r.submetriche == submetriche,
    {
        MetricheX2 { criterio_a, criterio_b, submetriche }
    }

    /// La somma dei punteggi di struttura, in mezzi punti.
    pub fn get_criterio_a(&self) -> (r: u64)
        ensures
            r == self.criterio_a,
    {
        self.criterio_a
    }

    /// La somma dei punteggi di densita, in mezzi punti.
    pub fn get_criterio_b(&self) -> (r: u64)
        ensures
            r == self.criterio_b,
    {
        self.criterio_b
    }

    pub fn get_submetriche_map(&self) -> (r: &Vec<SubmetricheX2>)
        ensures
            r == &self.submetriche,
    {
        &self.submetriche
    }
}

/// Punteggio di densita e quantita stimata di una specie: la stima
/// della quantita, la densita sull'area della stazione e il
/// confronto con le soglie della specie.
pub fn calculate_x2_b(e: &EsemplariPerCattura, lunghezza_media: u32, larghezza_media: u32) -> (r:
    Result<(u32, Option<(u64, u64)>, u32), String>)
    requires
        e.mappa@.len() >= 1,
        chiavi_uniche(e.mappa@),
        chiavi_positive(e.mappa@),
        e.mappa@.len() == 1 || cumulato(e.mappa@, massima_chiave(e.mappa@)) <= i32::MAX,
    ensures
        match stima_quantita(e.mappa@) {
            Option::None => r is Err,
            Option::Some(q) => {
                &&& r is Ok
                &&& r->Ok_0.0 == punteggio_densita(
                    q,
                    e.specie,
                    lunghezza_media as int,
                    larghezza_media as int,
                )
                &&& r->Ok_0.2 == q
                &&& r->Ok_0.1 == frazione_densita(
                    q,
                    lunghezza_media as int,
                    larghezza_media as int,
                )
            },
        },
        r is Err ==> r->Err_0@ == "quantita stimata negativa"@,
{
    let q_stimata = match get_quantita_stimata(&e.mappa) {
        Result::Ok(q) => q,
        Result::Err(err_message) => {
            return Result::Err(err_message);
        },
    };
    proof {
        assert(0 <= (lunghezza_media as u64) * (larghezza_media as u64)
            <= 0xffff_ffff_ffff_ffffu64) by (nonlinear_arith)
            requires
                0 <= lunghezza_media <= 0xffff_ffffu32 && 0 <= larghezza_media
                    <= 0xffff_ffffu32,
        ;
    }
    let area: u64 = (lunghezza_media as u64) * (larghezza_media as u64);
    if area == 0 {
        let punteggio: u32 = if q_stimata > 0 {
            2
        } else {
            0
        };
        return Result::Ok((punteggio, Option::None, q_stimata));
    }
    proof {
        assert(0 <= (e.specie.dens_soglia2 as int) * (area as int)
            < 0x1_0000_0000_0000_0000_0000_0000_0000int && 0 <= (e.specie.dens_soglia1 as int) * (
        area as int) < 0x1_0000_0000_0000_0000_0000_0000_0000int) by (nonlinear_arith)
            requires
                0 <= e.specie.dens_soglia2 <= 0xffff_ffffu32 && 0 <= e.specie.dens_soglia1
                    <= 0xffff_ffffu32 && 0 <= area <= 0xffff_ffff_ffff_ffffu64,
        ;
        assert((e.specie.dens_soglia2 as int) * (lunghezza_media as int) * (larghezza_media
            as int) == (e.specie.dens_soglia2 as int) * (area as int) && (e.specie.dens_soglia1
            as int) * (lunghezza_media as int) * (larghezza_media as int) == (
        e.specie.dens_soglia1 as int) * (area as int)) by (nonlinear_arith)
            requires
                area == (lunghezza_media as int) * (larghezza_media as int),
        ;
    }
    let densita_num: u128 = 1000000000u128 * (q_stimata as u128);
    let soglia2_area: u128 = (e.specie.dens_soglia2 as u128) * (area as u128);
    let soglia1_area: u128 = (e.specie.dens_soglia1 as u128) * (area as u128);
    let densita = Option::Some(((q_stimata as u64) * 1000000u64, area));
    if densita_num > soglia2_area {
        return Result::Ok((2, densita, q_stimata));
    }
    if densita_num > soglia1_area {
        return Result::Ok((1, densita, q_stimata));
    }
    Result::Ok((0, densita, q_stimata))
}

/// Il punteggio di densita dipende dalla specie solo attraverso le
/// soglie: due schede con la stessa configurazione danno lo stesso
/// punteggio.
proof fn lemma_densita_congruente(q: int, a: SpecieNISECI, b: SpecieNISECI, lm: int, wm: int)
    requires
        crate::gruppi::stessa_configurazione(a, b),
    ensures
        punteggio_densita(q, a, lm, wm) == punteggio_densita(q, b, lm, wm),
{
}

/// Quante specie selezionate hanno una stima di quantita fallita:
/// la lunghezza dell'elenco di errori del motore.
pub open spec fn conta_stime_fallite(
    s: Seq<RecordNISECI>,
    sel: crate::gruppi::SelettoreSpecie,
) -> int {
    crate::gruppi::ids_selezionati(s, sel).filter(
        |id: Seq<char>| stima_di(s, sel, id) is None,
    ).len() as int
}

/// I codici, in ordine, dei valori intermedi di x2.
pub open spec fn ids_delle_sottometriche(subs: Seq<SubmetricheX2>) -> Seq<Seq<char>> {
    subs.map_values(|x: SubmetricheX2| x.metriche_x2_b.id_specie@)
}

/// Un valore intermedio di x2 e fedele alla propria specie: porta il
/// suo quadro di classi, i criteri e il punteggio di struttura, la
/// quantita stimata, il punteggio e la frazione di densita.
pub open spec fn sottometrica_valida(
    s: Seq<RecordNISECI>,
    sel: crate::gruppi::SelettoreSpecie,
    lm: int,
    wm: int,
    sub: SubmetricheX2,
) -> bool {
    let id = sub.metriche_x2_b.id_specie@;
    let quadro = crate::x3::quadro_di(s, sel, id);
    &&& crate::gruppi::ids_selezionati(s, sel).contains(id)
    &&& sub.classi_eta.specie.id@ == id
    &&& sub.classi_eta.cl1 == crate::gruppi::conta_classe(s, sel, id, 1)
    &&& sub.classi_eta.cl2 == crate::gruppi::conta_classe(s, sel, id, 2)
    &&& sub.classi_eta.cl3 == crate::gruppi::conta_classe(s, sel, id, 3)
    &&& sub.classi_eta.cl4 == crate::gruppi::conta_classe(s, sel, id, 4)
    &&& sub.classi_eta.cl5 == crate::gruppi::conta_classe(s, sel, id, 5)
    &&& sub.metriche_x2_a.criterio_a == crate::domain_niseci::criterio_a_di(quadro)
    &&& sub.metriche_x2_a.criteri_x2a_b.criterio_b == crate::domain_niseci::criterio_b_di(quadro)
    &&& sub.metriche_x2_a.criteri_x2a_b.rapporto_ad_juv
        == crate::domain_niseci::rapporto_ad_juv_di(quadro)
    &&& stima_di(s, sel, id) is Some
    &&& sub.metriche_x2_b.quantita_stimata == stima_di(s, sel, id)->0
    &&& sub.metriche_x2_b.x2_b == punteggio_dens_di(s, sel, id, lm, wm)
    &&& sub.metriche_x2_b.densita_stimata == frazione_densita(stima_di(s, sel, id)->0, lm, wm)
}

/// Il valore di x2 in millesimi: `None` quando nessuna specie
/// selezionata e stata campionata (indice non calcolabile).
pub open spec fn x2_milli_spec(
    s: Seq<RecordNISECI>,
    sel: crate::gruppi::SelettoreSpecie,
    lm: int,
    wm: int,
) -> Option<int> {
    let n = crate::gruppi::ids_selezionati(s, sel).len() as int;
    if n == 0 {
        Option::None
    } else {
        Option::Some(
            arrotonda_quoziente(100 * (3 * somma_x2a(s, sel) + 2 * somma_x2b(s, sel, lm, wm)), n),
        )
    }
}

/// Il motore comune di x2: raggruppa le specie selezionate, somma i
/// punteggi di struttura e di densita e combina le due somme.
#[verifier::loop_isolation(false)]
#[verifier::rlimit(80)]
fn motore_x2(
    campionamento: &CampionamentoNISECI,
    anagrafica: &AnagraficaNISECI,
    sel: crate::gruppi::SelettoreSpecie,
) -> (r: Result<(Option<u32>, MetricheX2), Vec<String>>)
    requires
        campionamento.campionamento@.len() <= i32::MAX,
        crate::gruppi::specie_coerenti(campionamento.campionamento@),
        passaggi_positivi(campionamento.campionamento@),
    ensures
        (r is Err) <==> !stime_riuscite(campionamento.campionamento@, sel),
        r is Err ==> r->Err_0@.len() == conta_stime_fallite(campionamento.campionamento@, sel),
        r is Err ==> forall|k: int|
            0 <= k < r->Err_0@.len() ==> (#[trigger] r->Err_0@[k])@
                == "quantita stimata negativa"@,
        r is Ok ==> {
            let esito = x2_milli_spec(
                campionamento.campionamento@,
                sel,
                anagrafica.lunghezza_media_stazione as int,
                anagrafica.larghezza_media_stazione as int,
            );
            &&& ((r->Ok_0.0 is Some) <==> (esito is Some))
            &&& (esito is Some ==> r->Ok_0.0->0 == esito->0)
            &&& r->Ok_0.1.criterio_a == somma_x2a(campionamento.campionamento@, sel)
            &&& r->Ok_0.1.criterio_b == somma_x2b(
                campionamento.campionamento@,
                sel,
                anagrafica.lunghezza_media_stazione as int,
                anagrafica.larghezza_media_stazione as int,
            )
            &&& r->Ok_0.1.submetriche@.len() == crate::gruppi::ids_selezionati(
                campionamento.campionamento@,
                sel,
            ).len()
            &&& ids_delle_sottometriche(r->Ok_0.1.submetriche@).to_set()
                == crate::gruppi::ids_selezionati(campionamento.campionamento@, sel)
            &&& ids_delle_sottometriche(r->Ok_0.1.submetriche@).no_duplicates()
            &&& forall|k: int|
                0 <= k < r->Ok_0.1.submetriche@.len() ==> sottometrica_valida(
                    campionamento.campionamento@,
                    sel,
                    anagrafica.lunghezza_media_stazione as int,
                    anagrafica.larghezza_media_stazione as int,
                    #[trigger] r->Ok_0.1.submetriche@[k],
                )
        },
{
    let ghost s = campionamento.campionamento@;
    let ghost lm = anagrafica.lunghezza_media_stazione as int;
    let ghost wm = anagrafica.larghezza_media_stazione as int;
    let lunghezza = anagrafica.get_lunghezza_media();
    let larghezza = anagrafica.get_larghezza_media();
    let gruppi = crate::gruppi::raggruppa(&campionamento.campionamento, sel);
    let ghost ids = crate::gruppi::ids_dei_gruppi(gruppi@);
    let ghost pred_a1 = |id: Seq<char>| crate::x3::punteggio_di(s, sel, id) == 1;
    let ghost pred_a2 = |id: Seq<char>| crate::x3::punteggio_di(s, sel, id) == 2;
    let ghost pred_b1 = |id: Seq<char>| stima_di(s, sel, id) is Some && punteggio_dens_di(
        s,
        sel,
        id,
        lm,
        wm,
    ) == 1;
    let ghost pred_b2 = |id: Seq<char>| stima_di(s, sel, id) is Some && punteggio_dens_di(
        s,
        sel,
        id,
        lm,
        wm,
    ) == 2;
    let ghost pred_fallita = |id: Seq<char>| stima_di(s, sel, id) is None;
    let mut ca1: usize = 0;
    let mut ca2: usize = 0;
    let mut cb1: usize = 0;
    let mut cb2: usize = 0;
    let mut submetriche: Vec<SubmetricheX2> = Vec::new();
    let mut errors: Vec<String> = Vec::new();
    let mut j: usize = 0;
    proof {
        assert(ids.take(0) =~= Seq::<Seq<char>>::empty());
    }
    while j < gruppi.len()
        invariant
            0 <= j <= gruppi@.len(),
            ca1 == crate::x3::conta_ids_pred(ids.take(j as int), pred_a1),
            ca2 == crate::x3::conta_ids_pred(ids.take(j as int), pred_a2),
            cb1 == crate::x3::conta_ids_pred(ids.take(j as int), pred_b1),
            cb2 == crate::x3::conta_ids_pred(ids.take(j as int), pred_b2),
            ca1 + ca2 <= j && cb1 + cb2 <= j,
            (errors@.len() > 0) <==> exists|a: int|
                0 <= a < j && (#[trigger] stima_di(s, sel, ids[a])) is None,
            errors@.len() == crate::x3::conta_ids_pred(ids.take(j as int), pred_fallita),
            forall|k: int|
                0 <= k < errors@.len() ==> (#[trigger] errors@[k])@
                    == "quantita stimata negativa"@,
            errors@.len() == 0 ==> submetriche@.len() == j,
            errors@.len() == 0 ==> forall|k: int|
                0 <= k < j ==> sottometrica_valida(s, sel, lm, wm, #[trigger] submetriche@[k])
                    && submetriche@[k].metriche_x2_b.id_specie@ == ids[k],
        decreases gruppi@.len() - j,
    {
        proof {
            assert(ids.take(j + 1).drop_last() =~= ids.take(j as int));
            assert(ids.take(j + 1).last() == ids[j as int]);
            crate::x3::lemma_criteri_del_gruppo(s, sel, gruppi@, j as int);
        }
        let classe = &gruppi[j];
        let esito_struttura = classe.calculate_struttura_popolazione();
        let coppie = coppie_passaggi(&campionamento.campionamento, &sel, &classe.specie.id);
        proof {
            let id = ids[j as int];
            assert(crate::gruppi::ids_selezionati(s, sel).contains(id)) by {
                assert(ids.to_set().contains(id));
            }
            crate::gruppi::lemma_id_selezionato_da_cattura(s, sel, id);
            let i0 = choose|i0: int|
                0 <= i0 < s.len() && (#[trigger] s[i0].specie.id@) == id && crate::gruppi::seleziona(
                    sel,
                    s[i0].specie,
                );
            lemma_record_conta(s, sel, id, i0);
            lemma_coppie_fino(s, sel, id, 255);
            assert(1 <= s[i0].passaggio_cattura <= 255);
            assert(coppie@.len() >= 1) by {
                let p0 = s[i0].passaggio_cattura as int;
                assert(conta_passaggio(s, sel, id, p0) > 0);
                let jj = choose|jj: int|
                    0 <= jj < coppie_canoniche(s, sel, id).len() && (#[trigger] coppie_canoniche(
                        s,
                        sel,
                        id,
                    )[jj].0) == p0;
            }
            assert(chiavi_uniche(coppie@) && chiavi_positive(coppie@));
            lemma_massima_limitata(coppie@, 255);
            assert(massima_chiave(coppie@) >= 0) by {
                if coppie@.len() > 0 {
                    lemma_chiave_entro_massima(coppie@, 0);
                }
            }
            lemma_cumulato_canonico(s, sel, id, massima_chiave(coppie@));
            lemma_somma_conte_limite(s, sel, id, massima_chiave(coppie@));
            assert(cumulato(coppie@, massima_chiave(coppie@)) <= i32::MAX);
        }
        let esemplari = EsemplariPerCattura {
            specie: classe.specie.clone(),
            mappa: coppie,
        };
        let esito_b = calculate_x2_b(&esemplari, lunghezza, larghezza);
        match esito_struttura {
            Result::Ok((punteggio_a, metriche_a)) => {
                proof {
                    assert(punteggio_a == crate::x3::punteggio_di(s, sel, ids[j as int]));
                }
                if punteggio_a == 1 {
                    ca1 = ca1 + 1;
                }
                if punteggio_a == 2 {
                    ca2 = ca2 + 1;
                }
                match esito_b {
                    Result::Ok((punteggio_b, densita, quantita)) => {
                        proof {
                            assert(stima_di(s, sel, ids[j as int]) is Some);
                            let i2 = choose|i2: int|
                                0 <= i2 < s.len() && s[i2].specie.id@ == ids[j as int];
                            let iw = choose|iw: int|
                                0 <= iw < s.len() && (#[trigger] s[iw].specie.id@) == ids[j
                                    as int] && crate::gruppi::stessa_configurazione(
                                    s[iw].specie,
                                    gruppi@[j as int].specie,
                                );
                            assert(crate::gruppi::stessa_configurazione(
                                s[iw].specie,
                                s[i2].specie,
                            ));
                            assert(crate::gruppi::stessa_configurazione(
                                esemplari.specie,
                                crate::x3::specie_di(s, ids[j as int]),
                            ));
                            lemma_densita_congruente(
                                stima_di(s, sel, ids[j as int])->0,
                                esemplari.specie,
                                crate::x3::specie_di(s, ids[j as int]),
                                lm,
                                wm,
                            );
                            assert(punteggio_b == punteggio_dens_di(s, sel, ids[j as int], lm, wm));
                        }
                        if punteggio_b == 1 {
                            cb1 = cb1 + 1;
                        }
                        if punteggio_b == 2 {
                            cb2 = cb2 + 1;
                        }
                        let metriche_b = MetricheX2B::new(
                            classe.specie.id.clone(),
                            densita,
                            quantita,
                            punteggio_b,
                        );
                        submetriche.push(
                            SubmetricheX2::new(metriche_a, classe.clone(), metriche_b),
                        );
                        proof {
                            let id = ids[j as int];
                            let quadro = crate::x3::quadro_di(s, sel, id);
                            crate::gruppi::lemma_conta_classe_limitata(s, sel, id, 1);
                            crate::gruppi::lemma_conta_classe_limitata(s, sel, id, 2);
                            crate::gruppi::lemma_conta_classe_limitata(s, sel, id, 3);
                            crate::gruppi::lemma_conta_classe_limitata(s, sel, id, 4);
                            crate::gruppi::lemma_conta_classe_limitata(s, sel, id, 5);
                            assert(quadro.cl1 == gruppi@[j as int].cl1 && quadro.cl2 == gruppi@[
                            j as int].cl2 && quadro.cl3 == gruppi@[j as int].cl3 && quadro.cl4
                                == gruppi@[j as int].cl4 && quadro.cl5 == gruppi@[j as int].cl5);
                            assert(crate::domain_niseci::rapporto_ad_juv_di(quadro)
                                == crate::domain_niseci::rapporto_ad_juv_di(gruppi@[j as int]));
                            assert(sottometrica_valida(
                                s,
                                sel,
                                lm,
                                wm,
                                submetriche@[submetriche@.len() - 1],
                            ));
                        }
                    },
                    Result::Err(messaggio) => {
                        proof {
                            assert(stima_di(s, sel, ids[j as int]) is None);
                        }
                        errors.push(messaggio);
                    },
                }
            },
            Result::Err(_) => {
                // irraggiungibile: la classificazione riesce sempre
                proof {
                    assert(false);
                }
            },
        }
        j = j + 1;
    }
    proof {
        assert(ids.take(ids.len() as int) =~= ids);
        crate::x3::lemma_conta_ids_pred(ids, pred_a1);
        crate::x3::lemma_conta_ids_pred(ids, pred_a2);
        crate::x3::lemma_conta_ids_pred(ids, pred_b1);
        crate::x3::lemma_conta_ids_pred(ids, pred_b2);
        assert(ids.to_set() =~= crate::gruppi::ids_selezionati(s, sel));
        assert(ids.to_set().filter(pred_a1) =~= crate::gruppi::ids_selezionati(s, sel).filter(
            |id: Seq<char>| crate::x3::punteggio_di(s, sel, id) == 1,
        ));
        assert(ids.to_set().filter(pred_a2) =~= crate::gruppi::ids_selezionati(s, sel).filter(
            |id: Seq<char>| crate::x3::punteggio_di(s, sel, id) == 2,
        ));
        assert(ids.to_set().filter(pred_b1) =~= crate::gruppi::ids_selezionati(s, sel).filter(
            |id: Seq<char>| stima_di(s, sel, id) is Some && punteggio_dens_di(s, sel, id, lm, wm)
                == 1,
        ));
        assert(ids.to_set().filter(pred_b2) =~= crate::gruppi::ids_selezionati(s, sel).filter(
            |id: Seq<char>| stima_di(s, sel, id) is Some && punteggio_dens_di(s, sel, id, lm, wm)
                == 2,
        ));
        crate::x3::lemma_conta_ids_pred(ids, pred_fallita);
        assert(ids.to_set().filter(pred_fallita) =~= crate::gruppi::ids_selezionati(
            s,
            sel,
        ).filter(|id: Seq<char>| stima_di(s, sel, id) is None));
        if errors@.len() == 0 {
            assert(ids_delle_sottometriche(submetriche@) =~= ids);
            assert(ids_delle_sottometriche(submetriche@).to_set()
                =~= crate::gruppi::ids_selezionati(s, sel));
        }
        // l'esito degli errori enumera l'insieme delle specie
        if errors@.len() > 0 {
            let a = choose|a: int|
                0 <= a < ids.len() && (#[trigger] stima_di(s, sel, ids[a])) is None;
            assert(ids.to_set().contains(ids[a]));
            assert(!stime_riuscite(s, sel));
        } else {
            assert forall|id: Seq<char>|
                crate::gruppi::ids_selezionati(s, sel).contains(id) implies (#[trigger] stima_di(
                s,
                sel,
                id,
            )) is Some by {
                assert(ids.to_set().contains(id));
                let a = choose|a: int| 0 <= a < ids.len() && ids[a] == id;
                assert(!(stima_di(s, sel, ids[a]) is None));
            }
        }
        ids.unique_seq_to_set();
    }
    if errors.len() > 0 {
        return Result::Err(errors);
    }
    let n: usize = gruppi.len();
    proof {
        crate::gruppi::lemma_ids_selezionati_limitati(s, sel);
        assert(n <= s.len());
    }
    let somma_a: u64 = ca1 as u64 + 2 * (ca2 as u64);
    let somma_b: u64 = cb1 as u64 + 2 * (cb2 as u64);
    let metriche = MetricheX2::new(somma_a, somma_b, submetriche);
    if n == 0 {
        return Result::Ok((Option::None, metriche));
    }
    let num: i128 = 100 * (3 * (somma_a as i128) + 2 * (somma_b as i128));
    proof {
        assert(ca1 + ca2 <= n && cb1 + cb2 <= n);
        assert(somma_a <= 2 * n && somma_b <= 2 * n);
        assert(num <= 1000 * (n as i128)) by (nonlinear_arith)
            requires
                num == 100 * (3 * (somma_a as i128) + 2 * (somma_b as i128)) && somma_a <= 2 * n
                    && somma_b <= 2 * n,
        ;
        crate::aritmetica::lemma_arrotonda_massimo(num as int, n as int, 1000);
        crate::aritmetica::lemma_arrotonda_limite(num as int, n as int);
    }
    let milli: i128 = rdiv_i128(num, n as i128);
    Result::Ok((Option::Some(milli as u32), metriche))
}

/// Calcola x2 per le specie autoctone con il valore di attesa
/// richiesto: `None` quando nessuna di esse e stata campionata.
pub fn calculate_x2(
    campionamento: &CampionamentoNISECI,
    anagrafica: &AnagraficaNISECI,
    require_specie_attesa: bool,
) -> (r: Result<(Option<u32>, MetricheX2), Vec<String>>)
    requires
        campionamento.campionamento@.len() <= i32::MAX,
        crate::gruppi::specie_coerenti(campionamento.campionamento@),
        passaggi_positivi(campionamento.campionamento@),
    ensures
        (r is Err) <==> !stime_riuscite(
            campionamento.campionamento@,
            crate::gruppi::SelettoreSpecie::AttesaAutoctona(require_specie_attesa),
        ),
        r is Err ==> r->Err_0@.len() == conta_stime_fallite(
            campionamento.campionamento@,
            crate::gruppi::SelettoreSpecie::AttesaAutoctona(require_specie_attesa),
        ),
        r is Err ==> forall|k: int|
            0 <= k < r->Err_0@.len() ==> (#[trigger] r->Err_0@[k])@
                == "quantita stimata negativa"@,
        r is Ok ==> {
            let esito = x2_milli_spec(
                campionamento.campionamento@,
                crate::gruppi::SelettoreSpecie::AttesaAutoctona(require_specie_attesa),
                anagrafica.lunghezza_media_stazione as int,
                anagrafica.larghezza_media_stazione as int,
            );
            &&& ((r->Ok_0.0 is Some) <==> (esito is Some))
            &&& (esito is Some ==> r->Ok_0.0->0 == esito->0)
            &&& r->Ok_0.1.criterio_a == somma_x2a(
                campionamento.campionamento@,
                crate::gruppi::SelettoreSpecie::AttesaAutoctona(require_specie_attesa),
            )
            &&& r->Ok_0.1.criterio_b == somma_x2b(
                campionamento.campionamento@,
                crate::gruppi::SelettoreSpecie::AttesaAutoctona(require_specie_attesa),
                anagrafica.lunghezza_media_stazione as int,
                anagrafica.larghezza_media_stazione as int,
            )
            &&& r->Ok_0.1.submetriche@.len() == crate::gruppi::ids_selezionati(
                campionamento.campionamento@,
                crate::gruppi::SelettoreSpecie::AttesaAutoctona(require_specie_attesa),
            ).len()
            &&& ids_delle_sottometriche(r->Ok_0.1.submetriche@).to_set()
                == crate::gruppi::ids_selezionati(
                campionamento.campionamento@,
                crate::gruppi::SelettoreSpecie::AttesaAutoctona(require_specie_attesa),
            )
            &&& ids_delle_sottometriche(r->Ok_0.1.submetriche@).no_duplicates()
            &&& forall|k: int|
                0 <= k < r->Ok_0.1.submetriche@.len() ==> sottometrica_valida(
                    campionamento.campionamento@,
                    crate::gruppi::SelettoreSpecie::AttesaAutoctona(require_specie_attesa),
                    anagrafica.lunghezza_media_stazione as int,
                    anagrafica.larghezza_media_stazione as int,
                    #[trigger] r->Ok_0.1.submetriche@[k],
                )
        },
{
    motore_x2(
        campionamento,
        anagrafica,
        crate::gruppi::SelettoreSpecie::AttesaAutoctona(require_specie_attesa),
    )
}

/// Calcola x2 per le sole specie alloctone (a scopo informativo).
pub fn calculate_x2_per_alloctone(
    campionamento: &CampionamentoNISECI,
    anagrafica: &AnagraficaNISECI,
) -> (r: Result<(Option<u32>, MetricheX2), Vec<String>>)
    requires
        campionamento.campionamento@.len() <= i32::MAX,
        crate::gruppi::specie_coerenti(campionamento.campionamento@),
        passaggi_positivi(campionamento.campionamento@),
    ensures
        (r is Err) <==> !stime_riuscite(
            campionamento.campionamento@,
            crate::gruppi::SelettoreSpecie::AlloctonaQualsiasi,
        ),
        r is Err ==> r->Err_0@.len() == conta_stime_fallite(
            campionamento.campionamento@,
            crate::gruppi::SelettoreSpecie::AlloctonaQualsiasi,
        ),
        r is Err ==> forall|k: int|
            0 <= k < r->Err_0@.len() ==> (#[trigger] r->Err_0@[k])@
                == "quantita stimata negativa"@,
        r is Ok ==> {
            let esito = x2_milli_spec(
                campionamento.campionamento@,
                crate::gruppi::SelettoreSpecie::AlloctonaQualsiasi,
                anagrafica.lunghezza_media_stazione as int,
                anagrafica.larghezza_media_stazione as int,
            );
            &&& ((r->Ok_0.0 is Some) <==> (esito is Some))
            &&& (esito is Some ==> r->Ok_0.0->0 == esito->0)
            &&& r->Ok_0.1.criterio_a == somma_x2a(
                campionamento.campionamento@,
                crate::gruppi::SelettoreSpecie::AlloctonaQualsiasi,
            )
            &&& r->Ok_0.1.criterio_b == somma_x2b(
                campionamento.campionamento@,
                crate::gruppi::SelettoreSpecie::AlloctonaQualsiasi,
                anagrafica.lunghezza_media_stazione as int,
                anagrafica.larghezza_media_stazione as int,
            )
            &&& r->Ok_0.1.submetriche@.len() == crate::gruppi::ids_selezionati(
                campionamento.campionamento@,
                crate::gruppi::SelettoreSpecie::AlloctonaQualsiasi,
            ).len()
            &&& ids_delle_sottometriche(r->Ok_0.1.submetriche@).to_set()
                == crate::gruppi::ids_selezionati(
                campionamento.campionamento@,
                crate::gruppi::SelettoreSpecie::AlloctonaQualsiasi,
            )
            &&& ids_delle_sottometriche(r->Ok_0.1.submetriche@).no_duplicates()
            &&& forall|k: int|
                0 <= k < r->Ok_0.1.submetriche@.len() ==> sottometrica_valida(
                    campionamento.campionamento@,
                    crate::gruppi::SelettoreSpecie::AlloctonaQualsiasi,
                    anagrafica.lunghezza_media_stazione as int,
                    anagrafica.larghezza_media_stazione as int,
                    #[trigger] r->Ok_0.1.submetriche@[k],
                )
        },
{
    motore_x2(campionamento, anagrafica, crate::gruppi::SelettoreSpecie::AlloctonaQualsiasi)
}

} // verus!
