//! Le decisioni intere del motore HFBI: il conteggio S90 della regola
//! di dominanza del 90% e la classificazione dello stato ecologico.

use vstd::prelude::*;

use crate::domain_hfbi::StatoEcologicoHFBI;

verus! {

/// Somma dei primi `k` pesi.
pub open spec fn somma_pesi(s: Seq<u64>, k: int) -> int
    decreases k,
{
    if k <= 0 {
        0
    } else {
        somma_pesi(s, k - 1) + s[k - 1] as int
    }
}

/// Il conteggio S90 a partire dalla posizione `k`: il primo prefisso,
/// in ordine di ingresso, la cui biomassa supera il 90% del totale.
pub open spec fn s90_da(s: Seq<u64>, tot: int, k: int) -> int
    decreases s.len() - k,
{
    if k < 0 || k >= s.len() {
        s.len() as int
    } else if 10 * somma_pesi(s, k + 1) > 9 * tot {
        k + 1
    } else {
        s90_da(s, tot, k + 1)
    }
}

/// Quanti record, in ordine di ingresso, servono per superare il 90%
/// della biomassa complessiva (la regola di dominanza S90).
pub open spec fn conteggio_s90(s: Seq<u64>) -> int {
    s90_da(s, somma_pesi(s, s.len() as int), 0)
}

/// La somma dei pesi cresce con il prefisso.
proof fn lemma_somma_pesi_monotona(s: Seq<u64>, j: int, k: int)
    requires
        j <= k,
    ensures
        somma_pesi(s, j) <= somma_pesi(s, k),
    decreases k - j,
{
    if j < k {
        lemma_somma_pesi_monotona(s, j, k - 1);
    }
}

/// Conta i record che, in ordine di ingresso, portano la biomassa
/// cumulata oltre il 90% del totale. I pesi sono in milligrammi.
pub fn calc_s90(pesi: &Vec<u64>) -> (r: usize)
    requires
        somma_pesi(pesi@, pesi@.len() as int) <= u64::MAX,
    ensures
        r == conteggio_s90(pesi@),
{
    let ghost s = pesi@;
    let n: usize = pesi.len();
    let ghost tot_spec = somma_pesi(s, s.len() as int);
    let mut tot: u64 = 0;
    let mut i: usize = 0;
    while i < n
        invariant
            0 <= i <= n,
            n == s.len(),
            s == pesi@,
            tot == somma_pesi(s, i as int),
            somma_pesi(s, s.len() as int) <= u64::MAX,
        decreases n - i,
    {
        proof {
            lemma_somma_pesi_monotona(s, i + 1, s.len() as int);
            lemma_somma_pesi_monotona(s, 0, i as int);
        }
        tot = tot + pesi[i];
        i = i + 1;
    }
    let mut tmp: u64 = 0;
    let mut conta: usize = 0;
    while conta < n
        invariant
            0 <= conta <= n,
            n == s.len(),
            s == pesi@,
            tot == tot_spec,
            tot_spec == somma_pesi(s, s.len() as int),
            tot_spec <= u64::MAX,
            tmp == somma_pesi(s, conta as int),
            s90_da(s, tot_spec, 0) == s90_da(s, tot_spec, conta as int),
            forall|j: int| 1 <= j <= conta ==> 10 * #[trigger] somma_pesi(s, j) <= 9 * tot_spec,
        decreases n - conta,
    {
        proof {
            lemma_somma_pesi_monotona(s, conta + 1, s.len() as int);
            lemma_somma_pesi_monotona(s, 0, conta as int);
        }
        tmp = tmp + pesi[conta];
        conta = conta + 1;
        if (10 as u128) * (tmp as u128) > (9 as u128) * (tot as u128) {
            return conta;
        }
    }
    conta
}

/// Conta i codici specie distinti di un elenco: il numero di specie
/// migratrici che la metrica di diversita dei migratori normalizza.
pub fn conta_codici_distinti(codici: &Vec<String>) -> (r: usize)
    ensures
        r == crate::insieme_specie::viste(codici@).to_set().len(),
{
    let ghost s = codici@;
    let mut trovati = crate::insieme_specie::InsiemeSpecie::new();
    let mut i: usize = 0;
    proof {
        assert(s.take(0) =~= Seq::<String>::empty());
        assert(crate::insieme_specie::viste(s.take(0)) =~= Seq::<Seq<char>>::empty());
    }
    while i < codici.len()
        invariant
            0 <= i <= s.len(),
            s == codici@,
            trovati.wf(),
            trovati.ids() == crate::insieme_specie::viste(s.take(i as int)).to_set(),
        decreases s.len() - i,
    {
        proof {
            let prima = crate::insieme_specie::viste(s.take(i as int));
            let dopo = crate::insieme_specie::viste(s.take(i + 1));
            assert(dopo =~= prima.push(s[i as int]@));
            assert forall|x: Seq<char>| dopo.to_set().contains(x) implies prima.to_set().insert(
                s[i as int]@,
            ).contains(x) by {
                let j = choose|j: int| 0 <= j < dopo.len() && dopo[j] == x;
                if j < prima.len() {
                    assert(prima.contains(x));
                }
            }
            assert forall|x: Seq<char>| prima.to_set().insert(s[i as int]@).contains(x) implies
                dopo.to_set().contains(x) by {
                if x == s[i as int]@ {
                    assert(dopo.last() == x);
                    assert(dopo.contains(x));
                } else {
                    let j = choose|j: int| 0 <= j < prima.len() && prima[j] == x;
                    assert(dopo[j] == x);
                    assert(dopo.contains(x));
                }
            }
            assert(dopo.to_set() =~= prima.to_set().insert(s[i as int]@));
        }
        let codice = &codici[i];
        if !trovati.contiene(codice) {
            trovati.inserisci(codice);
        } else {
            proof {
                assert(crate::insieme_specie::viste(s.take(i as int)).to_set().insert(
                    s[i as int]@,
                ) =~= crate::insieme_specie::viste(s.take(i as int)).to_set());
            }
        }
        i = i + 1;
    }
    proof {
        assert(s.take(s.len() as int) =~= s);
    }
    trovati.quanti()
}

/// Classificazione dello stato ecologico dal valore HFBI gia
/// arrotondato a tre decimali, in millesimi. Le soglie regolamentari:
/// 0.94 eccellente, 0.55 buono, 0.33 sufficiente, 0.11 scarso.
pub fn calculate_stato_ecologico_hfbi(hfbi: Option<i64>) -> (r: Option<StatoEcologicoHFBI>)
    ensures
        match hfbi {
            Option::None => r is None,
            Option::Some(v) => r == Option::Some(
                if v >= 940 {
                    StatoEcologicoHFBI::Eccellente
                } else if v >= 550 {
                    StatoEcologicoHFBI::Buono
                } else if v >= 330 {
                    StatoEcologicoHFBI::Sufficiente
                } else if v >= 110 {
                    StatoEcologicoHFBI::Scarso
                } else {
                    StatoEcologicoHFBI::Cattivo
                },
            ),
        },
{
    match hfbi {
        Option::Some(val) => {
            if val >= 940 {
                return Option::Some(StatoEcologicoHFBI::Eccellente);
            }
            if val >= 550 {
                return Option::Some(StatoEcologicoHFBI::Buono);
            }
            if val >= 330 {
                return Option::Some(StatoEcologicoHFBI::Sufficiente);
            }
            if val >= 110 {
                return Option::Some(StatoEcologicoHFBI::Scarso);
            }
            Option::Some(StatoEcologicoHFBI::Cattivo)
        },
        Option::None => Option::None,
    }
}

} // verus!
