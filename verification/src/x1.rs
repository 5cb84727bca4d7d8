//! Sottometrica NISECI x1: presenza delle specie attese. Il rapporto
//! pesato `(1.2 n_i + 0.8 n_a) / (1.2 m_i + 0.8 m_a)` conta le specie
//! distinte, campionate e attese, contro quelle del riferimento, e
//! qui vale in millesimi su interi esatti.

use vstd::prelude::*;

use crate::aritmetica::{arrotonda_quoziente, lemma_arrotonda_limite, rdiv_i128};
use crate::domain_niseci::{CampionamentoNISECI, RecordNISECI, RiferimentoNISECI, SpecieNISECI};
use crate::insieme_specie::InsiemeSpecie;

verus! {

/// I codici distinti delle specie attese campionate con il tipo
/// autoctono dato.
pub open spec fn ids_campionati_tipo(s: Seq<RecordNISECI>, t: int) -> Set<Seq<char>>
    decreases s.len(),
{
    if s.len() == 0 {
        Set::empty()
    } else {
        let resto = ids_campionati_tipo(s.drop_last(), t);
        if s.last().specie.specie_attesa && s.last().specie.tipo_autoctono == t {
            resto.insert(s.last().specie.id@)
        } else {
            resto
        }
    }
}

/// I codici distinti delle specie attese del riferimento con il tipo
/// autoctono dato.
pub open spec fn ids_riferimento_tipo(s: Seq<SpecieNISECI>, t: int) -> Set<Seq<char>>
    decreases s.len(),
{
    if s.len() == 0 {
        Set::empty()
    } else {
        let resto = ids_riferimento_tipo(s.drop_last(), t);
        if s.last().specie_attesa && s.last().tipo_autoctono == t {
            resto.insert(s.last().id@)
        } else {
            resto
        }
    }
}

/// Il valore di x1 in millesimi: indefinito quando il riferimento non
/// attende alcuna specie autoctona di tipo 1 o 2 (denominatore nullo,
/// che il calcolo in virgola mobile propagherebbe come infinito).
pub open spec fn x1_spec(c: Seq<RecordNISECI>, rif: Seq<SpecieNISECI>) -> Option<int> {
    let n_i = ids_campionati_tipo(c, 1).len() as int;
    let n_a = ids_campionati_tipo(c, 2).len() as int;
    let m_i = ids_riferimento_tipo(rif, 1).len() as int;
    let m_a = ids_riferimento_tipo(rif, 2).len() as int;
    let den = 12 * m_i + 8 * m_a;
    if den == 0 {
        Option::None
    } else {
        Option::Some(arrotonda_quoziente(1000 * (12 * n_i + 8 * n_a), den))
    }
}

/// I codici distinti dei campionati non superano le catture.
proof fn lemma_ids_campionati_limitati(s: Seq<RecordNISECI>, t: int)
    ensures
        ids_campionati_tipo(s, t).finite(),
        ids_campionati_tipo(s, t).len() <= s.len(),
    decreases s.len(),
{
    if s.len() > 0 {
        lemma_ids_campionati_limitati(s.drop_last(), t);
    }
}

/// I codici distinti del riferimento non superano il suo elenco.
proof fn lemma_ids_riferimento_limitati(s: Seq<SpecieNISECI>, t: int)
    ensures
        ids_riferimento_tipo(s, t).finite(),
        ids_riferimento_tipo(s, t).len() <= s.len(),
    decreases s.len(),
{
    if s.len() > 0 {
        lemma_ids_riferimento_limitati(s.drop_last(), t);
    }
}

/// Le specie attese campionate, distinte per codice, del tipo dato.
fn conta_campionate(campionamento: &Vec<RecordNISECI>, tipo: u8) -> (r: usize)
    ensures
        r == ids_campionati_tipo(campionamento@, tipo as int).len(),
{
    let ghost s = campionamento@;
    let mut trovate = InsiemeSpecie::new();
    let mut i: usize = 0;
    proof {
        assert(s.take(0) =~= Seq::<RecordNISECI>::empty());
    }
    while i < campionamento.len()
        invariant
            0 <= i <= s.len(),
            s == campionamento@,
            trovate.wf(),
            trovate.ids() == ids_campionati_tipo(s.take(i as int), tipo as int),
        decreases s.len() - i,
    {
        proof {
            assert(s.take(i + 1).drop_last() =~= s.take(i as int));
            assert(s.take(i + 1).last() == s[i as int]);
        }
        let record = &campionamento[i];
        if record.specie.specie_attesa && record.specie.tipo_autoctono == tipo {
            if !trovate.contiene(&record.specie.id) {
                trovate.inserisci(&record.specie.id);
            } else {
                proof {
                    assert(ids_campionati_tipo(s.take(i as int), tipo as int).insert(
                        s[i as int].specie.id@,
                    ) =~= ids_campionati_tipo(s.take(i as int), tipo as int));
                }
            }
        }
        i = i + 1;
    }
    proof {
        assert(s.take(s.len() as int) =~= s);
    }
    trovate.quanti()
}

/// Le specie attese del riferimento, distinte per codice, del tipo
/// dato.
fn conta_riferimento(elenco: &Vec<SpecieNISECI>, tipo: u8) -> (r: usize)
    ensures
        r == ids_riferimento_tipo(elenco@, tipo as int).len(),
{
    let ghost s = elenco@;
    let mut trovate = InsiemeSpecie::new();
    let mut i: usize = 0;
    proof {
        assert(s.take(0) =~= Seq::<SpecieNISECI>::empty());
    }
    while i < elenco.len()
        invariant
            0 <= i <= s.len(),
            s == elenco@,
            trovate.wf(),
            trovate.ids() == ids_riferimento_tipo(s.take(i as int), tipo as int),
        decreases s.len() - i,
    {
        proof {
            assert(s.take(i + 1).drop_last() =~= s.take(i as int));
            assert(s.take(i + 1).last() == s[i as int]);
        }
        let specie = &elenco[i];
        if specie.specie_attesa && specie.tipo_autoctono == tipo {
            if !trovate.contiene(&specie.id) {
                trovate.inserisci(&specie.id);
            } else {
                proof {
                    assert(ids_riferimento_tipo(s.take(i as int), tipo as int).insert(
                        s[i as int].id@,
                    ) =~= ids_riferimento_tipo(s.take(i as int), tipo as int));
                }
            }
        }
        i = i + 1;
    }
    proof {
        assert(s.take(s.len() as int) =~= s);
    }
    trovate.quanti()
}

/// Calcola x1 in millesimi: `None` quando il riferimento non attende
/// alcuna specie autoctona, il caso in cui la formula non e definita.
pub fn calculate_x1(campionamento: &CampionamentoNISECI, riferimento: &RiferimentoNISECI) -> (r:
    Option<u64>)
    requires
        campionamento.campionamento@.len() <= u32::MAX,
        riferimento.elenco_specie@.len() <= u32::MAX,
    ensures
        match x1_spec(campionamento.campionamento@, riferimento.elenco_specie@) {
            Option::None => r is None,
            Option::Some(v) => r == Option::Some(v as u64),
        },
{
    let n_i: usize = conta_campionate(&campionamento.campionamento, 1);
    let n_a: usize = conta_campionate(&campionamento.campionamento, 2);
    let m_i: usize = conta_riferimento(&riferimento.elenco_specie, 1);
    let m_a: usize = conta_riferimento(&riferimento.elenco_specie, 2);
    proof {
        lemma_ids_campionati_limitati(campionamento.campionamento@, 1);
        lemma_ids_campionati_limitati(campionamento.campionamento@, 2);
        lemma_ids_riferimento_limitati(riferimento.elenco_specie@, 1);
        lemma_ids_riferimento_limitati(riferimento.elenco_specie@, 2);
    }
    let den: i128 = 12 * (m_i as i128) + 8 * (m_a as i128);
    if den == 0 {
        return Option::None;
    }
    let num: i128 = 1000 * (12 * (n_i as i128) + 8 * (n_a as i128));
    let milli: i128 = rdiv_i128(num, den);
    proof {
        lemma_arrotonda_limite(num as int, den as int);
    }
    Option::Some(milli as u64)
}

} // verus!
