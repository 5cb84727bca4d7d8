//! L'aggregatore NISECI: esegue x1, x2 (attese, non attese e
//! alloctone) e x3, raccoglie i valori intermedi per specie e
//! classifica lo stato ecologico dal rapporto di qualita ecologica.
//!
//! La formula finale dell'indice e la sua trasformazione in RQE
//! passano per radici e logaritmi in virgola mobile: vivono fuori dal
//! nucleo verificato, che consegna x1, x2 e x3 esatti in millesimi.

use vstd::prelude::*;

use crate::domain_niseci::{
    criterio_a_di, criterio_b_di, rapporto_ad_juv_di, AnagraficaNISECI, AreaNISECI,
    CampionamentoNISECI, ClassiEtaSpecieNISECI, RecordNISECI, RiferimentoNISECI,
    StatoEcologicoNISECI,
};
use crate::gruppi::{ids_selezionati, SelettoreSpecie};
use crate::x2::{
    conta_stime_fallite, frazione_densita, ids_delle_sottometriche, passaggi_positivi,
    punteggio_dens_di, sottometrica_valida, stima_di, stime_riuscite, x2_milli_spec, MetricheX2,
};
use crate::x3::{ids_tipo, sottometrica_x3_valida, x3_spec, MetricheX3};

verus! {

/// I valori intermedi di una specie, per il quadro di controllo.
pub struct ValoriIntermediSpecieNISECI {
    pub classi_eta: ClassiEtaSpecieNISECI,
    pub densita_stimata: Option<(u64, u64)>,
    pub quantita_stimata: u32,
    pub rapporto_ad_juv: Option<(u64, u64)>,
    pub x2_a_a: u8,
    pub x2_a_b: u8,
    pub x2_b: u32,
}

impl Clone for ValoriIntermediSpecieNISECI {
    fn clone(&self) -> (r: ValoriIntermediSpecieNISECI)
        ensures
            r == *self,
    {
        ValoriIntermediSpecieNISECI {
            classi_eta: self.classi_eta.clone(),
            densita_stimata: self.densita_stimata,
            quantita_stimata: self.quantita_stimata,
            rapporto_ad_juv: self.rapporto_ad_juv,
            x2_a_a: self.x2_a_a,
            x2_a_b: self.x2_a_b,
            x2_b: self.x2_b,
        }
    }
}

/// I valori intermedi dell'intero calcolo NISECI: x1 e x2 in
/// millesimi quando definiti, x3 in millesimi, le somme di x2 in
/// mezzi punti e i fattori di x3.
pub struct ValoriIntermediNISECI {
    pub x1: Option<u64>,
    pub x2: Option<u32>,
    pub x3: u32,
    pub specie_specifici: Vec<ValoriIntermediSpecieNISECI>,
    pub x2_a: u64,
    pub x2_b: u64,
    pub x3_a: Option<u32>,
    pub x3_b: Option<(u64, u64)>,
}

impl Clone for ValoriIntermediNISECI {
    fn clone(&self) -> (r: ValoriIntermediNISECI)
        ensures
            r.x1 == self.x1,
            r.x2 == self.x2,
            r.x3 == self.x3,
            r.x2_a == self.x2_a,
            r.x2_b == self.x2_b,
            r.x3_a == self.x3_a,
            r.x3_b == self.x3_b,
            r.specie_specifici@.len() == self.specie_specifici@.len(),
    {
        ValoriIntermediNISECI {
            x1: self.x1,
            x2: self.x2,
            x3: self.x3,
            specie_specifici: self.specie_specifici.clone(),
            x2_a: self.x2_a,
            x2_b: self.x2_b,
            x3_a: self.x3_a,
            x3_b: self.x3_b,
        }
    }
}

/// I codici, in ordine, delle voci del quadro per specie.
pub open spec fn ids_delle_voci(vs: Seq<ValoriIntermediSpecieNISECI>) -> Seq<Seq<char>> {
    vs.map_values(|v: ValoriIntermediSpecieNISECI| v.classi_eta.specie.id@)
}

/// Tutte le specie che il quadro per specie deve nominare: quelle
/// selezionate da uno qualsiasi dei tre passaggi di x2 (le aliene di
/// x3 sono gia fra le alloctone).
pub open spec fn unione_specie_quadro(s: Seq<RecordNISECI>) -> Set<Seq<char>> {
    ids_selezionati(s, SelettoreSpecie::AttesaAutoctona(true)) + ids_selezionati(
        s,
        SelettoreSpecie::AttesaAutoctona(false),
    ) + ids_selezionati(s, SelettoreSpecie::AlloctonaQualsiasi)
}

/// Una voce del quadro e fedele alla propria specie secondo uno dei
/// tre passaggi di x2: quadro di classi, criteri, rapporto, stima e
/// punteggio di densita della specie che nomina.
pub open spec fn voce_da_selettore(
    s: Seq<RecordNISECI>,
    sel: SelettoreSpecie,
    lm: int,
    wm: int,
    v: ValoriIntermediSpecieNISECI,
) -> bool {
    let id = v.classi_eta.specie.id@;
    let quadro = crate::x3::quadro_di(s, sel, id);
    &&& ids_selezionati(s, sel).contains(id)
    &&& v.classi_eta.cl1 == crate::gruppi::conta_classe(s, sel, id, 1)
    &&& v.classi_eta.cl2 == crate::gruppi::conta_classe(s, sel, id, 2)
    &&& v.classi_eta.cl3 == crate::gruppi::conta_classe(s, sel, id, 3)
    &&& v.classi_eta.cl4 == crate::gruppi::conta_classe(s, sel, id, 4)
    &&& v.classi_eta.cl5 == crate::gruppi::conta_classe(s, sel, id, 5)
    &&& v.x2_a_a == criterio_a_di(quadro)
    &&& v.x2_a_b == criterio_b_di(quadro)
    &&& v.rapporto_ad_juv == rapporto_ad_juv_di(quadro)
    &&& stima_di(s, sel, id) is Some
    &&& v.quantita_stimata == stima_di(s, sel, id)->0
    &&& v.x2_b == punteggio_dens_di(s, sel, id, lm, wm)
    &&& v.densita_stimata == frazione_densita(stima_di(s, sel, id)->0, lm, wm)
}

/// Una voce del quadro venuta da x3: quadro di classi, criteri e
/// rapporto della specie aliena, senza valori di densita.
pub open spec fn voce_da_x3(s: Seq<RecordNISECI>, t: u8, v: ValoriIntermediSpecieNISECI) -> bool {
    let id = v.classi_eta.specie.id@;
    let quadro = crate::x3::quadro_di(s, SelettoreSpecie::AlloctonaTipo(t), id);
    &&& ids_tipo(s, t).contains(id)
    &&& v.classi_eta.cl1 == crate::gruppi::conta_classe(
        s,
        SelettoreSpecie::AlloctonaTipo(t),
        id,
        1,
    )
    &&& v.classi_eta.cl2 == crate::gruppi::conta_classe(
        s,
        SelettoreSpecie::AlloctonaTipo(t),
        id,
        2,
    )
    &&& v.classi_eta.cl3 == crate::gruppi::conta_classe(
        s,
        SelettoreSpecie::AlloctonaTipo(t),
        id,
        3,
    )
    &&& v.classi_eta.cl4 == crate::gruppi::conta_classe(
        s,
        SelettoreSpecie::AlloctonaTipo(t),
        id,
        4,
    )
    &&& v.classi_eta.cl5 == crate::gruppi::conta_classe(
        s,
        SelettoreSpecie::AlloctonaTipo(t),
        id,
        5,
    )
    &&& v.x2_a_a == criterio_a_di(quadro)
    &&& v.x2_a_b == criterio_b_di(quadro)
    &&& v.rapporto_ad_juv == rapporto_ad_juv_di(quadro)
    &&& v.densita_stimata is None
    &&& v.quantita_stimata == 0
    &&& v.x2_b == 0
}

/// Una voce del quadro e fedele a una specie del campionamento,
/// attraverso uno dei passaggi che la producono.
pub open spec fn voce_quadro_valida(
    s: Seq<RecordNISECI>,
    lm: int,
    wm: int,
    v: ValoriIntermediSpecieNISECI,
) -> bool {
    ||| voce_da_selettore(s, SelettoreSpecie::AttesaAutoctona(true), lm, wm, v)
    ||| voce_da_selettore(s, SelettoreSpecie::AttesaAutoctona(false), lm, wm, v)
    ||| voce_da_selettore(s, SelettoreSpecie::AlloctonaQualsiasi, lm, wm, v)
    ||| voce_da_x3(s, 1, v)
    ||| voce_da_x3(s, 2, v)
    ||| voce_da_x3(s, 3, v)
}

/// Il quadro per specie in costruzione: codici senza doppioni, gli
/// stessi che l'insieme dei visti ricorda, e ogni voce fedele.
pub open spec fn quadro_coerente(
    s: Seq<RecordNISECI>,
    lm: int,
    wm: int,
    vs: Seq<ValoriIntermediSpecieNISECI>,
    visti: crate::insieme_specie::InsiemeSpecie,
) -> bool {
    &&& ids_delle_voci(vs).no_duplicates()
    &&& ids_delle_voci(vs).to_set() == visti.ids()
    &&& forall|k: int| 0 <= k < vs.len() ==> voce_quadro_valida(s, lm, wm, #[trigger] vs[k])
}

/// Aggiungere un codice in coda ai codici delle voci.
proof fn lemma_voci_accresciute(
    prima: Seq<ValoriIntermediSpecieNISECI>,
    dopo: Seq<ValoriIntermediSpecieNISECI>,
    nuova: ValoriIntermediSpecieNISECI,
)
    requires
        dopo == prima.push(nuova),
        ids_delle_voci(prima).no_duplicates(),
        !ids_delle_voci(prima).to_set().contains(nuova.classi_eta.specie.id@),
    ensures
        ids_delle_voci(dopo).no_duplicates(),
        ids_delle_voci(dopo).to_set() =~= ids_delle_voci(prima).to_set().insert(
            nuova.classi_eta.specie.id@,
        ),
{
    let id = nuova.classi_eta.specie.id@;
    let va = ids_delle_voci(prima);
    let vb = ids_delle_voci(dopo);
    assert(vb =~= va.push(id));
    assert forall|a: int, b: int| 0 <= a < b < vb.len() implies vb[a] != vb[b] by {
        if b == vb.len() - 1 {
            if va[a] == id {
                assert(va.contains(id));
                assert(va.to_set().contains(id));
            }
        }
    }
    assert forall|x: Seq<char>| vb.to_set().contains(x) implies va.to_set().insert(id).contains(
        x,
    ) by {
        let j = choose|j: int| 0 <= j < vb.len() && vb[j] == x;
        if j < va.len() {
            assert(va.contains(x));
        }
    }
    assert forall|x: Seq<char>| va.to_set().insert(id).contains(x) implies vb.to_set().contains(
        x,
    ) by {
        if x == id {
            assert(vb.last() == x);
            assert(vb.contains(x));
        } else {
            let j = choose|j: int| 0 <= j < va.len() && va[j] == x;
            assert(vb[j] == x);
            assert(vb.contains(x));
        }
    }
}

/// Travasa i valori intermedi delle specie di un passaggio di x2,
/// senza ripetere le specie gia presenti.
#[verifier::loop_isolation(false)]
fn aggiungi_intermedi_x2(
    valori: &mut Vec<ValoriIntermediSpecieNISECI>,
    visti: &mut crate::insieme_specie::InsiemeSpecie,
    metriche: &MetricheX2,
    Ghost(s): Ghost<Seq<RecordNISECI>>,
    Ghost(sel): Ghost<SelettoreSpecie>,
    Ghost(lm): Ghost<int>,
    Ghost(wm): Ghost<int>,
)
    requires
        old(visti).wf(),
        sel == SelettoreSpecie::AttesaAutoctona(true) || sel == SelettoreSpecie::AttesaAutoctona(
            false,
        ) || sel == SelettoreSpecie::AlloctonaQualsiasi,
        forall|k: int|
            0 <= k < metriche.submetriche@.len() ==> sottometrica_valida(
                s,
                sel,
                lm,
                wm,
                #[trigger] metriche.submetriche@[k],
            ),
        quadro_coerente(s, lm, wm, old(valori)@, *old(visti)),
    ensures
        final(visti).wf(),
        quadro_coerente(s, lm, wm, final(valori)@, *final(visti)),
        final(visti).ids() =~= old(visti).ids() + ids_delle_sottometriche(
            metriche.submetriche@,
        ).to_set(),
{
    let ghost subs = metriche.submetriche@;
    let mut k: usize = 0;
    proof {
        assert(ids_delle_sottometriche(subs).take(0) =~= Seq::<Seq<char>>::empty());
        assert(visti.ids() =~= old(visti).ids() + ids_delle_sottometriche(subs).take(
            0,
        ).to_set());
    }
    while k < metriche.submetriche.len()
        invariant
            0 <= k <= subs.len(),
            visti.wf(),
            quadro_coerente(s, lm, wm, valori@, *visti),
            visti.ids() == old(visti).ids() + ids_delle_sottometriche(subs).take(
                k as int,
            ).to_set(),
        decreases subs.len() - k,
    {
        let sub = &metriche.submetriche[k];
        let id = sub.metriche_x2_b.get_id();
        proof {
            let mappa = ids_delle_sottometriche(subs);
            let base = mappa.take(k as int);
            let presa = mappa.take(k + 1);
            assert(mappa[k as int] == id@);
            assert forall|x: Seq<char>| presa.to_set().contains(x) implies base.to_set().insert(
                id@,
            ).contains(x) by {
                let j = choose|j: int| 0 <= j < presa.len() && presa[j] == x;
                if j < k {
                    assert(base[j] == x);
                    assert(base.contains(x));
                }
            }
            assert forall|x: Seq<char>| base.to_set().insert(id@).contains(x) implies
                presa.to_set().contains(x) by {
                if x == id@ {
                    assert(presa[k as int] == x);
                    assert(presa.contains(x));
                } else {
                    let j = choose|j: int| 0 <= j < base.len() && base[j] == x;
                    assert(presa[j] == x);
                    assert(presa.contains(x));
                }
            }
            assert(presa.to_set() =~= base.to_set().insert(id@));
        }
        if !visti.contiene(&id) {
            visti.inserisci(&id);
            let ghost prima = valori@;
            valori.push(
                ValoriIntermediSpecieNISECI {
                    classi_eta: sub.get_classi_eta(),
                    densita_stimata: sub.metriche_x2_b.get_densita_stimata(),
                    quantita_stimata: sub.metriche_x2_b.get_quantita_stimata(),
                    rapporto_ad_juv: sub.metriche_x2_a.get_rapporto_ad_juv(),
                    x2_a_a: sub.metriche_x2_a.get_criterio_a(),
                    x2_a_b: sub.metriche_x2_a.get_criterio_b(),
                    x2_b: sub.metriche_x2_b.get_x2_b(),
                },
            );
            proof {
                let nuova = valori@[valori@.len() - 1];
                assert(nuova.classi_eta.specie.id@ == id@) by {
                    assert(sottometrica_valida(s, sel, lm, wm, subs[k as int]));
                }
                lemma_voci_accresciute(prima, valori@, nuova);
                assert(voce_da_selettore(s, sel, lm, wm, nuova)) by {
                    assert(sottometrica_valida(s, sel, lm, wm, subs[k as int]));
                }
                assert(voce_quadro_valida(s, lm, wm, nuova));
                assert(ids_delle_voci(valori@).to_set() =~= visti.ids());
                assert(visti.ids() =~= old(visti).ids() + ids_delle_sottometriche(subs).take(
                    k + 1,
                ).to_set());
            }
        } else {
            proof {
                let mappa = ids_delle_sottometriche(subs);
                assert(visti.ids().insert(id@) =~= visti.ids());
                assert(old(visti).ids() + mappa.take(k + 1).to_set() =~= visti.ids());
            }
        }
        k = k + 1;
    }
    proof {
        assert(ids_delle_sottometriche(subs).take(subs.len() as int) =~= ids_delle_sottometriche(
            subs,
        ));
    }
}

/// Travasa i valori intermedi delle specie aliene di x3, senza
/// ripetere le specie gia presenti.
#[verifier::loop_isolation(false)]
fn aggiungi_intermedi_x3(
    valori: &mut Vec<ValoriIntermediSpecieNISECI>,
    visti: &mut crate::insieme_specie::InsiemeSpecie,
    metriche: &MetricheX3,
    Ghost(s): Ghost<Seq<RecordNISECI>>,
    Ghost(lm): Ghost<int>,
    Ghost(wm): Ghost<int>,
)
    requires
        old(visti).wf(),
        forall|k: int|
            0 <= k < metriche.submetriche@.len() ==> sottometrica_x3_valida(
                s,
                1,
                #[trigger] metriche.submetriche@[k],
            ) || sottometrica_x3_valida(s, 2, metriche.submetriche@[k])
                || sottometrica_x3_valida(s, 3, metriche.submetriche@[k]),
        quadro_coerente(s, lm, wm, old(valori)@, *old(visti)),
    ensures
        final(visti).wf(),
        quadro_coerente(s, lm, wm, final(valori)@, *final(visti)),
        forall|x: Seq<char>|
            final(visti).ids().contains(x) ==> old(visti).ids().contains(x) || ids_tipo(
                s,
                1,
            ).contains(x) || ids_tipo(s, 2).contains(x) || ids_tipo(s, 3).contains(x),
        forall|x: Seq<char>| old(visti).ids().contains(x) ==> final(visti).ids().contains(x),
{
    let ghost subs = metriche.submetriche@;
    let mut k: usize = 0;
    while k < metriche.submetriche.len()
        invariant
            0 <= k <= subs.len(),
            visti.wf(),
            quadro_coerente(s, lm, wm, valori@, *visti),
            forall|x: Seq<char>|
                visti.ids().contains(x) ==> old(visti).ids().contains(x) || ids_tipo(
                    s,
                    1,
                ).contains(x) || ids_tipo(s, 2).contains(x) || ids_tipo(s, 3).contains(x),
            forall|x: Seq<char>| old(visti).ids().contains(x) ==> visti.ids().contains(x),
        decreases subs.len() - k,
    {
        let sub = &metriche.submetriche[k];
        let id = sub.classi_eta.specie.id.clone();
        if !visti.contiene(&id) {
            visti.inserisci(&id);
            let ghost prima = valori@;
            valori.push(
                ValoriIntermediSpecieNISECI {
                    classi_eta: sub.get_classi_eta(),
                    densita_stimata: Option::None,
                    quantita_stimata: 0,
                    rapporto_ad_juv: sub.get_rapporto_ad_juv(),
                    x2_a_a: sub.get_criterio_a(),
                    x2_a_b: sub.get_criterio_b(),
                    x2_b: 0,
                },
            );
            proof {
                let nuova = valori@[valori@.len() - 1];
                assert(nuova.classi_eta.specie.id@ == id@);
                lemma_voci_accresciute(prima, valori@, nuova);
                assert(voce_da_x3(s, 1, nuova) || voce_da_x3(s, 2, nuova) || voce_da_x3(
                    s,
                    3,
                    nuova,
                )) by {
                    assert(sottometrica_x3_valida(s, 1, subs[k as int]) || sottometrica_x3_valida(
                        s,
                        2,
                        subs[k as int],
                    ) || sottometrica_x3_valida(s, 3, subs[k as int]));
                }
                assert(voce_quadro_valida(s, lm, wm, nuova));
                assert(ids_delle_voci(valori@).to_set() =~= visti.ids());
            }
        }
        k = k + 1;
    }
}

/// Esegue l'intero calcolo NISECI nel dominio intero: x1, le tre
/// varianti di x2, x3 e il quadro dei valori intermedi per specie,
/// una voce per ogni specie selezionata da uno dei passaggi.
/// La combinazione finale in virgola mobile spetta al chiamante, che
/// da x1 e x2 (millesimi) e x3 (millesimi) deriva l'indice.
#[verifier::loop_isolation(false)]
pub fn calculate_niseci(
    campionamento: &CampionamentoNISECI,
    riferimento: &RiferimentoNISECI,
    anagrafica: &AnagraficaNISECI,
) -> (r: Result<ValoriIntermediNISECI, Vec<String>>)
    requires
        campionamento.campionamento@.len() <= i32::MAX,
        riferimento.elenco_specie@.len() <= u32::MAX,
        crate::gruppi::specie_coerenti(campionamento.campionamento@),
        passaggi_positivi(campionamento.campionamento@),
    ensures
        (r is Ok) <==> {
            &&& stime_riuscite(campionamento.campionamento@, SelettoreSpecie::AttesaAutoctona(true))
            &&& stime_riuscite(
                campionamento.campionamento@,
                SelettoreSpecie::AttesaAutoctona(false),
            )
            &&& stime_riuscite(campionamento.campionamento@, SelettoreSpecie::AlloctonaQualsiasi)
        },
        r is Err ==> {
            let s = campionamento.campionamento@;
            r->Err_0@.len() == (if !stime_riuscite(s, SelettoreSpecie::AttesaAutoctona(true)) {
                conta_stime_fallite(s, SelettoreSpecie::AttesaAutoctona(true))
            } else if !stime_riuscite(s, SelettoreSpecie::AttesaAutoctona(false)) {
                conta_stime_fallite(s, SelettoreSpecie::AttesaAutoctona(false))
            } else {
                conta_stime_fallite(s, SelettoreSpecie::AlloctonaQualsiasi)
            })
        },
        r is Err ==> {
            let s = campionamento.campionamento@;
            let prefisso = if !stime_riuscite(s, SelettoreSpecie::AttesaAutoctona(true)) {
                "Errore durante calcolo x2: "@
            } else if !stime_riuscite(s, SelettoreSpecie::AttesaAutoctona(false)) {
                "Errore durante calcolo x2_non_attese: "@
            } else {
                "Errore durante calcolo x2_per_alloctone: "@
            };
            forall|k: int|
                0 <= k < r->Err_0@.len() ==> (#[trigger] r->Err_0@[k])@ == prefisso
                    + "quantita stimata negativa"@
        },
        r is Ok ==> {
            let s = campionamento.campionamento@;
            let lm = anagrafica.lunghezza_media_stazione as int;
            let wm = anagrafica.larghezza_media_stazione as int;
            &&& (match crate::x1::x1_spec(s, riferimento.elenco_specie@) {
                Option::None => r->Ok_0.x1 is None,
                Option::Some(v) => r->Ok_0.x1 == Option::Some(v as u64),
            })
            &&& (match x2_milli_spec(s, SelettoreSpecie::AttesaAutoctona(true), lm, wm) {
                Option::None => r->Ok_0.x2 is None,
                Option::Some(v) => r->Ok_0.x2 == Option::Some(v as u32),
            })
            &&& r->Ok_0.x3 == x3_spec(s)
            &&& ((r->Ok_0.x3_a is Some) <==> (crate::domain_niseci::conta_alieni(s) > 0
                && crate::domain_niseci::conta_alieni(s) < crate::domain_niseci::conta_indigeni(s)
                && !crate::x3::esiste_ben_strutturata(s, 1)))
            &&& (r->Ok_0.x3_a is Some ==> r->Ok_0.x3_a->0 == crate::x3::x3_a_centesimi(s))
            &&& ((r->Ok_0.x3_b is Some) <==> (r->Ok_0.x3_a is Some))
            &&& (r->Ok_0.x3_b is Some ==> (r->Ok_0.x3_b->0).0 == crate::x3::conta_strutturate(s, 1, 1)
                + crate::x3::conta_strutturate(s, 2, 1) + crate::x3::conta_strutturate(s, 3, 1) + 2
                * (crate::x3::conta_strutturate(s, 1, 0) + crate::x3::conta_strutturate(s, 2, 0)
                + crate::x3::conta_strutturate(s, 3, 0)))
            &&& (r->Ok_0.x3_b is Some ==> (r->Ok_0.x3_b->0).1 == 2 * (ids_tipo(s, 1).len()
                + ids_tipo(s, 2).len() + ids_tipo(s, 3).len()))
            &&& r->Ok_0.x2_a == crate::x2::somma_x2a(s, SelettoreSpecie::AttesaAutoctona(true))
            &&& r->Ok_0.x2_b == crate::x2::somma_x2b(
                s,
                SelettoreSpecie::AttesaAutoctona(true),
                lm,
                wm,
            )
            &&& ids_delle_voci(r->Ok_0.specie_specifici@).no_duplicates()
            &&& ids_delle_voci(r->Ok_0.specie_specifici@).to_set() =~= unione_specie_quadro(s)
            &&& forall|k: int|
                0 <= k < r->Ok_0.specie_specifici@.len() ==> voce_quadro_valida(
                    s,
                    lm,
                    wm,
                    #[trigger] r->Ok_0.specie_specifici@[k],
                )
        },
{
    let ghost s = campionamento.campionamento@;
    let ghost lm = anagrafica.lunghezza_media_stazione as int;
    let ghost wm = anagrafica.larghezza_media_stazione as int;
    let x1 = crate::x1::calculate_x1(campionamento, riferimento);
    let mut errors: Vec<String> = Vec::new();
    let x2_attese = match crate::x2::calculate_x2(campionamento, anagrafica, true) {
        Result::Ok(v) => v,
        Result::Err(x2_errors) => {
            let lista = x2_errors;
            let prefisso = String::from_str("Errore durante calcolo x2: ");
            let mut k: usize = 0;
            while k < lista.len()
                invariant
                    0 <= k <= lista@.len(),
                    errors@.len() == k,
                    forall|i: int|
                        0 <= i < k ==> (#[trigger] errors@[i])@ == prefisso@ + lista@[i]@,
                decreases lista@.len() - k,
            {
                errors.push(prefisso.clone().concat(lista[k].as_str()));
                k = k + 1;
            }
            return Result::Err(errors);
        },
    };
    let (x2, criteri_x2) = x2_attese;
    let x2_non_attese = match crate::x2::calculate_x2(campionamento, anagrafica, false) {
        Result::Ok(v) => v,
        Result::Err(x2_errors) => {
            let lista = x2_errors;
            let prefisso = String::from_str("Errore durante calcolo x2_non_attese: ");
            let mut k: usize = 0;
            while k < lista.len()
                invariant
                    0 <= k <= lista@.len(),
                    errors@.len() == k,
                    forall|i: int|
                        0 <= i < k ==> (#[trigger] errors@[i])@ == prefisso@ + lista@[i]@,
                decreases lista@.len() - k,
            {
                errors.push(prefisso.clone().concat(lista[k].as_str()));
                k = k + 1;
            }
            return Result::Err(errors);
        },
    };
    let (_x2_non_attese, criteri_x2_non_attese) = x2_non_attese;
    let x2_alloctone = match crate::x2::calculate_x2_per_alloctone(campionamento, anagrafica) {
        Result::Ok(v) => v,
        Result::Err(x2_errors) => {
            let lista = x2_errors;
            let prefisso = String::from_str("Errore durante calcolo x2_per_alloctone: ");
            let mut k: usize = 0;
            while k < lista.len()
                invariant
                    0 <= k <= lista@.len(),
                    errors@.len() == k,
                    forall|i: int|
                        0 <= i < k ==> (#[trigger] errors@[i])@ == prefisso@ + lista@[i]@,
                decreases lista@.len() - k,
            {
                errors.push(prefisso.clone().concat(lista[k].as_str()));
                k = k + 1;
            }
            return Result::Err(errors);
        },
    };
    let (_x2_alloctone, criteri_x2_alloctone) = x2_alloctone;
    let x3_esito = match crate::x3::calculate_x3(campionamento) {
        Result::Ok(v) => v,
        Result::Err(_) => {
            // irraggiungibile: x3 non fallisce mai
            proof {
                assert(false);
            }
            return Result::Err(errors);
        },
    };
    let (x3, criteri_x3) = x3_esito;
    let mut valori: Vec<ValoriIntermediSpecieNISECI> = Vec::new();
    let mut visti = crate::insieme_specie::InsiemeSpecie::new();
    proof {
        assert(ids_delle_voci(valori@) =~= Seq::<Seq<char>>::empty());
        assert(ids_delle_voci(valori@).to_set() =~= visti.ids());
    }
    aggiungi_intermedi_x2(
        &mut valori,
        &mut visti,
        &criteri_x2,
        Ghost(s),
        Ghost(SelettoreSpecie::AttesaAutoctona(true)),
        Ghost(lm),
        Ghost(wm),
    );
    let ghost visti_1 = visti.ids();
    aggiungi_intermedi_x2(
        &mut valori,
        &mut visti,
        &criteri_x2_non_attese,
        Ghost(s),
        Ghost(SelettoreSpecie::AttesaAutoctona(false)),
        Ghost(lm),
        Ghost(wm),
    );
    let ghost visti_2 = visti.ids();
    aggiungi_intermedi_x2(
        &mut valori,
        &mut visti,
        &criteri_x2_alloctone,
        Ghost(s),
        Ghost(SelettoreSpecie::AlloctonaQualsiasi),
        Ghost(lm),
        Ghost(wm),
    );
    proof {
        assert(visti.ids() =~= unione_specie_quadro(s));
    }
    let ghost visti_3 = visti.ids();
    let (x3_a, x3_b) = match &criteri_x3 {
        Option::Some(crit) => {
            aggiungi_intermedi_x3(&mut valori, &mut visti, crit, Ghost(s), Ghost(lm), Ghost(wm));
            proof {
                assert forall|x: Seq<char>| visti.ids().contains(x) implies visti_3.contains(
                    x,
                ) by {
                    if ids_tipo(s, 1).contains(x) {
                        crate::gruppi::lemma_alloctona_tipo_contenuta(s, 1, x);
                    }
                    if ids_tipo(s, 2).contains(x) {
                        crate::gruppi::lemma_alloctona_tipo_contenuta(s, 2, x);
                    }
                    if ids_tipo(s, 3).contains(x) {
                        crate::gruppi::lemma_alloctona_tipo_contenuta(s, 3, x);
                    }
                }
                assert(visti.ids() =~= unione_specie_quadro(s));
            }
            (Option::Some(crit.get_criterio_a()), Option::Some(crit.get_criterio_b()))
        },
        Option::None => (Option::None, Option::None),
    };
    Result::Ok(
        ValoriIntermediNISECI {
            x1,
            x2,
            x3,
            specie_specifici: valori,
            x2_a: criteri_x2.get_criterio_a(),
            x2_b: criteri_x2.get_criterio_b(),
            x3_a,
            x3_b,
        },
    )
}

/// Classificazione dello stato ecologico NISECI dal rapporto di
/// qualita ecologica gia arrotondato a due decimali, in centesimi.
/// Soglie: 0.80 elevato; 0.52 (area alpina) o 0.60 (mediterranea)
/// buono; 0.40 moderato; 0.20 scadente; sotto, cattivo. Senza indice
/// non c'e stato.
pub fn calculate_stato_ecologico_niseci(rqe_centesimi: Option<i64>, area: &AreaNISECI) -> (r:
    Option<StatoEcologicoNISECI>)
    ensures
        match rqe_centesimi {
            Option::None => r is None,
            Option::Some(v) => r == Option::Some(
                if v >= 80 {
                    StatoEcologicoNISECI::Elevato
                } else if (area is Alpina && v >= 52) || (area is Mediterranea && v >= 60) {
                    StatoEcologicoNISECI::Buono
                } else if v >= 40 {
                    StatoEcologicoNISECI::Moderato
                } else if v >= 20 {
                    StatoEcologicoNISECI::Scadente
                } else {
                    StatoEcologicoNISECI::Cattivo
                },
            ),
        },
{
    match rqe_centesimi {
        Option::Some(val) => {
            if val >= 80 {
                return Option::Some(StatoEcologicoNISECI::Elevato);
            }
            match area {
                AreaNISECI::Alpina => {
                    if val >= 52 {
                        return Option::Some(StatoEcologicoNISECI::Buono);
                    }
                },
                AreaNISECI::Mediterranea => {
                    if val >= 60 {
                        return Option::Some(StatoEcologicoNISECI::Buono);
                    }
                },
            }
            if val >= 40 {
                return Option::Some(StatoEcologicoNISECI::Moderato);
            }
            if val >= 20 {
                return Option::Some(StatoEcologicoNISECI::Scadente);
            }
            Option::Some(StatoEcologicoNISECI::Cattivo)
        },
        Option::None => Option::None,
    }
}

} // verus!
