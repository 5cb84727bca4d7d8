//! Sottometrica NISECI x3: impatto delle specie aliene. Senza alieni
//! vale 1.0; con tanti alieni quanti indigeni (o piu) vale 0.0;
//! altrimenti pesa la struttura delle popolazioni aliene per tipo di
//! nocivita. Il risultato vale in millesimi su interi esatti.

use vstd::prelude::*;

use crate::aritmetica::{
    arrotonda_quoziente, lemma_arrotonda_limite, lemma_arrotonda_massimo, rdiv_i128,
};
use crate::domain_niseci::{
    criterio_a_di, criterio_b_di, punteggio_struttura, CampionamentoNISECI, ClassiEtaSpecieNISECI,
    RecordNISECI, SpecieNISECI, conta_alieni, conta_indigeni,
};
use crate::gruppi::{
    conta_classe, ids_dei_gruppi, ids_selezionati, lemma_conta_classe_limitata,
    lemma_ids_selezionati_limitati, raggruppa, raggruppamento_valido, seleziona, specie_coerenti,
    stessa_configurazione, SelettoreSpecie,
};

verus! {

/// La scheda della specie con il codice dato, presa da una qualsiasi
/// delle sue catture (con un campionamento coerente sono tutte
/// uguali nei campi numerici).
pub open spec fn specie_di(s: Seq<RecordNISECI>, id: Seq<char>) -> SpecieNISECI {
    let i = choose|i: int| 0 <= i < s.len() && s[i].specie.id@ == id;
    s[i].specie
}

/// Il quadro delle classi di eta della specie `id` fra le catture
/// selezionate.
pub open spec fn quadro_di(s: Seq<RecordNISECI>, sel: SelettoreSpecie, id: Seq<char>) -> ClassiEtaSpecieNISECI {
    ClassiEtaSpecieNISECI {
        specie: specie_di(s, id),
        cl1: conta_classe(s, sel, id, 1) as u32,
        cl2: conta_classe(s, sel, id, 2) as u32,
        cl3: conta_classe(s, sel, id, 3) as u32,
        cl4: conta_classe(s, sel, id, 4) as u32,
        cl5: conta_classe(s, sel, id, 5) as u32,
    }
}

/// Il punteggio di struttura, in mezzi punti, della specie `id` fra
/// le catture selezionate.
pub open spec fn punteggio_di(s: Seq<RecordNISECI>, sel: SelettoreSpecie, id: Seq<char>) -> int {
    punteggio_struttura(
        criterio_a_di(quadro_di(s, sel, id)),
        criterio_b_di(quadro_di(s, sel, id)),
    )->0
}

/// Le specie aliene distinte del tipo dato.
pub open spec fn ids_tipo(s: Seq<RecordNISECI>, t: u8) -> Set<Seq<char>> {
    ids_selezionati(s, SelettoreSpecie::AlloctonaTipo(t))
}

/// Quante specie aliene distinte del tipo dato hanno il punteggio di
/// struttura `p` (in mezzi punti).
pub open spec fn conta_strutturate(s: Seq<RecordNISECI>, t: u8, p: int) -> int {
    ids_tipo(s, t).filter(
        |id: Seq<char>| punteggio_di(s, SelettoreSpecie::AlloctonaTipo(t), id) == p,
    ).len() as int
}

/// Se una specie aliena del tipo dato ha una popolazione del tutto
/// strutturata (punteggio 1.0).
pub open spec fn esiste_ben_strutturata(s: Seq<RecordNISECI>, t: u8) -> bool {
    exists|id: Seq<char>|
        ids_tipo(s, t).contains(id) && punteggio_di(s, SelettoreSpecie::AlloctonaTipo(t), id) == 2
}

/// Il fattore `a` di x3 in centesimi, scelto in ordine di priorita:
/// tipo 1 presente e poco strutturato 0.50, tipo 2 non meno numeroso
/// delle autoctone 0.50, tipo 2 presente 0.75, tipo 3 non meno
/// numeroso delle autoctone 0.75, tipo 3 presente 0.85, altrimenti 1.
pub open spec fn x3_a_centesimi(s: Seq<RecordNISECI>) -> int {
    let t1 = ids_tipo(s, 1).len() as int;
    let t2 = ids_tipo(s, 2).len() as int;
    let t3 = ids_tipo(s, 3).len() as int;
    let autoctone = ids_selezionati(s, SelettoreSpecie::AttesaAutoctona(true)).len() as int;
    if t1 > 0 && !esiste_ben_strutturata(s, 1) {
        50
    } else if t2 != 0 && t2 >= autoctone {
        50
    } else if t2 != 0 && t2 < autoctone {
        75
    } else if t3 >= autoctone {
        75
    } else if t3 != 0 && t3 < autoctone {
        85
    } else {
        100
    }
}

/// Il valore di x3 in millesimi.
pub open spec fn x3_spec(s: Seq<RecordNISECI>) -> int {
    if conta_alieni(s) == 0 {
        1000
    } else if conta_alieni(s) >= conta_indigeni(s) {
        0
    } else if esiste_ben_strutturata(s, 1) {
        0
    } else {
        let tot = ids_tipo(s, 1).len() + ids_tipo(s, 2).len() + ids_tipo(s, 3).len();
        let med = conta_strutturate(s, 1, 1) + conta_strutturate(s, 2, 1) + conta_strutturate(
            s,
            3,
            1,
        );
        let destr = conta_strutturate(s, 1, 0) + conta_strutturate(s, 2, 0) + conta_strutturate(
            s,
            3,
            0,
        );
        arrotonda_quoziente(
            5 * (x3_a_centesimi(s) * tot + 50 * (med + 2 * destr)),
            tot as int,
        )
    }
}

/// Legge: senza esemplari alieni x3 vale esattamente 1.0 (in
/// millesimi, 1000), qualunque sia il resto del campionamento.
pub proof fn lemma_x3_senza_alieni(s: Seq<RecordNISECI>)
    requires
        conta_alieni(s) == 0,
    ensures
        x3_spec(s) == 1000,
{
}

/// Il quadro di un gruppo coincide, nei criteri, con il quadro
/// astratto della sua specie.
pub proof fn lemma_criteri_del_gruppo(
    s: Seq<RecordNISECI>,
    sel: SelettoreSpecie,
    g: Seq<ClassiEtaSpecieNISECI>,
    j: int,
)
    requires
        specie_coerenti(s),
        raggruppamento_valido(s, sel, g),
        0 <= j < g.len(),
        s.len() <= u32::MAX,
    ensures
        criterio_a_di(g[j]) == criterio_a_di(quadro_di(s, sel, g[j].specie.id@)),
        criterio_b_di(g[j]) == criterio_b_di(quadro_di(s, sel, g[j].specie.id@)),
{
    let id = g[j].specie.id@;
    let q = quadro_di(s, sel, id);
    lemma_conta_classe_limitata(s, sel, id, 1);
    lemma_conta_classe_limitata(s, sel, id, 2);
    lemma_conta_classe_limitata(s, sel, id, 3);
    lemma_conta_classe_limitata(s, sel, id, 4);
    lemma_conta_classe_limitata(s, sel, id, 5);
    assert(q.cl1 == g[j].cl1 && q.cl2 == g[j].cl2 && q.cl3 == g[j].cl3 && q.cl4 == g[j].cl4
        && q.cl5 == g[j].cl5);
    let i = choose|i: int|
        0 <= i < s.len() && (#[trigger] s[i].specie.id@) == id && stessa_configurazione(
            s[i].specie,
            g[j].specie,
        );
    let i2 = choose|i2: int| 0 <= i2 < s.len() && s[i2].specie.id@ == id;
    assert(0 <= i2 < s.len() && s[i2].specie.id@ == id);
    assert(stessa_configurazione(s[i].specie, s[i2].specie));
    assert(stessa_configurazione(q.specie, g[j].specie));
}

/// Conta, scorrendo una sequenza di codici, quelli che soddisfano il
/// predicato.
pub open spec fn conta_ids_pred(ids: Seq<Seq<char>>, pred: spec_fn(Seq<char>) -> bool) -> int
    decreases ids.len(),
{
    if ids.len() == 0 {
        0
    } else {
        conta_ids_pred(ids.drop_last(), pred) + if pred(ids.last()) {
            1int
        } else {
            0int
        }
    }
}

/// Su una sequenza senza doppioni, il conteggio per scorrimento
/// coincide con la cardinalita del sottoinsieme filtrato.
pub proof fn lemma_conta_ids_pred(ids: Seq<Seq<char>>, pred: spec_fn(Seq<char>) -> bool)
    requires
        ids.no_duplicates(),
    ensures
        ids.to_set().finite(),
        conta_ids_pred(ids, pred) == ids.to_set().filter(pred).len(),
    decreases ids.len(),
{
    if ids.len() == 0 {
        assert(ids.to_set() =~= Set::<Seq<char>>::empty());
        assert(ids.to_set().filter(pred) =~= Set::<Seq<char>>::empty());
    } else {
        let dl = ids.drop_last();
        let ultimo = ids.last();
        assert(dl.no_duplicates());
        lemma_conta_ids_pred(dl, pred);
        assert forall|x: Seq<char>| ids.to_set().contains(x) implies dl.to_set().insert(
            ultimo,
        ).contains(x) by {
            let j = choose|j: int| 0 <= j < ids.len() && ids[j] == x;
            if j < dl.len() {
                assert(dl[j] == ids[j]);
                assert(dl.contains(x));
            }
        }
        assert forall|x: Seq<char>| dl.to_set().insert(ultimo).contains(x) implies
            ids.to_set().contains(x) by {
            if x == ultimo {
                assert(ids.contains(x));
            } else {
                let j = choose|j: int| 0 <= j < dl.len() && dl[j] == x;
                assert(ids[j] == x);
                assert(ids.contains(x));
            }
        }
        assert(ids.to_set() =~= dl.to_set().insert(ultimo));
        assert(!dl.to_set().contains(ultimo)) by {
            if dl.contains(ultimo) {
                let j = choose|j: int| 0 <= j < dl.len() && dl[j] == ultimo;
                assert(ids[j] == ids[ids.len() - 1]);
            }
        }
        if pred(ultimo) {
            assert(ids.to_set().filter(pred) =~= dl.to_set().filter(pred).insert(ultimo));
            assert(!dl.to_set().filter(pred).contains(ultimo));
        } else {
            assert(ids.to_set().filter(pred) =~= dl.to_set().filter(pred));
        }
    }
}

/// Un insieme finito che contiene qualcosa non e vuoto.
proof fn lemma_contiene_non_vuoto(s: Set<Seq<char>>, x: Seq<char>)
    requires
        s.finite(),
        s.contains(x),
    ensures
        s.len() >= 1,
{
    if s.len() == 0 {
        assert(s =~= Set::<Seq<char>>::empty()) by {
            vstd::set_lib::lemma_set_empty_equivalency_len(s);
        }
    }
}

/// Fra le catture ce n'e una selezionata per ogni codice selezionato,
/// e viceversa ogni cattura selezionata porta il suo codice.
proof fn lemma_cattura_porta_id(s: Seq<RecordNISECI>, sel: SelettoreSpecie, i: int)
    requires
        0 <= i < s.len(),
        seleziona(sel, s[i].specie),
    ensures
        ids_selezionati(s, sel).contains(s[i].specie.id@),
    decreases s.len(),
{
    if i == s.len() - 1 {
    } else {
        lemma_cattura_porta_id(s.drop_last(), sel, i);
        assert(s.drop_last()[i] == s[i]);
    }
}

/// Se il campionamento conta almeno un alieno, almeno un tipo di
/// nocivita ha una specie.
proof fn lemma_alieni_da_qualche_parte(s: Seq<RecordNISECI>)
    requires
        conta_alieni(s) > 0,
    ensures
        ids_tipo(s, 1).len() + ids_tipo(s, 2).len() + ids_tipo(s, 3).len() >= 1,
    decreases s.len(),
{
    lemma_ids_selezionati_limitati(s, SelettoreSpecie::AlloctonaTipo(1));
    lemma_ids_selezionati_limitati(s, SelettoreSpecie::AlloctonaTipo(2));
    lemma_ids_selezionati_limitati(s, SelettoreSpecie::AlloctonaTipo(3));
    if s.len() == 0 {
        assert(conta_alieni(s) == 0);
    }
    if 0 < s.last().specie.tipo_alloctono <= 3 {
        let i = s.len() - 1;
        let t = s[i].specie.tipo_alloctono;
        assert(seleziona(SelettoreSpecie::AlloctonaTipo(t), s[i].specie));
        lemma_cattura_porta_id(s, SelettoreSpecie::AlloctonaTipo(t), i);
        lemma_contiene_non_vuoto(ids_tipo(s, t), s[i].specie.id@);
    } else {
        lemma_alieni_da_qualche_parte(s.drop_last());
        assert forall|t: u8| 1 <= t <= 3 implies ids_tipo(s.drop_last(), t).len() <= (
        #[trigger] ids_tipo(s, t)).len() by {
            assert(ids_tipo(s, t) == ids_selezionati(s.drop_last(), SelettoreSpecie::AlloctonaTipo(t)));
        }
    }
}

/// Un valore intermedio di x3 e fedele alla propria specie aliena:
/// porta il suo quadro di classi, i criteri e il rapporto
/// adulti/giovani che lo hanno classificato.
pub open spec fn sottometrica_x3_valida(s: Seq<RecordNISECI>, t: u8, sub: SubmetricheX3) -> bool {
    let id = sub.classi_eta.specie.id@;
    let quadro = quadro_di(s, SelettoreSpecie::AlloctonaTipo(t), id);
    &&& ids_tipo(s, t).contains(id)
    &&& sub.classi_eta.cl1 == conta_classe(s, SelettoreSpecie::AlloctonaTipo(t), id, 1)
    &&& sub.classi_eta.cl2 == conta_classe(s, SelettoreSpecie::AlloctonaTipo(t), id, 2)
    &&& sub.classi_eta.cl3 == conta_classe(s, SelettoreSpecie::AlloctonaTipo(t), id, 3)
    &&& sub.classi_eta.cl4 == conta_classe(s, SelettoreSpecie::AlloctonaTipo(t), id, 4)
    &&& sub.classi_eta.cl5 == conta_classe(s, SelettoreSpecie::AlloctonaTipo(t), id, 5)
    &&& sub.criterio_a == criterio_a_di(quadro)
    &&& sub.criterio_b == criterio_b_di(quadro)
    &&& sub.rapporto_ad_juv == crate::domain_niseci::rapporto_ad_juv_di(quadro)
}

/// I valori intermedi di x3 per una specie aliena: il suo quadro di
/// classi e i criteri che lo hanno classificato.
#[derive(Clone)]
pub struct SubmetricheX3 {
    pub classi_eta: ClassiEtaSpecieNISECI,
    pub rapporto_ad_juv: Option<(u64, u64)>,
    pub criterio_a: u8,
    pub criterio_b: u8,
}

impl SubmetricheX3 {
    pub fn new(
        classi_eta: ClassiEtaSpecieNISECI,
        rapporto_ad_juv: Option<(u64, u64)>,
        criterio_a: u8,
        criterio_b: u8,
    ) -> (r: SubmetricheX3)
        ensures
            r.classi_eta == classi_eta,
            r.rapporto_ad_juv == rapporto_ad_juv,
            r.criterio_a == criterio_a,
            r.criterio_b == criterio_b,
    {
        SubmetricheX3 { classi_eta, rapporto_ad_juv, criterio_a, criterio_b }
    }

    pub fn get_classi_eta(&self) -> (r: ClassiEtaSpecieNISECI)
        ensures
            r == self.classi_eta,
    {
        self.classi_eta.clone()
    }

    pub fn get_rapporto_ad_juv(&self) -> (r: Option<(u64, u64)>)
        ensures
            r == self.rapporto_ad_juv,
    {
        self.rapporto_ad_juv
    }

    pub fn get_criterio_a(&self) -> (r: u8)
        ensures
            r == self.criterio_a,
    {
        self.criterio_a
    }

    pub fn get_criterio_b(&self) -> (r: u8)
        ensures
            r == self.criterio_b,
    {
        self.criterio_b
    }
}

/// I fattori `a` (in centesimi) e `b` (come frazione esatta) di x3,
/// con i valori intermedi per specie aliena.
pub struct MetricheX3 {
    pub criterio_a: u32,
    pub criterio_b: (u64, u64),
    pub submetriche: Vec<SubmetricheX3>,
}

impl MetricheX3 {
    pub fn new(criterio_a: u32, criterio_b: (u64, u64), submetriche: Vec<SubmetricheX3>) -> (r:
        MetricheX3)
        ensures
            r.criterio_a == criterio_a,
            r.criterio_b == criterio_b,
            r.submetriche == submetriche,
    {
        MetricheX3 { criterio_a, criterio_b, submetriche }
    }

    /// Il fattore `a`, in centesimi.
    pub fn get_criterio_a(&self) -> (r: u32)
        ensures
            r == self.criterio_a,
    {
        self.criterio_a
    }

    /// Il fattore `b`, come frazione (numeratore, denominatore).
    pub fn get_criterio_b(&self) -> (r: (u64, u64))
        ensures
            r == self.criterio_b,
    {
        self.criterio_b
    }

    pub fn get_submetriche_map(&self) -> (r: &Vec<SubmetricheX3>)
        ensures
            r == &self.submetriche,
    {
        &self.submetriche
    }
}

/// L'esito dell'esame di un gruppo di specie aliene: quante specie
/// con punteggio medio, quante destrutturate, se una e del tutto
/// strutturata, e i valori intermedi di ciascuna.
#[verifier::loop_isolation(false)]
fn esamina_gruppo(
    campionamento: &Vec<RecordNISECI>,
    t: u8,
    sub: &mut Vec<SubmetricheX3>,
) -> (r: (usize, usize, bool))
    requires
        campionamento@.len() <= u32::MAX,
        specie_coerenti(campionamento@),
        1 <= t <= 3,
    ensures
        r.0 == conta_strutturate(campionamento@, t, 1),
        r.1 == conta_strutturate(campionamento@, t, 0),
        r.2 == esiste_ben_strutturata(campionamento@, t),
        final(sub)@.len() == old(sub)@.len() + ids_tipo(campionamento@, t).len(),
        forall|k: int| 0 <= k < old(sub)@.len() ==> final(sub)@[k] == #[trigger] old(sub)@[k],
        forall|k: int|
            old(sub)@.len() <= k < final(sub)@.len() ==> sottometrica_x3_valida(
                campionamento@,
                t,
                #[trigger] final(sub)@[k],
            ),
{
    let ghost s = campionamento@;
    let ghost sel = SelettoreSpecie::AlloctonaTipo(t);
    let gruppo = raggruppa(campionamento, SelettoreSpecie::AlloctonaTipo(t));
    let ghost ids = ids_dei_gruppi(gruppo@);
    let ghost pred_med = |id: Seq<char>| punteggio_di(s, SelettoreSpecie::AlloctonaTipo(t), id)
        == 1;
    let ghost pred_destr = |id: Seq<char>| punteggio_di(s, SelettoreSpecie::AlloctonaTipo(t), id)
        == 0;
    let mut med: usize = 0;
    let mut destr: usize = 0;
    let mut strutturata: bool = false;
    let ghost sub_prima = sub@.len();
    let mut j: usize = 0;
    proof {
        assert(ids.take(0) =~= Seq::<Seq<char>>::empty());
    }
    while j < gruppo.len()
        invariant
            0 <= j <= gruppo@.len(),
            med == conta_ids_pred(ids.take(j as int), pred_med),
            destr == conta_ids_pred(ids.take(j as int), pred_destr),
            strutturata == exists|a: int|
                0 <= a < j && punteggio_di(s, SelettoreSpecie::AlloctonaTipo(t), #[trigger] ids[a])
                    == 2,
            sub@.len() == sub_prima + j,
            forall|k: int| 0 <= k < sub_prima ==> sub@[k] == #[trigger] old(sub)@[k],
            forall|k: int|
                sub_prima <= k < sub@.len() ==> sottometrica_x3_valida(
                    s,
                    t,
                    #[trigger] sub@[k],
                ),
            med <= j && destr <= j,
        decreases gruppo@.len() - j,
    {
        proof {
            assert(ids.take(j + 1).drop_last() =~= ids.take(j as int));
            assert(ids.take(j + 1).last() == ids[j as int]);
            lemma_criteri_del_gruppo(s, sel, gruppo@, j as int);
        }
        let classe = &gruppo[j];
        let esito = classe.calculate_struttura_popolazione();
        match esito {
            Result::Ok((punteggio, metriche)) => {
                proof {
                    assert(punteggio == punteggio_di(s, SelettoreSpecie::AlloctonaTipo(t), ids[j as int]));
                }
                if punteggio == 1 {
                    med = med + 1;
                }
                if punteggio == 0 {
                    destr = destr + 1;
                }
                if punteggio == 2 {
                    strutturata = true;
                }
                let rapporto = metriche.get_rapporto_ad_juv();
                let ca = metriche.get_criterio_a();
                let cb = metriche.get_criterio_b();
                sub.push(SubmetricheX3::new(classe.clone(), rapporto, ca, cb));
                proof {
                    let id = ids[j as int];
                    let quadro = quadro_di(s, SelettoreSpecie::AlloctonaTipo(t), id);
                    lemma_conta_classe_limitata(s, sel, id, 1);
                    lemma_conta_classe_limitata(s, sel, id, 2);
                    lemma_conta_classe_limitata(s, sel, id, 3);
                    lemma_conta_classe_limitata(s, sel, id, 4);
                    lemma_conta_classe_limitata(s, sel, id, 5);
                    assert(quadro.cl1 == gruppo@[j as int].cl1 && quadro.cl2 == gruppo@[j
                        as int].cl2 && quadro.cl3 == gruppo@[j as int].cl3 && quadro.cl4
                        == gruppo@[j as int].cl4 && quadro.cl5 == gruppo@[j as int].cl5);
                    assert(crate::domain_niseci::rapporto_ad_juv_di(quadro)
                        == crate::domain_niseci::rapporto_ad_juv_di(gruppo@[j as int]));
                    assert(ids.to_set().contains(id));
                    assert(sottometrica_x3_valida(s, t, sub@[sub@.len() - 1]));
                }
            },
            Result::Err(_) => {
                // irraggiungibile: la classificazione riesce sempre
                proof {
                    assert(false);
                }
            },
        }
        j = j + 1;
    }
    proof {
        assert(ids.take(ids.len() as int) =~= ids);
        lemma_conta_ids_pred(ids, pred_med);
        lemma_conta_ids_pred(ids, pred_destr);
        assert(ids.to_set() =~= ids_tipo(s, t));
        assert(ids.to_set().filter(pred_med) =~= ids_tipo(s, t).filter(
            |id: Seq<char>| punteggio_di(s, SelettoreSpecie::AlloctonaTipo(t), id) == 1,
        ));
        assert(ids.to_set().filter(pred_destr) =~= ids_tipo(s, t).filter(
            |id: Seq<char>| punteggio_di(s, SelettoreSpecie::AlloctonaTipo(t), id) == 0,
        ));
        // il segnale di popolazione strutturata enumera l'insieme
        if strutturata {
            let a = choose|a: int|
                0 <= a < ids.len() && punteggio_di(s, SelettoreSpecie::AlloctonaTipo(t), #[trigger] ids[a])
                    == 2;
            assert(ids.contains(ids[a]));
            assert(ids.to_set().contains(ids[a]));
            assert(esiste_ben_strutturata(s, t));
        } else {
            if esiste_ben_strutturata(s, t) {
                let id = choose|id: Seq<char>|
                    ids_tipo(s, t).contains(id) && punteggio_di(
                        s,
                        SelettoreSpecie::AlloctonaTipo(t),
                        id,
                    ) == 2;
                assert(ids.to_set().contains(id));
                let a = choose|a: int| 0 <= a < ids.len() && ids[a] == id;
                assert(false);
            }
        }
        ids.unique_seq_to_set();
    }
    (med, destr, strutturata)
}

/// Calcola x3 in millesimi. Il valore e sempre definito: i casi
/// senza alieni, con alieni prevalenti o con un'aliena di tipo 1 ben
/// strutturata escono subito senza valori intermedi.
pub fn calculate_x3(c: &CampionamentoNISECI) -> (r: Result<(u32, Option<MetricheX3>), Vec<String>>)
    requires
        c.campionamento@.len() <= u32::MAX,
        specie_coerenti(c.campionamento@),
    ensures
        r is Ok,
        r->Ok_0.0 == x3_spec(c.campionamento@),
        (r->Ok_0.1 is Some) <==> (conta_alieni(c.campionamento@) > 0 && conta_alieni(
            c.campionamento@,
        ) < conta_indigeni(c.campionamento@) && !esiste_ben_strutturata(c.campionamento@, 1)),
        r->Ok_0.1 is Some ==> {
            let s = c.campionamento@;
            let metriche = r->Ok_0.1->0;
            &&& metriche.criterio_a == x3_a_centesimi(s)
            &&& metriche.criterio_b.0 == conta_strutturate(s, 1, 1) + conta_strutturate(s, 2, 1)
                + conta_strutturate(s, 3, 1) + 2 * (conta_strutturate(s, 1, 0)
                + conta_strutturate(s, 2, 0) + conta_strutturate(s, 3, 0))
            &&& metriche.criterio_b.1 == 2 * (ids_tipo(s, 1).len() + ids_tipo(s, 2).len()
                + ids_tipo(s, 3).len())
            &&& metriche.submetriche@.len() == ids_tipo(s, 1).len() + ids_tipo(s, 2).len()
                + ids_tipo(s, 3).len()
            &&& forall|k: int|
                0 <= k < metriche.submetriche@.len() ==> sottometrica_x3_valida(
                    s,
                    1,
                    #[trigger] metriche.submetriche@[k],
                ) || sottometrica_x3_valida(s, 2, metriche.submetriche@[k])
                    || sottometrica_x3_valida(s, 3, metriche.submetriche@[k])
        },
{
    let ghost s = c.campionamento@;
    let alieni_indigeni = c.get_numero_pesci_alieni_e_indigeni();
    if alieni_indigeni.alieni == 0 {
        return Result::Ok((1000, Option::None));
    }
    if alieni_indigeni.alieni >= alieni_indigeni.indigeni {
        return Result::Ok((0, Option::None));
    }
    let mut submetriche: Vec<SubmetricheX3> = Vec::new();
    let (med1, destr1, strutturata1) = esamina_gruppo(&c.campionamento, 1, &mut submetriche);
    if strutturata1 {
        return Result::Ok((0, Option::None));
    }
    let ghost sub_dopo_1 = submetriche@;
    let (med2, destr2, _strutturata2) = esamina_gruppo(&c.campionamento, 2, &mut submetriche);
    let ghost sub_dopo_2 = submetriche@;
    let (med3, destr3, _strutturata3) = esamina_gruppo(&c.campionamento, 3, &mut submetriche);
    proof {
        assert forall|k: int| 0 <= k < submetriche@.len() implies sottometrica_x3_valida(
            s,
            1,
            #[trigger] submetriche@[k],
        ) || sottometrica_x3_valida(s, 2, submetriche@[k]) || sottometrica_x3_valida(
            s,
            3,
            submetriche@[k],
        ) by {
            if k < sub_dopo_1.len() {
                assert(submetriche@[k] == sub_dopo_2[k]);
                assert(sub_dopo_2[k] == sub_dopo_1[k]);
            } else if k < sub_dopo_2.len() {
                assert(submetriche@[k] == sub_dopo_2[k]);
            }
        }
    }
    let t1: usize = conta_ids_selezionati_tipo(&c.campionamento, 1);
    let t2: usize = conta_ids_selezionati_tipo(&c.campionamento, 2);
    let t3: usize = conta_ids_selezionati_tipo(&c.campionamento, 3);
    let autoctone: usize = c.get_tot_specie_autoctone_attese();
    proof {
        lemma_ids_selezionati_limitati(s, SelettoreSpecie::AlloctonaTipo(1));
        lemma_ids_selezionati_limitati(s, SelettoreSpecie::AlloctonaTipo(2));
        lemma_ids_selezionati_limitati(s, SelettoreSpecie::AlloctonaTipo(3));
        lemma_alieni_da_qualche_parte(s);
        lemma_limiti_conteggi(s);
    }
    let a_cent: u32 = if t1 > 0 {
        50
    } else if t2 != 0 && t2 >= autoctone {
        50
    } else if t2 != 0 && t2 < autoctone {
        75
    } else if t3 >= autoctone {
        75
    } else if t3 != 0 && t3 < autoctone {
        85
    } else {
        100
    };
    proof {
        assert(a_cent == x3_a_centesimi(s));
    }
    let tot: u64 = t1 as u64 + t2 as u64 + t3 as u64;
    let med: u64 = med1 as u64 + med2 as u64 + med3 as u64;
    let destr: u64 = destr1 as u64 + destr2 as u64 + destr3 as u64;
    proof {
        assert(med <= tot && destr <= tot);
        assert(0 <= (a_cent as i128) * (tot as i128) <= 0x400_0000_0000i128) by (nonlinear_arith)
            requires
                0 <= a_cent <= 100 && 0 <= tot <= 0x3_0000_0000u64,
        ;
    }
    let num: i128 = 5 * ((a_cent as i128) * (tot as i128) + 50 * ((med as i128) + 2 * (destr
        as i128)));
    proof {
        assert(num <= 1250 * (tot as i128)) by (nonlinear_arith)
            requires
                num == 5 * ((a_cent as i128) * (tot as i128) + 50 * ((med as i128) + 2 * (destr
                    as i128))) && a_cent <= 100 && med <= tot && destr <= tot && tot >= 1,
        ;
        lemma_arrotonda_massimo(num as int, tot as int, 1250);
        lemma_arrotonda_limite(num as int, tot as int);
    }
    let milli: i128 = rdiv_i128(num, tot as i128);
    let metriche = MetricheX3::new(a_cent, (med + 2 * destr, 2 * tot), submetriche);
    Result::Ok(((milli as u32), Option::Some(metriche)))
}

/// Quante specie aliene distinte del tipo dato.
fn conta_ids_selezionati_tipo(campionamento: &Vec<RecordNISECI>, t: u8) -> (r: usize)
    ensures
        r == ids_tipo(campionamento@, t).len(),
{
    crate::gruppi::conta_ids_selezionati(campionamento, SelettoreSpecie::AlloctonaTipo(t))
}

/// Le specie di punteggio medio o nullo non superano quelle del
/// proprio tipo.
proof fn lemma_limiti_conteggi(s: Seq<RecordNISECI>)
    ensures
        forall|t: u8, p: int|
            1 <= t <= 3 ==> 0 <= #[trigger] conta_strutturate(s, t, p) <= ids_tipo(s, t).len(),
{
    assert forall|t: u8, p: int| 1 <= t <= 3 implies 0 <= #[trigger] conta_strutturate(s, t, p)
        <= ids_tipo(s, t).len() by {
        lemma_ids_selezionati_limitati(s, SelettoreSpecie::AlloctonaTipo(t));
        ids_tipo(s, t).lemma_len_filter(
            |id: Seq<char>| punteggio_di(s, SelettoreSpecie::AlloctonaTipo(t), id) == p,
        );
    }
}

} // verus!
