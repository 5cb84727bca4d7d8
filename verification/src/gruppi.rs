//! Raggruppamento delle catture per specie: da un campionamento e da
//! un criterio di selezione nasce, per ogni specie selezionata, il
//! quadro delle sue classi di eta. E il passo comune ai motori x2 e
//! x3, che poi classificano ogni quadro.

use vstd::prelude::*;

use crate::domain_niseci::{classe_eta_di, ClassiEtaSpecieNISECI, RecordNISECI, SpecieNISECI};

verus! {

/// Il criterio con cui un motore sceglie le specie da classificare.
#[derive(Copy, Clone)]
pub enum SelettoreSpecie {
    /// Specie autoctone (tipo 1 o 2) con il dato valore di attesa.
    AttesaAutoctona(bool),
    /// Ogni specie alloctona (tipo maggiore di zero).
    AlloctonaQualsiasi,
    /// Le sole specie alloctone del tipo dato.
    AlloctonaTipo(u8),
}

/// Se il selettore accetta la specie.
pub open spec fn seleziona(sel: SelettoreSpecie, sp: SpecieNISECI) -> bool {
    match sel {
        SelettoreSpecie::AttesaAutoctona(attesa) => sp.specie_attesa == attesa && (
        sp.tipo_autoctono == 1 || sp.tipo_autoctono == 2),
        SelettoreSpecie::AlloctonaQualsiasi => sp.tipo_alloctono > 0,
        SelettoreSpecie::AlloctonaTipo(t) => sp.tipo_alloctono == t && t > 0,
    }
}

/// Verifica a tempo di esecuzione del selettore.
pub fn corrisponde(sel: &SelettoreSpecie, sp: &SpecieNISECI) -> (r: bool)
    ensures
        r == seleziona(*sel, *sp),
{
    match sel {
        SelettoreSpecie::AttesaAutoctona(attesa) => sp.specie_attesa == *attesa && (
        sp.tipo_autoctono == 1 || sp.tipo_autoctono == 2),
        SelettoreSpecie::AlloctonaQualsiasi => sp.tipo_alloctono > 0,
        SelettoreSpecie::AlloctonaTipo(t) => sp.tipo_alloctono == *t && *t > 0,
    }
}

/// I codici distinti delle specie selezionate di un campionamento.
pub open spec fn ids_selezionati(s: Seq<RecordNISECI>, sel: SelettoreSpecie) -> Set<Seq<char>>
    decreases s.len(),
{
    if s.len() == 0 {
        Set::empty()
    } else {
        let resto = ids_selezionati(s.drop_last(), sel);
        if seleziona(sel, s.last().specie) {
            resto.insert(s.last().specie.id@)
        } else {
            resto
        }
    }
}

/// Quante catture selezionate della specie `id` cadono nella classe
/// di eta `k`.
pub open spec fn conta_classe(s: Seq<RecordNISECI>, sel: SelettoreSpecie, id: Seq<char>, k: int) -> int
    decreases s.len(),
{
    if s.len() == 0 {
        0
    } else {
        conta_classe(s.drop_last(), sel, id, k) + if seleziona(sel, s.last().specie)
            && s.last().specie.id@ == id && classe_eta_di(s.last().lunghezza as int, s.last().specie)
            == k {
            1int
        } else {
            0int
        }
    }
}

/// Due specie con gli stessi campi numerici: stesso ruolo nel
/// riferimento e stesse soglie.
pub open spec fn stessa_configurazione(a: SpecieNISECI, b: SpecieNISECI) -> bool {
    &&& a.id@ == b.id@
    &&& a.tipo_autoctono == b.tipo_autoctono
    &&& a.tipo_alloctono == b.tipo_alloctono
    &&& a.specie_attesa == b.specie_attesa
    &&& a.cl_soglia1 == b.cl_soglia1
    &&& a.cl_soglia2 == b.cl_soglia2
    &&& a.cl_soglia3 == b.cl_soglia3
    &&& a.cl_soglia4 == b.cl_soglia4
    &&& a.ad_juv_soglia1 == b.ad_juv_soglia1
    &&& a.ad_juv_soglia2 == b.ad_juv_soglia2
    &&& a.ad_juv_soglia3 == b.ad_juv_soglia3
    &&& a.ad_juv_soglia4 == b.ad_juv_soglia4
    &&& a.dens_soglia1 == b.dens_soglia1
    &&& a.dens_soglia2 == b.dens_soglia2
}

/// Lo stesso codice specie porta sempre la stessa scheda: il
/// riferimento validato non ammette ridefinizioni, e ogni cattura
/// porta la scheda della propria specie.
pub open spec fn specie_coerenti(s: Seq<RecordNISECI>) -> bool {
    forall|i: int, j: int|
        0 <= i < s.len() && 0 <= j < s.len() && (#[trigger] s[i].specie.id@) == (
        #[trigger] s[j].specie.id@) ==> stessa_configurazione(s[i].specie, s[j].specie)
}

/// I conteggi di classe non superano il numero di catture.
pub proof fn lemma_conta_classe_limitata(
    s: Seq<RecordNISECI>,
    sel: SelettoreSpecie,
    id: Seq<char>,
    k: int,
)
    ensures
        0 <= conta_classe(s, sel, id, k) <= s.len(),
    decreases s.len(),
{
    if s.len() > 0 {
        lemma_conta_classe_limitata(s.drop_last(), sel, id, k);
    }
}

/// I codici selezionati sono un insieme finito, non piu numeroso
/// delle catture.
pub proof fn lemma_ids_selezionati_limitati(s: Seq<RecordNISECI>, sel: SelettoreSpecie)
    ensures
        ids_selezionati(s, sel).finite(),
        ids_selezionati(s, sel).len() <= s.len(),
    decreases s.len(),
{
    if s.len() > 0 {
        lemma_ids_selezionati_limitati(s.drop_last(), sel);
    }
}

/// Un codice selezionato viene da una cattura selezionata.
pub proof fn lemma_id_selezionato_da_cattura(
    s: Seq<RecordNISECI>,
    sel: SelettoreSpecie,
    id: Seq<char>,
)
    requires
        ids_selezionati(s, sel).contains(id),
    ensures
        exists|i: int|
            0 <= i < s.len() && (#[trigger] s[i].specie.id@) == id && seleziona(sel, s[i].specie),
    decreases s.len(),
{
    if s.len() > 0 {
        if seleziona(sel, s.last().specie) && s.last().specie.id@ == id {
            assert(s[s.len() - 1].specie.id@ == id);
        } else {
            lemma_id_selezionato_da_cattura(s.drop_last(), sel, id);
            let i = choose|i: int|
                0 <= i < s.drop_last().len() && (#[trigger] s.drop_last()[i].specie.id@) == id
                    && seleziona(sel, s.drop_last()[i].specie);
            assert(s[i].specie.id@ == id && seleziona(sel, s[i].specie));
        }
    }
}

/// Una specie aliena di un tipo preciso e anche una specie aliena
/// qualsiasi.
pub proof fn lemma_alloctona_tipo_contenuta(s: Seq<RecordNISECI>, t: u8, id: Seq<char>)
    requires
        ids_selezionati(s, SelettoreSpecie::AlloctonaTipo(t)).contains(id),
    ensures
        ids_selezionati(s, SelettoreSpecie::AlloctonaQualsiasi).contains(id),
    decreases s.len(),
{
    if s.len() > 0 {
        if seleziona(SelettoreSpecie::AlloctonaTipo(t), s.last().specie) && s.last().specie.id@
            == id {
            assert(seleziona(SelettoreSpecie::AlloctonaQualsiasi, s.last().specie));
        } else {
            assert(ids_selezionati(s.drop_last(), SelettoreSpecie::AlloctonaTipo(t)).contains(
                id,
            ));
            lemma_alloctona_tipo_contenuta(s.drop_last(), t, id);
        }
    }
}

/// I codici, in ordine, di un elenco di quadri di classi di eta.
pub open spec fn ids_dei_gruppi(g: Seq<ClassiEtaSpecieNISECI>) -> Seq<Seq<char>> {
    g.map_values(|c: ClassiEtaSpecieNISECI| c.specie.id@)
}

/// Il risultato del raggruppamento: un quadro per ogni specie
/// selezionata, nell'ordine della prima cattura.
pub open spec fn raggruppamento_valido(
    s: Seq<RecordNISECI>,
    sel: SelettoreSpecie,
    g: Seq<ClassiEtaSpecieNISECI>,
) -> bool {
    &&& ids_dei_gruppi(g).no_duplicates()
    &&& ids_dei_gruppi(g).to_set() =~= ids_selezionati(s, sel)
    &&& forall|j: int|
        0 <= j < g.len() ==> {
            &&& (#[trigger] g[j]).cl1 == conta_classe(s, sel, g[j].specie.id@, 1)
            &&& g[j].cl2 == conta_classe(s, sel, g[j].specie.id@, 2)
            &&& g[j].cl3 == conta_classe(s, sel, g[j].specie.id@, 3)
            &&& g[j].cl4 == conta_classe(s, sel, g[j].specie.id@, 4)
            &&& g[j].cl5 == conta_classe(s, sel, g[j].specie.id@, 5)
            &&& seleziona(sel, g[j].specie)
            &&& exists|i: int|
                0 <= i < s.len() && (#[trigger] s[i].specie.id@) == g[j].specie.id@
                    && stessa_configurazione(s[i].specie, g[j].specie)
        }
}

/// Raccoglie le schede delle specie selezionate, una per codice,
/// nell'ordine della prima cattura.
fn prime_specie(campionamento: &Vec<RecordNISECI>, sel: &SelettoreSpecie) -> (r: Vec<SpecieNISECI>)
    ensures
        r@.map_values(|sp: SpecieNISECI| sp.id@).no_duplicates(),
        r@.map_values(|sp: SpecieNISECI| sp.id@).to_set() =~= ids_selezionati(
            campionamento@,
            *sel,
        ),
        forall|j: int|
            0 <= j < r@.len() ==> seleziona(*sel, #[trigger] r@[j]) && exists|i: int|
                0 <= i < campionamento@.len() && (#[trigger] campionamento@[i].specie.id@)
                    == r@[j].id@ && campionamento@[i].specie == r@[j],
{
    let ghost s = campionamento@;
    let mut specie: Vec<SpecieNISECI> = Vec::new();
    let mut i: usize = 0;
    proof {
        assert(s.take(0) =~= Seq::<RecordNISECI>::empty());
        assert(specie@.map_values(|sp: SpecieNISECI| sp.id@) =~= Seq::<Seq<char>>::empty());
    }
    while i < campionamento.len()
        invariant
            0 <= i <= s.len(),
            s == campionamento@,
            specie@.map_values(|sp: SpecieNISECI| sp.id@).no_duplicates(),
            specie@.map_values(|sp: SpecieNISECI| sp.id@).to_set() =~= ids_selezionati(
                s.take(i as int),
                *sel,
            ),
            forall|j: int|
                0 <= j < specie@.len() ==> seleziona(*sel, #[trigger] specie@[j]) && exists|i2: int|
                    0 <= i2 < s.len() && (#[trigger] s[i2].specie.id@) == specie@[j].id@
                        && s[i2].specie == specie@[j],
        decreases s.len() - i,
    {
        proof {
            assert(s.take(i + 1).drop_last() =~= s.take(i as int));
            assert(s.take(i + 1).last() == s[i as int]);
        }
        let record = &campionamento[i];
        if corrisponde(sel, &record.specie) {
            let mut gia_vista = false;
            let mut k: usize = 0;
            while k < specie.len()
                invariant
                    0 <= k <= specie@.len(),
                    gia_vista ==> specie@.map_values(|sp: SpecieNISECI| sp.id@).to_set().contains(
                        record.specie.id@,
                    ),
                    !gia_vista ==> forall|j: int|
                        0 <= j < k ==> (#[trigger] specie@[j].id@) != record.specie.id@,
                decreases specie@.len() - k,
            {
                if specie[k].id.eq(&record.specie.id) {
                    proof {
                        assert(specie@.map_values(|sp: SpecieNISECI| sp.id@)[k as int]
                            == record.specie.id@);
                        assert(specie@.map_values(|sp: SpecieNISECI| sp.id@).contains(
                            record.specie.id@,
                        ));
                    }
                    gia_vista = true;
                }
                k = k + 1;
            }
            if !gia_vista {
                let ghost prima = specie@;
                specie.push(record.specie.clone());
                proof {
                    let vecchia = prima.map_values(|sp: SpecieNISECI| sp.id@);
                    let nuova = specie@.map_values(|sp: SpecieNISECI| sp.id@);
                    assert(nuova =~= vecchia.push(record.specie.id@));
                    assert forall|a: int, b: int|
                        0 <= a < b < nuova.len() implies nuova[a] != nuova[b] by {
                        if b == nuova.len() - 1 {
                            assert(vecchia[a] != record.specie.id@);
                        }
                    }
                    assert(nuova.no_duplicates());
                    assert forall|x: Seq<char>| nuova.to_set().contains(x) implies
                        vecchia.to_set().insert(record.specie.id@).contains(x) by {
                        let j = choose|j: int| 0 <= j < nuova.len() && nuova[j] == x;
                        if j < vecchia.len() {
                            assert(vecchia.contains(x));
                        }
                    }
                    assert forall|x: Seq<char>|
                        vecchia.to_set().insert(record.specie.id@).contains(x) implies
                        nuova.to_set().contains(x) by {
                        if x == record.specie.id@ {
                            assert(nuova.last() == x);
                            assert(nuova.contains(x));
                        } else {
                            let j = choose|j: int|
                                0 <= j < vecchia.len() && vecchia[j] == x;
                            assert(nuova[j] == x);
                            assert(nuova.contains(x));
                        }
                    }
                    assert(nuova.to_set() =~= vecchia.to_set().insert(record.specie.id@));
                    assert(specie@[specie@.len() - 1] == s[i as int].specie);
                    assert forall|j: int| 0 <= j < specie@.len() implies seleziona(
                        *sel,
                        #[trigger] specie@[j],
                    ) && exists|i2: int|
                        0 <= i2 < s.len() && (#[trigger] s[i2].specie.id@) == specie@[j].id@ && s[
                        i2].specie == specie@[j] by {
                        if j == specie@.len() - 1 {
                            assert(0 <= i < s.len() && s[i as int].specie.id@ == specie@[j].id@
                                && s[i as int].specie == specie@[j]);
                        } else {
                            assert(specie@[j] == prima[j]);
                            assert(seleziona(*sel, prima[j]));
                            let i2 = choose|i2: int|
                                0 <= i2 < s.len() && (#[trigger] s[i2].specie.id@)
                                    == prima[j].id@ && s[i2].specie == prima[j];
                            assert(s[i2].specie.id@ == specie@[j].id@ && s[i2].specie
                                == specie@[j]);
                        }
                    }
                }
            }
        }
        proof {
            let mappa = specie@.map_values(|sp: SpecieNISECI| sp.id@);
            assert(mappa.to_set() =~= ids_selezionati(s.take(i + 1), *sel));
        }
        i = i + 1;
    }
    proof {
        assert(s.take(s.len() as int) =~= s);
    }
    specie
}

/// Conta, classe per classe, le catture selezionate della specie.
fn conta_classi(
    campionamento: &Vec<RecordNISECI>,
    sel: &SelettoreSpecie,
    specie: &SpecieNISECI,
) -> (r: (u32, u32, u32, u32, u32))
    requires
        campionamento@.len() <= u32::MAX,
    ensures
        r.0 == conta_classe(campionamento@, *sel, specie.id@, 1),
        r.1 == conta_classe(campionamento@, *sel, specie.id@, 2),
        r.2 == conta_classe(campionamento@, *sel, specie.id@, 3),
        r.3 == conta_classe(campionamento@, *sel, specie.id@, 4),
        r.4 == conta_classe(campionamento@, *sel, specie.id@, 5),
{
    let ghost s = campionamento@;
    let mut cl1: u32 = 0;
    let mut cl2: u32 = 0;
    let mut cl3: u32 = 0;
    let mut cl4: u32 = 0;
    let mut cl5: u32 = 0;
    let mut i: usize = 0;
    proof {
        assert(s.take(0) =~= Seq::<RecordNISECI>::empty());
    }
    while i < campionamento.len()
        invariant
            0 <= i <= s.len(),
            s == campionamento@,
            s.len() <= u32::MAX,
            cl1 == conta_classe(s.take(i as int), *sel, specie.id@, 1),
            cl2 == conta_classe(s.take(i as int), *sel, specie.id@, 2),
            cl3 == conta_classe(s.take(i as int), *sel, specie.id@, 3),
            cl4 == conta_classe(s.take(i as int), *sel, specie.id@, 4),
            cl5 == conta_classe(s.take(i as int), *sel, specie.id@, 5),
        decreases s.len() - i,
    {
        proof {
            assert(s.take(i + 1).drop_last() =~= s.take(i as int));
            assert(s.take(i + 1).last() == s[i as int]);
            lemma_conta_classe_limitata(s.take(i + 1), *sel, specie.id@, 1);
            lemma_conta_classe_limitata(s.take(i + 1), *sel, specie.id@, 2);
            lemma_conta_classe_limitata(s.take(i + 1), *sel, specie.id@, 3);
            lemma_conta_classe_limitata(s.take(i + 1), *sel, specie.id@, 4);
            lemma_conta_classe_limitata(s.take(i + 1), *sel, specie.id@, 5);
            assert(s.take(i + 1).len() <= s.len());
        }
        let record = &campionamento[i];
        if corrisponde(sel, &record.specie) && record.specie.id.eq(&specie.id) {
            match crate::domain_niseci::ClassiEta::find_classe_eta(record) {
                crate::domain_niseci::ClassiEta::CL1 => {
                    cl1 = cl1 + 1;
                },
                crate::domain_niseci::ClassiEta::CL2 => {
                    cl2 = cl2 + 1;
                },
                crate::domain_niseci::ClassiEta::CL3 => {
                    cl3 = cl3 + 1;
                },
                crate::domain_niseci::ClassiEta::CL4 => {
                    cl4 = cl4 + 1;
                },
                crate::domain_niseci::ClassiEta::CL5 => {
                    cl5 = cl5 + 1;
                },
            }
        }
        i = i + 1;
    }
    proof {
        assert(s.take(s.len() as int) =~= s);
    }
    (cl1, cl2, cl3, cl4, cl5)
}

/// Raggruppa le catture selezionate per specie: un quadro di classi
/// di eta per ogni specie, nell'ordine della prima cattura.
pub fn raggruppa(campionamento: &Vec<RecordNISECI>, sel: SelettoreSpecie) -> (r: Vec<
    ClassiEtaSpecieNISECI,
>)
    requires
        campionamento@.len() <= u32::MAX,
    ensures
        raggruppamento_valido(campionamento@, sel, r@),
{
    let ghost s = campionamento@;
    let prime = prime_specie(campionamento, &sel);
    let mut gruppi: Vec<ClassiEtaSpecieNISECI> = Vec::new();
    let mut j: usize = 0;
    proof {
        assert(ids_dei_gruppi(gruppi@) =~= Seq::<Seq<char>>::empty());
    }
    while j < prime.len()
        invariant
            0 <= j <= prime@.len(),
            s == campionamento@,
            s.len() <= u32::MAX,
            gruppi@.len() == j,
            forall|a: int|
                0 <= a < j ==> (#[trigger] gruppi@[a]).specie == prime@[a],
            forall|a: int|
                0 <= a < j ==> {
                    &&& (#[trigger] gruppi@[a]).cl1 == conta_classe(s, sel, gruppi@[a].specie.id@, 1)
                    &&& gruppi@[a].cl2 == conta_classe(s, sel, gruppi@[a].specie.id@, 2)
                    &&& gruppi@[a].cl3 == conta_classe(s, sel, gruppi@[a].specie.id@, 3)
                    &&& gruppi@[a].cl4 == conta_classe(s, sel, gruppi@[a].specie.id@, 4)
                    &&& gruppi@[a].cl5 == conta_classe(s, sel, gruppi@[a].specie.id@, 5)
                },
            prime@.map_values(|sp: SpecieNISECI| sp.id@).no_duplicates(),
            prime@.map_values(|sp: SpecieNISECI| sp.id@).to_set() =~= ids_selezionati(s, sel),
            forall|a: int|
                0 <= a < prime@.len() ==> seleziona(sel, #[trigger] prime@[a]) && exists|i2: int|
                    0 <= i2 < s.len() && (#[trigger] s[i2].specie.id@) == prime@[a].id@ && s[
                    i2].specie == prime@[a],
        decreases prime@.len() - j,
    {
        let specie_j = &prime[j];
        let (cl1, cl2, cl3, cl4, cl5) = conta_classi(campionamento, &sel, specie_j);
        gruppi.push(
            ClassiEtaSpecieNISECI { specie: specie_j.clone(), cl1, cl2, cl3, cl4, cl5 },
        );
        j = j + 1;
    }
    proof {
        assert(ids_dei_gruppi(gruppi@) =~= prime@.map_values(|sp: SpecieNISECI| sp.id@));
        assert forall|a: int| 0 <= a < gruppi@.len() implies seleziona(
            sel,
            (#[trigger] gruppi@[a]).specie,
        ) && exists|i2: int|
            0 <= i2 < s.len() && (#[trigger] s[i2].specie.id@) == gruppi@[a].specie.id@
                && stessa_configurazione(s[i2].specie, gruppi@[a].specie) by {
            assert(gruppi@[a].specie == prime@[a]);
            let i2 = choose|i2: int|
                0 <= i2 < s.len() && (#[trigger] s[i2].specie.id@) == prime@[a].id@ && s[
                i2].specie == prime@[a];
            assert(s[i2].specie.id@ == gruppi@[a].specie.id@ && stessa_configurazione(
                s[i2].specie,
                gruppi@[a].specie,
            ));
        }
    }
    gruppi
}

/// Conta le specie distinte selezionate di un campionamento.
pub fn conta_ids_selezionati(campionamento: &Vec<RecordNISECI>, sel: SelettoreSpecie) -> (r: usize)
    ensures
        r == ids_selezionati(campionamento@, sel).len(),
{
    let ghost s = campionamento@;
    let mut trovate = crate::insieme_specie::InsiemeSpecie::new();
    let mut i: usize = 0;
    proof {
        assert(s.take(0) =~= Seq::<RecordNISECI>::empty());
    }
    while i < campionamento.len()
        invariant
            0 <= i <= s.len(),
            s == campionamento@,
            trovate.wf(),
            trovate.ids() == ids_selezionati(s.take(i as int), sel),
        decreases s.len() - i,
    {
        proof {
            assert(s.take(i + 1).drop_last() =~= s.take(i as int));
            assert(s.take(i + 1).last() == s[i as int]);
        }
        let record = &campionamento[i];
        if corrisponde(&sel, &record.specie) {
            if !trovate.contiene(&record.specie.id) {
                trovate.inserisci(&record.specie.id);
            } else {
                proof {
                    assert(ids_selezionati(s.take(i as int), sel).insert(s[i as int].specie.id@)
                        =~= ids_selezionati(s.take(i as int), sel));
                }
            }
        }
        i = i + 1;
    }
    proof {
        assert(s.take(s.len() as int) =~= s);
    }
    trovate.quanti()
}

impl crate::domain_niseci::CampionamentoNISECI {
    /// Quante specie autoctone attese distinte sono state campionate.
    pub fn get_tot_specie_autoctone_attese(&self) -> (r: usize)
        ensures
            r == ids_selezionati(
                self.campionamento@,
                SelettoreSpecie::AttesaAutoctona(true),
            ).len(),
    {
        conta_ids_selezionati(&self.campionamento, SelettoreSpecie::AttesaAutoctona(true))
    }
}

} // verus!
