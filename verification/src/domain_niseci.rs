//! Modello dei dati NISECI (fiumi): specie di riferimento, record di
//! campionamento, anagrafica della stazione e classi di eta, con la
//! classificazione della struttura di popolazione.
//!
//! Le soglie decimali del riferimento (rapporti adulti/giovani e
//! densita) valgono in millesimi su interi esatti; i punteggi di
//! struttura valgono in mezzi punti (0, 1, 2 per 0.0, 0.5, 1.0).

use vstd::prelude::*;

use crate::location::Location;

verus! {

/// Una specie del riferimento NISECI. Le soglie di lunghezza sono in
/// millimetri; le soglie sul rapporto adulti/giovani e sulla densita
/// sono in millesimi.
#[derive(Debug)]
pub struct SpecieNISECI {
    pub id: String,
    pub nome: String,
    pub tipo_autoctono: u8,
    pub tipo_alloctono: u8,
    pub specie_attesa: bool,
    pub cl_soglia1: u32,
    pub cl_soglia2: u32,
    pub cl_soglia3: u32,
    pub cl_soglia4: u32,
    pub ad_juv_soglia1: u32,
    pub ad_juv_soglia2: u32,
    pub ad_juv_soglia3: u32,
    pub ad_juv_soglia4: u32,
    pub dens_soglia1: u32,
    pub dens_soglia2: u32,
}

impl Clone for SpecieNISECI {
    fn clone(&self) -> (r: SpecieNISECI)
        ensures
            r == *self,
    {
        SpecieNISECI {
            id: self.id.clone(),
            nome: self.nome.clone(),
            tipo_autoctono: self.tipo_autoctono,
            tipo_alloctono: self.tipo_alloctono,
            specie_attesa: self.specie_attesa,
            cl_soglia1: self.cl_soglia1,
            cl_soglia2: self.cl_soglia2,
            cl_soglia3: self.cl_soglia3,
            cl_soglia4: self.cl_soglia4,
            ad_juv_soglia1: self.ad_juv_soglia1,
            ad_juv_soglia2: self.ad_juv_soglia2,
            ad_juv_soglia3: self.ad_juv_soglia3,
            ad_juv_soglia4: self.ad_juv_soglia4,
            dens_soglia1: self.dens_soglia1,
            dens_soglia2: self.dens_soglia2,
        }
    }
}

impl SpecieNISECI {
    /// Una specie fittizia con soglie minime, utile come segnaposto.
    pub fn new_dummy_specie() -> (r: SpecieNISECI)
        ensures
            r.tipo_autoctono == 0,
            r.tipo_alloctono == 0,
            r.specie_attesa,
            r.cl_soglia1 == 1 && r.cl_soglia2 == 2 && r.cl_soglia3 == 3 && r.cl_soglia4 == 4,
    {
        SpecieNISECI {
            id: String::from_str("0"),
            nome: String::from_str("dummy"),
            tipo_autoctono: 0,
            tipo_alloctono: 0,
            specie_attesa: true,
            cl_soglia1: 1,
            cl_soglia2: 2,
            cl_soglia3: 3,
            cl_soglia4: 4,
            ad_juv_soglia1: 100,
            ad_juv_soglia2: 200,
            ad_juv_soglia3: 300,
            ad_juv_soglia4: 400,
            dens_soglia1: 500,
            dens_soglia2: 900,
        }
    }
}

/// L'elenco delle specie di riferimento di una stazione.
#[derive(Clone)]
pub struct RiferimentoNISECI {
    pub elenco_specie: Vec<SpecieNISECI>,
}

impl RiferimentoNISECI {
    pub fn new(elenco_specie: Vec<SpecieNISECI>) -> (r: RiferimentoNISECI)
        ensures
            r.elenco_specie == elenco_specie,
    {
        RiferimentoNISECI { elenco_specie }
    }
}

/// Un esemplare catturato: specie, numero del passaggio, lunghezza in
/// millimetri e peso in milligrammi.
#[derive(Debug)]
pub struct RecordNISECI {
    pub specie: SpecieNISECI,
    pub passaggio_cattura: u8,
    pub lunghezza: u32,
    pub peso: u32,
}

impl Clone for RecordNISECI {
    fn clone(&self) -> (r: RecordNISECI)
        ensures
            r == *self,
    {
        RecordNISECI {
            specie: self.specie.clone(),
            passaggio_cattura: self.passaggio_cattura,
            lunghezza: self.lunghezza,
            peso: self.peso,
        }
    }
}

/// Conta gli esemplari alieni in una sequenza di catture.
pub open spec fn conta_alieni(s: Seq<RecordNISECI>) -> int
    decreases s.len(),
{
    if s.len() == 0 {
        0
    } else {
        conta_alieni(s.drop_last()) + if 0 < s.last().specie.tipo_alloctono
            <= 3 {
            1int
        } else {
            0int
        }
    }
}

/// Conta gli esemplari indigeni (autoctoni di tipo 1 o 2, non gia
/// contati come alieni) in una sequenza di catture.
pub open spec fn conta_indigeni(s: Seq<RecordNISECI>) -> int
    decreases s.len(),
{
    if s.len() == 0 {
        0
    } else {
        conta_indigeni(s.drop_last()) + if !(0 < s.last().specie.tipo_alloctono <= 3) && (
        s.last().specie.tipo_autoctono == 1 || s.last().specie.tipo_autoctono == 2) {
            1int
        } else {
            0int
        }
    }
}

/// Il campionamento di una stazione: le catture in ordine di
/// registrazione.
#[derive(Clone)]
pub struct CampionamentoNISECI {
    pub campionamento: Vec<RecordNISECI>,
}

/// Esemplari alieni e indigeni contati in un campionamento.
pub struct AlieniIndigeni {
    pub alieni: u32,
    pub indigeni: u32,
}

impl CampionamentoNISECI {
    pub fn new(campionamento: Vec<RecordNISECI>) -> (r: CampionamentoNISECI)
        ensures
            r.campionamento == campionamento,
    {
        CampionamentoNISECI { campionamento }
    }

    /// Conta gli esemplari alieni (tipo alloctono 1..3) e quelli
    /// indigeni (tipo autoctono 1 o 2) del campionamento.
    pub fn get_numero_pesci_alieni_e_indigeni(&self) -> (r: AlieniIndigeni)
        requires
            self.campionamento@.len() <= u32::MAX,
        ensures
            r.alieni == conta_alieni(self.campionamento@),
            r.indigeni == conta_indigeni(self.campionamento@),
    {
        let ghost s = self.campionamento@;
        let mut alieni: u32 = 0;
        let mut indigeni: u32 = 0;
        let mut i: usize = 0;
        proof {
            lemma_conteggi_limitati(s, 0);
        }
        while i < self.campionamento.len()
            invariant
                0 <= i <= s.len(),
                s == self.campionamento@,
                s.len() <= u32::MAX,
                alieni == conta_alieni(s.take(i as int)),
                indigeni == conta_indigeni(s.take(i as int)),
            decreases s.len() - i,
        {
            proof {
                assert(s.take(i + 1).drop_last() =~= s.take(i as int));
                assert(s.take(i + 1).last() == s[i as int]);
                lemma_conteggi_limitati(s, i + 1);
            }
            let pesce = &self.campionamento[i];
            if pesce.specie.tipo_alloctono > 0 && pesce.specie.tipo_alloctono <= 3 {
                alieni = alieni + 1;
            } else if pesce.specie.tipo_autoctono == 1 || pesce.specie.tipo_autoctono == 2 {
                indigeni = indigeni + 1;
            }
            i = i + 1;
        }
        proof {
            assert(s.take(s.len() as int) =~= s);
        }
        AlieniIndigeni { alieni, indigeni }
    }
}

/// I conteggi di alieni e indigeni non superano la lunghezza del
/// prefisso contato.
proof fn lemma_conteggi_limitati(s: Seq<RecordNISECI>, k: int)
    requires
        0 <= k <= s.len(),
    ensures
        0 <= conta_alieni(s.take(k)) <= k,
        0 <= conta_indigeni(s.take(k)) <= k,
    decreases k,
{
    if k == 0 {
        assert(s.take(0) =~= Seq::<RecordNISECI>::empty());
    } else {
        lemma_conteggi_limitati(s, k - 1);
        assert(s.take(k).drop_last() =~= s.take(k - 1));
    }
}

/// Come la comunita di riferimento e stata costruita.
#[derive(Debug, Copy, Clone, PartialEq, Eq, Structural)]
pub enum TipoComunitaNISECI {
    Redatta,
    Recuperata,
    Dm260_2010,
    AffinataDalMase,
}

impl TipoComunitaNISECI {
    /// Decodifica dall'indice numerico del tracciato CSV.
    pub fn try_from(v: i32) -> (r: Result<TipoComunitaNISECI, ()>)
        ensures
            v == 0 ==> r == Result::<TipoComunitaNISECI, ()>::Ok(TipoComunitaNISECI::Redatta),
            v == 1 ==> r == Result::<TipoComunitaNISECI, ()>::Ok(TipoComunitaNISECI::Recuperata),
            v == 2 ==> r == Result::<TipoComunitaNISECI, ()>::Ok(TipoComunitaNISECI::Dm260_2010),
            v == 3 ==> r == Result::<TipoComunitaNISECI, ()>::Ok(
                TipoComunitaNISECI::AffinataDalMase,
            ),
            !(0 <= v <= 3) ==> r is Err,
    {
        match v {
            0 => Result::Ok(TipoComunitaNISECI::Redatta),
            1 => Result::Ok(TipoComunitaNISECI::Recuperata),
            2 => Result::Ok(TipoComunitaNISECI::Dm260_2010),
            3 => Result::Ok(TipoComunitaNISECI::AffinataDalMase),
            _ => Result::Err(()),
        }
    }
}

/// La comunita ittica di riferimento della stazione.
#[derive(Clone)]
pub struct ComunitaNISECI {
    pub tipo: TipoComunitaNISECI,
    pub fonte: Option<String>,
    pub numero_protocollo: Option<String>,
}

/// Area geografica ai fini della soglia di stato "buono".
#[derive(Debug, Copy, Clone, PartialEq, Eq, Structural)]
pub enum AreaNISECI {
    Alpina,
    Mediterranea,
}

impl AreaNISECI {
    /// Decodifica dall'indice numerico del tracciato CSV.
    pub fn try_from(v: i32) -> (r: Result<AreaNISECI, ()>)
        ensures
            v == 0 ==> r == Result::<AreaNISECI, ()>::Ok(AreaNISECI::Alpina),
            v == 1 ==> r == Result::<AreaNISECI, ()>::Ok(AreaNISECI::Mediterranea),
            !(0 <= v <= 1) ==> r is Err,
    {
        match v {
            0 => Result::Ok(AreaNISECI::Alpina),
            1 => Result::Ok(AreaNISECI::Mediterranea),
            _ => Result::Err(()),
        }
    }
}

/// Le ventuno idro-ecoregioni italiane.
#[derive(Debug, Copy, Clone, PartialEq, Eq, Structural)]
pub enum IdroEcoRegioneNISECI {
    AlpiOccidentali,
    PrealpiDolomiti,
    AlpiCentroOrientali,
    AlpiMeridionali,
    Monferrato,
    PianuraPadana,
    Carso,
    AppenninoPiemontese,
    AlpiMediterranee,
    AppenninoSettentrionale,
    Toscana,
    CostaAdriatica,
    AppenninoCentrale,
    RomaViterbese,
    BassoLazio,
    Vesuvio,
    BasilicataTavoliere,
    PugliaCarsica,
    AppenninoMeridionale,
    Sicilia,
    Sardegna,
}

impl IdroEcoRegioneNISECI {
    /// Decodifica dall'indice numerico del tracciato CSV.
    pub fn try_from(v: i32) -> (r: Result<IdroEcoRegioneNISECI, ()>)
        ensures
            (0 <= v <= 20) == (r is Ok),
            v == 0 ==> r->Ok_0 == IdroEcoRegioneNISECI::AlpiOccidentali,
            v == 1 ==> r->Ok_0 == IdroEcoRegioneNISECI::PrealpiDolomiti,
            v == 2 ==> r->Ok_0 == IdroEcoRegioneNISECI::AlpiCentroOrientali,
            v == 3 ==> r->Ok_0 == IdroEcoRegioneNISECI::AlpiMeridionali,
            v == 4 ==> r->Ok_0 == IdroEcoRegioneNISECI::Monferrato,
            v == 5 ==> r->Ok_0 == IdroEcoRegioneNISECI::PianuraPadana,
            v == 6 ==> r->Ok_0 == IdroEcoRegioneNISECI::Carso,
            v == 7 ==> r->Ok_0 == IdroEcoRegioneNISECI::AppenninoPiemontese,
            v == 8 ==> r->Ok_0 == IdroEcoRegioneNISECI::AlpiMediterranee,
            v == 9 ==> r->Ok_0 == IdroEcoRegioneNISECI::AppenninoSettentrionale,
            v == 10 ==> r->Ok_0 == IdroEcoRegioneNISECI::Toscana,
            v == 11 ==> r->Ok_0 == IdroEcoRegioneNISECI::CostaAdriatica,
            v == 12 ==> r->Ok_0 == IdroEcoRegioneNISECI::AppenninoCentrale,
            v == 13 ==> r->Ok_0 == IdroEcoRegioneNISECI::RomaViterbese,
            v == 14 ==> r->Ok_0 == IdroEcoRegioneNISECI::BassoLazio,
            v == 15 ==> r->Ok_0 == IdroEcoRegioneNISECI::Vesuvio,
            v == 16 ==> r->Ok_0 == IdroEcoRegioneNISECI::BasilicataTavoliere,
            v == 17 ==> r->Ok_0 == IdroEcoRegioneNISECI::PugliaCarsica,
            v == 18 ==> r->Ok_0 == IdroEcoRegioneNISECI::AppenninoMeridionale,
            v == 19 ==> r->Ok_0 == IdroEcoRegioneNISECI::Sicilia,
            v == 20 ==> r->Ok_0 == IdroEcoRegioneNISECI::Sardegna,
    {
        match v {
            0 => Result::Ok(IdroEcoRegioneNISECI::AlpiOccidentali),
            1 => Result::Ok(IdroEcoRegioneNISECI::PrealpiDolomiti),
            2 => Result::Ok(IdroEcoRegioneNISECI::AlpiCentroOrientali),
            3 => Result::Ok(IdroEcoRegioneNISECI::AlpiMeridionali),
            4 => Result::Ok(IdroEcoRegioneNISECI::Monferrato),
            5 => Result::Ok(IdroEcoRegioneNISECI::PianuraPadana),
            6 => Result::Ok(IdroEcoRegioneNISECI::Carso),
            7 => Result::Ok(IdroEcoRegioneNISECI::AppenninoPiemontese),
            8 => Result::Ok(IdroEcoRegioneNISECI::AlpiMediterranee),
            9 => Result::Ok(IdroEcoRegioneNISECI::AppenninoSettentrionale),
            10 => Result::Ok(IdroEcoRegioneNISECI::Toscana),
            11 => Result::Ok(IdroEcoRegioneNISECI::CostaAdriatica),
            12 => Result::Ok(IdroEcoRegioneNISECI::AppenninoCentrale),
            13 => Result::Ok(IdroEcoRegioneNISECI::RomaViterbese),
            14 => Result::Ok(IdroEcoRegioneNISECI::BassoLazio),
            15 => Result::Ok(IdroEcoRegioneNISECI::Vesuvio),
            16 => Result::Ok(IdroEcoRegioneNISECI::BasilicataTavoliere),
            17 => Result::Ok(IdroEcoRegioneNISECI::PugliaCarsica),
            18 => Result::Ok(IdroEcoRegioneNISECI::AppenninoMeridionale),
            19 => Result::Ok(IdroEcoRegioneNISECI::Sicilia),
            20 => Result::Ok(IdroEcoRegioneNISECI::Sardegna),
            _ => Result::Err(()),
        }
    }
}

/// Anagrafica NISECI come arriva dal tracciato: le misure della
/// stazione sono ancora testo da interpretare.
#[derive(Clone)]
pub struct AnagraficaNISECIDraft {
    pub comunita: ComunitaNISECI,
    pub codice_stazione: String,
    pub date_string: String,
    pub area: AreaNISECI,
    pub corpo_idrico: String,
    pub bacino_appartenenza: String,
    pub idro_eco_regione: IdroEcoRegioneNISECI,
    pub posizione: Location,
    pub lunghezza_media_stazione: String,
    pub larghezza_media_stazione: String,
}

/// Anagrafica NISECI validata: le misure della stazione sono in
/// millimetri.
#[derive(Clone)]
pub struct AnagraficaNISECI {
    pub comunita: ComunitaNISECI,
    pub codice_stazione: String,
    pub date_string: String,
    pub area: AreaNISECI,
    pub corpo_idrico: String,
    pub bacino_appartenenza: String,
    pub idro_eco_regione: IdroEcoRegioneNISECI,
    pub posizione: Location,
    pub lunghezza_media_stazione: u32,
    pub larghezza_media_stazione: u32,
}

impl AnagraficaNISECI {
    pub fn get_lunghezza_media(&self) -> (r: u32)
        ensures
            r == self.lunghezza_media_stazione,
    {
        self.lunghezza_media_stazione
    }

    pub fn get_larghezza_media(&self) -> (r: u32)
        ensures
            r == self.larghezza_media_stazione,
    {
        self.larghezza_media_stazione
    }
}

/// Stato ecologico NISECI della stazione.
#[derive(Debug, Copy, Clone, PartialEq, Eq, Structural)]
pub enum StatoEcologicoNISECI {
    Elevato,
    Buono,
    Moderato,
    Scadente,
    Cattivo,
}

/// Le cinque classi di eta, individuate dalle quattro soglie di
/// lunghezza della specie.
pub enum ClassiEta {
    CL1,
    CL2,
    CL3,
    CL4,
    CL5,
}

/// La classe di eta (1..5) di un esemplare: confronti strettamente
/// minori sulle soglie crescenti, la quinta raccoglie il resto.
pub open spec fn classe_eta_di(lunghezza: int, s: SpecieNISECI) -> int {
    if lunghezza < s.cl_soglia1 {
        1
    } else if lunghezza < s.cl_soglia2 {
        2
    } else if lunghezza < s.cl_soglia3 {
        3
    } else if lunghezza < s.cl_soglia4 {
        4
    } else {
        5
    }
}

impl ClassiEta {
    /// Il numero di questa classe, da 1 a 5.
    pub open spec fn numero(self) -> int {
        match self {
            ClassiEta::CL1 => 1,
            ClassiEta::CL2 => 2,
            ClassiEta::CL3 => 3,
            ClassiEta::CL4 => 4,
            ClassiEta::CL5 => 5,
        }
    }

    /// In quale classe di eta cade un esemplare catturato.
    pub fn find_classe_eta(record: &RecordNISECI) -> (r: ClassiEta)
        ensures
            r.numero() == classe_eta_di(record.lunghezza as int, record.specie),
    {
        if record.lunghezza < record.specie.cl_soglia1 {
            ClassiEta::CL1
        } else if record.lunghezza < record.specie.cl_soglia2 {
            ClassiEta::CL2
        } else if record.lunghezza < record.specie.cl_soglia3 {
            ClassiEta::CL3
        } else if record.lunghezza < record.specie.cl_soglia4 {
            ClassiEta::CL4
        } else {
            ClassiEta::CL5
        }
    }
}

/// Gli esemplari di una specie campionata, suddivisi nelle cinque
/// classi di eta in base alla lunghezza.
pub struct ClassiEtaSpecieNISECI {
    pub specie: SpecieNISECI,
    pub cl1: u32,
    pub cl2: u32,
    pub cl3: u32,
    pub cl4: u32,
    pub cl5: u32,
}

impl Clone for ClassiEtaSpecieNISECI {
    fn clone(&self) -> (r: ClassiEtaSpecieNISECI)
        ensures
            r == *self,
    {
        ClassiEtaSpecieNISECI {
            specie: self.specie.clone(),
            cl1: self.cl1,
            cl2: self.cl2,
            cl3: self.cl3,
            cl4: self.cl4,
            cl5: self.cl5,
        }
    }
}

/// Uno se la condizione vale, zero altrimenti.
pub open spec fn uno_se(b: bool) -> int {
    if b {
        1
    } else {
        0
    }
}

/// Quante classi di eta hanno almeno un esemplare.
pub open spec fn classi_popolate(c: ClassiEtaSpecieNISECI) -> int {
    uno_se(c.cl1 > 0) + uno_se(c.cl2 > 0) + uno_se(c.cl3 > 0) + uno_se(c.cl4 > 0) + uno_se(
        c.cl5 > 0,
    )
}

/// Criterio A: quante classi sono popolate decide il giudizio.
/// Almeno quattro classi valgono 1, esattamente tre valgono 2, ogni
/// altro caso vale 3.
pub open spec fn criterio_a_di(c: ClassiEtaSpecieNISECI) -> int {
    if classi_popolate(c) >= 4 {
        1
    } else if classi_popolate(c) == 3 {
        2
    } else {
        3
    }
}

/// Criterio B: il rapporto adulti/giovani `(cl4+cl5)/(cl2+cl3)`
/// confrontato con le quattro soglie in millesimi della specie, con
/// la regola non monotona 3/2/1/2/3; senza giovani (denominatore
/// nullo) vale 3.
pub open spec fn criterio_b_di(c: ClassiEtaSpecieNISECI) -> int {
    let num = c.cl4 + c.cl5;
    let den = c.cl2 + c.cl3;
    if den == 0 {
        3
    } else if 1000 * num < c.specie.ad_juv_soglia1 * den {
        3
    } else if 1000 * num <= c.specie.ad_juv_soglia2 * den {
        2
    } else if 1000 * num <= c.specie.ad_juv_soglia3 * den {
        1
    } else if 1000 * num <= c.specie.ad_juv_soglia4 * den {
        2
    } else {
        3
    }
}

/// Il rapporto adulti/giovani di un quadro di classi, come frazione
/// esatta `(cl4+cl5, cl2+cl3)`: indefinito senza giovani.
pub open spec fn rapporto_ad_juv_di(c: ClassiEtaSpecieNISECI) -> Option<(u64, u64)> {
    if c.cl2 + c.cl3 > 0 {
        Option::Some(((c.cl4 + c.cl5) as u64, (c.cl2 + c.cl3) as u64))
    } else {
        Option::None
    }
}

/// La tabella (A, B) -> punteggio di struttura, in mezzi punti:
/// (1,3) vale 0.5, (1,_) vale 1.0, (2,3) vale 0.0, (2,_) vale 0.5,
/// (3,_) vale 0.0; ogni altra coppia e fuori tabella.
pub open spec fn punteggio_struttura(a: int, b: int) -> Option<int> {
    if a == 1 && b == 3 {
        Option::Some(1)
    } else if a == 1 {
        Option::Some(2)
    } else if a == 2 && b == 3 {
        Option::Some(0)
    } else if a == 2 {
        Option::Some(1)
    } else if a == 3 {
        Option::Some(0)
    } else {
        Option::None
    }
}

/// Il punteggio di struttura dalla coppia di criteri (A, B), in mezzi
/// punti. Una coppia fuori dalla tabella e un errore di coerenza
/// interna, mai un valore predefinito.
pub fn punteggio_da_criteri(criterio_a: u8, criterio_b: u8) -> (r: Result<u32, String>)
    ensures
        r is Ok <==> punteggio_struttura(criterio_a as int, criterio_b as int) is Some,
        r is Ok ==> r->Ok_0 == punteggio_struttura(criterio_a as int, criterio_b as int)->0,
{
    if criterio_a == 1 && criterio_b == 3 {
        return Result::Ok(1);
    }
    if criterio_a == 1 {
        return Result::Ok(2);
    }
    if criterio_a == 2 && criterio_b == 3 {
        return Result::Ok(0);
    }
    if criterio_a == 2 {
        return Result::Ok(1);
    }
    if criterio_a == 3 {
        return Result::Ok(0);
    }
    Result::Err(
        String::from_str("Il Criterio A o B di x2a e diverso da 1 o 2 o 3"),
    )
}

/// Il criterio B insieme al rapporto adulti/giovani che lo ha deciso.
#[derive(Copy, Clone)]
pub struct MetricheX2aB {
    pub criterio_b: u8,
    pub rapporto_ad_juv: Option<(u64, u64)>,
}

impl MetricheX2aB {
    pub fn new(criterio_b: u8, rapporto_ad_juv: Option<(u64, u64)>) -> (r: MetricheX2aB)
        ensures
            r.criterio_b == criterio_b,
            r.rapporto_ad_juv == rapporto_ad_juv,
    {
        MetricheX2aB { criterio_b, rapporto_ad_juv }
    }

    pub fn get_criterio_b(&self) -> (r: u8)
        ensures
            r == self.criterio_b,
    {
        self.criterio_b
    }

    /// Il rapporto adulti/giovani come frazione esatta
    /// (numeratore, denominatore), se definito.
    pub fn get_rapporto_ad_juv(&self) -> (r: Option<(u64, u64)>)
        ensures
            r == self.rapporto_ad_juv,
    {
        self.rapporto_ad_juv
    }
}

/// I criteri A e B di una specie campionata.
#[derive(Copy, Clone)]
pub struct MetricheX2A {
    pub criterio_a: u8,
    pub criteri_x2a_b: MetricheX2aB,
}

impl MetricheX2A {
    pub fn new(criterio_a: u8, criteri_x2a_b: MetricheX2aB) -> (r: MetricheX2A)
        ensures
            r.criterio_a == criterio_a,
            r.criteri_x2a_b == criteri_x2a_b,
    {
        MetricheX2A { criterio_a, criteri_x2a_b }
    }

    pub fn get_criterio_a(&self) -> (r: u8)
        ensures
            r == self.criterio_a,
    {
        self.criterio_a
    }

    pub fn get_criterio_b(&self) -> (r: u8)
        ensures
            r == self.criteri_x2a_b.criterio_b,
    {
        self.criteri_x2a_b.get_criterio_b()
    }

    pub fn get_rapporto_ad_juv(&self) -> (r: Option<(u64, u64)>)
        ensures
            r == self.criteri_x2a_b.rapporto_ad_juv,
    {
        self.criteri_x2a_b.get_rapporto_ad_juv()
    }
}

/// Le classi di eta con la classe `k` accresciuta di uno.
pub open spec fn con_classe_incrementata(c: ClassiEtaSpecieNISECI, k: int) -> ClassiEtaSpecieNISECI {
    if k == 1 {
        ClassiEtaSpecieNISECI { cl1: (c.cl1 + 1) as u32, ..c }
    } else if k == 2 {
        ClassiEtaSpecieNISECI { cl2: (c.cl2 + 1) as u32, ..c }
    } else if k == 3 {
        ClassiEtaSpecieNISECI { cl3: (c.cl3 + 1) as u32, ..c }
    } else if k == 4 {
        ClassiEtaSpecieNISECI { cl4: (c.cl4 + 1) as u32, ..c }
    } else {
        ClassiEtaSpecieNISECI { cl5: (c.cl5 + 1) as u32, ..c }
    }
}

/// Il conteggio della classe `k`.
pub open spec fn conteggio_classe(c: ClassiEtaSpecieNISECI, k: int) -> int {
    if k == 1 {
        c.cl1 as int
    } else if k == 2 {
        c.cl2 as int
    } else if k == 3 {
        c.cl3 as int
    } else if k == 4 {
        c.cl4 as int
    } else {
        c.cl5 as int
    }
}

impl ClassiEtaSpecieNISECI {
    /// Classi tutte vuote, con la specie segnaposto.
    pub fn new() -> (r: ClassiEtaSpecieNISECI)
        ensures
            r.cl1 == 0 && r.cl2 == 0 && r.cl3 == 0 && r.cl4 == 0 && r.cl5 == 0,
    {
        ClassiEtaSpecieNISECI {
            specie: SpecieNISECI::new_dummy_specie(),
            cl1: 0,
            cl2: 0,
            cl3: 0,
            cl4: 0,
            cl5: 0,
        }
    }

    /// Classi nuove gia caricate con il primo esemplare catturato.
    pub fn new_cl_prevalorizzata(record: &RecordNISECI) -> (r: ClassiEtaSpecieNISECI)
        ensures
            r.specie == record.specie,
            ({
                let k = classe_eta_di(record.lunghezza as int, record.specie);
                conteggio_classe(r, k) == 1 && forall|j: int|
                    1 <= j <= 5 && j != k ==> conteggio_classe(r, j) == 0
            }),
    {
        let mut classe = ClassiEtaSpecieNISECI::new();
        classe.update_classi_eta(record);
        classe.specie = record.specie.clone();
        classe
    }

    /// Registra un esemplare nella classe di eta che la sua lunghezza
    /// individua.
    pub fn update_classi_eta(&mut self, record: &RecordNISECI)
        requires
            conteggio_classe(*old(self), classe_eta_di(record.lunghezza as int, record.specie))
                < u32::MAX,
        ensures
            *final(self) == con_classe_incrementata(
                *old(self),
                classe_eta_di(record.lunghezza as int, record.specie),
            ),
    {
        match ClassiEta::find_classe_eta(record) {
            ClassiEta::CL1 => {
                self.cl1 = self.cl1 + 1;
            },
            ClassiEta::CL2 => {
                self.cl2 = self.cl2 + 1;
            },
            ClassiEta::CL3 => {
                self.cl3 = self.cl3 + 1;
            },
            ClassiEta::CL4 => {
                self.cl4 = self.cl4 + 1;
            },
            ClassiEta::CL5 => {
                self.cl5 = self.cl5 + 1;
            },
        }
    }

    /// Quante classi di eta sono popolate.
    fn get_how_many_classes(&self) -> (r: usize)
        ensures
            r == classi_popolate(*self),
    {
        let mut count: usize = 0;
        if self.cl1 > 0 {
            count = count + 1;
        }
        if self.cl2 > 0 {
            count = count + 1;
        }
        if self.cl3 > 0 {
            count = count + 1;
        }
        if self.cl4 > 0 {
            count = count + 1;
        }
        if self.cl5 > 0 {
            count = count + 1;
        }
        count
    }

    /// Criterio A della specie: deciso dal solo numero di classi
    /// popolate.
    pub fn get_x2_a_criterio_a(&self) -> (r: u8)
        ensures
            r == criterio_a_di(*self),
            1 <= r <= 3,
    {
        let count = self.get_how_many_classes();
        if count >= 4 {
            return 1;
        }
        if count == 3 {
            return 2;
        }
        3
    }

    /// Criterio B della specie, con il rapporto adulti/giovani come
    /// frazione esatta quando il denominatore non e nullo.
    pub fn get_x2_a_criterio_b(&self) -> (r: (u8, Option<(u64, u64)>))
        ensures
            r.0 == criterio_b_di(*self),
            1 <= r.0 <= 3,
            (r.1 is Some) <==> (self.cl2 + self.cl3 > 0),
            r.1 is Some ==> r.1->0 == ((self.cl4 + self.cl5) as u64, (self.cl2 + self.cl3) as u64),
    {
        let den: u64 = self.cl2 as u64 + self.cl3 as u64;
        if den == 0 {
            return (3, Option::None);
        }
        let num: u64 = self.cl4 as u64 + self.cl5 as u64;
        let ad_juv = Option::Some((num, den));
        proof {
            let limite: int = 0x1_0000_0000_0000_0000_0000_0000int;
            assert(0 <= (self.specie.ad_juv_soglia1 as int) * (den as int) <= limite && 0 <= (
            self.specie.ad_juv_soglia2 as int) * (den as int) <= limite && 0 <= (
            self.specie.ad_juv_soglia3 as int) * (den as int) <= limite && 0 <= (
            self.specie.ad_juv_soglia4 as int) * (den as int) <= limite) by (nonlinear_arith)
                requires
                    limite == 0x1_0000_0000_0000_0000_0000_0000int && 0 <= (
                    self.specie.ad_juv_soglia1 as int) <= 0xffff_ffffint && 0 <= (
                    self.specie.ad_juv_soglia2 as int) <= 0xffff_ffffint && 0 <= (
                    self.specie.ad_juv_soglia3 as int) <= 0xffff_ffffint && 0 <= (
                    self.specie.ad_juv_soglia4 as int) <= 0xffff_ffffint && 0 <= den
                        <= 0xffff_ffff_ffff_ffffu64,
            ;
        }
        let num_milli: u128 = 1000 * num as u128;
        if num_milli < (self.specie.ad_juv_soglia1 as u128) * (den as u128) {
            return (3, ad_juv);
        }
        if num_milli <= (self.specie.ad_juv_soglia2 as u128) * (den as u128) {
            return (2, ad_juv);
        }
        if num_milli <= (self.specie.ad_juv_soglia3 as u128) * (den as u128) {
            return (1, ad_juv);
        }
        if num_milli <= (self.specie.ad_juv_soglia4 as u128) * (den as u128) {
            return (2, ad_juv);
        }
        (3, ad_juv)
    }

    /// Punteggio di struttura della popolazione, in mezzi punti, con
    /// i criteri che lo hanno deciso. I criteri calcolati stanno
    /// sempre in tabella, quindi il risultato e sempre definito.
    pub fn calculate_struttura_popolazione(&self) -> (r: Result<(u32, MetricheX2A), String>)
        ensures
            r is Ok,
            r->Ok_0.0 == punteggio_struttura(criterio_a_di(*self), criterio_b_di(*self))->0,
            r->Ok_0.1.criterio_a == criterio_a_di(*self),
            r->Ok_0.1.criteri_x2a_b.criterio_b == criterio_b_di(*self),
            r->Ok_0.1.criteri_x2a_b.rapporto_ad_juv == rapporto_ad_juv_di(*self),
    {
        let criterio_a: u8 = self.get_x2_a_criterio_a();
        let (criterio_b, ad_juv) = self.get_x2_a_criterio_b();
        match punteggio_da_criteri(criterio_a, criterio_b) {
            Result::Ok(punteggio) => Result::Ok(
                (punteggio, MetricheX2A::new(criterio_a, MetricheX2aB::new(criterio_b, ad_juv))),
            ),
            Result::Err(msg) => Result::Err(msg),
        }
    }
}

} // verus!
