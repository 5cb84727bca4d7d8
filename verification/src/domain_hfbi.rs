//! Modello dei dati HFBI (lagune costiere): classificazioni della
//! stazione, anagrafica e condizioni di riferimento.
//!
//! I valori di riferimento regolamentari sono costanti a tre
//! decimali: qui valgono in millesimi, su interi esatti.

use vstd::prelude::*;

use crate::location::Location;

verus! {

/// Gruppo ecologico di una specie lagunare.
#[derive(Debug, Copy, Clone, PartialEq, Eq, Structural)]
pub enum GruppoEcoHFBI {
    MigratoriMarini,
    Diadromi,
    ResidentiDiEstuario,
    OccasionaliMarini,
    OccasionaliDiAcqueDolci,
}

/// Tipo di laguna costiera.
#[derive(Debug, Copy, Clone, PartialEq, Eq, Structural)]
pub enum TipoLagunaCostieraHFBI {
    MAt1,
    MAt2,
    MAt3,
}

impl TipoLagunaCostieraHFBI {
    /// Decodifica dall'indice numerico del tracciato CSV.
    pub fn try_from(v: i32) -> (r: Result<TipoLagunaCostieraHFBI, ()>)
        ensures
            v == 0 ==> r == Result::<TipoLagunaCostieraHFBI, ()>::Ok(TipoLagunaCostieraHFBI::MAt1),
            v == 1 ==> r == Result::<TipoLagunaCostieraHFBI, ()>::Ok(TipoLagunaCostieraHFBI::MAt2),
            v == 2 ==> r == Result::<TipoLagunaCostieraHFBI, ()>::Ok(TipoLagunaCostieraHFBI::MAt3),
            !(0 <= v <= 2) ==> r is Err,
    {
        match v {
            0 => Result::Ok(TipoLagunaCostieraHFBI::MAt1),
            1 => Result::Ok(TipoLagunaCostieraHFBI::MAt2),
            2 => Result::Ok(TipoLagunaCostieraHFBI::MAt3),
            _ => Result::Err(()),
        }
    }
}

/// Stagione del campionamento lagunare.
#[derive(Debug, Copy, Clone, PartialEq, Eq, Structural)]
pub enum StagioneHFBI {
    Primavera,
    Autunno,
}

impl StagioneHFBI {
    /// Decodifica dall'indice numerico del tracciato CSV.
    pub fn try_from(v: i32) -> (r: Result<StagioneHFBI, ()>)
        ensures
            v == 0 ==> r == Result::<StagioneHFBI, ()>::Ok(StagioneHFBI::Primavera),
            v == 1 ==> r == Result::<StagioneHFBI, ()>::Ok(StagioneHFBI::Autunno),
            !(0 <= v <= 1) ==> r is Err,
    {
        match v {
            0 => Result::Ok(StagioneHFBI::Primavera),
            1 => Result::Ok(StagioneHFBI::Autunno),
            _ => Result::Err(()),
        }
    }
}

/// Habitat della stazione: vegetato o no.
#[derive(Debug, Copy, Clone, PartialEq, Eq, Structural)]
pub enum HabitatHFBI {
    Vegetato,
    NonVegetato,
}

impl HabitatHFBI {
    /// Decodifica dall'indice numerico del tracciato CSV.
    pub fn try_from(v: i32) -> (r: Result<HabitatHFBI, ()>)
        ensures
            v == 0 ==> r == Result::<HabitatHFBI, ()>::Ok(HabitatHFBI::Vegetato),
            v == 1 ==> r == Result::<HabitatHFBI, ()>::Ok(HabitatHFBI::NonVegetato),
            !(0 <= v <= 1) ==> r is Err,
    {
        match v {
            0 => Result::Ok(HabitatHFBI::Vegetato),
            1 => Result::Ok(HabitatHFBI::NonVegetato),
            _ => Result::Err(()),
        }
    }
}

/// Anagrafica HFBI come arriva dal tracciato: le misure del transetto
/// sono ancora testo da interpretare.
#[derive(Clone)]
pub struct AnagraficaHFBIDraft {
    pub codice_stazione: String,
    pub corpo_idrico: String,
    pub posizione: Location,
    pub date_string: String,
    pub tipo_laguna: TipoLagunaCostieraHFBI,
    pub stagione: StagioneHFBI,
    pub habitat_vegetato: HabitatHFBI,
    pub lunghezza_media_transetto: String,
    pub larghezza_media_transetto: String,
}

/// Anagrafica HFBI validata: le misure del transetto sono in
/// millimetri.
#[derive(Clone)]
pub struct AnagraficaHFBI {
    pub codice_stazione: String,
    pub corpo_idrico: String,
    pub posizione: Location,
    pub date_string: String,
    pub tipo_laguna: TipoLagunaCostieraHFBI,
    pub stagione: StagioneHFBI,
    pub habitat_vegetato: HabitatHFBI,
    pub lunghezza_media_transetto: u32,
    pub larghezza_media_transetto: u32,
}

impl AnagraficaHFBI {
    pub fn get_lunghezza_media(&self) -> (r: u32)
        ensures
            r == self.lunghezza_media_transetto,
    {
        self.lunghezza_media_transetto
    }

    pub fn get_larghezza_media(&self) -> (r: u32)
        ensures
            r == self.larghezza_media_transetto,
    {
        self.larghezza_media_transetto
    }

    /// La chiave con cui la stazione cerca le proprie condizioni di
    /// riferimento.
    pub fn get_cond_riferimento_key(&self) -> (r: CondizioniRiferimentoKeyHFBI)
        ensures
            r == chiave_riferimento(*self),
    {
        CondizioniRiferimentoKeyHFBI {
            tipo_laguna: self.tipo_laguna,
            stagione: self.stagione,
            habitat_vegetato: self.habitat_vegetato,
        }
    }
}

/// Chiave della tabella delle condizioni di riferimento.
#[derive(Debug, Clone, PartialEq, Eq, Structural)]
pub struct CondizioniRiferimentoKeyHFBI {
    pub tipo_laguna: TipoLagunaCostieraHFBI,
    pub stagione: StagioneHFBI,
    pub habitat_vegetato: HabitatHFBI,
}

/// La chiave di ricerca di una stazione nella tabella di riferimento.
pub open spec fn chiave_riferimento(a: AnagraficaHFBI) -> CondizioniRiferimentoKeyHFBI {
    CondizioniRiferimentoKeyHFBI {
        tipo_laguna: a.tipo_laguna,
        stagione: a.stagione,
        habitat_vegetato: a.habitat_vegetato,
    }
}

/// Le sei linee di base di riferimento di una combinazione
/// (laguna, stagione, habitat), in millesimi.
#[derive(Debug, Clone, PartialEq, Eq, Structural)]
pub struct CondizioniRiferimentoHFBI {
    pub bn: u32,
    pub ddom: u32,
    pub dmig: u32,
    pub bbent: u32,
    pub dbent: u32,
    pub dhzp: u32,
}

/// La tabella regolamentare delle condizioni di riferimento: fissa,
/// totale sulle dodici combinazioni possibili, in millesimi.
pub open spec fn valori_riferimento(k: CondizioniRiferimentoKeyHFBI) -> CondizioniRiferimentoHFBI {
    match k.tipo_laguna {
        TipoLagunaCostieraHFBI::MAt1 => match (k.stagione, k.habitat_vegetato) {
            (StagioneHFBI::Primavera, HabitatHFBI::NonVegetato) => CondizioniRiferimentoHFBI {
                bn: 2232,
                ddom: 2052,
                dmig: 3212,
                bbent: 6537,
                dbent: 3768,
                dhzp: 2856,
            },
            (StagioneHFBI::Autunno, HabitatHFBI::NonVegetato) => CondizioniRiferimentoHFBI {
                bn: 1932,
                ddom: 2268,
                dmig: 2014,
                bbent: 6867,
                dbent: 2944,
                dhzp: 2570,
            },
            (StagioneHFBI::Primavera, HabitatHFBI::Vegetato) => CondizioniRiferimentoHFBI {
                bn: 2232,
                ddom: 1784,
                dmig: 3212,
                bbent: 7242,
                dbent: 3153,
                dhzp: 2369,
            },
            (StagioneHFBI::Autunno, HabitatHFBI::Vegetato) => CondizioniRiferimentoHFBI {
                bn: 1932,
                ddom: 2001,
                dmig: 2014,
                bbent: 7572,
                dbent: 2329,
                dhzp: 2083,
            },
        },
        TipoLagunaCostieraHFBI::MAt2 => match (k.stagione, k.habitat_vegetato) {
            (StagioneHFBI::Primavera, HabitatHFBI::NonVegetato) => CondizioniRiferimentoHFBI {
                bn: 2539,
                ddom: 2052,
                dmig: 3212,
                bbent: 5221,
                dbent: 3768,
                dhzp: 2856,
            },
            (StagioneHFBI::Autunno, HabitatHFBI::NonVegetato) => CondizioniRiferimentoHFBI {
                bn: 2238,
                ddom: 2268,
                dmig: 2014,
                bbent: 5551,
                dbent: 2944,
                dhzp: 2570,
            },
            (StagioneHFBI::Primavera, HabitatHFBI::Vegetato) => CondizioniRiferimentoHFBI {
                bn: 2539,
                ddom: 1784,
                dmig: 3212,
                bbent: 5925,
                dbent: 3153,
                dhzp: 2369,
            },
            (StagioneHFBI::Autunno, HabitatHFBI::Vegetato) => CondizioniRiferimentoHFBI {
                bn: 2238,
                ddom: 2001,
                dmig: 2014,
                bbent: 6255,
                dbent: 2329,
                dhzp: 2083,
            },
        },
        TipoLagunaCostieraHFBI::MAt3 => match (k.stagione, k.habitat_vegetato) {
            (StagioneHFBI::Primavera, HabitatHFBI::NonVegetato) => CondizioniRiferimentoHFBI {
                bn: 2217,
                ddom: 2052,
                dmig: 3212,
                bbent: 4561,
                dbent: 3768,
                dhzp: 2856,
            },
            (StagioneHFBI::Autunno, HabitatHFBI::NonVegetato) => CondizioniRiferimentoHFBI {
                bn: 1917,
                ddom: 2268,
                dmig: 2014,
                bbent: 4891,
                dbent: 2944,
                dhzp: 2570,
            },
            (StagioneHFBI::Primavera, HabitatHFBI::Vegetato) => CondizioniRiferimentoHFBI {
                bn: 2217,
                ddom: 1784,
                dmig: 3212,
                bbent: 5265,
                dbent: 3153,
                dhzp: 2369,
            },
            (StagioneHFBI::Autunno, HabitatHFBI::Vegetato) => CondizioniRiferimentoHFBI {
                bn: 1917,
                ddom: 2001,
                dmig: 2014,
                bbent: 5595,
                dbent: 2329,
                dhzp: 2083,
            },
        },
    }
}

impl CondizioniRiferimentoHFBI {
    /// Cerca le condizioni di riferimento della stazione: la tabella
    /// copre ogni combinazione, quindi la ricerca riesce sempre.
    pub fn get_cond_riferimento(anagrafica: &AnagraficaHFBI) -> (r: Option<
        CondizioniRiferimentoHFBI,
    >)
        ensures
            r == Option::Some(valori_riferimento(chiave_riferimento(*anagrafica))),
    {
        let key = anagrafica.get_cond_riferimento_key();
        let cond = match key.tipo_laguna {
            TipoLagunaCostieraHFBI::MAt1 => match (key.stagione, key.habitat_vegetato) {
                (StagioneHFBI::Primavera, HabitatHFBI::NonVegetato) => CondizioniRiferimentoHFBI {
                    bn: 2232,
                    ddom: 2052,
                    dmig: 3212,
                    bbent: 6537,
                    dbent: 3768,
                    dhzp: 2856,
                },
                (StagioneHFBI::Autunno, HabitatHFBI::NonVegetato) => CondizioniRiferimentoHFBI {
                    bn: 1932,
                    ddom: 2268,
                    dmig: 2014,
                    bbent: 6867,
                    dbent: 2944,
                    dhzp: 2570,
                },
                (StagioneHFBI::Primavera, HabitatHFBI::Vegetato) => CondizioniRiferimentoHFBI {
                    bn: 2232,
                    ddom: 1784,
                    dmig: 3212,
                    bbent: 7242,
                    dbent: 3153,
                    dhzp: 2369,
                },
                (StagioneHFBI::Autunno, HabitatHFBI::Vegetato) => CondizioniRiferimentoHFBI {
                    bn: 1932,
                    ddom: 2001,
                    dmig: 2014,
                    bbent: 7572,
                    dbent: 2329,
                    dhzp: 2083,
                },
            },
            TipoLagunaCostieraHFBI::MAt2 => match (key.stagione, key.habitat_vegetato) {
                (StagioneHFBI::Primavera, HabitatHFBI::NonVegetato) => CondizioniRiferimentoHFBI {
                    bn: 2539,
                    ddom: 2052,
                    dmig: 3212,
                    bbent: 5221,
                    dbent: 3768,
                    dhzp: 2856,
                },
                (StagioneHFBI::Autunno, HabitatHFBI::NonVegetato) => CondizioniRiferimentoHFBI {
                    bn: 2238,
                    ddom: 2268,
                    dmig: 2014,
                    bbent: 5551,
                    dbent: 2944,
                    dhzp: 2570,
                },
                (StagioneHFBI::Primavera, HabitatHFBI::Vegetato) => CondizioniRiferimentoHFBI {
                    bn: 2539,
                    ddom: 1784,
                    dmig: 3212,
                    bbent: 5925,
                    dbent: 3153,
                    dhzp: 2369,
                },
                (StagioneHFBI::Autunno, HabitatHFBI::Vegetato) => CondizioniRiferimentoHFBI {
                    bn: 2238,
                    ddom: 2001,
                    dmig: 2014,
                    bbent: 6255,
                    dbent: 2329,
                    dhzp: 2083,
                },
            },
            TipoLagunaCostieraHFBI::MAt3 => match (key.stagione, key.habitat_vegetato) {
                (StagioneHFBI::Primavera, HabitatHFBI::NonVegetato) => CondizioniRiferimentoHFBI {
                    bn: 2217,
                    ddom: 2052,
                    dmig: 3212,
                    bbent: 4561,
                    dbent: 3768,
                    dhzp: 2856,
                },
                (StagioneHFBI::Autunno, HabitatHFBI::NonVegetato) => CondizioniRiferimentoHFBI {
                    bn: 1917,
                    ddom: 2268,
                    dmig: 2014,
                    bbent: 4891,
                    dbent: 2944,
                    dhzp: 2570,
                },
                (StagioneHFBI::Primavera, HabitatHFBI::Vegetato) => CondizioniRiferimentoHFBI {
                    bn: 2217,
                    ddom: 1784,
                    dmig: 3212,
                    bbent: 5265,
                    dbent: 3153,
                    dhzp: 2369,
                },
                (StagioneHFBI::Autunno, HabitatHFBI::Vegetato) => CondizioniRiferimentoHFBI {
                    bn: 1917,
                    ddom: 2001,
                    dmig: 2014,
                    bbent: 5595,
                    dbent: 2329,
                    dhzp: 2083,
                },
            },
        };
        Option::Some(cond)
    }
}

/// Stato ecologico HFBI della stazione.
#[derive(Debug, Copy, Clone, PartialEq, Eq, Structural)]
pub enum StatoEcologicoHFBI {
    Eccellente,
    Buono,
    Sufficiente,
    Scarso,
    Cattivo,
}

} // verus!
