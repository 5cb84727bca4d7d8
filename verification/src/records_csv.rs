//! Tipi condivisi con lo strato di lettura dei tracciati CSV: il
//! genere di tracciato, gli errori di validazione dei record e il
//! contratto dei record di campionamento NISECI.

use vstd::prelude::*;

verus! {

/// I cinque tracciati CSV che il sistema riconosce.
#[derive(Copy, Clone, Debug)]
pub enum TipoRecordCsv {
    RiferimentoNISECI,
    CampionamentoNISECI,
    AnagraficaNISECI,
    CampionamentoHFBI,
    AnagraficaHFBI,
}

/// Un record di campionamento NISECI gia deserializzato: i campi che
/// la validazione legge, come valori semplici.
pub trait RecordCsvCampionamentoNISECI {
    fn data(&self) -> String;

    fn stazione(&self) -> String;

    fn num_passaggio(&self) -> u32;

    fn codice_specie(&self) -> String;

    fn lunghezza(&self) -> u32;

    fn peso(&self) -> u32;
}

/// Errore di validazione di un record del riferimento NISECI.
#[derive(Debug)]
pub enum RecordCsvRiferimentoNISECIError {
    ValoreInvalido { msg: String },
    SoglieCLNonCrescenti { msg: String },
    SoglieADJUVNonCrescenti { msg: String },
}

impl RecordCsvRiferimentoNISECIError {
    /// Il testo dell'errore, preceduto dal tracciato di provenienza.
    pub fn descrizione(&self) -> String {
        let prefisso = String::from_str("Errore record riferimento NISECI: ");
        match self {
            RecordCsvRiferimentoNISECIError::ValoreInvalido { msg } => prefisso.concat(
                msg.as_str(),
            ),
            RecordCsvRiferimentoNISECIError::SoglieCLNonCrescenti { msg } => prefisso.concat(
                msg.as_str(),
            ),
            RecordCsvRiferimentoNISECIError::SoglieADJUVNonCrescenti { msg } => prefisso.concat(
                msg.as_str(),
            ),
        }
    }
}

/// Errore di validazione di un record di campionamento NISECI.
#[derive(Debug)]
pub enum RecordCsvCampionamentoNISECIError {
    ValoreInvalido { msg: String },
}

impl RecordCsvCampionamentoNISECIError {
    /// Il testo dell'errore, preceduto dal tracciato di provenienza.
    pub fn descrizione(&self) -> String {
        let prefisso = String::from_str("Errore record campionamento NISECI: ");
        match self {
            RecordCsvCampionamentoNISECIError::ValoreInvalido { msg } => prefisso.concat(
                msg.as_str(),
            ),
        }
    }
}

/// Errore di validazione del record di anagrafica NISECI.
#[derive(Debug)]
pub enum RecordCsvAnagraficaNISECIError {
    ValoreInvalido { msg: String },
}

impl RecordCsvAnagraficaNISECIError {
    /// Il testo dell'errore, preceduto dal tracciato di provenienza.
    pub fn descrizione(&self) -> String {
        let prefisso = String::from_str("Errore record anagrafica NISECI: ");
        match self {
            RecordCsvAnagraficaNISECIError::ValoreInvalido { msg } => prefisso.concat(
                msg.as_str(),
            ),
        }
    }
}

/// Errore di validazione di un record di campionamento HFBI.
#[derive(Debug)]
pub enum RecordCsvCampionamentoHFBIError {
    ValoreInvalido { msg: String },
}

impl RecordCsvCampionamentoHFBIError {
    /// Il testo dell'errore, preceduto dal tracciato di provenienza.
    pub fn descrizione(&self) -> String {
        let prefisso = String::from_str("Errore record campionamento HFBI: ");
        match self {
            RecordCsvCampionamentoHFBIError::ValoreInvalido { msg } => prefisso.concat(
                msg.as_str(),
            ),
        }
    }
}

/// Errore di validazione del record di anagrafica HFBI.
#[derive(Debug)]
pub enum RecordCsvAnagraficaHFBIError {
    ValoreInvalido { msg: String },
}

impl RecordCsvAnagraficaHFBIError {
    /// Il testo dell'errore, preceduto dal tracciato di provenienza.
    pub fn descrizione(&self) -> String {
        let prefisso = String::from_str("Errore record anagrafica HFBI: ");
        match self {
            RecordCsvAnagraficaHFBIError::ValoreInvalido { msg } => prefisso.concat(
                msg.as_str(),
            ),
        }
    }
}

} // verus!
