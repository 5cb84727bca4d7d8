//! Posizione geografica di una stazione di campionamento.

use vstd::prelude::*;

verus! {

/// Regione e provincia della stazione.
#[derive(Debug, Clone)]
pub struct Location {
    pub regione: String,
    pub provincia: String,
}

impl Location {
    /// Rappresentazione testuale della posizione.
    pub fn descrizione(&self) -> String {
        let s = String::from_str("{ regione: {");
        let s = s.concat(self.regione.as_str());
        let s = s.concat("}, provincia: {");
        let s = s.concat(self.provincia.as_str());
        s.concat("} }")
    }
}

} // verus!
