//! Motori di calcolo per gli indici di qualita delle comunita ittiche
//! NISECI (fiumi) e HFBI (lagune costiere).
//!
//! Le formule regolamentari sono calcolate su valori interi esatti:
//! i punteggi di struttura valgono in mezzi punti, gli indici arrotondati
//! a tre decimali valgono in millesimi, e lo stimatore di abbondanza
//! lavora in virgola fissa su interi a 128 bit.

pub mod aritmetica;
pub mod domain_hfbi;
pub mod domain_niseci;
pub mod gruppi;
pub mod hfbi;
pub mod insieme_specie;
pub mod linear_regression;
pub mod location;
pub mod niseci;
pub mod records_csv;
pub mod x1;
pub mod x2;
pub mod x3;
