use indici_ittici::aritmetica::{rdiv_i128, tdiv_i128};
use indici_ittici::domain_hfbi::{
    AnagraficaHFBI, CondizioniRiferimentoHFBI, HabitatHFBI, StagioneHFBI, TipoLagunaCostieraHFBI,
};
use indici_ittici::domain_niseci::{
    punteggio_da_criteri, AreaNISECI, CampionamentoNISECI, ClassiEtaSpecieNISECI, RecordNISECI,
    SpecieNISECI, StatoEcologicoNISECI, TipoComunitaNISECI,
};
use indici_ittici::hfbi::{calc_s90, calculate_stato_ecologico_hfbi};
use indici_ittici::location::Location;
use indici_ittici::niseci::calculate_stato_ecologico_niseci;
use indici_ittici::x2::{calculate_passaggi_ripetuti, get_quantita_stimata};
use indici_ittici::x3::calculate_x3;
use indici_ittici::domain_hfbi::StatoEcologicoHFBI;

fn specie_generica() -> SpecieNISECI {
    SpecieNISECI {
        id: "G".to_string(),
        nome: "Generica".to_string(),
        tipo_autoctono: 1,
        tipo_alloctono: 0,
        specie_attesa: true,
        cl_soglia1: 10,
        cl_soglia2: 20,
        cl_soglia3: 30,
        cl_soglia4: 40,
        ad_juv_soglia1: 500,
        ad_juv_soglia2: 1000,
        ad_juv_soglia3: 1500,
        ad_juv_soglia4: 2000,
        dens_soglia1: 1000,
        dens_soglia2: 2000,
    }
}

/// Il criterio A dipende solo da quante classi sono popolate:
/// tutte le combinazioni di classi piene o vuote lo confermano.
#[test]
fn criterio_a_esaustivo_sulle_combinazioni() {
    for maschera in 0u32..32 {
        let valori: Vec<u32> = (0..5)
            .map(|k| if maschera & (1 << k) != 0 { 7 } else { 0 })
            .collect();
        let classe = ClassiEtaSpecieNISECI {
            specie: specie_generica(),
            cl1: valori[0],
            cl2: valori[1],
            cl3: valori[2],
            cl4: valori[3],
            cl5: valori[4],
        };
        let popolate = maschera.count_ones();
        let atteso: u8 = if popolate >= 4 {
            1
        } else if popolate == 3 {
            2
        } else {
            3
        };
        assert_eq!(atteso, classe.get_x2_a_criterio_a());
    }
}

/// La tabella (A, B) -> punteggio: ogni coppia in tabella rende il
/// punteggio enumerato, ogni coppia fuori tabella e un errore.
#[test]
fn tabella_punteggi_esaustiva() {
    for a in 0u8..=5 {
        for b in 0u8..=5 {
            let esito = punteggio_da_criteri(a, b);
            if a == 1 && b == 3 {
                assert_eq!(esito.unwrap(), 1); // 0.5
            } else if a == 1 {
                assert_eq!(esito.unwrap(), 2); // 1.0
            } else if a == 2 && b == 3 {
                assert_eq!(esito.unwrap(), 0); // 0.0
            } else if a == 2 {
                assert_eq!(esito.unwrap(), 1); // 0.5
            } else if a == 3 {
                assert_eq!(esito.unwrap(), 0); // 0.0
            } else {
                assert!(esito.is_err());
            }
        }
    }
}

/// Senza esemplari alieni x3 vale sempre esattamente 1.0, qualunque
/// sia il resto del campionamento.
#[test]
fn x3_senza_alieni_vale_uno() {
    let mut sp1 = specie_generica();
    sp1.specie_attesa = false;
    let mut sp2 = specie_generica();
    sp2.id = "H".to_string();
    sp2.tipo_autoctono = 2;
    let mut sp3 = specie_generica();
    sp3.id = "K".to_string();
    sp3.tipo_autoctono = 0;

    let mut c: Vec<RecordNISECI> = Vec::new();
    for (sp, lunghezza, passaggio) in [(&sp1, 5u32, 1u8), (&sp2, 25, 2), (&sp3, 100, 7)] {
        c.push(RecordNISECI {
            specie: sp.clone(),
            passaggio_cattura: passaggio,
            lunghezza,
            peso: 123,
        });
    }
    let esito = calculate_x3(&CampionamentoNISECI { campionamento: c });
    assert!(esito.is_ok());
    let (x3, criteri) = esito.unwrap();
    assert_eq!(x3, 1000);
    assert!(criteri.is_none());

    let vuoto = CampionamentoNISECI {
        campionamento: Vec::new(),
    };
    let esito_vuoto = calculate_x3(&vuoto);
    assert_eq!(esito_vuoto.unwrap().0, 1000);
}

/// L'arrotondamento porta sempre il mezzo lontano dallo zero.
#[test]
fn arrotondamento_mezzo_lontano_dallo_zero() {
    assert_eq!(rdiv_i128(1, 2), 1);
    assert_eq!(rdiv_i128(-1, 2), -1);
    assert_eq!(rdiv_i128(3, 2), 2);
    assert_eq!(rdiv_i128(-3, 2), -2);
    assert_eq!(rdiv_i128(5, 10), 1);
    assert_eq!(rdiv_i128(15, 10), 2);
    assert_eq!(rdiv_i128(25, 10), 3);
    assert_eq!(rdiv_i128(-25, 10), -3);
    assert_eq!(rdiv_i128(4, 10), 0);
    assert_eq!(rdiv_i128(-4, 10), 0);
    // il quoziente troncato, per confronto, va verso lo zero
    assert_eq!(tdiv_i128(-7, 2), -3);
    assert_eq!(tdiv_i128(7, -2), -3);
    assert_eq!(tdiv_i128(7, 2), 3);
}

/// La formula a due passaggi arrotonda 4.5 a 5, non a 4.
#[test]
fn passaggi_ripetuti_mezzo_in_su() {
    // 4 * 9 / (9 - 1) = 4.5
    let stima = calculate_passaggi_ripetuti(3, 1);
    assert_eq!(stima.unwrap(), 5);
}

/// Un solo passaggio registrato: la stima e il suo conteggio.
#[test]
fn quantita_stimata_passaggio_singolo() {
    let stima = get_quantita_stimata(&vec![(3, 7)]);
    assert_eq!(stima.unwrap(), 7);
}

#[test]
fn stato_ecologico_hfbi_soglie() {
    assert_eq!(
        calculate_stato_ecologico_hfbi(Some(1300)),
        Some(StatoEcologicoHFBI::Eccellente)
    );
    assert_eq!(
        calculate_stato_ecologico_hfbi(Some(940)),
        Some(StatoEcologicoHFBI::Eccellente)
    );
    assert_eq!(
        calculate_stato_ecologico_hfbi(Some(939)),
        Some(StatoEcologicoHFBI::Buono)
    );
    assert_eq!(
        calculate_stato_ecologico_hfbi(Some(550)),
        Some(StatoEcologicoHFBI::Buono)
    );
    assert_eq!(
        calculate_stato_ecologico_hfbi(Some(549)),
        Some(StatoEcologicoHFBI::Sufficiente)
    );
    assert_eq!(
        calculate_stato_ecologico_hfbi(Some(330)),
        Some(StatoEcologicoHFBI::Sufficiente)
    );
    assert_eq!(
        calculate_stato_ecologico_hfbi(Some(329)),
        Some(StatoEcologicoHFBI::Scarso)
    );
    assert_eq!(
        calculate_stato_ecologico_hfbi(Some(110)),
        Some(StatoEcologicoHFBI::Scarso)
    );
    assert_eq!(
        calculate_stato_ecologico_hfbi(Some(109)),
        Some(StatoEcologicoHFBI::Cattivo)
    );
    assert_eq!(
        calculate_stato_ecologico_hfbi(Some(-50)),
        Some(StatoEcologicoHFBI::Cattivo)
    );
    assert_eq!(calculate_stato_ecologico_hfbi(None), None);
}

#[test]
fn stato_ecologico_niseci_soglie() {
    assert_eq!(
        calculate_stato_ecologico_niseci(Some(80), &AreaNISECI::Alpina),
        Some(StatoEcologicoNISECI::Elevato)
    );
    assert_eq!(
        calculate_stato_ecologico_niseci(Some(79), &AreaNISECI::Alpina),
        Some(StatoEcologicoNISECI::Buono)
    );
    assert_eq!(
        calculate_stato_ecologico_niseci(Some(52), &AreaNISECI::Alpina),
        Some(StatoEcologicoNISECI::Buono)
    );
    assert_eq!(
        calculate_stato_ecologico_niseci(Some(51), &AreaNISECI::Alpina),
        Some(StatoEcologicoNISECI::Moderato)
    );
    assert_eq!(
        calculate_stato_ecologico_niseci(Some(59), &AreaNISECI::Mediterranea),
        Some(StatoEcologicoNISECI::Moderato)
    );
    assert_eq!(
        calculate_stato_ecologico_niseci(Some(60), &AreaNISECI::Mediterranea),
        Some(StatoEcologicoNISECI::Buono)
    );
    assert_eq!(
        calculate_stato_ecologico_niseci(Some(39), &AreaNISECI::Alpina),
        Some(StatoEcologicoNISECI::Scadente)
    );
    assert_eq!(
        calculate_stato_ecologico_niseci(Some(19), &AreaNISECI::Alpina),
        Some(StatoEcologicoNISECI::Cattivo)
    );
    assert_eq!(calculate_stato_ecologico_niseci(None, &AreaNISECI::Alpina), None);
}

fn anagrafica_hfbi(
    laguna: TipoLagunaCostieraHFBI,
    stagione: StagioneHFBI,
    habitat: HabitatHFBI,
) -> AnagraficaHFBI {
    AnagraficaHFBI {
        codice_stazione: "ST1".to_string(),
        corpo_idrico: "laguna".to_string(),
        posizione: Location {
            regione: "Veneto".to_string(),
            provincia: "VE".to_string(),
        },
        date_string: "01/01/2025".to_string(),
        tipo_laguna: laguna,
        stagione,
        habitat_vegetato: habitat,
        lunghezza_media_transetto: 100000,
        larghezza_media_transetto: 100000,
    }
}

#[test]
fn condizioni_riferimento_complete_e_esatte() {
    let lagune = [
        TipoLagunaCostieraHFBI::MAt1,
        TipoLagunaCostieraHFBI::MAt2,
        TipoLagunaCostieraHFBI::MAt3,
    ];
    let stagioni = [StagioneHFBI::Primavera, StagioneHFBI::Autunno];
    let habitat = [HabitatHFBI::Vegetato, HabitatHFBI::NonVegetato];
    for l in lagune {
        for s in stagioni {
            for h in habitat {
                let a = anagrafica_hfbi(l, s, h);
                assert!(CondizioniRiferimentoHFBI::get_cond_riferimento(&a).is_some());
            }
        }
    }

    let cond = CondizioniRiferimentoHFBI::get_cond_riferimento(&anagrafica_hfbi(
        TipoLagunaCostieraHFBI::MAt2,
        StagioneHFBI::Autunno,
        HabitatHFBI::Vegetato,
    ))
    .unwrap();
    assert_eq!(cond.bn, 2238);
    assert_eq!(cond.ddom, 2001);
    assert_eq!(cond.dmig, 2014);
    assert_eq!(cond.bbent, 6255);
    assert_eq!(cond.dbent, 2329);
    assert_eq!(cond.dhzp, 2083);
}

/// La regola S90 scorre i record in ordine di ingresso, non per peso
/// decrescente.
#[test]
fn s90_in_ordine_di_ingresso() {
    assert_eq!(calc_s90(&vec![500, 200, 100, 100, 100]), 5);
    assert_eq!(calc_s90(&vec![901, 99]), 1);
    assert_eq!(calc_s90(&vec![900, 100]), 2);
    assert_eq!(calc_s90(&vec![450, 450, 100]), 3);
    assert_eq!(calc_s90(&vec![100, 900]), 2);
    assert_eq!(calc_s90(&Vec::new()), 0);
}

#[test]
fn esemplari_per_cattura_si_accumulano() {
    let mut esemplari =
        indici_ittici::x2::EsemplariPerCattura::new_prevalorized(2, &specie_generica());
    assert_eq!(esemplari.mappa, vec![(2, 1)]);
    esemplari.fill_passaggio(2);
    esemplari.fill_passaggio(5);
    esemplari.fill_passaggio(2);
    assert_eq!(esemplari.mappa, vec![(2, 3), (5, 1)]);
}

#[test]
fn decodifiche_da_indice() {
    assert_eq!(
        TipoLagunaCostieraHFBI::try_from(0),
        Ok(TipoLagunaCostieraHFBI::MAt1)
    );
    assert_eq!(
        TipoLagunaCostieraHFBI::try_from(2),
        Ok(TipoLagunaCostieraHFBI::MAt3)
    );
    assert!(TipoLagunaCostieraHFBI::try_from(3).is_err());
    assert_eq!(StagioneHFBI::try_from(1), Ok(StagioneHFBI::Autunno));
    assert!(StagioneHFBI::try_from(-1).is_err());
    assert_eq!(HabitatHFBI::try_from(0), Ok(HabitatHFBI::Vegetato));
    assert_eq!(AreaNISECI::try_from(1), Ok(AreaNISECI::Mediterranea));
    assert_eq!(
        TipoComunitaNISECI::try_from(3),
        Ok(TipoComunitaNISECI::AffinataDalMase)
    );
    assert!(TipoComunitaNISECI::try_from(4).is_err());
    assert!(indici_ittici::domain_niseci::IdroEcoRegioneNISECI::try_from(20).is_ok());
    assert!(indici_ittici::domain_niseci::IdroEcoRegioneNISECI::try_from(21).is_err());
}
