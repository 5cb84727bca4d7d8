use indici_ittici::domain_niseci::{
    AnagraficaNISECI, AreaNISECI, CampionamentoNISECI, ClassiEtaSpecieNISECI, ComunitaNISECI,
    IdroEcoRegioneNISECI, RecordNISECI, RiferimentoNISECI, SpecieNISECI, TipoComunitaNISECI,
};
use indici_ittici::location::Location;
use indici_ittici::niseci::calculate_niseci;
use indici_ittici::x1::calculate_x1;
use indici_ittici::x2::calculate_x2;
use indici_ittici::x3::calculate_x3;

fn specie(
    id: &str,
    nome: &str,
    tipo_autoctono: u8,
    tipo_alloctono: u8,
    specie_attesa: bool,
) -> SpecieNISECI {
    SpecieNISECI {
        id: id.to_string(),
        nome: nome.to_string(),
        tipo_autoctono,
        tipo_alloctono,
        specie_attesa,
        cl_soglia1: 1,
        cl_soglia2: 2,
        cl_soglia3: 3,
        cl_soglia4: 4,
        ad_juv_soglia1: 1000,
        ad_juv_soglia2: 2000,
        ad_juv_soglia3: 3000,
        ad_juv_soglia4: 4000,
        dens_soglia1: 1000,
        dens_soglia2: 2000,
    }
}

/// id == 1; soglie ad/juv 0.5, 0.67, 1.5, 2.0; densita 5.0, 10.0
fn get_ciaccio() -> SpecieNISECI {
    SpecieNISECI {
        id: "1".to_string(),
        nome: "Ciaccio ciaccensis".to_string(),
        tipo_autoctono: 2,
        tipo_alloctono: 0,
        specie_attesa: true,
        cl_soglia1: 3,
        cl_soglia2: 6,
        cl_soglia3: 9,
        cl_soglia4: 12,
        ad_juv_soglia1: 500,
        ad_juv_soglia2: 670,
        ad_juv_soglia3: 1500,
        ad_juv_soglia4: 2000,
        dens_soglia1: 5000,
        dens_soglia2: 10000,
    }
}

/// id == 2, alloctono di tipo 1
fn get_trocchio() -> SpecieNISECI {
    let mut s = get_ciaccio();
    s.id = "2".to_string();
    s.nome = "Trocchio trocchiensis".to_string();
    s.tipo_autoctono = 0;
    s.tipo_alloctono = 1;
    s.dens_soglia1 = 1000;
    s.dens_soglia2 = 2000;
    s
}

/// id == 3, alloctono di tipo 2
fn get_bronzo() -> SpecieNISECI {
    let mut s = get_trocchio();
    s.id = "3".to_string();
    s.nome = "Bronzo bronzensis".to_string();
    s.tipo_alloctono = 2;
    s
}

/// id == 4, alloctono di tipo 3
fn get_tappo() -> SpecieNISECI {
    let mut s = get_trocchio();
    s.id = "4".to_string();
    s.nome = "Tappo sugheribus".to_string();
    s.tipo_alloctono = 3;
    s
}

fn record(specie: &SpecieNISECI, passaggio: u8, lunghezza: u32) -> RecordNISECI {
    RecordNISECI {
        specie: specie.clone(),
        passaggio_cattura: passaggio,
        lunghezza,
        peso: 10000,
    }
}

fn ripeti(c: &mut Vec<RecordNISECI>, r: RecordNISECI, volte: usize) {
    for _ in 0..volte {
        c.push(r.clone());
    }
}

fn campionamento_strutturato(specie: SpecieNISECI) -> CampionamentoNISECI {
    let mut c: Vec<RecordNISECI> = Vec::new();
    ripeti(&mut c, record(&specie, 1, 13), 10);
    ripeti(&mut c, record(&specie, 1, 10), 10);
    ripeti(&mut c, record(&specie, 1, 7), 10);
    ripeti(&mut c, record(&specie, 2, 4), 10);
    ripeti(&mut c, record(&specie, 2, 4), 5);
    CampionamentoNISECI { campionamento: c }
}

fn campionamento_destrutturato(specie: SpecieNISECI) -> CampionamentoNISECI {
    let mut c: Vec<RecordNISECI> = Vec::new();
    ripeti(&mut c, record(&specie, 1, 13), 10);
    ripeti(&mut c, record(&specie, 1, 10), 20);
    ripeti(&mut c, record(&specie, 2, 4), 10);
    CampionamentoNISECI { campionamento: c }
}

fn campionamento_mediam_strutturato(specie: SpecieNISECI) -> CampionamentoNISECI {
    let mut c = campionamento_destrutturato(specie.clone());
    ripeti(&mut c.campionamento, record(&specie, 2, 4), 5);
    c
}

fn con_soglie_dens(mut s: SpecieNISECI, s1: u32, s2: u32) -> SpecieNISECI {
    s.dens_soglia1 = s1;
    s.dens_soglia2 = s2;
    s
}

fn ciacci_solo_autoctoni_1() -> CampionamentoNISECI {
    let ciaccio = con_soglie_dens(get_ciaccio(), 3000, 5000);
    let mut c: Vec<RecordNISECI> = Vec::new();
    ripeti(&mut c, record(&ciaccio, 1, 13), 10);
    ripeti(&mut c, record(&ciaccio, 1, 10), 10);
    ripeti(&mut c, record(&ciaccio, 1, 7), 10);
    ripeti(&mut c, record(&ciaccio, 2, 4), 10);
    ripeti(&mut c, record(&ciaccio, 2, 4), 5);
    CampionamentoNISECI { campionamento: c }
}

fn ciacci_solo_autoctoni_2() -> CampionamentoNISECI {
    let ciaccio = con_soglie_dens(get_ciaccio(), 3000, 5000);
    let mut c: Vec<RecordNISECI> = Vec::new();
    ripeti(&mut c, record(&ciaccio, 1, 13), 10);
    ripeti(&mut c, record(&ciaccio, 1, 10), 10);
    ripeti(&mut c, record(&ciaccio, 1, 7), 10);
    ripeti(&mut c, record(&ciaccio, 2, 10), 10);
    ripeti(&mut c, record(&ciaccio, 2, 2), 5);
    CampionamentoNISECI { campionamento: c }
}

fn massive_ciacci() -> CampionamentoNISECI {
    let mut c = ciacci_solo_autoctoni_1();
    c.campionamento.push(record(&get_trocchio(), 2, 2));
    c
}

fn massive_ciacci_2() -> CampionamentoNISECI {
    let mut c = ciacci_solo_autoctoni_2();
    c.campionamento.push(record(&get_trocchio(), 2, 2));
    c
}

fn ciacci_con(alieni: CampionamentoNISECI) -> CampionamentoNISECI {
    let mut base = alieni;
    let mut ciacci = ciacci_solo_autoctoni_1();
    base.campionamento.append(&mut ciacci.campionamento);
    base
}

fn anagrafica_standard() -> AnagraficaNISECI {
    AnagraficaNISECI {
        comunita: ComunitaNISECI {
            tipo: TipoComunitaNISECI::Dm260_2010,
            fonte: Some("hey".to_string()),
            numero_protocollo: None,
        },
        codice_stazione: "Foo".to_string(),
        date_string: "Never".to_string(),
        area: AreaNISECI::Alpina,
        corpo_idrico: "canaletta".to_string(),
        bacino_appartenenza: "dummy".to_string(),
        idro_eco_regione: IdroEcoRegioneNISECI::AlpiCentroOrientali,
        posizione: Location {
            regione: "sardninaia".to_string(),
            provincia: "oristano".to_string(),
        },
        lunghezza_media_stazione: 10000,
        larghezza_media_stazione: 1000,
    }
}

fn riferimento_dummy() -> RiferimentoNISECI {
    RiferimentoNISECI {
        elenco_specie: vec![
            specie("1", "Ciaccio ciaccensis", 2, 0, true),
            specie("2", "Ciaccio sbribbrensis", 2, 0, true),
            specie("3", "Ciaccio cozzensis", 2, 0, true),
            specie("4", "Normus sempliciottum", 1, 0, true),
            specie("5", "Normus qualunquis", 1, 0, true),
            specie("6", "Disturbus infognatus", 0, 1, true),
            specie("7", "Disturbus sotterfugius", 0, 1, true),
            specie("7", "Sorprendo sorprendentes", 0, 1, false),
            specie("8", "Sorprendo improvvisus", 2, 0, false),
        ],
    }
}

fn campionamento_dummy_full() -> CampionamentoNISECI {
    let mut c: Vec<RecordNISECI> = Vec::new();
    for (id, nome, aut, allo, attesa) in [
        ("1", "Ciaccio ciaccensis", 2, 0, true),
        ("2", "Ciaccio sbribbrensis", 2, 0, true),
        ("3", "Ciaccio cozzensis", 2, 0, true),
        ("5", "Normus qualunquis", 1, 0, true),
        ("4", "Normus sempliciottum", 1, 0, true),
        ("7", "Sorprendo sorprendentes", 0, 1, false),
        ("8", "Sorprendo improvvisus", 2, 0, false),
        ("6", "Disturbus infognatus", 0, 1, true),
        ("7", "Disturbus sotterfugius", 0, 1, true),
    ] {
        c.push(RecordNISECI {
            specie: specie(id, nome, aut, allo, attesa),
            passaggio_cattura: 1,
            lunghezza: 5,
            peso: 5000,
        });
    }
    CampionamentoNISECI { campionamento: c }
}

fn campionamento_dummy_chopped() -> CampionamentoNISECI {
    let full = campionamento_dummy_full();
    let mut chopped = full.campionamento.clone();
    chopped.remove(1);
    CampionamentoNISECI {
        campionamento: chopped,
    }
}

#[test]
fn test_calculate_x1_full_campionamento() {
    let riferimento = riferimento_dummy();
    let campionamento = campionamento_dummy_full();

    assert_eq!(calculate_x1(&campionamento, &riferimento), Some(1000));
}

#[test]
fn test_calculate_x1_mixed_campionamento() {
    let riferimento = riferimento_dummy();
    let campionamento = campionamento_dummy_chopped();
    // (1.2 * 2 + 0.8 * 2) / (1.2 * 2 + 0.8 * 3) = 5/6
    assert_eq!(calculate_x1(&campionamento, &riferimento), Some(833));
}

#[test]
fn calculate_x2_a_criterio_a_5_classi_valorizzate() {
    let classe = ClassiEtaSpecieNISECI {
        specie: get_ciaccio(),
        cl1: 1,
        cl2: 1,
        cl3: 1,
        cl4: 1,
        cl5: 1,
    };

    let x2_a_criterio_a = classe.get_x2_a_criterio_a();
    assert_eq!(1, x2_a_criterio_a)
}

#[test]
fn calculate_x2_a_criterio_a_3_classi_valorizzate() {
    let classe = ClassiEtaSpecieNISECI {
        specie: get_ciaccio(),
        cl1: 0,
        cl2: 0,
        cl3: 1,
        cl4: 1,
        cl5: 1,
    };

    let x2_a_criterio_a = classe.get_x2_a_criterio_a();
    assert_eq!(2, x2_a_criterio_a)
}

#[test]
fn calculate_x2_a_criterio_a_2_classi_valorizzate() {
    let classe = ClassiEtaSpecieNISECI {
        specie: get_ciaccio(),
        cl1: 0,
        cl2: 0,
        cl3: 0,
        cl4: 1,
        cl5: 1,
    };

    let x2_a_criterio_a = classe.get_x2_a_criterio_a();
    assert_eq!(3, x2_a_criterio_a)
}

#[test]
fn calculate_x2_a_criterio_b_zero_giovani() {
    let classe = ClassiEtaSpecieNISECI {
        specie: get_ciaccio(),
        cl1: 0,
        cl2: 0,
        cl3: 0,
        cl4: 1,
        cl5: 1,
    };

    let (x2_a_criterio_b, _ad_juv) = classe.get_x2_a_criterio_b();
    assert_eq!(3, x2_a_criterio_b)
}

#[test]
fn calculate_x2_a_criterio_b_1_bilanciato() {
    let classe = ClassiEtaSpecieNISECI {
        specie: get_ciaccio(),
        cl1: 0,
        cl2: 1,
        cl3: 1,
        cl4: 1,
        cl5: 1,
    };

    let (x2_a_criterio_b, _ad_juv) = classe.get_x2_a_criterio_b();
    assert_eq!(1, x2_a_criterio_b)
}

#[test]
fn calculate_x2_a_criterio_b_2_medio_sbilanciato_adulti() {
    let classe = ClassiEtaSpecieNISECI {
        specie: get_ciaccio(),
        cl1: 0,
        cl2: 1,
        cl3: 1,
        cl4: 2,
        cl5: 2,
    };

    let (x2_a_criterio_b, _ad_juv) = classe.get_x2_a_criterio_b();
    assert_eq!(2, x2_a_criterio_b)
}

#[test]
fn calculate_x2_a_criterio_b_2_medio_sbilanciato_giovani() {
    let classe = ClassiEtaSpecieNISECI {
        specie: get_ciaccio(),
        cl1: 0,
        cl2: 2,
        cl3: 2,
        cl4: 1,
        cl5: 1,
    };

    let (x2_a_criterio_b, _ad_juv) = classe.get_x2_a_criterio_b();
    assert_eq!(2, x2_a_criterio_b)
}

#[test]
fn calculate_x2_a_criterio_b_3_molto_sbilanciato_adulti() {
    let classe = ClassiEtaSpecieNISECI {
        specie: get_ciaccio(),
        cl1: 0,
        cl2: 1,
        cl3: 1,
        cl4: 3,
        cl5: 3,
    };

    let (x2_a_criterio_b, _ad_juv) = classe.get_x2_a_criterio_b();
    assert_eq!(3, x2_a_criterio_b)
}

#[test]
fn calculate_x2_a_criterio_b_3_molto_sbilanciato_giovani() {
    let classe = ClassiEtaSpecieNISECI {
        specie: get_ciaccio(),
        cl1: 0,
        cl2: 3,
        cl3: 3,
        cl4: 1,
        cl5: 1,
    };

    let (x2_a_criterio_b, _ad_juv) = classe.get_x2_a_criterio_b();
    assert_eq!(3, x2_a_criterio_b)
}

#[test]
fn calculate_x2_test_1() {
    let campionamento = massive_ciacci();
    let anagrafica = anagrafica_standard();

    let x2 = calculate_x2(&campionamento, &anagrafica, true);

    assert!(x2.is_ok());

    let (x2, _criteri_x2) = x2.unwrap();
    assert_eq!(Some(1000), x2);

    // secondo caso, con il ciaccio meno strutturato

    let campionamento = massive_ciacci_2();
    let anagrafica = anagrafica_standard();

    let x2 = calculate_x2(&campionamento, &anagrafica, true);

    assert!(x2.is_ok());
    let (x2, _criteri_x2) = x2.unwrap();
    assert_eq!(Some(700), x2);
}

#[test]
fn calculate_x3_assenza_specie_aliene() {
    let c = ciacci_solo_autoctoni_1();
    let x3 = calculate_x3(&c);

    assert!(x3.is_ok());
    let (x3, _criteri_x3) = x3.unwrap();
    assert_eq!(x3, 1000);
}

#[test]
fn calculate_x3_un_trocchio() {
    let c = massive_ciacci_2();
    let x3 = calculate_x3(&c);

    assert!(x3.is_ok());
    let (x3, criteri_x3) = x3.unwrap();
    assert_eq!(x3, 750);
    // fattore a 0.50, fattore b 1.0 (una sola aliena, destrutturata)
    let criteri = criteri_x3.unwrap();
    assert_eq!(criteri.get_criterio_a(), 50);
    assert_eq!(criteri.get_criterio_b(), (2, 2));
    assert_eq!(criteri.get_submetriche_map().len(), 1);
}

#[test]
fn calculate_x3_alieni_magg_uguale_autoctoni() {
    let c = ciacci_con(campionamento_strutturato(con_soglie_dens(get_trocchio(), 3000, 5000)));
    let x3 = calculate_x3(&c);

    assert!(x3.is_ok());
    let (x3, _criteri_x3) = x3.unwrap();
    assert_eq!(x3, 0);
}

#[test]
fn calculate_x3_alieni_tipo_1_strutt() {
    let mut c = ciacci_con(campionamento_strutturato(con_soglie_dens(get_trocchio(), 3000, 5000)));
    c.campionamento.push(record(&get_ciaccio(), 2, 2));

    let x3 = calculate_x3(&c);

    assert!(x3.is_ok());
    let (x3, _criteri_x3) = x3.unwrap();
    assert_eq!(x3, 0);
}

#[test]
fn calculate_x3_alieni_tipo_2_strutt() {
    let mut c = ciacci_con(campionamento_strutturato(con_soglie_dens(get_bronzo(), 3000, 5000)));
    c.campionamento.push(record(&get_ciaccio(), 2, 2));

    let x3 = calculate_x3(&c);

    assert!(x3.is_ok());
    let (x3, _criteri_x3) = x3.unwrap();
    assert_eq!(x3, 250);
}

#[test]
fn calculate_x3_alieni_tipo_3_strutt() {
    let mut c = ciacci_con(campionamento_strutturato(con_soglie_dens(get_tappo(), 3000, 5000)));
    c.campionamento.push(record(&get_ciaccio(), 2, 2));

    let x3 = calculate_x3(&c);

    assert!(x3.is_ok());
    let (x3, _criteri_x3) = x3.unwrap();
    assert_eq!(x3, 375);
}

#[test]
fn calculate_x3_alieni_tipo_3_destrutt() {
    let mut c = ciacci_con(campionamento_destrutturato(con_soglie_dens(get_tappo(), 3000, 5000)));
    c.campionamento.push(record(&get_ciaccio(), 2, 2));

    let x3 = calculate_x3(&c);

    assert!(x3.is_ok());
    let (x3, _criteri_x3) = x3.unwrap();
    assert_eq!(x3, 875);
}

#[test]
fn calculate_x3_alieni_tipo_3_mediam_strutt() {
    let mut c = ciacci_con(campionamento_mediam_strutturato(con_soglie_dens(
        get_tappo(),
        3000,
        5000,
    )));
    c.campionamento.push(record(&get_ciaccio(), 2, 2));

    let x3 = calculate_x3(&c);

    assert!(x3.is_ok());
    let (x3, _criteri_x3) = x3.unwrap();
    assert_eq!(x3, 625);
}

#[test]
fn calculate_dummy_niseci_campionamento_full() {
    let riferimento = riferimento_dummy();
    let campionamento = campionamento_dummy_full();
    let anagrafica = anagrafica_dummy_vuota();
    let res = calculate_niseci(&campionamento, &riferimento, &anagrafica);

    assert!(res.is_ok());
    let intermedi = res.unwrap();
    // tutte le specie attese del riferimento sono campionate
    assert_eq!(intermedi.x1, Some(1000));
    // struttura nulla (solo la quinta classe), densita infinita su
    // superficie nulla: (0.6 * 0 + 0.4 * 1.0 * 5) / 5
    assert_eq!(intermedi.x2_a, 0);
    assert_eq!(intermedi.x2_b, 10);
    assert_eq!(intermedi.x2, Some(400));
    // il quadro per specie nomina ogni specie selezionata, una volta:
    // cinque attese, una non attesa autoctona, due alloctone
    assert_eq!(intermedi.specie_specifici.len(), 8);
    let voce_1 = intermedi
        .specie_specifici
        .iter()
        .find(|v| v.classi_eta.specie.id == "1")
        .unwrap();
    // un solo esemplare, nella quinta classe: criteri 3 e 3
    assert_eq!(voce_1.classi_eta.cl5, 1);
    assert_eq!(voce_1.x2_a_a, 3);
    assert_eq!(voce_1.x2_a_b, 3);
    assert_eq!(voce_1.quantita_stimata, 1);
}

#[test]
fn calculate_dummy_niseci_campionamento_chopped() {
    let riferimento = riferimento_dummy();
    let campionamento = campionamento_dummy_chopped();
    let anagrafica = anagrafica_dummy_vuota();
    let res = calculate_niseci(&campionamento, &riferimento, &anagrafica);

    assert!(res.is_ok());
    let intermedi = res.unwrap();
    // manca una delle sei specie attese: (1.2*2 + 0.8*2) / (1.2*2 + 0.8*3)
    assert_eq!(intermedi.x1, Some(833));
    assert_eq!(intermedi.x2, Some(400));
    assert_eq!(intermedi.specie_specifici.len(), 7);
}

fn anagrafica_dummy_vuota() -> AnagraficaNISECI {
    let mut a = anagrafica_standard();
    a.codice_stazione = "foo".to_string();
    a.lunghezza_media_stazione = 0;
    a.larghezza_media_stazione = 0;
    a
}
