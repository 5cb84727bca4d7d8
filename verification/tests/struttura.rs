use indici_ittici::domain_niseci::{ClassiEtaSpecieNISECI, SpecieNISECI};
use indici_ittici::x2::{calculate_x2_b, EsemplariPerCattura};

/// id == 1; soglie ad/juv 0.5, 0.67, 1.5, 2.0; densita 5.0, 10.0
fn ciaccio_campione() -> SpecieNISECI {
    SpecieNISECI {
        id: "1".to_string(),
        nome: "Ciaccio ciaccensis".to_string(),
        tipo_autoctono: 2,
        tipo_alloctono: 0,
        specie_attesa: true,
        cl_soglia1: 3,
        cl_soglia2: 6,
        cl_soglia3: 9,
        cl_soglia4: 12,
        ad_juv_soglia1: 500,
        ad_juv_soglia2: 670,
        ad_juv_soglia3: 1500,
        ad_juv_soglia4: 2000,
        dens_soglia1: 5000,
        dens_soglia2: 10000,
    }
}

fn classi(cl1: u32, cl2: u32, cl3: u32, cl4: u32, cl5: u32) -> ClassiEtaSpecieNISECI {
    ClassiEtaSpecieNISECI {
        specie: ciaccio_campione(),
        cl1,
        cl2,
        cl3,
        cl4,
        cl5,
    }
}

fn punteggio(classe: &ClassiEtaSpecieNISECI) -> u32 {
    let esito = classe.calculate_struttura_popolazione();
    assert!(esito.is_ok());
    esito.unwrap().0
}

#[test]
fn calculate_x2_a_test_ca_1_cb_3_giovani() {
    // punteggio 0.5, in mezzi punti 1
    assert_eq!(1, punteggio(&classi(0, 3, 3, 1, 1)));
}

#[test]
fn calculate_x2_a_test_ca_1_cb_3_adulti() {
    assert_eq!(1, punteggio(&classi(0, 1, 1, 3, 3)));
}

#[test]
fn calculate_x2_a_test_ca_1_cb_2_adulti() {
    // punteggio 1.0, in mezzi punti 2
    assert_eq!(2, punteggio(&classi(0, 1, 1, 2, 2)));
}

#[test]
fn calculate_x2_a_test_ca_1_cb_2_giovani() {
    assert_eq!(2, punteggio(&classi(0, 2, 2, 1, 1)));
}

#[test]
fn calculate_x2_a_test_ca_1_cb_1() {
    assert_eq!(2, punteggio(&classi(0, 1, 1, 1, 1)));
}

#[test]
fn calculate_x2_a_test_ca_2_cb_1() {
    assert_eq!(1, punteggio(&classi(0, 0, 2, 1, 1)));
}

#[test]
fn calculate_x2_a_test_ca_2_cb_2_adulti() {
    assert_eq!(1, punteggio(&classi(0, 0, 2, 2, 2)));
}

#[test]
fn calculate_x2_a_test_ca_2_cb_2_giovani() {
    assert_eq!(1, punteggio(&classi(0, 2, 2, 2, 0)));
}

#[test]
fn calculate_x2_a_test_ca_2_cb_3_adulti() {
    // punteggio 0.0
    assert_eq!(0, punteggio(&classi(0, 0, 2, 3, 3)));
}

#[test]
fn calculate_x2_a_test_ca_2_cb_3_giovani() {
    assert_eq!(0, punteggio(&classi(0, 0, 6, 1, 1)));
}

#[test]
fn calculate_x2_a_test_ca_3_cb_3_adulti() {
    assert_eq!(0, punteggio(&classi(0, 0, 1, 0, 6)));
}

#[test]
fn calculate_x2_a_test_ca_3_cb_3_giovani() {
    assert_eq!(0, punteggio(&classi(0, 0, 6, 0, 1)));
}

#[test]
fn calculate_x2_a_test_ca_3_cb_1() {
    assert_eq!(0, punteggio(&classi(0, 0, 1, 0, 1)));
}

#[test]
fn calculate_x2_a_test_ca_3_cb_2_giovani() {
    assert_eq!(0, punteggio(&classi(0, 0, 2, 0, 1)));
}

#[test]
fn calculate_x2_a_test_ca_3_cb_2_adulti() {
    assert_eq!(0, punteggio(&classi(0, 0, 1, 0, 2)));
}

#[test]
fn calculate_x2_a_test_ca_1_cb_3_adulti_cl1_valorizzato() {
    assert_eq!(1, punteggio(&classi(5, 0, 10, 20, 10)));
}

#[test]
fn calculate_x2_b_buona() {
    // 30 e 15 esemplari nei due passaggi: stima 60 su 2 metri quadri
    let esemplari = EsemplariPerCattura {
        specie: ciaccio_campione(),
        mappa: vec![(1, 30), (2, 15)],
    };

    // 2 m x 1 m in millimetri
    let x2_b = calculate_x2_b(&esemplari, 2000, 1000);

    assert!(x2_b.is_ok());

    let (x2_b, _densita_stimata, _q_stimata) = x2_b.unwrap();
    assert_eq!(x2_b, 2);
}

#[test]
fn calculate_x2_b_test_intermedia() {
    let mut specie = ciaccio_campione();
    specie.dens_soglia1 = 20000;
    specie.dens_soglia2 = 30000;

    let esemplari = EsemplariPerCattura {
        specie,
        mappa: vec![(1, 30), (2, 15)],
    };

    let x2_b = calculate_x2_b(&esemplari, 2000, 1000);

    assert!(x2_b.is_ok());

    let (x2_b, _densita_stimata, _q_stimata) = x2_b.unwrap();
    assert_eq!(x2_b, 1);
}

#[test]
fn calculate_x2_b_test_scarsa() {
    let mut specie = ciaccio_campione();
    specie.dens_soglia1 = 30000;
    specie.dens_soglia2 = 40000;

    let esemplari = EsemplariPerCattura {
        specie,
        mappa: vec![(1, 30), (2, 15)],
    };

    let x2_b = calculate_x2_b(&esemplari, 2000, 1000);

    assert!(x2_b.is_ok());

    let (x2_b, _densita_stimata, _q_stimata) = x2_b.unwrap();
    assert_eq!(x2_b, 0);
}
