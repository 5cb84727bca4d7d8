use indici_ittici::linear_regression::{
    calculate_quantita_with_regression, gradient_descent_iterate, Point, SCALA,
};
use indici_ittici::x2::{
    calculate_passaggi_ripetuti, calculate_q_stimata_regression, get_quantita_stimata,
};

#[test]
fn test_linear_regression() {
    let records = vec![Point::new(1, 100), Point::new(2, 75), Point::new(3, 50)];

    let result = gradient_descent_iterate(&records);
    assert!(result.is_ok());

    let (m_final, b_final) = result.unwrap();
    assert_eq!(m_final, -25 * SCALA);
    assert_eq!(b_final, 125 * SCALA);
}

#[test]
fn test_quantita_stimata() {
    let passaggi = vec![Point::new(1, 100), Point::new(2, 75), Point::new(3, 50)];

    let quantita_stimata = calculate_quantita_with_regression(&passaggi);

    assert!(quantita_stimata.is_ok());
    assert_eq!(quantita_stimata.unwrap(), 5);
}

#[test]
fn test_quantita_stimata_2() {
    let passaggi = vec![
        Point::new(70, 70),
        Point::new(130, 60),
        Point::new(150, 20),
        Point::new(160, 10),
    ];

    let quantita_stimata = calculate_quantita_with_regression(&passaggi);

    assert!(quantita_stimata.is_ok());
    assert_eq!(quantita_stimata.unwrap(), 190);
}

#[test]
fn test_quantita_stimata_m_positive() {
    let passaggi = vec![Point::new(1, 50), Point::new(2, 75), Point::new(3, 100)];
    let quantita_stimata = calculate_quantita_with_regression(&passaggi);

    assert!(quantita_stimata.is_ok());
    assert_eq!(quantita_stimata.unwrap(), 225);
}

#[test]
fn calcola_q_stimata_regression() {
    let passaggi: Vec<(u8, u32)> = vec![(1, 70), (2, 60), (3, 20), (4, 10)];

    let q_stimata = calculate_q_stimata_regression(&passaggi);

    assert!(q_stimata.is_ok());
    assert_eq!(190, q_stimata.unwrap());
}

#[test]
fn calcola_q_stimata_regression_m_positive() {
    let passaggi: Vec<(u8, u32)> = vec![(1, 50), (2, 75), (3, 100)];

    let q_stimata = calculate_q_stimata_regression(&passaggi);

    assert!(q_stimata.is_ok());
    assert_eq!(225, q_stimata.unwrap());
}

#[test]
fn calcola_q_stimata_regression_same_values() {
    let passaggi: Vec<(u8, u32)> = vec![(1, 50), (2, 50), (3, 50)];

    let q_stimata = calculate_q_stimata_regression(&passaggi);

    assert!(q_stimata.is_ok());
    assert_eq!(150, q_stimata.unwrap());
}

#[test]
fn calcola_passaggi_ripetuti() {
    let q_stimata_1 = calculate_passaggi_ripetuti(30, 12);

    assert!(q_stimata_1.is_ok());
    assert_eq!(q_stimata_1.unwrap(), 50);

    let q_stimata_2 = calculate_passaggi_ripetuti(30, 15);

    assert!(q_stimata_2.is_ok());
    assert_eq!(q_stimata_2.unwrap(), 60);
}

#[test]
fn calcola_passaggi_ripetuti_negative() {
    let q_stimata = calculate_passaggi_ripetuti(15, 30);

    assert!(q_stimata.is_ok());
    assert_eq!(q_stimata.unwrap(), 45);
}

#[test]
fn calcola_passaggi_ripetuti_same_values() {
    let q_stimata = calculate_passaggi_ripetuti(30, 30);

    assert!(q_stimata.is_ok());
    assert_eq!(q_stimata.unwrap(), 60);
}

#[test]
fn get_quantita_stimata_regression() {
    let passaggi: Vec<(u8, u32)> = vec![(1, 70), (2, 60), (3, 20), (4, 10)];

    let q_stimata = get_quantita_stimata(&passaggi);

    assert!(q_stimata.is_ok());
    assert_eq!(190, q_stimata.unwrap());
}

#[test]
fn get_quantita_stimata_passaggi_ripetuti() {
    let passaggi: Vec<(u8, u32)> = vec![(1, 30), (2, 12)];

    let q_stimata = get_quantita_stimata(&passaggi);

    assert!(q_stimata.is_ok());
    assert_eq!(50, q_stimata.unwrap());

    let passaggi2: Vec<(u8, u32)> = vec![(1, 30), (2, 15)];

    let q_stimata2 = get_quantita_stimata(&passaggi2);

    assert!(q_stimata2.is_ok());
    assert_eq!(60, q_stimata2.unwrap());
}

#[test]
fn get_quantita_stimata_passaggi_ripetuti_negative() {
    let passaggi: Vec<(u8, u32)> = vec![(1, 15), (2, 30)];

    let q_stimata = get_quantita_stimata(&passaggi);

    assert!(q_stimata.is_ok());
    assert_eq!(q_stimata.unwrap(), 45);
}

#[test]
fn get_quantita_stimata_progression_m_positive() {
    let passaggi: Vec<(u8, u32)> = vec![(1, 50), (2, 75), (3, 100)];

    let q_stimata = get_quantita_stimata(&passaggi);

    assert!(q_stimata.is_ok());
    assert_eq!(q_stimata.unwrap(), 225);
}
