//! Stimatore di abbondanza per campionamenti a passaggi ripetuti
//! (metodo di rimozione alla Zippin): discesa del gradiente a passo
//! fisso su assi normalizzati, in aritmetica a virgola fissa su interi.
//!
//! Ogni valore in virgola fissa vale `v / SCALA` nel piano reale; la
//! pendenza e l'intercetta della retta sono quindi interi a 128 bit.

use vstd::arithmetic::div_mod::{
    lemma_div_denominator, lemma_div_is_ordered, lemma_div_multiples_vanish,
    lemma_fundamental_div_mod,
};
use vstd::prelude::*;

use crate::aritmetica::{abs_int, div_tronca, tdiv_i128};

verus! {

/// Unita della virgola fissa: 2^32.
pub const SCALA: i128 = 4294967296;

/// Passo di apprendimento 0.001 in virgola fissa.
pub const PASSO: i128 = 4294967;

/// Tolleranza 1e-6 in virgola fissa: una pendenza sotto questa soglia
/// e trattata come nulla.
pub const EPSILON_FISSO: i128 = 4295;

/// Barriera di saturazione (2^62) per pendenza e intercetta durante la
/// discesa: tiene ogni prodotto intermedio dentro i 128 bit.
pub const LIMITE: i128 = 4611686018427387904;

/// Numero fisso di iterazioni della discesa del gradiente.
pub const ITERAZIONI: usize = 10000;

/// Un punto del piano: ascissa e ordinata dello stesso tipo.
#[derive(Debug, PartialEq, Eq, Structural)]
pub struct Point<T> {
    pub x: T,
    pub y: T,
}

impl<T> Point<T> {
    pub fn new(x: T, y: T) -> (p: Point<T>)
        ensures
            p.x == x,
            p.y == y,
    {
        Point { x, y }
    }
}

/// Errore dello stimatore: tutte le ordinate uguali, nessuna retta
/// di regressione e definita.
#[derive(Debug, PartialEq, Eq, Structural)]
pub enum LinearRegressionError {
    SameValues,
}

/// Massima ascissa di una sequenza non vuota di punti.
pub open spec fn massimo_x(ps: Seq<Point<i32>>) -> int
    recommends
        ps.len() >= 1,
    decreases ps.len(),
{
    if ps.len() <= 1 {
        ps[0].x as int
    } else {
        let m = massimo_x(ps.drop_last());
        if ps.last().x as int > m {
            ps.last().x as int
        } else {
            m
        }
    }
}

/// Minima ascissa di una sequenza non vuota di punti.
pub open spec fn minimo_x(ps: Seq<Point<i32>>) -> int
    recommends
        ps.len() >= 1,
    decreases ps.len(),
{
    if ps.len() <= 1 {
        ps[0].x as int
    } else {
        let m = minimo_x(ps.drop_last());
        if (ps.last().x as int) < m {
            ps.last().x as int
        } else {
            m
        }
    }
}

/// Massima ordinata di una sequenza non vuota di punti.
pub open spec fn massimo_y(ps: Seq<Point<i32>>) -> int
    recommends
        ps.len() >= 1,
    decreases ps.len(),
{
    if ps.len() <= 1 {
        ps[0].y as int
    } else {
        let m = massimo_y(ps.drop_last());
        if ps.last().y as int > m {
            ps.last().y as int
        } else {
            m
        }
    }
}

/// Minima ordinata di una sequenza non vuota di punti.
pub open spec fn minimo_y(ps: Seq<Point<i32>>) -> int
    recommends
        ps.len() >= 1,
    decreases ps.len(),
{
    if ps.len() <= 1 {
        ps[0].y as int
    } else {
        let m = minimo_y(ps.drop_last());
        if (ps.last().y as int) < m {
            ps.last().y as int
        } else {
            m
        }
    }
}

/// Somma delle ordinate.
pub open spec fn somma_y(ps: Seq<Point<i32>>) -> int
    decreases ps.len(),
{
    if ps.len() == 0 {
        0
    } else {
        somma_y(ps.drop_last()) + ps.last().y as int
    }
}

/// La somma delle ordinate, troncata a `u32` come il risultato di
/// `get_sum`: il modulo euclideo riproduce il giro su 32 bit.
pub open spec fn somma_y_u32(ps: Seq<Point<i32>>) -> int {
    somma_y(ps) % 0x1_0000_0000
}

/// Le quattro estremita (min x, max x, min y, max y) di una sequenza
/// non vuota di punti.
fn estremi(points: &[Point<i32>]) -> (r: (i32, i32, i32, i32))
    requires
        points@.len() >= 1,
    ensures
        r.0 == minimo_x(points@),
        r.1 == massimo_x(points@),
        r.2 == minimo_y(points@),
        r.3 == massimo_y(points@),
{
    let mut min_x: i32 = points[0].x;
    let mut max_x: i32 = points[0].x;
    let mut min_y: i32 = points[0].y;
    let mut max_y: i32 = points[0].y;
    let mut i: usize = 1;
    while i < points.len()
        invariant
            1 <= i <= points@.len(),
            min_x == minimo_x(points@.take(i as int)),
            max_x == massimo_x(points@.take(i as int)),
            min_y == minimo_y(points@.take(i as int)),
            max_y == massimo_y(points@.take(i as int)),
        decreases points@.len() - i,
    {
        let p = &points[i];
        proof {
            assert(points@.take(i + 1).drop_last() =~= points@.take(i as int));
            assert(points@.take(i + 1).last() == points@[i as int]);
        }
        if p.x < min_x {
            min_x = p.x;
        }
        if p.x > max_x {
            max_x = p.x;
        }
        if p.y < min_y {
            min_y = p.y;
        }
        if p.y > max_y {
            max_y = p.y;
        }
        i = i + 1;
    }
    proof {
        assert(points@.take(points@.len() as int) =~= points@);
    }
    (min_x, max_x, min_y, max_y)
}

/// Ogni somma parziale delle ordinate, da sinistra, sta in `i32`:
/// la condizione sotto cui l'accumulo a 32 bit non trabocca mai.
pub open spec fn somme_parziali_in_i32(ps: Seq<Point<i32>>) -> bool {
    forall|j: int| 0 <= j <= ps.len() ==> i32::MIN <= #[trigger] somma_y(ps.take(j)) <= i32::MAX
}

/// Somma delle ordinate dei punti, come stima di ripiego: con le
/// ordinate non negative del dominio reale coincide con `somma_y`.
pub fn get_sum(points: &[Point<i32>]) -> (r: u32)
    requires
        somme_parziali_in_i32(points@),
    ensures
        r == somma_y_u32(points@),
        somma_y(points@) >= 0 ==> r == somma_y(points@),
{
    let mut sum: i32 = 0;
    let mut i: usize = 0;
    while i < points.len()
        invariant
            0 <= i <= points@.len(),
            sum == somma_y(points@.take(i as int)),
            somme_parziali_in_i32(points@),
        decreases points@.len() - i,
    {
        proof {
            assert(points@.take(i + 1).drop_last() =~= points@.take(i as int));
            assert(points@.take(i + 1).last() == points@[i as int]);
            assert(i32::MIN <= somma_y(points@.take(i + 1)) <= i32::MAX);
        }
        sum = sum + points[i].y;
        i = i + 1;
    }
    proof {
        assert(points@.take(points@.len() as int) =~= points@);
    }
    let r2: u32 = if sum >= 0 {
        proof {
            vstd::arithmetic::div_mod::lemma_small_mod(sum as nat, 0x1_0000_0000nat);
        }
        sum as u32
    } else {
        proof {
            vstd::arithmetic::div_mod::lemma_fundamental_div_mod_converse_mod(
                sum as int,
                0x1_0000_0000,
                -1,
                sum + 0x1_0000_0000,
            );
        }
        ((sum as i64) + 0x1_0000_0000i64) as u32
    };
    r2
}

/// Ampiezza massima di un gradiente accumulato: con coordinate
/// normalizzate in `[0, SCALA]` e retta bloccata entro `LIMITE`,
/// nessun gradiente la supera in modulo.
pub const AMPIEZZA: i128 = 2 * (SCALA + 2 * LIMITE);

/// Le coordinate di ogni coppia normalizzata stanno in `[0, SCALA]`.
pub open spec fn coordinate_normali(pn: Seq<(int, int)>) -> bool {
    forall|i: int|
        0 <= i < pn.len() ==> 0 <= #[trigger] pn[i].0 <= SCALA && 0 <= pn[i].1 <= SCALA
}

/// Le coppie (x, y) di una sequenza di punti a virgola fissa.
pub open spec fn coppie(ps: Seq<Point<i128>>) -> Seq<(int, int)> {
    Seq::new(ps.len(), |i: int| (ps[i].x as int, ps[i].y as int))
}

/// Residuo verticale di un punto normalizzato rispetto alla retta
/// `y = m x + b` in virgola fissa.
pub open spec fn scarto(p: (int, int), m: int, b: int) -> int {
    p.1 - (div_tronca(m * p.0, SCALA as int) + b)
}

/// Contributo di un punto al gradiente della pendenza, gia diviso
/// per il numero di punti `n`.
pub open spec fn termine_m(p: (int, int), m: int, b: int, n: int) -> int {
    div_tronca(-2 * p.0 * scarto(p, m, b), n * SCALA)
}

/// Contributo di un punto al gradiente dell'intercetta.
pub open spec fn termine_b(p: (int, int), m: int, b: int, n: int) -> int {
    div_tronca(-2 * scarto(p, m, b), n)
}

/// Gradiente della pendenza accumulato su una sequenza di punti.
pub open spec fn gradiente_m(pn: Seq<(int, int)>, m: int, b: int, n: int) -> int
    decreases pn.len(),
{
    if pn.len() == 0 {
        0
    } else {
        gradiente_m(pn.drop_last(), m, b, n) + termine_m(pn.last(), m, b, n)
    }
}

/// Gradiente dell'intercetta accumulato su una sequenza di punti.
pub open spec fn gradiente_b(pn: Seq<(int, int)>, m: int, b: int, n: int) -> int
    decreases pn.len(),
{
    if pn.len() == 0 {
        0
    } else {
        gradiente_b(pn.drop_last(), m, b, n) + termine_b(pn.last(), m, b, n)
    }
}

/// Saturazione entro la barriera `LIMITE`.
pub open spec fn blocca(v: int) -> int {
    if v > LIMITE {
        LIMITE as int
    } else if v < -LIMITE {
        -LIMITE as int
    } else {
        v
    }
}

/// Un passo della discesa del gradiente: ogni componente scende del
/// proprio gradiente per il passo di apprendimento, poi viene bloccata.
pub open spec fn passo_discesa(pn: Seq<(int, int)>, m: int, b: int, n: int) -> (int, int) {
    (
        blocca(m - div_tronca(gradiente_m(pn, m, b, n) * PASSO, SCALA as int)),
        blocca(b - div_tronca(gradiente_b(pn, m, b, n) * PASSO, SCALA as int)),
    )
}

/// Stato della discesa dopo `k` passi dalla partenza fissa
/// `(m, b) = (-1, 1)` in virgola fissa.
pub open spec fn discesa(pn: Seq<(int, int)>, n: int, k: nat) -> (int, int)
    decreases k,
{
    if k == 0 {
        (-SCALA as int, SCALA as int)
    } else {
        let prec = discesa(pn, n, (k - 1) as nat);
        passo_discesa(pn, prec.0, prec.1, n)
    }
}

/// `|a * b| <= ca * cb` quando `|a| <= ca` e `|b| <= cb`.
proof fn lemma_mul_limite(a: int, b: int, ca: int, cb: int)
    requires
        abs_int(a) <= ca,
        abs_int(b) <= cb,
    ensures
        abs_int(a * b) <= ca * cb,
{
    assert(-(ca * cb) <= a * b && a * b <= ca * cb) by (nonlinear_arith)
        requires
            -ca <= a <= ca && -cb <= b <= cb,
    ;
}

/// Il residuo di un punto normalizzato contro una retta bloccata
/// non supera `SCALA + 2 * LIMITE`, cioe `AMPIEZZA / 2`.
proof fn lemma_scarto_limite(p: (int, int), m: int, b: int)
    requires
        0 <= p.0 <= SCALA,
        0 <= p.1 <= SCALA,
        abs_int(m) <= LIMITE,
        abs_int(b) <= LIMITE,
    ensures
        abs_int(scarto(p, m, b)) <= SCALA + 2 * LIMITE,
{
    lemma_mul_limite(m, p.0, LIMITE as int, SCALA as int);
    crate::aritmetica::lemma_div_tronca_mag(m * p.0, SCALA as int);
    lemma_div_is_ordered(abs_int(m * p.0), LIMITE * SCALA, SCALA as int);
    lemma_div_multiples_vanish(LIMITE as int, SCALA as int);
    assert(LIMITE * SCALA == SCALA * LIMITE) by (nonlinear_arith);
    assert(abs_int(div_tronca(m * p.0, SCALA as int)) <= LIMITE);
}

/// Ogni contributo al gradiente resta sotto `AMPIEZZA / n`.
proof fn lemma_termine_limite(p: (int, int), m: int, b: int, n: int)
    requires
        0 <= p.0 <= SCALA,
        0 <= p.1 <= SCALA,
        abs_int(m) <= LIMITE,
        abs_int(b) <= LIMITE,
        n >= 1,
    ensures
        abs_int(termine_m(p, m, b, n)) <= AMPIEZZA as int / n,
        abs_int(termine_b(p, m, b, n)) <= AMPIEZZA as int / n,
{
    lemma_scarto_limite(p, m, b);
    let e = scarto(p, m, b);
    let mezza: int = SCALA + 2 * LIMITE;
    // contributo alla pendenza
    assert(abs_int(-2 * p.0 * e) <= (2 * SCALA) * mezza) by {
        lemma_mul_limite(-2 * p.0, e, 2 * SCALA, mezza);
        assert(abs_int(-2 * p.0) <= 2 * SCALA);
    }
    assert((2 * SCALA) * mezza == (AMPIEZZA as int) * (SCALA as int)) by (nonlinear_arith)
        requires
            AMPIEZZA == 2 * (SCALA + 2 * LIMITE) && mezza == SCALA + 2 * LIMITE,
    ;
    assert(n * SCALA >= 1) by (nonlinear_arith)
        requires
            n >= 1 && SCALA >= 1,
    ;
    crate::aritmetica::lemma_div_tronca_mag(-2 * p.0 * e, n * SCALA);
    lemma_div_is_ordered(abs_int(-2 * p.0 * e), AMPIEZZA * SCALA, n * SCALA);
    assert((AMPIEZZA as int * SCALA as int) / (n * SCALA as int) == AMPIEZZA as int / n) by {
        lemma_div_denominator(AMPIEZZA * SCALA, SCALA as int, n);
        assert(SCALA * n == n * SCALA) by (nonlinear_arith);
        assert(AMPIEZZA * SCALA == SCALA * AMPIEZZA) by (nonlinear_arith);
        lemma_div_multiples_vanish(AMPIEZZA as int, SCALA as int);
    }
    // contributo all'intercetta
    assert(abs_int(-2 * e) <= AMPIEZZA) by {
        lemma_mul_limite(-2, e, 2, mezza);
        assert(2 * mezza == AMPIEZZA);
    }
    crate::aritmetica::lemma_div_tronca_mag(-2 * e, n);
    lemma_div_is_ordered(abs_int(-2 * e), AMPIEZZA as int, n);
}

/// Un passo esecutivo della discesa del gradiente sui punti
/// normalizzati, in virgola fissa.
pub fn gradient_descent(m_now: i128, b_now: i128, points: &[Point<i128>]) -> (r: (i128, i128))
    requires
        points@.len() >= 1,
        coordinate_normali(coppie(points@)),
        abs_int(m_now as int) <= LIMITE,
        abs_int(b_now as int) <= LIMITE,
    ensures
        (r.0 as int, r.1 as int) == passo_discesa(
            coppie(points@),
            m_now as int,
            b_now as int,
            points@.len() as int,
        ),
        abs_int(r.0 as int) <= LIMITE,
        abs_int(r.1 as int) <= LIMITE,
{
    let n: usize = points.len();
    let n128: i128 = n as i128;
    let ghost pn = coppie(points@);
    let ghost quota: int = AMPIEZZA as int / (n as int);
    let mut mg: i128 = 0;
    let mut bg: i128 = 0;
    let mut i: usize = 0;
    while i < n
        invariant
            0 <= i <= n,
            n == points@.len(),
            n >= 1,
            n128 == n,
            pn == coppie(points@),
            quota == AMPIEZZA as int / (n as int),
            coordinate_normali(pn),
            abs_int(m_now as int) <= LIMITE,
            abs_int(b_now as int) <= LIMITE,
            mg == gradiente_m(pn.take(i as int), m_now as int, b_now as int, n as int),
            bg == gradiente_b(pn.take(i as int), m_now as int, b_now as int, n as int),
            abs_int(mg as int) <= i * quota,
            abs_int(bg as int) <= i * quota,
        decreases n - i,
    {
        let x: i128 = points[i].x;
        let y: i128 = points[i].y;
        proof {
            assert(pn[i as int] == (points@[i as int].x as int, points@[i as int].y as int));
            assert(0 <= pn[i as int].0 <= SCALA && 0 <= pn[i as int].1 <= SCALA);
            assert(0 <= x <= SCALA && 0 <= y <= SCALA);
            lemma_mul_limite(m_now as int, x as int, LIMITE as int, SCALA as int);
        }
        let mx: i128 = m_now * x;
        let t: i128 = tdiv_i128(mx, SCALA);
        proof {
            crate::aritmetica::lemma_div_tronca_mag(mx as int, SCALA as int);
            lemma_div_is_ordered(abs_int(mx as int), LIMITE * SCALA, SCALA as int);
            lemma_div_multiples_vanish(LIMITE as int, SCALA as int);
            assert(LIMITE * SCALA == SCALA * LIMITE) by (nonlinear_arith);
            assert(abs_int(t as int) <= LIMITE);
        }
        let e: i128 = y - (t + b_now);
        proof {
            assert(e == scarto(pn[i as int], m_now as int, b_now as int));
            lemma_scarto_limite(pn[i as int], m_now as int, b_now as int);
            lemma_mul_limite(-2 * x as int, e as int, 2 * SCALA, SCALA + 2 * LIMITE);
            assert((2 * SCALA) * (SCALA + 2 * LIMITE) < 0x8000_0000_0000_0000_0000_0000_0000_0000int)
                by (nonlinear_arith);
            assert(n128 * SCALA <= 0x1_0000_0000_0000_0000i128 * SCALA) by (nonlinear_arith)
                requires
                    1 <= n128 <= 0x1_0000_0000_0000_0000i128 && SCALA >= 1,
            ;
            assert(n128 * SCALA >= 1) by (nonlinear_arith)
                requires
                    n128 >= 1 && SCALA >= 1,
            ;
        }
        let num_m: i128 = -2 * x * e;
        let den_m: i128 = n128 * SCALA;
        let tm: i128 = tdiv_i128(num_m, den_m);
        let tb: i128 = tdiv_i128(-2 * e, n128);
        proof {
            lemma_termine_limite(pn[i as int], m_now as int, b_now as int, n as int);
            assert(tm == termine_m(pn[i as int], m_now as int, b_now as int, n as int));
            assert(tb == termine_b(pn[i as int], m_now as int, b_now as int, n as int));
            assert(pn.take(i + 1).drop_last() =~= pn.take(i as int));
            assert(pn.take(i + 1).last() == pn[i as int]);
            assert((i + 1) * quota == i * quota + quota) by (nonlinear_arith);
            crate::aritmetica::lemma_div_per_den(AMPIEZZA as int, n as int);
            assert(i * quota <= n * quota) by (nonlinear_arith)
                requires
                    0 <= i <= n && quota >= 0,
            ;
            assert(n * quota <= AMPIEZZA) by {
                crate::aritmetica::lemma_div_per_den(AMPIEZZA as int, n as int);
            }
        }
        mg = mg + tm;
        bg = bg + tb;
        i = i + 1;
    }
    proof {
        assert(pn.take(n as int) =~= pn);
        assert(n as int * quota <= AMPIEZZA) by {
            crate::aritmetica::lemma_div_per_den(AMPIEZZA as int, n as int);
        }
        assert(i as int * quota <= n as int * quota) by (nonlinear_arith)
            requires
                0 <= i as int <= n as int && quota >= 0,
        ;
        lemma_mul_limite(mg as int, PASSO as int, AMPIEZZA as int, PASSO as int);
        lemma_mul_limite(bg as int, PASSO as int, AMPIEZZA as int, PASSO as int);
        crate::aritmetica::lemma_div_tronca_mag(mg as int * PASSO, SCALA as int);
        crate::aritmetica::lemma_div_tronca_mag(bg as int * PASSO, SCALA as int);
        lemma_div_is_ordered(abs_int(mg as int * PASSO), AMPIEZZA * PASSO, SCALA as int);
        lemma_div_is_ordered(abs_int(bg as int * PASSO), AMPIEZZA * PASSO, SCALA as int);
        assert(AMPIEZZA as int * PASSO as int / (SCALA as int)
            < 0x4000_0000_0000_0000_0000_0000i128);
    }
    let dm: i128 = tdiv_i128(mg * PASSO, SCALA);
    let db: i128 = tdiv_i128(bg * PASSO, SCALA);
    let m1: i128 = m_now - dm;
    let b1: i128 = b_now - db;
    let m2: i128 = if m1 > LIMITE {
        LIMITE
    } else if m1 < -LIMITE {
        -LIMITE
    } else {
        m1
    };
    let b2: i128 = if b1 > LIMITE {
        LIMITE
    } else if b1 < -LIMITE {
        -LIMITE
    } else {
        b1
    };
    (m2, b2)
}

/// I punti normalizzati: ciascun asse e riportato in `[0, SCALA]`
/// rispetto alle proprie estremita.
pub open spec fn punti_normalizzati(ps: Seq<Point<i32>>) -> Seq<(int, int)> {
    let mnx = minimo_x(ps);
    let dx = massimo_x(ps) - mnx;
    let mny = minimo_y(ps);
    let dy = massimo_y(ps) - mny;
    Seq::new(
        ps.len(),
        |i: int|
            (
                div_tronca((ps[i].x - mnx) * SCALA, dx),
                div_tronca((ps[i].y - mny) * SCALA, dy),
            ),
    )
}

/// Ogni punto sta fra le estremita della propria sequenza.
proof fn lemma_dentro_estremi(ps: Seq<Point<i32>>, i: int)
    requires
        0 <= i < ps.len(),
    ensures
        minimo_x(ps) <= ps[i].x <= massimo_x(ps),
        minimo_y(ps) <= ps[i].y <= massimo_y(ps),
    decreases ps.len(),
{
    if ps.len() > 1 && i < ps.len() - 1 {
        lemma_dentro_estremi(ps.drop_last(), i);
        assert(ps.drop_last()[i] == ps[i]);
    }
}

/// Una coordinata normalizzata cade sempre in `[0, SCALA]`.
proof fn lemma_norma_in_scala(v: int, mn: int, mx: int)
    requires
        mn <= v <= mx,
        mn < mx,
    ensures
        0 <= div_tronca((v - mn) * SCALA, mx - mn) <= SCALA,
{
    let d = mx - mn;
    let num = (v - mn) * SCALA;
    assert(0 <= num <= d * SCALA) by (nonlinear_arith)
        requires
            0 <= v - mn <= d && SCALA >= 1 && num == (v - mn) * SCALA,
    ;
    assert(div_tronca(num, d) == num / d);
    lemma_div_is_ordered(num, d * SCALA, d);
    lemma_div_multiples_vanish(SCALA as int, d);
    vstd::arithmetic::div_mod::lemma_div_pos_is_pos(num, d);
}

/// Normalizzazione dei punti di campionamento sugli assi `[0, SCALA]`.
/// Con tutte le ordinate uguali non esiste una retta da stimare e la
/// funzione segnala `SameValues`.
pub fn normalize_points(points: &[Point<i32>]) -> (r: Result<
    Vec<Point<i128>>,
    LinearRegressionError,
>)
    requires
        points@.len() >= 1,
        massimo_y(points@) != minimo_y(points@) ==> massimo_x(points@) != minimo_x(points@),
    ensures
        match r {
            Result::Err(e) => e == LinearRegressionError::SameValues && massimo_y(points@)
                == minimo_y(points@),
            Result::Ok(v) => {
                &&& massimo_y(points@) != minimo_y(points@)
                &&& v@.len() == points@.len()
                &&& coppie(v@) == punti_normalizzati(points@)
                &&& coordinate_normali(coppie(v@))
            },
        },
{
    let (min_x, max_x, min_y, max_y) = estremi(points);
    if max_y == min_y {
        return Result::Err(LinearRegressionError::SameValues);
    }
    let dx: i128 = max_x as i128 - min_x as i128;
    let dy: i128 = max_y as i128 - min_y as i128;
    proof {
        lemma_dentro_estremi(points@, 0);
        assert(dx > 0);
        assert(dy > 0);
    }
    let mut v: Vec<Point<i128>> = Vec::new();
    let mut i: usize = 0;
    while i < points.len()
        invariant
            0 <= i <= points@.len(),
            points@.len() >= 1,
            v@.len() == i,
            min_x == minimo_x(points@) && max_x == massimo_x(points@),
            min_y == minimo_y(points@) && max_y == massimo_y(points@),
            dx == massimo_x(points@) - minimo_x(points@) && dx > 0,
            dy == massimo_y(points@) - minimo_y(points@) && dy > 0,
            forall|j: int|
                0 <= j < i ==> (#[trigger] v@[j].x as int, v@[j].y as int)
                    == punti_normalizzati(points@)[j],
            forall|j: int|
                0 <= j < i ==> 0 <= #[trigger] v@[j].x <= SCALA && 0 <= v@[j].y <= SCALA,
        decreases points@.len() - i,
    {
        let p = &points[i];
        proof {
            lemma_dentro_estremi(points@, i as int);
            lemma_norma_in_scala(p.x as int, min_x as int, max_x as int);
            lemma_norma_in_scala(p.y as int, min_y as int, max_y as int);
        }
        let nx: i128 = tdiv_i128((p.x as i128 - min_x as i128) * SCALA, dx);
        let ny: i128 = tdiv_i128((p.y as i128 - min_y as i128) * SCALA, dy);
        v.push(Point::new(nx, ny));
        i = i + 1;
    }
    proof {
        assert(coppie(v@) =~= punti_normalizzati(points@));
    }
    Result::Ok(v)
}

/// La retta denormalizzata, riportata dal piano `[0,1] x [0,1]` al
/// piano originale dei punti; pendenza e intercetta in virgola fissa.
pub open spec fn retta_denormalizzata(ps: Seq<Point<i32>>, m_n: int, b_n: int) -> (int, int) {
    let dx = massimo_x(ps) - minimo_x(ps);
    let dy = massimo_y(ps) - minimo_y(ps);
    let m = div_tronca(m_n * dy, dx);
    let b = b_n * dy + minimo_y(ps) * SCALA - m * minimo_x(ps);
    (m, b)
}

/// Denormalizzazione della retta stimata.
pub fn denormalize_retta(m_norm: i128, b_norm: i128, points: &[Point<i32>]) -> (r: (i128, i128))
    requires
        points@.len() >= 1,
        massimo_x(points@) != minimo_x(points@),
        abs_int(m_norm as int) <= LIMITE,
        abs_int(b_norm as int) <= LIMITE,
    ensures
        (r.0 as int, r.1 as int) == retta_denormalizzata(points@, m_norm as int, b_norm as int),
        abs_int(r.0 as int) <= 0x4000_0000_0000_0000_0000_0000i128,
        abs_int(r.1 as int) <= 0x4000_0000_0000_0000_0000_0000_0000_0000i128,
{
    let (min_x, max_x, min_y, max_y) = estremi(points);
    let dx: i128 = max_x as i128 - min_x as i128;
    let dy: i128 = max_y as i128 - min_y as i128;
    proof {
        lemma_dentro_estremi(points@, 0);
        assert(dx > 0);
        assert(0 <= dy < 0x1_0000_0000i128);
        lemma_mul_limite(m_norm as int, dy as int, LIMITE as int, 0x1_0000_0000i128 as int);
        crate::aritmetica::lemma_div_tronca_mag(m_norm as int * dy as int, dx as int);
    }
    let m: i128 = tdiv_i128(m_norm * dy, dx);
    proof {
        assert(abs_int(m as int) <= LIMITE * 0x1_0000_0000i128) by {
            lemma_div_is_ordered(
                abs_int(m_norm as int * dy as int),
                LIMITE * 0x1_0000_0000i128,
                dx as int,
            );
            lemma_div_multiples_vanish(LIMITE * 0x1_0000_0000i128, dx as int);
            assert((dx as int * (LIMITE * 0x1_0000_0000i128)) / (dx as int) == LIMITE
                * 0x1_0000_0000i128);
            assert(abs_int(m_norm as int * dy as int) / (dx as int) <= (dx as int * (LIMITE
                * 0x1_0000_0000i128)) / (dx as int)) by {
                lemma_div_is_ordered(
                    abs_int(m_norm as int * dy as int),
                    dx as int * (LIMITE * 0x1_0000_0000i128),
                    dx as int,
                );
                assert(abs_int(m_norm as int * dy as int) <= dx as int * (LIMITE
                    * 0x1_0000_0000i128)) by (nonlinear_arith)
                    requires
                        abs_int(m_norm as int * dy as int) <= LIMITE * 0x1_0000_0000i128 && dx
                            as int >= 1 && LIMITE * 0x1_0000_0000i128 >= 0,
                ;
            }
        }
        lemma_mul_limite(b_norm as int, dy as int, LIMITE as int, 0x1_0000_0000i128 as int);
        lemma_mul_limite(
            m as int,
            min_x as int,
            LIMITE * 0x1_0000_0000i128,
            0x8000_0000i128 as int,
        );
    }
    let b: i128 = b_norm * dy + min_y as i128 * SCALA - m * min_x as i128;
    (m, b)
}

/// La retta stimata dalla discesa del gradiente, gia denormalizzata.
pub open spec fn retta_stimata(ps: Seq<Point<i32>>) -> (int, int) {
    let pn = punti_normalizzati(ps);
    let fine = discesa(pn, ps.len() as int, ITERAZIONI as nat);
    retta_denormalizzata(ps, fine.0, fine.1)
}

/// Lo stato della discesa resta sempre dentro la barriera `LIMITE`.
proof fn lemma_discesa_limitata(pn: Seq<(int, int)>, n: int, k: nat)
    ensures
        abs_int(discesa(pn, n, k).0) <= LIMITE,
        abs_int(discesa(pn, n, k).1) <= LIMITE,
    decreases k,
{
    if k > 0 {
        lemma_discesa_limitata(pn, n, (k - 1) as nat);
    }
}

/// Esegue `ITERAZIONI` passi di discesa del gradiente sui punti
/// normalizzati e riporta la retta nel piano originale.
///
/// Una sequenza con ordinate diverse ma ascisse tutte uguali e una
/// retta verticale: nessuna pendenza in virgola fissa la rappresenta,
/// e il chiamante la tratta a parte.
pub fn gradient_descent_iterate(points: &[Point<i32>]) -> (r: Result<
    (i128, i128),
    LinearRegressionError,
>)
    requires
        points@.len() >= 1,
        massimo_y(points@) != minimo_y(points@) ==> massimo_x(points@) != minimo_x(points@),
    ensures
        match r {
            Result::Err(e) => e == LinearRegressionError::SameValues && massimo_y(points@)
                == minimo_y(points@),
            Result::Ok(mb) => {
                &&& massimo_y(points@) != minimo_y(points@)
                &&& (mb.0 as int, mb.1 as int) == retta_stimata(points@)
                &&& abs_int(mb.0 as int) <= 0x4000_0000_0000_0000_0000_0000i128
                &&& abs_int(mb.1 as int) <= 0x4000_0000_0000_0000_0000_0000_0000_0000i128
            },
        },
{
    let normalized_points = match normalize_points(points) {
        Result::Ok(norm) => norm,
        Result::Err(error) => {
            return Result::Err(error);
        },
    };
    let ghost pn = punti_normalizzati(points@);
    let ghost n = points@.len() as int;
    proof {
        assert(coppie(normalized_points@) == pn);
    }
    let mut m_norm: i128 = -SCALA;
    let mut b_norm: i128 = SCALA;
    let mut k: usize = 0;
    while k < ITERAZIONI
        invariant
            0 <= k <= ITERAZIONI,
            points@.len() >= 1,
            n == points@.len() as int,
            pn == punti_normalizzati(points@),
            coppie(normalized_points@) == pn,
            normalized_points@.len() == points@.len(),
            coordinate_normali(pn),
            (m_norm as int, b_norm as int) == discesa(pn, n, k as nat),
            abs_int(m_norm as int) <= LIMITE,
            abs_int(b_norm as int) <= LIMITE,
        decreases ITERAZIONI - k,
    {
        let passo = gradient_descent(m_norm, b_norm, normalized_points.as_slice());
        proof {
            assert(discesa(pn, n, (k + 1) as nat) == passo_discesa(
                pn,
                discesa(pn, n, k as nat).0,
                discesa(pn, n, k as nat).1,
                n,
            ));
        }
        m_norm = passo.0;
        b_norm = passo.1;
        k = k + 1;
    }
    let retta = denormalize_retta(m_norm, b_norm, points);
    Result::Ok(retta)
}

/// Saturazione di un intero nel dominio di `i32`, come la conversione
/// di un numero a virgola mobile fuori scala.
pub open spec fn satura_i32(v: int) -> int {
    if v > i32::MAX {
        i32::MAX as int
    } else if v < i32::MIN {
        i32::MIN as int
    } else {
        v
    }
}

/// La quantita stimata dai punti di cattura, o `None` quando la stima
/// e negativa (errore per il chiamante). Tutti i casi di ripiego
/// tornano alla somma delle ordinate.
pub open spec fn risultato_stima(ps: Seq<Point<i32>>) -> Option<int> {
    if massimo_y(ps) == minimo_y(ps) {
        Option::Some(somma_y_u32(ps))
    } else if massimo_x(ps) == minimo_x(ps) {
        Option::Some(0)
    } else {
        let retta = retta_stimata(ps);
        let mf = retta.0;
        let bf = retta.1;
        if abs_int(mf) < EPSILON_FISSO {
            Option::Some(somma_y_u32(ps))
        } else if mf > 0 {
            Option::Some(somma_y_u32(ps))
        } else {
            let q = satura_i32(div_tronca(-bf, mf));
            if q < 0 {
                Option::None
            } else {
                Option::Some(q)
            }
        }
    }
}

/// Stima della quantita totale di esemplari dai punti di cattura
/// cumulati: regressione lineare sul profilo di deplezione, con i
/// ripieghi documentati (stessi valori, pendenza nulla o positiva,
/// stima negativa).
pub fn calculate_quantita_with_regression(campionamenti: &[Point<i32>]) -> (r: Result<u32, String>)
    requires
        campionamenti@.len() >= 1,
        somme_parziali_in_i32(campionamenti@),
    ensures
        match risultato_stima(campionamenti@) {
            Option::Some(v) => r is Ok && r->Ok_0 == v,
            Option::None => r is Err,
        },
        r is Err ==> r->Err_0@ == "quantita stimata negativa"@,
{
    let (min_x, max_x, min_y, max_y) = estremi(campionamenti);
    if max_y == min_y {
        return Result::Ok(get_sum(campionamenti));
    }
    if max_x == min_x {
        // ascisse tutte uguali: retta verticale, nessuna stima utile
        return Result::Ok(0);
    }
    let retta = match gradient_descent_iterate(campionamenti) {
        Result::Ok(mb) => mb,
        Result::Err(_) => {
            // irraggiungibile: le ordinate differiscono
            return Result::Ok(get_sum(campionamenti));
        },
    };
    let m = retta.0;
    let b = retta.1;
    let m_abs: i128 = if m < 0 {
        -m
    } else {
        m
    };
    if m_abs < EPSILON_FISSO {
        return Result::Ok(get_sum(campionamenti));
    }
    if m > 0 {
        return Result::Ok(get_sum(campionamenti));
    }
    let q128: i128 = tdiv_i128(-b, m);
    let q: i32 = if q128 > i32::MAX as i128 {
        i32::MAX
    } else if q128 < i32::MIN as i128 {
        i32::MIN
    } else {
        q128 as i32
    };
    if q < 0 {
        return Result::Err(String::from_str("quantita stimata negativa"));
    }
    Result::Ok(q as u32)
}

} // verus!
