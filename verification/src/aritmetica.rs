//! Aritmetica intera esatta usata da tutti i motori: divisione troncata
//! verso lo zero e arrotondamento "half away from zero" di un quoziente.

use vstd::prelude::*;

verus! {

/// Valore assoluto di un intero matematico.
pub open spec fn abs_int(a: int) -> int {
    if a >= 0 {
        a
    } else {
        -a
    }
}

/// Quoziente troncato verso lo zero, come la divisione dei tipi interi
/// con segno della macchina.
pub open spec fn div_tronca(a: int, b: int) -> int
    recommends
        b != 0,
{
    let q = abs_int(a) / abs_int(b);
    if (a >= 0) == (b >= 0) {
        q
    } else {
        -q
    }
}

/// Arrotondamento di `num / den` al piu vicino intero, con il mezzo
/// allontanato dallo zero ("round half away from zero").
pub open spec fn arrotonda_quoziente(num: int, den: int) -> int
    recommends
        den != 0,
{
    let n = if den >= 0 {
        num
    } else {
        -num
    };
    let d = abs_int(den);
    if n >= 0 {
        (2 * n + d) / (2 * d)
    } else {
        -((2 * -n + d) / (2 * d))
    }
}

/// Il quoziente troncato non supera in modulo il quoziente dei moduli.
pub proof fn lemma_div_tronca_mag(a: int, b: int)
    requires
        b != 0,
    ensures
        abs_int(div_tronca(a, b)) == abs_int(a) / abs_int(b),
        abs_int(div_tronca(a, b)) <= abs_int(a),
{
    let q = abs_int(a) / abs_int(b);
    assert(q >= 0 && q <= abs_int(a)) by (nonlinear_arith)
        requires
            abs_int(a) >= 0 && abs_int(b) >= 1 && q == abs_int(a) / abs_int(b),
    ;
}

/// La divisione intera su numeratori non negativi e monotona nel numeratore.
pub proof fn lemma_div_mono_num(a: int, b: int, d: int)
    requires
        0 <= a <= b,
        d >= 1,
    ensures
        a / d <= b / d,
{
    assert(a / d <= b / d) by (nonlinear_arith)
        requires
            0 <= a <= b && d >= 1,
    ;
}

/// `d * (a / d) <= a` per `a >= 0`, `d >= 1`.
pub proof fn lemma_div_per_den(a: int, d: int)
    requires
        a >= 0,
        d >= 1,
    ensures
        0 <= a / d,
        d * (a / d) <= a,
{
    assert(0 <= a / d && d * (a / d) <= a) by (nonlinear_arith)
        requires
            a >= 0 && d >= 1,
    ;
}

/// Il mezzo esatto viene sempre allontanato dallo zero: a tre decimali,
/// 0.0005 in piu arrotonda al millesimo superiore, e il simmetrico
/// negativo al millesimo inferiore.
pub proof fn lemma_mezzo_allontanato(n: int)
    requires
        n >= 0,
    ensures
        arrotonda_quoziente(2 * n + 1, 2) == n + 1,
        arrotonda_quoziente(-(2 * n + 1), 2) == -(n + 1),
{
    assert((2 * (2 * n + 1) + 2) / (2 * 2int) == n + 1) by (nonlinear_arith)
        requires
            n >= 0,
    ;
}

/// L'arrotondamento di un quoziente non negativo non supera il
/// numeratore.
pub proof fn lemma_arrotonda_limite(n: int, d: int)
    requires
        n >= 0,
        d >= 1,
    ensures
        0 <= arrotonda_quoziente(n, d) <= n,
{
    let q = (2 * n + d) / (2 * d);
    lemma_div_per_den(2 * n + d, 2 * d);
    assert(2 * n + d <= 2 * d * n + d) by (nonlinear_arith)
        requires
            n >= 0 && d >= 1,
    ;
    lemma_div_mono_num(2 * n + d, 2 * d * n + d, 2 * d);
    vstd::arithmetic::div_mod::lemma_fundamental_div_mod_converse_div(
        2 * d * n + d,
        2 * d,
        n,
        d,
    );
    assert(2 * d * n + d == (2 * d) * n + d) by (nonlinear_arith);
}

/// L'arrotondamento di `n / d` non supera un tetto `b` quando
/// `n <= b * d`.
pub proof fn lemma_arrotonda_massimo(n: int, d: int, b: int)
    requires
        0 <= n,
        1 <= d,
        0 <= b,
        n <= b * d,
    ensures
        arrotonda_quoziente(n, d) <= b,
{
    assert(2 * n + d <= 2 * d * b + d) by (nonlinear_arith)
        requires
            n <= b * d,
    ;
    lemma_div_mono_num(2 * n + d, 2 * d * b + d, 2 * d);
    vstd::arithmetic::div_mod::lemma_fundamental_div_mod_converse_div(
        2 * d * b + d,
        2 * d,
        b,
        d,
    );
    assert(2 * d * b + d == (2 * d) * b + d) by (nonlinear_arith);
}

/// Divisione troncata verso lo zero su interi a 128 bit.
pub fn tdiv_i128(a: i128, b: i128) -> (q: i128)
    requires
        b != 0,
        a != i128::MIN,
        b != i128::MIN,
    ensures
        q == div_tronca(a as int, b as int),
{
    let na: u128 = if a >= 0 {
        a as u128
    } else {
        (-a) as u128
    };
    let nb: u128 = if b >= 0 {
        b as u128
    } else {
        (-b) as u128
    };
    let nq: u128 = na / nb;
    proof {
        assert(na == abs_int(a as int));
        assert(nb == abs_int(b as int));
        lemma_div_tronca_mag(a as int, b as int);
    }
    if (a >= 0) == (b >= 0) {
        nq as i128
    } else {
        -(nq as i128)
    }
}

/// Arrotondamento "half away from zero" di `num / den` su interi a 128 bit.
pub fn rdiv_i128(num: i128, den: i128) -> (r: i128)
    requires
        den != 0,
        abs_int(num as int) < 0x4000_0000_0000_0000_0000_0000_0000_0000,
        abs_int(den as int) < 0x4000_0000_0000_0000_0000_0000_0000_0000,
    ensures
        r == arrotonda_quoziente(num as int, den as int),
{
    let nn: u128 = if num >= 0 {
        num as u128
    } else {
        (-num) as u128
    };
    let nd: u128 = if den >= 0 {
        den as u128
    } else {
        (-den) as u128
    };
    let positivo: bool = (num >= 0) == (den >= 0);
    let nq: u128 = (2 * nn + nd) / (2 * nd);
    proof {
        let n = if den as int >= 0 {
            num as int
        } else {
            -(num as int)
        };
        assert(nd == abs_int(den as int));
        assert(nn == abs_int(num as int));
        assert(n >= 0 ==> n == nn);
        assert(n < 0 ==> -n == nn);
        assert(nq == (2 * (nn as int) + nd as int) / (2 * (nd as int)));
        lemma_div_per_den(2 * (nn as int) + nd as int, 2 * (nd as int));
        lemma_div_mono_num(2 * (nn as int) + nd as int, 2 * (nn as int) + nd as int,
            2 * (nd as int));
        assert(2 * (nd as int) * (nq as int) <= 2 * (nn as int) + nd as int);
        assert(nq as int <= (nn as int) + nd as int) by (nonlinear_arith)
            requires
                nd as int >= 1 && nq as int >= 0 && 2 * (nd as int) * (nq as int) <= 2 * (nn
                    as int) + nd as int,
        ;
        // il quoziente nullo rende irrilevante il segno scelto
        if nn == 0 {
            vstd::arithmetic::div_mod::lemma_basic_div(nd as int, 2 * (nd as int));
            assert(nq == 0);
        }
    }
    if positivo {
        nq as i128
    } else {
        -(nq as i128)
    }
}

} // verus!
