use vstd::prelude::*;
use vstd::arithmetic::div_mod::{
    lemma_div_is_ordered, lemma_fundamental_div_mod, lemma_fundamental_div_mod_converse,
};

verus! {

/// `floor(a * b / c)` over unbounded integers.
pub open spec fn mul_div_spec(a: int, b: int, c: int) -> int
    recommends
        c > 0,
{
    (a * b) / c
}

/// Adds two remainders modulo `c` without leaving `u128`: returns `(s, k)`
/// with `x + y == k * c + s`, `s < c` and `k` either 0 or 1.
fn add_mod(x: u128, y: u128, c: u128) -> (res: (u128, u128))
    requires
        x < c,
        y < c,
    ensures
        x + y == res.1 * c + res.0,
        res.0 < c,
        res.1 <= 1,
{
    if x >= c - y {
        (x - (c - y), 1)
    } else {
        (x + y, 0)
    }
}

/// Quotient and remainder of `a * b` by `c`, where `b` is given already split
/// as `b == qb * c + rb`. `None` exactly when the quotient exceeds `u128`.
fn mul_div_rem(a: u128, qb: u128, rb: u128, c: u128, b: Ghost<int>) -> (res: Option<(u128, u128)>)
    requires
        c > 0,
        rb < c,
        b@ == qb * c + rb,
    ensures
        match res {
            Some((q, r)) => a * b@ == q * c + r && r < c,
            None => (a * b@) / (c as int) > u128::MAX,
        },
    decreases a,
{
    if a == 0 {
        assert(a * b@ == 0 * c + 0) by (nonlinear_arith)
            requires a == 0;
        return Some((0, 0));
    }
    let half = a / 2;
    let bit = a % 2;
    match mul_div_rem(half, qb, rb, c, b) {
        None => {
            proof {
                assert(half * b@ <= a * b@) by (nonlinear_arith)
                    requires half <= a, b@ >= 0;
                lemma_div_is_ordered(half * b@, a * b@, c as int);
            }
            None
        },
        Some((q0, r0)) => {
            let (r1, k1) = add_mod(r0, r0, c);
            let (r2, k2) = if bit == 1 {
                add_mod(r1, rb, c)
            } else {
                (r1, 0)
            };
            let extra: u128 = if bit == 1 { k1 + k2 } else { k1 };
            // a * b == (2 * q0 + k1 + bit * (qb + k2)) * c + r2
            assert(a * b@ == (2 * q0 + extra + bit * qb) * c + r2) by (nonlinear_arith)
                requires
                    a == 2 * half + bit,
                    half * b@ == q0 * c + r0,
                    r0 + r0 == k1 * c + r1,
                    bit == 0 || bit == 1,
                    bit == 1 ==> r1 + rb == k2 * c + r2,
                    bit == 0 ==> r2 == r1,
                    extra == (if bit == 1 { k1 + k2 } else { k1 as int }),
                    b@ == qb * c + rb;
            proof {
                lemma_fundamental_div_mod_converse(
                    a * b@,
                    c as int,
                    2 * q0 + extra + bit * qb,
                    r2 as int,
                );
            }
            let doubled = q0.checked_mul(2);
            let with_carry = match doubled {
                Some(d) => d.checked_add(extra),
                None => None,
            };
            let total = match with_carry {
                Some(t) => if bit == 1 {
                    t.checked_add(qb)
                } else {
                    Some(t)
                },
                None => None,
            };
            match total {
                Some(q) => Some((q, r2)),
                None => None,
            }
        },
    }
}

/// `floor(a * b / c)`, computed through a remainder that never leaves `u128`,
/// so the product itself may exceed `u128`. `None` exactly when the quotient
/// does not fit in `u128`.
pub fn mul_div_floor(a: u128, b: u128, c: u128) -> (res: Option<u128>)
    requires
        c > 0,
    ensures
        res is Some <==> mul_div_spec(a as int, b as int, c as int) <= u128::MAX,
        res matches Some(q) ==> q == mul_div_spec(a as int, b as int, c as int),
{
    let qb = b / c;
    let rb = b % c;
    proof {
        lemma_fundamental_div_mod(b as int, c as int);
    }
    match mul_div_rem(a, qb, rb, c, Ghost(b as int)) {
        Some((q, r)) => {
            proof {
                lemma_fundamental_div_mod_converse(a * b, c as int, q as int, r as int);
            }
            Some(q)
        },
        None => None,
    }
}

} // verus!
