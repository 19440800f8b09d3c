use vstd::arithmetic::div_mod::{lemma_fundamental_div_mod, lemma_fundamental_div_mod_converse};
use vstd::prelude::*;

verus! {

/// A cell of the grid: column `x`, row `y`.
#[derive(Clone, Copy, Debug, PartialEq, Eq, Structural)]
pub struct Point {
    pub x: i32,
    pub y: i32,
}

/// True modulo: for a positive `m`, the representative of `x` in `[0, m)`.
pub open spec fn wrap(x: int, m: int) -> int {
    x % m
}

/// `p` lies on a grid of `w` columns and `h` rows.
pub open spec fn in_grid(p: Point, w: int, h: int) -> bool {
    &&& 0 <= p.x < w
    &&& 0 <= p.y < h
}

/// Whatever the integer, its wrapped value lies in `[0, m)`.
pub proof fn lemma_wrap_in_range(x: int, m: int)
    requires
        m > 0,
    ensures
        0 <= wrap(x, m) < m,
{
}

/// Reduces `x` modulo `m` into `[0, m)`, also for a negative `x`.
pub fn modulo(x: i32, m: i32) -> (r: i32)
    requires
        m > 0,
    ensures
        r == wrap(x as int, m as int),
        0 <= r < m,
{
    if x >= 0 {
        x % m
    } else {
        // x == -(a + 1) with a >= 0, and -(a + 1) mod m == m - 1 - (a mod m)
        let a = -(x + 1);
        let k = a % m;
        proof {
            let q = a as int / m as int;
            lemma_fundamental_div_mod(a as int, m as int);
            assert(k == a as int % m as int);
            assert((-q - 1) * m == -(m * q) - m) by (nonlinear_arith);
            lemma_fundamental_div_mod_converse(
                x as int,
                m as int,
                -(a as int / m as int) - 1,
                m - 1 - k,
            );
        }
        m - 1 - k
    }
}

} // verus!
