//! Arithmetic on ring positions.
//!
//! A descriptor-table cursor wraps modulo the ring size, while the index
//! fields of the Available and Used Rings are free-running 16-bit counters
//! that wrap modulo 2^16.  Because the ring size divides 2^16, reducing a
//! free-running counter modulo the ring size is insensitive to 16-bit
//! wraparound; the lemmas here make both kinds of wrapping usable in proofs.

use vstd::arithmetic::div_mod::{
    lemma_add_mod_noop, lemma_add_mod_noop_right, lemma_fundamental_div_mod,
    lemma_mod_add_multiples_vanish, lemma_mod_bound, lemma_mod_mod, lemma_small_mod,
};
use vstd::prelude::*;

verus! {

/// Position `a` advanced by `b` on a ring of `n` slots.
pub open spec fn add_mod(a: int, b: int, n: int) -> int {
    (a + b) % n
}

/// A free-running 16-bit counter holding `a`.
pub open spec fn wrap16(a: int) -> int {
    a % 0x1_0000
}

/// How far the 16-bit counter `b` is ahead of the 16-bit counter `a`.
pub open spec fn dist16(a: int, b: int) -> int {
    (b - a) % 0x1_0000
}

/// A ring position is always within the ring.
pub proof fn lemma_add_mod_bound(a: int, b: int, n: int)
    requires
        0 < n,
    ensures
        0 <= add_mod(a, b, n) < n,
{
    lemma_mod_bound(a + b, n);
}

/// Advancing a position already within the ring by at most one full turn
/// lands either before or after the wrap, with no third case.
pub proof fn lemma_add_mod_eval(a: int, b: int, n: int)
    requires
        0 < n,
        0 <= a < n,
        0 <= b <= n,
    ensures
        add_mod(a, b, n) == if a + b < n {
            a + b
        } else {
            a + b - n
        },
{
    if a + b < n {
        lemma_small_mod((a + b) as nat, n as nat);
    } else {
        lemma_mod_add_multiples_vanish(a + b - n, n);
        lemma_small_mod((a + b - n) as nat, n as nat);
    }
}

/// Advancing twice is advancing by the sum.
pub proof fn lemma_add_mod_assoc(a: int, b: int, c: int, n: int)
    requires
        0 < n,
    ensures
        add_mod(add_mod(a, b, n), c, n) == add_mod(a, b + c, n),
{
    lemma_add_mod_noop_right(c, a + b, n);
}

/// Within one turn of the ring, distinct advances from one position reach
/// distinct slots.
pub proof fn lemma_add_mod_inj(a: int, x: int, y: int, n: int)
    requires
        0 < n,
        0 <= a,
        0 <= x < n,
        0 <= y < n,
        add_mod(a, x, n) == add_mod(a, y, n),
    ensures
        x == y,
{
    lemma_mod_bound(a, n);
    lemma_add_mod_noop_right(x, a, n);
    lemma_add_mod_noop_right(y, a, n);
    let c = a % n;
    assert(add_mod(a, x, n) == (c + x) % n);
    assert(add_mod(a, y, n) == (c + y) % n);
    lemma_add_mod_eval(c, x, n);
    lemma_add_mod_eval(c, y, n);
}

/// Reducing a free-running 16-bit counter modulo a ring size that divides
/// 2^16 ignores the 16-bit wraparound.
pub proof fn lemma_wrap16_mod(x: int, n: int)
    requires
        0 < n,
        0x1_0000int % n == 0,
    ensures
        wrap16(x) % n == x % n,
{
    let q = 0x1_0000int / n;
    lemma_fundamental_div_mod(0x1_0000, n);
    assert(0x1_0000 == n * q);
    lemma_mod_mod(x, n, q);
}

/// A 16-bit counter is zero slots ahead of itself.
pub proof fn lemma_dist16_zero(a: int)
    ensures
        dist16(a, a) == 0,
{
    lemma_small_mod(0, 0x1_0000nat);
}

/// The distance between two in-range 16-bit counters, without the modulo.
pub proof fn lemma_dist16_eval(a: int, b: int)
    requires
        0 <= a < 0x1_0000,
        0 <= b < 0x1_0000,
    ensures
        dist16(a, b) == if b >= a {
            b - a
        } else {
            b - a + 0x1_0000
        },
{
    if b >= a {
        lemma_small_mod((b - a) as nat, 0x1_0000nat);
    } else {
        lemma_mod_add_multiples_vanish(b - a, 0x1_0000);
        lemma_small_mod((b - a + 0x1_0000) as nat, 0x1_0000nat);
    }
}

/// Equal 16-bit counters are exactly those at distance zero.
pub proof fn lemma_dist16_zero_iff_eq(a: int, b: int)
    requires
        0 <= a < 0x1_0000,
        0 <= b < 0x1_0000,
    ensures
        dist16(a, b) == 0 <==> a == b,
{
    lemma_dist16_eval(a, b);
}

/// Posting one more completion moves the far counter one further ahead.
pub proof fn lemma_dist16_step_hi(a: int, b: int)
    requires
        0 <= a < 0x1_0000,
        0 <= b < 0x1_0000,
        dist16(a, b) < 0xffff,
    ensures
        dist16(a, wrap16(b + 1)) == dist16(a, b) + 1,
{
    lemma_dist16_eval(a, b);
    if b + 1 < 0x1_0000 {
        lemma_small_mod((b + 1) as nat, 0x1_0000nat);
        lemma_dist16_eval(a, b + 1);
    } else {
        lemma_mod_add_multiples_vanish(0, 0x1_0000);
        lemma_small_mod(0, 0x1_0000nat);
        assert(wrap16(b + 1) == 0);
        lemma_dist16_eval(a, 0);
    }
}

/// Consuming one completion moves the near counter one closer.
pub proof fn lemma_dist16_step_lo(a: int, b: int)
    requires
        0 <= a < 0x1_0000,
        0 <= b < 0x1_0000,
        dist16(a, b) > 0,
    ensures
        dist16(wrap16(a + 1), b) == dist16(a, b) - 1,
{
    lemma_dist16_eval(a, b);
    if a + 1 < 0x1_0000 {
        lemma_small_mod((a + 1) as nat, 0x1_0000nat);
        lemma_dist16_eval(a + 1, b);
    } else {
        lemma_mod_add_multiples_vanish(0, 0x1_0000);
        lemma_small_mod(0, 0x1_0000nat);
        assert(wrap16(a + 1) == 0);
        lemma_dist16_eval(0, b);
    }
}

/// Advancing a 16-bit counter by its distance to another reaches that other
/// counter.
pub proof fn lemma_dist16_recover(a: int, b: int)
    requires
        0 <= a < 0x1_0000,
        0 <= b < 0x1_0000,
    ensures
        wrap16(a + dist16(a, b)) == b,
{
    lemma_add_mod_noop_right(a, b - a, 0x1_0000);
    lemma_small_mod(b as nat, 0x1_0000nat);
}

/// On a ring whose size divides 2^16, a position computed from a reduced
/// 16-bit counter is the position computed from the raw counter.
pub proof fn lemma_add_mod_wrap16_left(a: int, b: int, n: int)
    requires
        0 < n,
        0x1_0000int % n == 0,
    ensures
        add_mod(wrap16(a), b, n) == add_mod(a, b, n),
{
    lemma_add_mod_noop(wrap16(a), b, n);
    lemma_add_mod_noop(a, b, n);
    lemma_wrap16_mod(a, n);
}

/// A 16-bit counter bumped once from an in-range value either keeps the sum
/// or wraps to zero.
pub proof fn lemma_wrap16_eval(x: int)
    requires
        0 <= x <= 0x1_0000,
    ensures
        wrap16(x) == if x < 0x1_0000 {
            x
        } else {
            0
        },
{
    if x < 0x1_0000 {
        lemma_small_mod(x as nat, 0x1_0000nat);
    } else {
        lemma_mod_add_multiples_vanish(0, 0x1_0000);
        lemma_small_mod(0, 0x1_0000nat);
    }
}

/// A free-running counter already advanced may be advanced again as if the
/// first reduction had not happened.
pub proof fn lemma_wrap16_chain(a: int, b: int)
    ensures
        wrap16(wrap16(a) + b) == wrap16(a + b),
{
    lemma_add_mod_noop_right(b, a, 0x1_0000);
}

} // verus!
