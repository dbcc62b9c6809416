use vstd::prelude::*;

verus! {

/// The bit mixing applied to a seed before it is reduced to a range.
pub open spec fn mix(seed: usize) -> usize {
    seed ^ ((seed >> 3usize) ^ (seed << 7usize))
}

/// The value `rand::<limit>(seed)` yields.
pub open spec fn rand_spec(seed: usize, limit: usize) -> usize
    recommends
        limit > 0,
{
    (mix(seed) % limit) as usize
}

/// Relies on num::Integer::mod_floor for `usize`: on unsigned integers the
/// floored remainder is the ordinary remainder, which panics on a zero
/// modulus.
#[verifier::external_body]
fn mod_floor(a: usize, m: usize) -> (r: usize)
    requires
        m > 0,
    ensures
        r == a % m,
{
    num::Integer::mod_floor(&a, &m)
}

/// Deterministic pseudo-random value in `[0, LIMIT)` derived from `seed`.
pub fn rand<const LIMIT: usize>(seed: usize) -> (r: usize)
    requires
        LIMIT > 0,
    ensures
        r == rand_spec(seed, LIMIT),
        r < LIMIT,
{
    let r: usize = seed ^ ((seed >> 3usize) ^ (seed << 7usize));
    mod_floor(r, LIMIT)
}

/// `safe_add::<LIMIT>(a, b)`: the sum of `a` and `b`, wrapped into `[0, LIMIT)`,
/// for any two values, however large.
pub fn safe_add<const LIMIT: usize>(a: usize, b: usize) -> (r: usize)
    requires
        LIMIT > 0,
    ensures
        r == (a + b) % (LIMIT as int),
        r < LIMIT,
{
    let x = mod_floor(a, LIMIT);
    let y = mod_floor(b, LIMIT);
    proof {
        vstd::arithmetic::div_mod::lemma_add_mod_noop(a as int, b as int, LIMIT as int);
    }
    if x >= LIMIT - y {
        proof {
            vstd::arithmetic::div_mod::lemma_mod_sub_multiples_vanish(x + y, LIMIT as int);
            vstd::arithmetic::div_mod::lemma_small_mod((x + y - LIMIT) as nat, LIMIT as nat);
        }
        x - (LIMIT - y)
    } else {
        proof {
            vstd::arithmetic::div_mod::lemma_small_mod((x + y) as nat, LIMIT as nat);
        }
        x + y
    }
}

/// One step forward on a ring of `LIMIT` positions.
pub fn add1<const LIMIT: usize>(value: usize) -> (r: usize)
    requires
        LIMIT > 0,
    ensures
        r == (value + 1) % (LIMIT as int),
        r < LIMIT,
        value + 1 == LIMIT ==> r == 0,
        value + 1 < LIMIT ==> r == value + 1,
{
    proof {
        if value + 1 == LIMIT {
            vstd::arithmetic::div_mod::lemma_mod_self_0(LIMIT as int);
        } else if value + 1 < LIMIT {
            vstd::arithmetic::div_mod::lemma_small_mod((value + 1) as nat, LIMIT as nat);
        }
    }
    safe_add::<LIMIT>(value, 1)
}

/// One step backward on a ring of `LIMIT` positions.
pub fn sub1<const LIMIT: usize>(value: usize) -> (r: usize)
    requires
        LIMIT > 0,
    ensures
        r == (value + LIMIT - 1) % (LIMIT as int),
        r < LIMIT,
        value == 0 ==> r == LIMIT - 1,
        0 < value <= LIMIT ==> r == value - 1,
{
    proof {
        if value == 0 {
            vstd::arithmetic::div_mod::lemma_small_mod((LIMIT - 1) as nat, LIMIT as nat);
        }
        if 0 < value <= LIMIT {
            assert((value + LIMIT - 1) % (LIMIT as int) == value - 1) by (nonlinear_arith)
                requires
                    0 < value <= LIMIT,
            {
                vstd::arithmetic::div_mod::lemma_mod_add_multiples_vanish((value - 1) as int, LIMIT as int);
            }
        }
    }
    safe_add::<LIMIT>(value, LIMIT - 1)
}

/// A seed is "reserved" for a palette when its color draw would give one of
/// the two colors that carry meaning on the screen.
pub open spec fn reserved_color(c: usize) -> bool {
    c == 0 || c == 13
}

/// Among three consecutive seeds at least one draws a color that is not
/// reserved, so a redraw loop that steps its seed by one ends within three
/// draws.
pub proof fn lemma_redraw_ends(s: usize)
    requires
        s + 2 <= usize::MAX,
    ensures
        !(reserved_color(rand_spec(s, 16)) && reserved_color(rand_spec((s + 1) as usize, 16))
            && reserved_color(rand_spec((s + 2) as usize, 16))),
{
    let t = (s + 1) as usize;
    let u = (s + 2) as usize;
    assert(!({
        let a = (s ^ ((s >> 3usize) ^ (s << 7usize))) % 16;
        let b = (t ^ ((t >> 3usize) ^ (t << 7usize))) % 16;
        let c = (u ^ ((u >> 3usize) ^ (u << 7usize))) % 16;
        (a == 0 || a == 13) && (b == 0 || b == 13) && (c == 0 || c == 13)
    })) by (bit_vector)
        requires
            t == (s + 1) as usize,
            u == (s + 2) as usize,
    ;
}

} // verus!

