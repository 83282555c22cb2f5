//! Exact fixed-point money values.
//!
//! A monetary amount is an integer count of `10^-8` currency units, so every
//! value with at most eight fractional digits is represented exactly and
//! addition never loses precision. Balances are kept on the coarser `10^-4`
//! grid by truncation toward zero.

use vstd::prelude::*;

verus! {

/// Number of `10^-8` units in one whole currency unit.
pub const UNITS_PER_ONE: i128 = 100_000_000;

/// Number of `10^-8` units in one `10^-4` step, the grid balances live on.
pub const TRUNC_UNIT: i128 = 10_000;

/// An exact decimal amount: `units` counts `10^-8` currency units.
#[derive(Clone, Copy, Debug, PartialEq, Eq, Structural)]
pub struct Amount {
    pub units: i128,
}

impl View for Amount {
    type V = int;

    open spec fn view(&self) -> int {
        self.units as int
    }
}

/// Mathematical truncation toward zero onto the `10^-4` grid
/// (multiples of `TRUNC_UNIT` in `10^-8` units).
pub open spec fn trunc4(x: int) -> int {
    if x >= 0 {
        x - (x % (TRUNC_UNIT as int))
    } else {
        x + ((-x) % (TRUNC_UNIT as int))
    }
}

/// Whether a value sits on the `10^-4` grid (is a multiple of `TRUNC_UNIT`).
pub open spec fn grid_aligned(x: int) -> bool {
    x % (TRUNC_UNIT as int) == 0
}

impl Amount {
    /// The zero amount.
    pub fn zero() -> (r: Amount)
        ensures
            r@ == 0,
    {
        Amount { units: 0 }
    }

    /// A whole number of currency units.
    pub fn from_int(v: i64) -> (r: Amount)
        ensures
            r@ == v as int * UNITS_PER_ONE as int,
    {
        Amount { units: (v as i128) * UNITS_PER_ONE }
    }

    /// An amount given as `mantissa * 10^-scale`; `None` when the scale
    /// exceeds the eight fractional digits this representation carries
    /// or the value does not fit.
    pub fn from_scaled(mantissa: i128, scale: u32) -> (r: Option<Amount>)
        ensures
            r is Some ==> scale <= 8 && (r->0)@ == mantissa * pow10((8 - scale) as nat),
            scale <= 8 && i128::MIN <= mantissa * pow10((8 - scale) as nat) <= i128::MAX ==> r is Some,
    {
        if scale > 8 {
            return None;
        }
        let mut factor: i128 = 1;
        let mut k: u32 = 8 - scale;
        proof {
            lemma_pow10_bound((8 - scale) as nat);
        }
        while k > 0
            invariant
                k <= 8 - scale,
                factor == pow10(((8 - scale) - k) as nat),
                factor <= 100_000_000,
            decreases k,
        {
            proof {
                lemma_pow10_bound(((8 - scale) - k + 1) as nat);
            }
            factor = factor * 10;
            k = k - 1;
        }
        match mantissa.checked_mul(factor) {
            Some(u) => Some(Amount { units: u }),
            None => None,
        }
    }
}

/// `10^k` as an integer.
pub open spec fn pow10(k: nat) -> int
    decreases k,
{
    if k == 0 {
        1
    } else {
        10 * pow10((k - 1) as nat)
    }
}

/// `10^k` is positive.
pub proof fn lemma_pow10_pos(k: nat)
    ensures
        pow10(k) >= 1,
    decreases k,
{
    if k > 0 {
        lemma_pow10_pos((k - 1) as nat);
    }
}

/// `10^j <= 10^k` when `j <= k`.
pub proof fn lemma_pow10_mono(j: nat, k: nat)
    requires
        j <= k,
    ensures
        pow10(j) <= pow10(k),
    decreases k,
{
    if j < k {
        lemma_pow10_mono(j, (k - 1) as nat);
        lemma_pow10_pos((k - 1) as nat);
    }
}

/// `10^k` stays small for the scales this module uses.
pub proof fn lemma_pow10_bound(k: nat)
    requires
        k <= 8,
    ensures
        1 <= pow10(k) <= 100_000_000,
{
    lemma_pow10_pos(k);
    lemma_pow10_mono(k, 8);
    assert(pow10(8) == 100_000_000) by {
        reveal_with_fuel(pow10, 9);
    }
}

/// Truncation never increases magnitude and never flips sign: a nonnegative
/// value stays between zero and itself, a negative one between itself and zero.
pub proof fn lemma_trunc4_magnitude(x: int)
    ensures
        x >= 0 ==> 0 <= trunc4(x) <= x,
        x < 0 ==> x <= trunc4(x) <= 0,
{
}

/// Truncation lands on the grid, and grid values are fixed points.
pub proof fn lemma_trunc4_grid(x: int)
    ensures
        grid_aligned(trunc4(x)),
        grid_aligned(x) ==> trunc4(x) == x,
{
    if x >= 0 {
        assert((x - (x % (TRUNC_UNIT as int))) % (TRUNC_UNIT as int) == 0) by {
            vstd::arithmetic::div_mod::lemma_mod_multiples_vanish(
                -(x / (TRUNC_UNIT as int)),
                x,
                TRUNC_UNIT as int,
            );
        }
    } else {
        assert((x + ((-x) % (TRUNC_UNIT as int))) % (TRUNC_UNIT as int) == 0) by {
            vstd::arithmetic::div_mod::lemma_mod_multiples_vanish(
                (-x) / (TRUNC_UNIT as int),
                -x,
                TRUNC_UNIT as int,
            );
        }
    }
}

/// The grid is closed under negation.
pub proof fn lemma_aligned_neg(x: int)
    requires
        grid_aligned(x),
    ensures
        grid_aligned(-x),
{
    vstd::arithmetic::div_mod::lemma_fundamental_div_mod(x, TRUNC_UNIT as int);
    vstd::arithmetic::div_mod::lemma_mod_multiples_vanish(
        -(x / (TRUNC_UNIT as int)),
        0,
        TRUNC_UNIT as int,
    );
}

/// Adding a grid-aligned delta to a grid-aligned value is exact under truncation.
pub proof fn lemma_trunc4_aligned_sum(x: int, y: int)
    requires
        grid_aligned(x),
        grid_aligned(y),
    ensures
        trunc4(x + y) == x + y,
        grid_aligned(x + y),
{
    lemma_trunc4_grid(x);
    lemma_trunc4_grid(y);
    vstd::arithmetic::div_mod::lemma_add_mod_noop(x, y, TRUNC_UNIT as int);
    lemma_trunc4_grid(x + y);
}

} // verus!
