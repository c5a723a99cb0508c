use vstd::prelude::*;

verus! {

/// Number of price units in one cent: prices are held as whole
/// ten-thousandths of the currency unit.
pub const UNITS_PER_CENT: i64 = 100;

/// A price in fixed point, `units` ten-thousandths of the currency unit.
#[derive(Clone, Copy, PartialEq, Eq, Structural, Debug)]
pub struct Price {
    pub units: i64,
}

/// The integer nearest to `n / d`, halves rounded away from zero.
pub open spec fn round_half_away(n: int, d: int) -> int
    recommends
        d > 0,
{
    if n >= 0 {
        (2 * n + d) / (2 * d)
    } else {
        -((-2 * n + d) / (2 * d))
    }
}

/// The value `thirds / 3` price units, rounded to whole cents, in price units.
pub open spec fn cents_of_thirds(thirds: int) -> int {
    round_half_away(thirds, 3 * UNITS_PER_CENT) * UNITS_PER_CENT
}

/// A price rounded to whole cents, in price units.
pub open spec fn round_to_cents(units: int) -> int {
    cents_of_thirds(3 * units)
}

proof fn lemma_round_half_away_monotone(n: int, m: int)
    requires
        n <= m,
    ensures
        round_half_away(n, 300) <= round_half_away(m, 300),
{
    if n >= 0 {
        vstd::arithmetic::div_mod::lemma_div_is_ordered(2 * n + 300, 2 * m + 300, 600);
    } else if m < 0 {
        vstd::arithmetic::div_mod::lemma_div_is_ordered(-2 * m + 300, -2 * n + 300, 600);
    } else {
        vstd::arithmetic::div_mod::lemma_div_is_ordered(0, -2 * n + 300, 600);
        vstd::arithmetic::div_mod::lemma_div_is_ordered(0, 2 * m + 300, 600);
    }
}

/// Rounding to cents is monotone.
pub proof fn lemma_cents_of_thirds_monotone(n: int, m: int)
    requires
        n <= m,
    ensures
        cents_of_thirds(n) <= cents_of_thirds(m),
{
    lemma_round_half_away_monotone(n, m);
}

/// Rounding moves a value by at most half a cent.
pub proof fn lemma_cents_of_thirds_close(n: int)
    ensures
        3 * cents_of_thirds(n) - 150 <= n,
        n <= 3 * cents_of_thirds(n) + 150,
{
    if n >= 0 {
        vstd::arithmetic::div_mod::lemma_fundamental_div_mod(2 * n + 300, 600);
    } else {
        vstd::arithmetic::div_mod::lemma_fundamental_div_mod(-2 * n + 300, 600);
    }
}

/// Rounds `thirds / 3` price units to whole cents; the result is in price
/// units. Any value between two `i64` prices rounds to an `i64` price.
pub fn round_thirds_to_cents(thirds: i128) -> (r: i64)
    requires
        3 * (i64::MIN as int) <= thirds <= 3 * (i64::MAX as int),
    ensures
        r == cents_of_thirds(thirds as int),
{
    let cents: i128 = if thirds >= 0 {
        (2 * thirds + 300) / 600
    } else {
        -((-2 * thirds + 300) / 600)
    };
    proof {
        if thirds >= 0 {
            vstd::arithmetic::div_mod::lemma_div_is_ordered(
                2 * thirds + 300,
                6 * (i64::MAX as int) + 300,
                600,
            );
        } else {
            vstd::arithmetic::div_mod::lemma_div_is_ordered(
                -2 * thirds + 300,
                -6 * (i64::MIN as int) + 300,
                600,
            );
        }
    }
    (cents * 100) as i64
}

} // verus!
