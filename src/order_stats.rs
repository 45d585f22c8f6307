use vstd::prelude::*;

verus! {

/// Sorted positions whose values make up the median of `n` values: the
/// middle one twice when `n` is odd, the two middle ones when `n` is even.
pub open spec fn median_positions_spec(n: nat) -> (int, int) {
    if n % 2 == 0 {
        ((n / 2) as int - 1, (n / 2) as int)
    } else {
        ((n / 2) as int, (n / 2) as int)
    }
}

/// Returns the positions, in the sorted order of `n` values, of the values
/// whose mean is the median. Both are the same position when `n` is odd.
pub fn median_positions(n: usize) -> (r: (usize, usize))
    requires
        n > 0,
    ensures
        (r.0 as int, r.1 as int) == median_positions_spec(n as nat),
        r.0 <= r.1 < n,
        r.0 + r.1 == n - 1,
{
    if n % 2 == 0 {
        (n / 2 - 1, n / 2)
    } else {
        (n / 2, n / 2)
    }
}

/// Sorted positions between which the quantile of `n` values is
/// interpolated, given the whole part `i` of its rank: the last position
/// twice once `i` reaches it, else `i` and the position after it.
pub open spec fn quantile_bracket_spec(n: nat, i: nat) -> (int, int) {
    if i + 1 >= n {
        (n as int - 1, n as int - 1)
    } else {
        (i as int, i as int + 1)
    }
}

/// Returns the positions, in the sorted order of `n` values, between which
/// the quantile is interpolated when the whole part of its rank is `i`.
/// At or past the last position both are the last position, so that the
/// maximum comes back exactly.
pub fn quantile_bracket(n: usize, i: usize) -> (r: (usize, usize))
    requires
        n > 0,
    ensures
        (r.0 as int, r.1 as int) == quantile_bracket_spec(n as nat, i as nat),
        r.0 <= r.1 < n,
        r.1 <= r.0 + 1,
{
    if i >= n - 1 {
        (n - 1, n - 1)
    } else {
        (i, i + 1)
    }
}

/// The quantile of rank zero is read at the first sorted position alone:
/// it is the minimum.
pub proof fn lemma_quantile_low_end_is_first(n: nat)
    requires
        n > 0,
    ensures
        quantile_bracket_spec(n, 0).0 == 0,
{
}

/// The quantile whose rank is the last position is read there alone: it is
/// the maximum, whatever the values are.
pub proof fn lemma_quantile_high_end_is_last(n: nat)
    requires
        n > 0,
    ensures
        quantile_bracket_spec(n, (n - 1) as nat) == (n as int - 1, n as int - 1),
{
}

/// The quantile at one half has rank `(n - 1) / 2`. Its whole part is the
/// median's first position. When `n` is even the rank has fractional part
/// one half and brackets exactly the median's two positions; when `n` is
/// odd the rank is whole and lands on the median's single position.
pub proof fn lemma_quantile_half_matches_median(n: nat)
    requires
        n > 0,
    ensures
        quantile_bracket_spec(n, ((n - 1) / 2) as nat).0 == median_positions_spec(n).0,
        n % 2 == 0 ==> (n - 1) % 2 == 1 && quantile_bracket_spec(n, ((n - 1) / 2) as nat)
            == median_positions_spec(n),
        n % 2 == 1 ==> (n - 1) % 2 == 0 && median_positions_spec(n).0 == median_positions_spec(
            n,
        ).1 && median_positions_spec(n).0 == (n - 1) / 2,
{
}

} // verus!
