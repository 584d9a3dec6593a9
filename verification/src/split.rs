//! Splitting an amount into branches that add up to it exactly.

use crate::errors::OridionError;
use vstd::prelude::*;

verus! {

/// `percent` hundredths of `amount`, rounded down.
pub open spec fn percent_of(amount: int, percent: int) -> int {
    amount * percent / 100
}

/// The two branches of a two-way split.
pub open spec fn split_two_spec(amount: u64, percent: u8) -> (int, int) {
    let first = percent_of(amount as int, percent as int);
    (first, amount - first)
}

/// The three branches of a three-way split: the amount is cut in two by `first_percent`, and
/// the larger side is cut again by `second_percent`.
pub open spec fn split_three_spec(amount: u64, first_percent: u8, second_percent: u8) -> (
    int,
    int,
    int,
) {
    let side_one = percent_of(amount as int, first_percent as int);
    let side_two = amount - side_one;
    if side_one > side_two {
        let one = percent_of(side_one, second_percent as int);
        (one, side_two, side_one - one)
    } else {
        let two = percent_of(side_two, second_percent as int);
        (side_one, two, side_two - two)
    }
}

/// The percentage, from 1 to 50, that a scatter draw stands for.
pub open spec fn scatter_percent_spec(draw: int) -> int {
    draw % 50 + 1
}

/// The three branches of a scatter: the first takes its percentage of the total,
/// the second its percentage of what is then left, the last takes the rest.
pub open spec fn scatter_split_spec(total: u64, first_percent: u8, second_percent: u8) -> (
    int,
    int,
    int,
) {
    let first = percent_of(total as int, first_percent as int);
    let rest = total - first;
    let second = percent_of(rest, second_percent as int);
    (first, second, rest - second)
}

/// A percentage of an amount never exceeds the amount.
pub proof fn lemma_percent_of_bounds(amount: int, percent: int)
    requires
        0 <= amount,
        0 <= percent <= 100,
    ensures
        0 <= percent_of(amount, percent) <= amount,
{
    assert(0 <= amount * percent <= amount * 100) by (nonlinear_arith)
        requires
            0 <= amount,
            0 <= percent <= 100,
    ;
}

/// The branches of every split add up to the amount that was split, and none is
/// negative.
pub proof fn lemma_splits_conserve(amount: u64, first_percent: u8, second_percent: u8)
    requires
        first_percent <= 100,
        second_percent <= 100,
    ensures
        split_two_spec(amount, first_percent).0 + split_two_spec(amount, first_percent).1
            == amount,
        split_two_spec(amount, first_percent).0 >= 0,
        split_two_spec(amount, first_percent).1 >= 0,
        split_three_spec(amount, first_percent, second_percent).0 + split_three_spec(
            amount,
            first_percent,
            second_percent,
        ).1 + split_three_spec(amount, first_percent, second_percent).2 == amount,
        split_three_spec(amount, first_percent, second_percent).0 >= 0,
        split_three_spec(amount, first_percent, second_percent).1 >= 0,
        split_three_spec(amount, first_percent, second_percent).2 >= 0,
        scatter_split_spec(amount, first_percent, second_percent).0 + scatter_split_spec(
            amount,
            first_percent,
            second_percent,
        ).1 + scatter_split_spec(amount, first_percent, second_percent).2 == amount,
        scatter_split_spec(amount, first_percent, second_percent).0 >= 0,
        scatter_split_spec(amount, first_percent, second_percent).1 >= 0,
        scatter_split_spec(amount, first_percent, second_percent).2 >= 0,
{
    lemma_percent_of_bounds(amount as int, first_percent as int);
    let side_one = percent_of(amount as int, first_percent as int);
    lemma_percent_of_bounds(side_one, second_percent as int);
    lemma_percent_of_bounds(amount - side_one, second_percent as int);
}

/// Computes `percent` hundredths of `amount`, rounded down, without overflow.
pub fn take_percent(amount: u64, percent: u8) -> (part: u64)
    requires
        percent <= 100,
    ensures
        part == percent_of(amount as int, percent as int),
        part <= amount,
{
    proof {
        lemma_percent_of_bounds(amount as int, percent as int);
        assert(amount * percent <= 0xffff_ffff_ffff_ffff * 100) by (nonlinear_arith)
            requires
                0 <= amount <= 0xffff_ffff_ffff_ffff,
                0 <= percent <= 100,
        ;
    }
    let wide: u128 = (amount as u128) * (percent as u128);
    (wide / 100) as u64
}

/// Splits `amount` in two by `percent`.
pub fn split_two(amount: u64, percent: u8) -> (parts: (u64, u64))
    requires
        percent <= 100,
    ensures
        parts.0 == split_two_spec(amount, percent).0,
        parts.1 == split_two_spec(amount, percent).1,
        parts.0 + parts.1 == amount,
{
    let first: u64 = take_percent(amount, percent);
    (first, amount - first)
}

/// Splits `amount` in three by `first_percent` and `second_percent`. What rounding
/// loses is given to the first branch, and the total is checked before the branches
/// are handed out; the check never fails.
pub fn split_three(amount: u64, first_percent: u8, second_percent: u8) -> (parts: Result<
    (u64, u64, u64),
    OridionError,
>)
    requires
        first_percent <= 100,
        second_percent <= 100,
    ensures
        parts is Ok,
        parts->Ok_0.0 == split_three_spec(amount, first_percent, second_percent).0,
        parts->Ok_0.1 == split_three_spec(amount, first_percent, second_percent).1,
        parts->Ok_0.2 == split_three_spec(amount, first_percent, second_percent).2,
        parts->Ok_0.0 + parts->Ok_0.1 + parts->Ok_0.2 == amount,
{
    let side_one: u64 = take_percent(amount, first_percent);
    let side_two: u64 = amount - side_one;
    let star_one: u64;
    let star_two: u64;
    let star_three: u64;
    if side_one > side_two {
        let one: u64 = take_percent(side_one, second_percent);
        star_one = one;
        star_two = side_two;
        star_three = side_one - one;
    } else {
        let two: u64 = take_percent(side_two, second_percent);
        star_one = side_one;
        star_two = two;
        star_three = side_two - two;
    }
    let computed: u64 = star_one + star_two + star_three;
    let dust: u64 = amount - computed;
    let star_one: u64 = star_one + dust;
    if star_one + star_two + star_three != amount {
        return Err(OridionError::StarHopCalculationError);
    }
    Ok((star_one, star_two, star_three))
}

/// Maps a draw to the percentage, from 1 to 50, that it stands for.
pub fn scatter_percent(draw: u64) -> (percent: u8)
    ensures
        percent == scatter_percent_spec(draw as int),
        1 <= percent <= 50,
{
    ((draw % 50) + 1) as u8
}

/// Scatters `total` over three branches: the first takes `first_percent` of the
/// total, the second `second_percent` of what is then left, the last the rest.
pub fn scatter_split(total: u64, first_percent: u8, second_percent: u8) -> (parts: [u64; 3])
    requires
        first_percent <= 100,
        second_percent <= 100,
    ensures
        parts[0] == scatter_split_spec(total, first_percent, second_percent).0,
        parts[1] == scatter_split_spec(total, first_percent, second_percent).1,
        parts[2] == scatter_split_spec(total, first_percent, second_percent).2,
        parts[0] + parts[1] + parts[2] == total,
{
    let first: u64 = take_percent(total, first_percent);
    let rest: u64 = total - first;
    let second: u64 = take_percent(rest, second_percent);
    let last: u64 = rest - second;
    [first, second, last]
}

} // verus!
