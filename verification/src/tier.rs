//! Classification of a difference percentage into one of four tiers.
//!
//! The bands are one-sided: tier 1 up to mean minus one standard
//! deviation, tier 2 up to the mean, tier 3 up to mean plus one standard
//! deviation, tier 4 above that. All boundaries are inclusive and every
//! comparison is exact: the percentage is the rational
//! `100 * unique_to_first / total` and the band edges are integers in
//! thousandths of a percent.

use vstd::prelude::*;
use crate::category::{Category, mean_milli, std_dev_milli};
use crate::diff::DiffResult;

verus! {

/// Whether the difference percentage is at most `t` thousandths of a
/// percent: `100 * unique_to_first / total <= t / 1000`, cleared of
/// denominators. For a well-formed zero-total result the numerator is
/// zero as well, so the comparison treats it as a zero percentage.
pub open spec fn percent_at_most_milli(d: DiffResult, t: int) -> bool {
    d.unique_to_first * 100000 <= t * d.total
}

/// The tier a difference percentage falls into for a category's bands.
pub open spec fn tier_of(c: Category, d: DiffResult) -> u64 {
    if percent_at_most_milli(d, mean_milli(c) - std_dev_milli(c)) {
        1
    } else if percent_at_most_milli(d, mean_milli(c) as int) {
        2
    } else if percent_at_most_milli(d, mean_milli(c) + std_dev_milli(c)) {
        3
    } else {
        4
    }
}

fn percent_le_milli(d: &DiffResult, t: u64) -> (r: bool)
    ensures
        r == percent_at_most_milli(*d, t as int),
{
    proof {
        let tt = t as int;
        let dd = d.total as int;
        assert(tt * dd < 0x100000000000000000000000000000000) by (nonlinear_arith)
            requires
                0 <= tt < 0x10000000000000000,
                0 <= dd < 0x10000000000000000,
        ;
    }
    (d.unique_to_first as u128) * 100000 <= (t as u128) * (d.total as u128)
}

/// Looks up the category's fixed profile and classifies the difference:
/// returns the category's mean (in thousandths of a percent) together
/// with the tier, always one of 1 through 4.
pub fn calculate_avg_info(category: Category, diff: &DiffResult) -> (r: (u64, u64))
    ensures
        r.0 == mean_milli(category),
        r.1 == tier_of(category, *diff),
        1 <= r.1 <= 4,
{
    let avg: u64;
    let std_dev: u64;
    match category {
        Category::Fundamentals => {
            avg = 32114;
            std_dev = 9831;
        },
        Category::UsageExamples => {
            avg = 31697;
            std_dev = 10425;
        },
        Category::Other => {
            avg = 27630;
            std_dev = 10844;
        },
    }
    let tier: u64 = if percent_le_milli(diff, avg - std_dev) {
        1
    } else if percent_le_milli(diff, avg) {
        2
    } else if percent_le_milli(diff, avg + std_dev) {
        3
    } else {
        4
    };
    (avg, tier)
}

/// The fixed description attached to each tier; every value outside
/// 1 through 3 falls to the highest tier's text, as the classifier
/// never produces one.
pub open spec fn spec_tier_description(tier: u64) -> Seq<char> {
    if tier == 1 {
        "less text than average"@
    } else if tier == 2 {
        "an average, or slightly below average, amount of text"@
    } else if tier == 3 {
        "an average, or slightly above average, amount of text"@
    } else {
        "more text than average"@
    }
}

/// The human-readable description of a tier.
pub fn get_tier_description(tier: u64) -> (r: String)
    ensures
        r@ == spec_tier_description(tier),
{
    match tier {
        1 => "less text than average".to_owned(),
        2 => "an average, or slightly below average, amount of text".to_owned(),
        3 => "an average, or slightly above average, amount of text".to_owned(),
        _ => "more text than average".to_owned(),
    }
}

} // verus!
