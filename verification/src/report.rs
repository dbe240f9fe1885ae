//! The end of the pipeline: once the reference and its comparison
//! baseline have been read as line sequences, one call computes the
//! difference, classifies it for the category, and attaches the tier's
//! description — everything the presentation layer displays.

use vstd::prelude::*;
use crate::category::{Category, mean_milli};
use crate::diff::{DiffResult, blended_total, calculate_percent_diff, unique_count};
use crate::tier::{calculate_avg_info, get_tier_description, spec_tier_description, tier_of};

verus! {

/// What a successful run reports: the exact difference, the category's
/// mean in thousandths of a percent, the tier, and the tier's
/// description.
pub struct Report {
    pub diff: DiffResult,
    pub mean_milli: u64,
    pub tier: u64,
    pub description: String,
}

/// Computes the difference between the selected pair's line sequences
/// and classifies it with the category's profile.
pub fn evaluate(category: Category, first_lines: &Vec<String>, second_lines: &Vec<String>) -> (r:
    Report)
    requires
        first_lines@.len() + second_lines@.len() / 2 <= usize::MAX,
    ensures
        r.diff.unique_to_first == unique_count(first_lines.deep_view(), second_lines.deep_view()),
        r.diff.total == blended_total(first_lines.deep_view(), second_lines.deep_view()),
        r.diff.wf(),
        r.mean_milli == mean_milli(category),
        r.tier == tier_of(category, r.diff),
        1 <= r.tier <= 4,
        r.description@ == spec_tier_description(r.tier),
{
    let diff = calculate_percent_diff(first_lines, second_lines);
    let (avg, tier) = calculate_avg_info(category, &diff);
    let description = get_tier_description(tier);
    Report { diff, mean_milli: avg, tier, description }
}

} // verus!
