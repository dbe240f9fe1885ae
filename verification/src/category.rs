//! Documentation categories and their fixed statistical profiles.
//!
//! Each category carries a mean difference percentage and a standard
//! deviation, stored in thousandths of a percent so that the tier
//! classifier can compare exactly, without rounding.

use vstd::prelude::*;

verus! {

/// A coarse documentation-content classification. Two named categories
/// plus a catch-all; the catch-all selects the default profile and the
/// bare `source` subdirectory.
#[derive(Clone, Copy, Debug, PartialEq, Eq, Structural)]
pub enum Category {
    Fundamentals,
    UsageExamples,
    Other,
}

/// Mean difference percentage of a category, in thousandths of a percent.
pub open spec fn mean_milli(c: Category) -> u64 {
    match c {
        Category::Fundamentals => 32114,
        Category::UsageExamples => 31697,
        Category::Other => 27630,
    }
}

/// Standard deviation of a category, in thousandths of a percent.
pub open spec fn std_dev_milli(c: Category) -> u64 {
    match c {
        Category::Fundamentals => 9831,
        Category::UsageExamples => 10425,
        Category::Other => 10844,
    }
}

/// The category named by the given string, if any.
pub open spec fn spec_parse_category(s: Seq<char>) -> Option<Category> {
    if s == "fundamentals"@ {
        Some(Category::Fundamentals)
    } else if s == "usage-examples"@ {
        Some(Category::UsageExamples)
    } else if s == "other"@ {
        Some(Category::Other)
    } else {
        None
    }
}

/// Recognizes the three category names; any other string is rejected.
pub fn parse_category(s: &String) -> (r: Option<Category>)
    ensures
        r == spec_parse_category(s@),
{
    let fundamentals: String = "fundamentals".to_owned();
    let usage_examples: String = "usage-examples".to_owned();
    let other: String = "other".to_owned();
    if *s == fundamentals {
        Some(Category::Fundamentals)
    } else if *s == usage_examples {
        Some(Category::UsageExamples)
    } else if *s == other {
        Some(Category::Other)
    } else {
        None
    }
}

/// The repository subdirectory searched for a category: a category-scoped
/// tree for the named categories, the bare source tree for the catch-all.
pub open spec fn spec_sub_dir(c: Category) -> Seq<char> {
    match c {
        Category::Fundamentals => "/source/fundamentals"@,
        Category::UsageExamples => "/source/usage-examples"@,
        Category::Other => "/source"@,
    }
}

/// The subdirectory component of the search pattern for a category.
pub fn sub_dir_for(c: Category) -> (r: String)
    ensures
        r@ == spec_sub_dir(c),
{
    match c {
        Category::Fundamentals => "/source/fundamentals".to_owned(),
        Category::UsageExamples => "/source/usage-examples".to_owned(),
        Category::Other => "/source".to_owned(),
    }
}

} // verus!
