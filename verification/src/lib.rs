//! Reference-file selection and similarity scoring for sibling
//! documentation repositories.
//!
//! Given a target filename, a documentation category and a set of candidate
//! files gathered from sibling repositories, the library picks the two most
//! recently created candidates, resolves which of the two is the
//! authoritative reference, computes a line-set difference percentage
//! between them, and classifies that percentage into one of four tiers
//! using fixed per-category statistical bands.
//!
//! All percentages and statistical constants are exact rationals: a
//! difference is kept as a numerator/denominator pair and the per-category
//! means and standard deviations are stored in thousandths of a percent,
//! so every comparison in the classifier is exact integer arithmetic.

pub mod category;
pub mod diff;
pub mod locate;
pub mod report;
pub mod select;
pub mod tier;
pub mod validate;

use vstd::prelude::*;

verus! {

/// The kinds of failure the pipeline reports to the user.
///
/// The first three are usage errors, detected before any scan, in this
/// order; finding fewer than two candidates is a terminal but expected
/// condition, distinct from a crash. Environment failures (unreadable
/// metadata or file contents) abort the run at the I/O layer and never
/// reach these values.
#[derive(Clone, Copy, Debug, PartialEq, Eq, Structural)]
pub enum FinderError {
    InvalidFilename,
    InvalidCategory,
    MissingBaseDir,
    InsufficientData,
}

} // verus!
