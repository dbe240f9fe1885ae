//! Validation of the already-parsed command inputs, in the order the
//! usage errors are reported: filename extension first, then the
//! category name, then the existence of the base directory (checked by
//! the caller, handed in as a fact).

use vstd::prelude::*;
use vstd::string::StrSliceExecFns;
use crate::FinderError;
use crate::category::{Category, parse_category, spec_parse_category};

verus! {

/// A filename carries the expected text-file extension exactly when its
/// last three characters are `txt`.
pub open spec fn is_txt_name(s: Seq<char>) -> bool {
    &&& s.len() >= 3
    &&& s[s.len() - 3] == 't'
    &&& s[s.len() - 2] == 'x'
    &&& s[s.len() - 1] == 't'
}

/// Whether the filename ends in the expected text-file extension.
pub fn check_filename(name: &String) -> (r: bool)
    ensures
        r == is_txt_name(name@),
{
    let s = name.as_str();
    let n = s.unicode_len();
    if n < 3 {
        return false;
    }
    let c1 = s.get_char(n - 3);
    let c2 = s.get_char(n - 2);
    let c3 = s.get_char(n - 1);
    c1 == 't' && c2 == 'x' && c3 == 't'
}

/// The outcome of validating the inputs: the parsed category, or the
/// first usage error in reporting order.
pub open spec fn spec_check_args(
    filename: Seq<char>,
    category: Seq<char>,
    base_exists: bool,
) -> Result<Category, FinderError> {
    if !is_txt_name(filename) {
        Err(FinderError::InvalidFilename)
    } else {
        match spec_parse_category(category) {
            None => Err(FinderError::InvalidCategory),
            Some(c) => if !base_exists {
                Err(FinderError::MissingBaseDir)
            } else {
                Ok(c)
            },
        }
    }
}

/// Validates the target filename, the category name and the existence of
/// the base directory, reporting the first failure; on success returns
/// the recognized category.
pub fn check_args(filename: &String, category: &String, base_exists: bool) -> (r: Result<
    Category,
    FinderError,
>)
    ensures
        r == spec_check_args(filename@, category@, base_exists),
{
    if !check_filename(filename) {
        return Err(FinderError::InvalidFilename);
    }
    match parse_category(category) {
        None => Err(FinderError::InvalidCategory),
        Some(c) => if !base_exists {
            Err(FinderError::MissingBaseDir)
        } else {
            Ok(c)
        },
    }
}

} // verus!
