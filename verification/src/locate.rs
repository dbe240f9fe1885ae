//! Locating candidate files across the sibling repositories.
//!
//! The locator expands a base directory, one sibling-repository
//! identifier and a category subdirectory into a recursive search
//! pattern, and keeps, of the paths such a scan yields, exactly those
//! whose basename equals the target filename. The scan itself is a
//! read-only filesystem traversal performed by the caller; everything
//! that decides which paths count as candidates lives here.

use vstd::prelude::*;
use vstd::string::StrSliceExecFns;
use vstd::string::StringExecFns;

verus! {

/// The basename of a path: the characters after the last separator,
/// empty when the path ends with one.
pub open spec fn basename(p: Seq<char>) -> Seq<char>
    decreases p.len(),
{
    if p.len() == 0 {
        p
    } else if p.last() == '/' {
        Seq::empty()
    } else {
        basename(p.drop_last()).push(p.last())
    }
}

proof fn lemma_basename_is_suffix(p: Seq<char>, k: int)
    requires
        0 <= k <= p.len(),
        forall|j: int| k <= j < p.len() ==> p[j] != '/',
        k > 0 ==> p[k - 1] == '/',
    ensures
        basename(p) == p.subrange(k, p.len() as int),
    decreases p.len(),
{
    if k == p.len() {
        if p.len() == 0 {
            assert(p.subrange(0, 0) =~= p);
        } else {
            assert(p.last() == '/');
            assert(p.subrange(k, p.len() as int) =~= Seq::<char>::empty());
        }
    } else {
        assert(p[p.len() - 1] != '/');
        let q = p.drop_last();
        lemma_basename_is_suffix(q, k);
        assert(p.subrange(k, p.len() as int) =~= q.subrange(k, q.len() as int).push(p.last()));
    }
}

/// The basename of a path string.
pub fn file_name(path: &String) -> (r: String)
    ensures
        r@ == basename(path@),
{
    let s = path.as_str();
    let n = s.unicode_len();
    let mut k: usize = n;
    while k > 0
        invariant
            k <= n,
            n == path@.len(),
            s@ == path@,
            forall|j: int| k <= j < path@.len() ==> path@[j] != '/',
        ensures
            k <= n,
            forall|j: int| k <= j < path@.len() ==> path@[j] != '/',
            k > 0 ==> path@[k - 1] == '/',
        decreases k,
    {
        if s.get_char(k - 1) == '/' {
            break ;
        }
        k -= 1;
    }
    proof {
        lemma_basename_is_suffix(path@, k as int);
    }
    s.substring_char(k, n).to_owned()
}

/// The fixed list of sibling-repository identifiers searched for
/// candidates, in their fixed enumeration order.
pub open spec fn spec_default_drivers() -> Seq<Seq<char>> {
    seq![
        "/docs-kotlin"@,
        "/docs-golang"@,
        "/docs-node"@,
        "/docs-java"@,
        "/docs-csharp"@,
        "/docs-rust"@,
    ]
}

/// The sibling-repository identifiers, as an owned list the caller can
/// iterate over.
pub fn default_drivers() -> (r: Vec<String>)
    ensures
        r.deep_view() == spec_default_drivers(),
{
    let mut drivers: Vec<String> = Vec::new();
    drivers.push("/docs-kotlin".to_owned());
    drivers.push("/docs-golang".to_owned());
    drivers.push("/docs-node".to_owned());
    drivers.push("/docs-java".to_owned());
    drivers.push("/docs-csharp".to_owned());
    drivers.push("/docs-rust".to_owned());
    proof {
        assert(drivers.deep_view() =~= spec_default_drivers());
    }
    drivers
}

/// The recursive glob pattern for text files of one sibling repository
/// under the category's subdirectory.
pub fn search_pattern(base_dir: &String, driver: &String, sub_dir: &String) -> (r: String)
    ensures
        r@ == base_dir@ + driver@ + sub_dir@ + "/**/*.txt"@,
{
    let mut pattern = base_dir.clone();
    pattern.append(driver.as_str());
    pattern.append(sub_dir.as_str());
    pattern.append("/**/*.txt");
    pattern
}

/// The subsequence of `paths` whose basename equals `target`, in
/// discovery order.
pub open spec fn matching_paths(paths: Seq<Seq<char>>, target: Seq<char>) -> Seq<Seq<char>>
    decreases paths.len(),
{
    if paths.len() == 0 {
        Seq::empty()
    } else {
        let rest = matching_paths(paths.drop_last(), target);
        if basename(paths.last()) == target {
            rest.push(paths.last())
        } else {
            rest
        }
    }
}

/// Keeps, in discovery order, the paths whose basename equals the target
/// filename.
pub fn get_name_matches(paths: &Vec<String>, target: &String) -> (r: Vec<String>)
    ensures
        r.deep_view() == matching_paths(paths.deep_view(), target@),
{
    let ghost all = paths.deep_view();
    let mut matches: Vec<String> = Vec::new();
    let mut i: usize = 0;
    while i < paths.len()
        invariant
            i <= paths@.len(),
            all == paths.deep_view(),
            all.len() == paths@.len(),
            matches.deep_view() == matching_paths(all.take(i as int), target@),
        decreases paths@.len() - i,
    {
        let name = file_name(&paths[i]);
        let ghost before = matches.deep_view();
        if name == *target {
            matches.push(paths[i].clone());
            proof {
                assert(matches.deep_view() =~= before.push(all[i as int]));
            }
        }
        proof {
            let next = all.take(i + 1 as int);
            assert(next.drop_last() =~= all.take(i as int));
            assert(next.last() == all[i as int]);
        }
        i += 1;
    }
    proof {
        assert(all.take(paths@.len() as int) =~= all);
    }
    matches
}

} // verus!
