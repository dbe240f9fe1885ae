//! Choosing the two most recently created candidates and resolving which
//! of the two is the authoritative reference.
//!
//! Selection follows a stable descending sort by creation time: the most
//! recent candidate is the earliest-listed one with the greatest creation
//! time, and the second most recent is the earliest-listed maximum among
//! the remaining candidates, so candidates with equal creation times keep
//! their discovery order.

use vstd::prelude::*;
use crate::FinderError;

verus! {

/// A file found across the sibling repositories, together with the
/// filesystem metadata the selection and resolution rules read. Times
/// are in nanoseconds since the epoch.
#[derive(Debug)]
pub struct Candidate {
    pub path: String,
    pub size: u64,
    pub created: u64,
    pub modified: u64,
}

impl Clone for Candidate {
    fn clone(&self) -> (r: Self)
        ensures
            r == *self,
    {
        Candidate {
            path: self.path.clone(),
            size: self.size,
            created: self.created,
            modified: self.modified,
        }
    }
}

/// `i` is the index a stable descending sort by creation time puts
/// first: no candidate was created later, and every earlier-listed
/// candidate was created strictly earlier.
pub open spec fn is_first_max(s: Seq<Candidate>, i: int) -> bool {
    &&& 0 <= i < s.len()
    &&& forall|k: int| 0 <= k < s.len() ==> s[k].created <= s[i].created
    &&& forall|k: int| 0 <= k < i ==> s[k].created < s[i].created
}

/// `j` is the index such a sort puts second, once index `skip` is taken
/// out of consideration.
pub open spec fn is_first_max_excluding(s: Seq<Candidate>, skip: int, j: int) -> bool {
    &&& 0 <= j < s.len()
    &&& j != skip
    &&& forall|k: int| 0 <= k < s.len() && k != skip ==> s[k].created <= s[j].created
    &&& forall|k: int| 0 <= k < j && k != skip ==> s[k].created < s[j].created
}

/// At most one index is the first maximum, so the selected pair is
/// uniquely determined.
pub proof fn lemma_first_max_unique(s: Seq<Candidate>, i: int, j: int)
    requires
        is_first_max(s, i),
        is_first_max(s, j),
    ensures
        i == j,
{
    if i < j {
        assert(s[i].created < s[j].created);
        assert(s[j].created <= s[i].created);
    } else if j < i {
        assert(s[j].created < s[i].created);
        assert(s[i].created <= s[j].created);
    }
}

/// And likewise once an index is excluded.
pub proof fn lemma_first_max_excluding_unique(s: Seq<Candidate>, skip: int, i: int, j: int)
    requires
        is_first_max_excluding(s, skip, i),
        is_first_max_excluding(s, skip, j),
    ensures
        i == j,
{
    if i < j {
        assert(s[i].created < s[j].created);
        assert(s[j].created <= s[i].created);
    } else if j < i {
        assert(s[j].created < s[i].created);
        assert(s[i].created <= s[j].created);
    }
}

fn first_max_index(candidates: &Vec<Candidate>) -> (r: usize)
    requires
        candidates@.len() >= 1,
    ensures
        is_first_max(candidates@, r as int),
{
    let mut best: usize = 0;
    let mut i: usize = 1;
    while i < candidates.len()
        invariant
            best < i <= candidates@.len(),
            forall|k: int| 0 <= k < i ==> candidates@[k].created <= candidates@[best as int].created,
            forall|k: int| 0 <= k < best ==> candidates@[k].created < candidates@[best as int].created,
        decreases candidates@.len() - i,
    {
        if candidates[i].created > candidates[best].created {
            best = i;
        }
        i += 1;
    }
    best
}

fn first_max_index_excluding(candidates: &Vec<Candidate>, skip: usize) -> (r: usize)
    requires
        candidates@.len() >= 2,
        skip < candidates@.len(),
    ensures
        is_first_max_excluding(candidates@, skip as int, r as int),
{
    let mut best: usize = if skip == 0 {
        1
    } else {
        0
    };
    let mut i: usize = best + 1;
    while i < candidates.len()
        invariant
            best < i <= candidates@.len(),
            best != skip,
            skip < candidates@.len(),
            forall|k: int|
                0 <= k < i && k != skip ==> candidates@[k].created <= candidates@[best as int].created,
            forall|k: int|
                0 <= k < best && k != skip ==> candidates@[k].created < candidates@[best as int].created,
        decreases candidates@.len() - i,
    {
        if i != skip && candidates[i].created > candidates[best].created {
            best = i;
        }
        i += 1;
    }
    best
}

/// Picks the two most recently created candidates: the pair a stable
/// descending sort by creation time would put first and second, so
/// the first of the pair was created no earlier than the second. A set
/// with fewer than two candidates is the insufficient-data condition,
/// reported as an error and nothing more is computed from it.
pub fn get_two_recently_created(candidates: &Vec<Candidate>) -> (r: Result<
    (Candidate, Candidate),
    FinderError,
>)
    ensures
        match r {
            Ok(pair) => {
                &&& candidates@.len() >= 2
                &&& exists|i: int, j: int|
                    {
                        &&& #[trigger] is_first_max(candidates@, i)
                        &&& #[trigger] is_first_max_excluding(candidates@, i, j)
                        &&& pair.0 == candidates@[i]
                        &&& pair.1 == candidates@[j]
                    }
                &&& pair.0.created >= pair.1.created
            },
            Err(e) => {
                &&& candidates@.len() < 2
                &&& e == FinderError::InsufficientData
            },
        },
{
    if candidates.len() < 2 {
        return Err(FinderError::InsufficientData);
    }
    let most = first_max_index(candidates);
    let second = first_max_index_excluding(candidates, most);
    Ok((candidates[most].clone(), candidates[second].clone()))
}

/// The second most recent candidate overrides the most recent as
/// reference exactly when it is both strictly larger and strictly more
/// recently modified: a file that is bigger and more recently edited is
/// judged the more authoritative version despite its older creation
/// time.
pub open spec fn second_is_reference(most_recent: Candidate, second_most_recent: Candidate) -> bool {
    &&& second_most_recent.size > most_recent.size
    &&& second_most_recent.modified > most_recent.modified
}

/// Resolves which of the selected pair is the authoritative reference.
pub fn get_match<'a>(most_recent: &'a Candidate, second_most_recent: &'a Candidate) -> (r:
    &'a Candidate)
    ensures
        *r == if second_is_reference(*most_recent, *second_most_recent) {
            *second_most_recent
        } else {
            *most_recent
        },
{
    if second_most_recent.size > most_recent.size
        && second_most_recent.modified > most_recent.modified {
        second_most_recent
    } else {
        most_recent
    }
}

/// The resolution rule is deterministic: it reads only the sizes and
/// modification times of the pair, so two pairs that agree on those
/// agree on which side becomes the reference.
pub proof fn lemma_resolver_deterministic(
    a1: Candidate,
    b1: Candidate,
    a2: Candidate,
    b2: Candidate,
)
    requires
        a1.size == a2.size,
        a1.modified == a2.modified,
        b1.size == b2.size,
        b1.modified == b2.modified,
    ensures
        second_is_reference(a1, b1) == second_is_reference(a2, b2),
{
}

} // verus!
