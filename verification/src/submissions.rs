//! Distinct-selection over submission identifiers.

use vstd::prelude::*;

use crate::types::SubId;
use crate::errors::{DbError, SubmissionError};

verus! {

/// A deduplicated copy of `rows`, keeping the first occurrence of each
/// identifier. Callers may rely on distinctness and membership, not on
/// the order.
pub fn distinct_submissions(rows: &Vec<SubId>) -> (r: Vec<SubId>)
    ensures
        r@.no_duplicates(),
        forall|s: SubId| r@.contains(s) <==> rows@.contains(s),
{
    let mut out: Vec<SubId> = Vec::new();
    let mut i: usize = 0;
    while i < rows.len()
        invariant
            i <= rows.len(),
            out@.no_duplicates(),
            forall|s: SubId| out@.contains(s) ==> rows@.contains(s),
            forall|j: int| 0 <= j < i ==> out@.contains(#[trigger] rows@[j]),
        decreases rows.len() - i,
    {
        if !contains_sub(&out, rows[i]) {
            let ghost prev = out@;
            out.push(rows[i]);
            proof {
                assert(out@[prev.len() as int] == rows@[i as int]);
                assert forall|p: int, q: int|
                    0 <= p < q < out@.len() implies out@[p] != out@[q] by {
                    if q == prev.len() as int {
                        // the pushed id was not in `prev`, so it differs
                        // from every earlier element
                        assert(prev[p] == out@[p]);
                        assert(prev.contains(prev[p]));
                    }
                }
                assert(rows@.contains(rows@[i as int]));
                assert forall|j: int| 0 <= j < i + 1 implies out@.contains(
                    #[trigger] rows@[j],
                ) by {
                    if j < i {
                        let k = choose|k: int| 0 <= k < prev.len() && prev[k] == rows@[j];
                        assert(out@[k] == rows@[j]);
                    } else {
                        assert(out@[prev.len() as int] == rows@[j]);
                    }
                }
            }
        }
        i += 1;
    }
    out
}

/// Whether `s` occurs in `v`.
fn contains_sub(v: &Vec<SubId>, s: SubId) -> (r: bool)
    ensures
        r == v@.contains(s),
{
    let mut i: usize = 0;
    while i < v.len()
        invariant
            i <= v.len(),
            forall|j: int| 0 <= j < i ==> v@[j] != s,
        decreases v.len() - i,
    {
        if v[i] == s {
            return true;
        }
        i += 1;
    }
    false
}

/// The outcome of the distinct-selection query for an already verified
/// user: a database failure maps to `DatabaseError`, and returned rows
/// carry no submission identifier more than once.
pub fn submissions_from_query(query: Result<Vec<SubId>, DbError>) -> (r: Result<
    Vec<SubId>,
    SubmissionError,
>)
    ensures
        query is Err ==> r == Err::<Vec<SubId>, SubmissionError>(SubmissionError::DatabaseError),
        query is Ok ==> {
            &&& r is Ok
            &&& r->Ok_0@.no_duplicates()
            &&& forall|s: SubId| r->Ok_0@.contains(s) <==> query->Ok_0@.contains(s)
        },
{
    match query {
        Ok(rows) => Ok(distinct_submissions(&rows)),
        Err(_) => Err(SubmissionError::DatabaseError),
    }
}

} // verus!
