//! The storage gateway's contract, held by an in-memory table. The real
//! service keeps submissions in a relational store reached over a connection
//! pool; that call is plain I/O and stays outside this crate. This type
//! states what the gateway must do — `insert` appends one row, `list_all`
//! reads every row back and changes nothing — and the workflow is verified
//! against it. Rows are never updated or deleted, and duplicates are allowed:
//! there is no key and no uniqueness rule.

use vstd::prelude::*;
use crate::submission::{Submission, SubmissionModel};

verus! {

/// The single table of submissions, in insertion order.
pub struct Store {
    rows: Vec<Submission>,
}

impl View for Store {
    type V = Seq<SubmissionModel>;

    closed spec fn view(&self) -> Seq<SubmissionModel> {
        self.rows@.map_values(|s: Submission| s@)
    }
}

impl Store {
    /// An empty table.
    pub fn new() -> (r: Store)
        ensures
            r@ == Seq::<SubmissionModel>::empty(),
    {
        let r = Store { rows: Vec::new() };
        proof {
            assert(r@ =~= Seq::<SubmissionModel>::empty());
        }
        r
    }

    /// Writes one row: the table afterwards is the old table with the new
    /// submission appended, and nothing else has changed.
    pub fn insert(&mut self, s: Submission)
        ensures
            final(self)@ == old(self)@.push(s@),
    {
        let ghost s_model = s@;
        self.rows.push(s);
        proof {
            assert(self@ =~= old(self)@.push(s_model));
        }
    }

    /// Reads every stored submission, in insertion order, changing nothing.
    pub fn list_all(&self) -> (r: &Vec<Submission>)
        ensures
            r@.map_values(|s: Submission| s@) == self@,
    {
        &self.rows
    }

    /// How many rows the table holds.
    pub fn len(&self) -> (n: usize)
        ensures
            n == self@.len(),
    {
        self.rows.len()
    }
}

/// Listing is read-only and deterministic: two listings of the same table
/// contents, with no insert between them, are content-equal sequences.
pub proof fn lemma_listing_idempotent(
    table: Seq<SubmissionModel>,
    first: Seq<SubmissionModel>,
    second: Seq<SubmissionModel>,
)
    requires
        first == table,
        second == table,
    ensures
        first == second,
{
}

/// No lost writes: an insert keeps every row already in the table, at its
/// place and unchanged, and the new row is present at the end. However many
/// submissions arrive, each insert preserves all the others.
pub proof fn lemma_insert_preserves_rows(
    before: Seq<SubmissionModel>,
    after: Seq<SubmissionModel>,
    s: SubmissionModel,
)
    requires
        after == before.push(s),
    ensures
        after.len() == before.len() + 1,
        forall|i: int| 0 <= i < before.len() ==> after[i] == before[i],
        after[before.len() as int] == s,
        after.contains(s),
{
    assert(after[before.len() as int] == s);
}

} // verus!
