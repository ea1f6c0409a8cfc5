//! The per-track resolution outcome folded into a migration plan: which
//! identifiers get inserted, in source order, and how many tracks were
//! inserted versus skipped.

use vstd::prelude::*;

verus! {

/// What one finished run reports.
pub struct MigrationReport {
    pub inserted: usize,
    pub skipped: usize,
}

/// The identifiers to insert, in source order: one per resolved track,
/// none for a track whose search found nothing.
pub open spec fn resolved_ids(found: Seq<Option<String>>) -> Seq<String>
    decreases found.len(),
{
    if found.len() == 0 {
        Seq::empty()
    } else {
        match found.last() {
            Some(id) => resolved_ids(found.drop_last()).push(id),
            None => resolved_ids(found.drop_last()),
        }
    }
}

/// Plan the insertions for a playlist's resolution results: the
/// identifiers to insert in source order, and the counts the run
/// reports.  A track without an identifier is skipped, never aborted
/// on.
pub fn plan_insertions(found: &Vec<Option<String>>) -> (r: (Vec<String>, MigrationReport))
    ensures
        r.0@ == resolved_ids(found@),
        r.1.inserted == r.0@.len(),
        r.1.inserted + r.1.skipped == found@.len(),
{
    let mut ids: Vec<String> = Vec::new();
    let mut skipped: usize = 0;
    let mut k: usize = 0;
    proof {
        assert(found@.take(0) =~= Seq::<Option<String>>::empty());
    }
    while k < found.len()
        invariant
            k <= found@.len(),
            ids@ == resolved_ids(found@.take(k as int)),
            ids@.len() + skipped == k,
        decreases found@.len() - k,
    {
        proof {
            assert(found@.take(k + 1 as int).drop_last() =~= found@.take(k as int));
            assert(found@.take(k + 1 as int).last() == found@[k as int]);
        }
        match &found[k] {
            Some(id) => {
                ids.push(id.clone());
            },
            None => {
                skipped += 1;
            },
        }
        k += 1;
    }
    proof {
        assert(found@.take(found@.len() as int) =~= found@);
    }
    let inserted = ids.len();
    (ids, MigrationReport { inserted, skipped })
}

} // verus!
