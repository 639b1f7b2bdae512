use vstd::prelude::*;
use vstd::set_lib::lemma_len_subset;
use crate::batch::{
    add_outcome, add_run, modify_action, modify_outcome, modify_run, next_action, remove_action,
    remove_outcome, TxAction,
};
use crate::error_code::ErrorCode;

verus! {

/// Identifiers captured by a run of successful inserts, in order.
pub open spec fn returned_ids(results: Seq<Option<i32>>) -> Seq<i32> {
    results.map_values(|r: Option<i32>| r->0)
}

proof fn lemma_add_run_all_inserted(results: Seq<Option<i32>>)
    requires
        forall|j: int| 0 <= j < results.len() ==> (#[trigger] results[j]) is Some,
    ensures
        add_run(results) == (returned_ids(results), false),
    decreases results.len(),
{
    if results.len() > 0 {
        let p = results.drop_last();
        assert forall|j: int| 0 <= j < p.len() implies (#[trigger] p[j]) is Some by {
            assert(p[j] == results[j]);
        }
        lemma_add_run_all_inserted(p);
        assert(returned_ids(p).push(results.last()->0) =~= returned_ids(results));
    }
}

/// A batch insert in which one insert fails rolls back and reports a database error:
/// none of the identifiers captured before the failure is returned, and nothing is
/// committed, whatever the later commit step would have answered.
pub proof fn lemma_failed_insert_discards_batch(expected: nat, results: Seq<Option<i32>>)
    requires
        1 <= results.len() <= expected,
        forall|j: int| 0 <= j < results.len() - 1 ==> (#[trigger] results[j]) is Some,
        results.last() is None,
    ensures
        add_run(results).1,
        add_run(results).0.len() == results.len() - 1,
        next_action(expected, add_run(results).0.len(), add_run(results).1) == TxAction::Rollback,
        forall|committed: bool|
            #[trigger] add_outcome(expected, add_run(results), committed) == (
            ErrorCode::DatabaseError,
            None::<Seq<i32>>,
        ),
{
    let p = results.drop_last();
    assert forall|j: int| 0 <= j < p.len() implies (#[trigger] p[j]) is Some by {
        assert(p[j] == results[j]);
    }
    lemma_add_run_all_inserted(p);
}

/// A batch insert whose every insert succeeds commits, and reports the generated
/// identifiers in the order of the input items.
pub proof fn lemma_add_keeps_order(results: Seq<Option<i32>>)
    requires
        forall|j: int| 0 <= j < results.len() ==> (#[trigger] results[j]) is Some,
    ensures
        next_action(results.len(), add_run(results).0.len(), add_run(results).1) == TxAction::Commit,
        add_outcome(results.len(), add_run(results), true) == (
            ErrorCode::ReplyOk,
            Some(returned_ids(results)),
        ),
        forall|j: int| 0 <= j < results.len() ==> returned_ids(results)[j] == (#[trigger] results[j])->0,
{
    lemma_add_run_all_inserted(results);
}

proof fn lemma_modify_run_counts(results: Seq<Option<u64>>)
    requires
        results.len() < u64::MAX,
        forall|j: int| 0 <= j < results.len() ==> (#[trigger] results[j]) is Some && results[j]->0 <= 1,
    ensures
        modify_run(results).0 == results.len(),
        !modify_run(results).2,
        modify_run(results).1 <= results.len(),
        (exists|j: int| 0 <= j < results.len() && #[trigger] results[j] == Some(0u64))
            ==> modify_run(results).1 < results.len(),
    decreases results.len(),
{
    if results.len() > 0 {
        let p = results.drop_last();
        assert forall|j: int| 0 <= j < p.len() implies (#[trigger] p[j]) is Some && p[j]->0 <= 1 by {
            assert(p[j] == results[j]);
        }
        lemma_modify_run_counts(p);
        if exists|j: int| 0 <= j < results.len() && #[trigger] results[j] == Some(0u64) {
            let j = choose|j: int| 0 <= j < results.len() && #[trigger] results[j] == Some(0u64);
            if j < p.len() {
                assert(p[j] == results[j]);
            }
        }
    }
}

/// A batch update of items keyed by identifier, in which each update touches at most
/// one row and one identifier matches no row, rolls back and reports not-found, even
/// though the other updates succeeded.
pub proof fn lemma_modify_missing_item_rolls_back(results: Seq<Option<u64>>, missing: int)
    requires
        results.len() < u64::MAX,
        forall|j: int| 0 <= j < results.len() ==> (#[trigger] results[j]) is Some && results[j]->0 <= 1,
        0 <= missing < results.len(),
        results[missing] == Some(0u64),
    ensures
        modify_action(results.len(), modify_run(results)) == TxAction::Rollback,
        forall|committed: bool|
            #[trigger] modify_outcome(results.len(), modify_run(results), committed)
                == ErrorCode::NotFoundError,
{
    lemma_modify_run_counts(results);
}

/// Removing distinct identifiers, where the delete statement reports one row for each
/// identifier that exists: the batch commits exactly when every identifier exists, and
/// otherwise rolls back with not-found.
pub proof fn lemma_remove_exact_match(ids: Seq<i32>, existing: Set<i32>, deleted: u64)
    requires
        ids.no_duplicates(),
        deleted as nat == ids.to_set().intersect(existing).len(),
    ensures
        ids.to_set().subset_of(existing) ==> remove_action(ids.len(), Some(deleted)) == TxAction::Commit
            && remove_outcome(ids.len(), Some(deleted), true) == ErrorCode::ReplyOk,
        !ids.to_set().subset_of(existing) ==> remove_action(ids.len(), Some(deleted)) == TxAction::Rollback
            && (forall|committed: bool|
            #[trigger] remove_outcome(ids.len(), Some(deleted), committed) == ErrorCode::NotFoundError),
{
    ids.unique_seq_to_set();
    let all = ids.to_set();
    let hit = all.intersect(existing);
    if all.subset_of(existing) {
        assert(hit =~= all);
    } else {
        let x = choose|x: i32| all.contains(x) && !existing.contains(x);
        assert(hit.subset_of(all.remove(x)));
        lemma_len_subset(hit, all.remove(x));
    }
}

/// Removing a list that names some identifier twice never commits: the delete
/// statement removes each existing row once, so it reports fewer rows than identifiers
/// requested, and the batch rolls back with not-found.
pub proof fn lemma_remove_duplicates_not_found(ids: Seq<i32>, existing: Set<i32>, deleted: u64)
    requires
        !ids.no_duplicates(),
        deleted as nat == ids.to_set().intersect(existing).len(),
    ensures
        remove_action(ids.len(), Some(deleted)) == TxAction::Rollback,
        forall|committed: bool|
            #[trigger] remove_outcome(ids.len(), Some(deleted), committed) == ErrorCode::NotFoundError,
{
    ids.lemma_cardinality_of_set();
    if ids.to_set().len() == ids.len() {
        ids.lemma_no_dup_set_cardinality();
    }
    lemma_len_subset(ids.to_set().intersect(existing), ids.to_set());
}

} // verus!
