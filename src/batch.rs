use vstd::prelude::*;
use crate::error_code::ErrorCode;

verus! {

/// What the caller running a batch transaction does next.
#[derive(Clone, Copy, Debug, PartialEq, Eq, Structural)]
pub enum TxAction {
    /// Issue the statement for the next item.
    Continue,
    /// Commit the transaction.
    Commit,
    /// Roll the transaction back.
    Rollback,
}

/// The action that follows from how far a batch has come.
pub open spec fn next_action(expected: nat, done: nat, failed: bool) -> TxAction {
    if failed {
        TxAction::Rollback
    } else if done < expected {
        TxAction::Continue
    } else {
        TxAction::Commit
    }
}

// ---------------------------------------------------------------- add

/// Model of a batch insert: the identifiers returned so far, and whether an insert failed.
pub open spec fn add_step(state: (Seq<i32>, bool), inserted: Option<i32>) -> (Seq<i32>, bool) {
    match inserted {
        Some(id) => (state.0.push(id), state.1),
        None => (state.0, true),
    }
}

/// Model state after feeding the insert results in order, from an empty batch.
pub open spec fn add_run(results: Seq<Option<i32>>) -> (Seq<i32>, bool)
    decreases results.len(),
{
    if results.len() == 0 {
        (seq![], false)
    } else {
        add_step(add_run(results.drop_last()), results.last())
    }
}

/// Reported outcome of a batch insert that has stopped, given whether the commit succeeded.
pub open spec fn add_outcome(
    expected: nat,
    state: (Seq<i32>, bool),
    committed: bool,
) -> (ErrorCode, Option<Seq<i32>>) {
    if !state.1 && state.0.len() == expected && committed {
        (ErrorCode::ReplyOk, Some(state.0))
    } else {
        (ErrorCode::DatabaseError, None)
    }
}

/// Decisions of a batch insert: one insert per item, in input order, each returning
/// a generated identifier or failing.
pub struct AddBatch {
    expected: usize,
    ids: Vec<i32>,
    failed: bool,
}

impl AddBatch {
    pub closed spec fn expected(&self) -> nat {
        self.expected as nat
    }

    pub closed spec fn state(&self) -> (Seq<i32>, bool) {
        (self.ids@, self.failed)
    }

    pub closed spec fn wf(&self) -> bool {
        self.ids@.len() <= self.expected
    }

    pub open spec fn spec_action(&self) -> TxAction {
        next_action(self.expected(), self.state().0.len(), self.state().1)
    }

    /// A batch of `expected` inserts, none issued yet.
    pub fn new(expected: usize) -> (r: AddBatch)
        ensures
            r.wf(),
            r.expected() == expected,
            r.state() == add_run(seq![]),
    {
        AddBatch { expected, ids: Vec::new(), failed: false }
    }

    /// Index of the item whose insert is issued next.
    pub fn next_index(&self) -> (r: usize)
        requires
            self.wf(),
        ensures
            r == self.state().0.len(),
    {
        self.ids.len()
    }

    /// What to do now: insert the next item, commit, or roll back.
    pub fn action(&self) -> (r: TxAction)
        requires
            self.wf(),
        ensures
            r == self.spec_action(),
    {
        if self.failed {
            TxAction::Rollback
        } else if self.ids.len() < self.expected {
            TxAction::Continue
        } else {
            TxAction::Commit
        }
    }

    /// Records the result of the insert just issued: its generated identifier, or
    /// `None` when it failed.
    pub fn record(&mut self, inserted: Option<i32>) -> (r: TxAction)
        requires
            old(self).wf(),
            old(self).spec_action() == TxAction::Continue,
        ensures
            final(self).wf(),
            final(self).expected() == old(self).expected(),
            final(self).state() == add_step(old(self).state(), inserted),
            r == final(self).spec_action(),
    {
        match inserted {
            Some(id) => self.ids.push(id),
            None => self.failed = true,
        }
        self.action()
    }

    /// The outcome once the batch has stopped: the identifiers in input order when
    /// every insert and the commit succeeded, a database error otherwise.
    pub fn finish(self, committed: bool) -> (r: (ErrorCode, Option<Vec<i32>>))
        requires
            self.wf(),
        ensures
            r.0 == add_outcome(self.expected(), self.state(), committed).0,
            match r.1 {
                Some(v) => add_outcome(self.expected(), self.state(), committed).1 == Some(v@),
                None => add_outcome(self.expected(), self.state(), committed).1 is None,
            },
    {
        if !self.failed && self.ids.len() == self.expected && committed {
            (ErrorCode::ReplyOk, Some(self.ids))
        } else {
            (ErrorCode::DatabaseError, None)
        }
    }
}

// ---------------------------------------------------------------- modify

/// Addition of affected-row counts, held at the largest `u64`.
pub open spec fn saturating_sum(a: nat, b: nat) -> nat {
    if a + b > u64::MAX { u64::MAX as nat } else { (a + b) as nat }
}

/// Model of a batch update: statements issued, rows affected in total (saturating),
/// and whether a statement failed.
pub open spec fn modify_step(state: (nat, nat, bool), affected: Option<u64>) -> (nat, nat, bool) {
    match affected {
        Some(k) => (state.0 + 1, saturating_sum(state.1, k as nat), state.2),
        None => (state.0 + 1, state.1, true),
    }
}

/// Model state after feeding the update results in order, from an empty batch.
pub open spec fn modify_run(results: Seq<Option<u64>>) -> (nat, nat, bool)
    decreases results.len(),
{
    if results.len() == 0 {
        (0, 0, false)
    } else {
        modify_step(modify_run(results.drop_last()), results.last())
    }
}

/// What follows from how far a batch update has come: after every update ran, commit
/// only when the rows affected match the items.
pub open spec fn modify_action(expected: nat, state: (nat, nat, bool)) -> TxAction {
    if state.2 {
        TxAction::Rollback
    } else if state.0 < expected {
        TxAction::Continue
    } else if state.1 == expected {
        TxAction::Commit
    } else {
        TxAction::Rollback
    }
}

/// Reported outcome of a batch update that has stopped.
pub open spec fn modify_outcome(expected: nat, state: (nat, nat, bool), committed: bool) -> ErrorCode {
    if state.2 {
        ErrorCode::DatabaseError
    } else if state.1 != expected {
        ErrorCode::NotFoundError
    } else if committed {
        ErrorCode::ReplyOk
    } else {
        ErrorCode::DatabaseError
    }
}

/// Decisions of a batch update: one update per item, each keyed by identifier,
/// with the affected rows counted across the batch.
pub struct ModifyBatch {
    expected: usize,
    done: usize,
    count: u64,
    failed: bool,
}

impl ModifyBatch {
    pub closed spec fn expected(&self) -> nat {
        self.expected as nat
    }

    pub closed spec fn state(&self) -> (nat, nat, bool) {
        (self.done as nat, self.count as nat, self.failed)
    }

    pub closed spec fn wf(&self) -> bool {
        &&& self.done <= self.expected
        &&& self.expected < u64::MAX
    }

    pub open spec fn spec_action(&self) -> TxAction {
        modify_action(self.expected(), self.state())
    }

    /// A batch of `expected` updates, none issued yet.
    pub fn new(expected: usize) -> (r: ModifyBatch)
        requires
            expected < u64::MAX,
        ensures
            r.wf(),
            r.expected() == expected,
            r.state() == modify_run(seq![]),
    {
        ModifyBatch { expected, done: 0, count: 0, failed: false }
    }

    /// Index of the item whose update is issued next.
    pub fn next_index(&self) -> (r: usize)
        requires
            self.wf(),
        ensures
            r == self.state().0,
    {
        self.done
    }

    /// What to do now: update the next item, commit, or roll back.
    pub fn action(&self) -> (r: TxAction)
        requires
            self.wf(),
        ensures
            r == self.spec_action(),
    {
        if self.failed {
            TxAction::Rollback
        } else if self.done < self.expected {
            TxAction::Continue
        } else if self.count == self.expected as u64 {
            TxAction::Commit
        } else {
            TxAction::Rollback
        }
    }

    /// Records the result of the update just issued: the rows it affected, or `None`
    /// when the statement failed.
    pub fn record(&mut self, affected: Option<u64>) -> (r: TxAction)
        requires
            old(self).wf(),
            old(self).spec_action() == TxAction::Continue,
        ensures
            final(self).wf(),
            final(self).expected() == old(self).expected(),
            final(self).state() == modify_step(old(self).state(), affected),
            r == final(self).spec_action(),
    {
        self.done = self.done + 1;
        match affected {
            Some(k) => self.count = self.count.saturating_add(k),
            None => self.failed = true,
        }
        self.action()
    }

    /// The outcome once the batch has stopped.
    pub fn finish(self, committed: bool) -> (r: ErrorCode)
        requires
            self.wf(),
        ensures
            r == modify_outcome(self.expected(), self.state(), committed),
    {
        if self.failed {
            ErrorCode::DatabaseError
        } else if self.count != self.expected as u64 {
            ErrorCode::NotFoundError
        } else if committed {
            ErrorCode::ReplyOk
        } else {
            ErrorCode::DatabaseError
        }
    }
}

// ---------------------------------------------------------------- remove

/// A batch delete issues one statement for all identifiers: commit only when it
/// deleted as many rows as identifiers were requested.
pub open spec fn remove_action(requested: nat, deleted: Option<u64>) -> TxAction {
    match deleted {
        Some(k) => if k == requested { TxAction::Commit } else { TxAction::Rollback },
        None => TxAction::Rollback,
    }
}

/// Reported outcome of a batch delete.
pub open spec fn remove_outcome(requested: nat, deleted: Option<u64>, committed: bool) -> ErrorCode {
    match deleted {
        Some(k) => if k != requested {
            ErrorCode::NotFoundError
        } else if committed {
            ErrorCode::ReplyOk
        } else {
            ErrorCode::DatabaseError
        },
        None => ErrorCode::DatabaseError,
    }
}

/// Whether to commit a batch delete of `requested` identifiers, given the rows that
/// its statement deleted, or `None` when the statement failed.
pub fn decide_remove(requested: usize, deleted: Option<u64>) -> (r: TxAction)
    ensures
        r == remove_action(requested as nat, deleted),
{
    match deleted {
        Some(k) => if k as u128 == requested as u128 { TxAction::Commit } else { TxAction::Rollback },
        None => TxAction::Rollback,
    }
}

/// The outcome of a batch delete once committed or rolled back.
pub fn finish_remove(requested: usize, deleted: Option<u64>, committed: bool) -> (r: ErrorCode)
    ensures
        r == remove_outcome(requested as nat, deleted, committed),
{
    match deleted {
        Some(k) => if k as u128 != requested as u128 {
            ErrorCode::NotFoundError
        } else if committed {
            ErrorCode::ReplyOk
        } else {
            ErrorCode::DatabaseError
        },
        None => ErrorCode::DatabaseError,
    }
}

} // verus!
