use vstd::prelude::*;
use std::collections::HashMap;
use crate::entities::Error;

verus! {

broadcast use vstd::std_specs::hash::group_hash_axioms;

/// The names given by error-definition rows, read in order: a later row with the
/// same code replaces an earlier one.
pub open spec fn rows_names(rows: Seq<Error>) -> Map<isize, Seq<char>>
    decreases rows.len(),
{
    if rows.len() == 0 {
        Map::empty()
    } else {
        rows_names(rows.drop_last()).insert(rows.last().id as isize, rows.last().error_name@)
    }
}

/// Read-only mapping from numeric error code to display name, built once.
pub struct ErrorNameTable {
    names: HashMap<isize, String>,
}

impl ErrorNameTable {
    /// The name of each code in the table.
    pub closed spec fn names(&self) -> Map<isize, Seq<char>> {
        Map::new(|k: isize| self.names@.contains_key(k), |k: isize| self.names@[k]@)
    }

    /// A table with no names, used when the definitions cannot be read.
    pub fn empty() -> (r: ErrorNameTable)
        ensures
            r.names() == Map::<isize, Seq<char>>::empty(),
    {
        let r = ErrorNameTable { names: HashMap::new() };
        assert(r.names() =~= Map::<isize, Seq<char>>::empty());
        r
    }

    /// A table holding the name of each row's code.
    pub fn from_rows(rows: &Vec<Error>) -> (r: ErrorNameTable)
        ensures
            r.names() == rows_names(rows@),
    {
        let mut names: HashMap<isize, String> = HashMap::new();
        let mut i: usize = 0;
        proof {
            assert(rows@.take(0) =~= Seq::<Error>::empty());
        }
        while i < rows.len()
            invariant
                i <= rows@.len(),
                Map::new(|k: isize| names@.contains_key(k), |k: isize| names@[k]@)
                    =~= rows_names(rows@.take(i as int)),
            decreases rows.len() - i,
        {
            let row = &rows[i];
            names.insert(row.id as isize, row.error_name.clone());
            proof {
                assert(rows@.take(i + 1).drop_last() =~= rows@.take(i as int));
                assert(Map::new(|k: isize| names@.contains_key(k), |k: isize| names@[k]@)
                    =~= rows_names(rows@.take(i + 1)));
            }
            i = i + 1;
        }
        assert(rows@.take(rows@.len() as int) =~= rows@);
        ErrorNameTable { names }
    }

    /// The name of `code`, or `None` when the table has none.
    pub fn lookup(&self, code: isize) -> (r: Option<String>)
        ensures
            r is None <==> !self.names().contains_key(code),
            r is Some ==> r->0@ == self.names()[code],
    {
        match self.names.get(&code) {
            Some(s) => Some(s.clone()),
            None => None,
        }
    }
}

} // verus!
