use vstd::prelude::*;

verus! {

/// The closed set of outcome codes that a collection operation reports.
#[derive(Clone, Copy, Debug, PartialEq, Eq, Structural)]
pub enum ErrorCode {
    ReplyOk,
    DatabaseError,
    NotFoundError,
}

impl ErrorCode {
    /// The numeric value of each code, as stored in the error-definitions table.
    pub open spec fn spec_value(self) -> i32 {
        match self {
            ErrorCode::ReplyOk => 0,
            ErrorCode::DatabaseError => 1,
            ErrorCode::NotFoundError => 2,
        }
    }

    /// The numeric code carried by a reply.
    pub fn value(&self) -> (r: i32)
        ensures
            r == self.spec_value(),
    {
        match self {
            ErrorCode::ReplyOk => 0,
            ErrorCode::DatabaseError => 1,
            ErrorCode::NotFoundError => 2,
        }
    }
}

} // verus!
