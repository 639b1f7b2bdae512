use vstd::prelude::*;
use crate::error_code::ErrorCode;
use crate::error_names::ErrorNameTable;

verus! {

/// The name that a reply carrying `code` shows: none for success, else the table's
/// name of the numeric code, if it has one.
pub open spec fn reply_name(code: ErrorCode, names: Map<isize, Seq<char>>) -> Option<Seq<char>> {
    if code == ErrorCode::ReplyOk {
        None
    } else if names.contains_key(code.spec_value() as isize) {
        Some(names[code.spec_value() as isize])
    } else {
        None
    }
}

/// Whether an optional name matches its model.
pub open spec fn name_matches(name: Option<String>, model: Option<Seq<char>>) -> bool {
    match name {
        Some(s) => model == Some(s@),
        None => model is None,
    }
}

/// Reply of a modify or remove: the numeric code is authoritative, the name cosmetic.
#[derive(Clone, Debug)]
pub struct Reply {
    pub error_code: ErrorCode,
    pub error_name: Option<String>,
}

/// Reply of an add: as `Reply`, with the generated identifiers on success.
#[derive(Clone, Debug)]
pub struct AddReply {
    pub error_code: ErrorCode,
    pub error_name: Option<String>,
    pub ids: Option<Vec<i32>>,
}

fn resolve_name(code: ErrorCode, table: &ErrorNameTable) -> (r: Option<String>)
    ensures
        name_matches(r, reply_name(code, table.names())),
{
    match code {
        ErrorCode::ReplyOk => None,
        _ => table.lookup(code.value() as isize),
    }
}

impl Reply {
    /// A success reply, with no name.
    pub fn ok() -> (r: Reply)
        ensures
            r.error_code == ErrorCode::ReplyOk,
            r.error_name is None,
    {
        Reply { error_code: ErrorCode::ReplyOk, error_name: None }
    }

    /// The reply for `code`, with its name resolved against the table.
    pub fn of(code: ErrorCode, table: &ErrorNameTable) -> (r: Reply)
        ensures
            r.error_code == code,
            name_matches(r.error_name, reply_name(code, table.names())),
    {
        Reply { error_code: code, error_name: resolve_name(code, table) }
    }
}

impl AddReply {
    /// A success reply carrying the generated identifiers.
    pub fn ok(ids: Vec<i32>) -> (r: AddReply)
        ensures
            r.error_code == ErrorCode::ReplyOk,
            r.error_name is None,
            r.ids == Some(ids),
    {
        AddReply { error_code: ErrorCode::ReplyOk, error_name: None, ids: Some(ids) }
    }

    /// The reply for the outcome of an add, with the name of a failure resolved
    /// against the table.
    pub fn of(outcome: (ErrorCode, Option<Vec<i32>>), table: &ErrorNameTable) -> (r: AddReply)
        ensures
            r.error_code == outcome.0,
            name_matches(r.error_name, reply_name(outcome.0, table.names())),
            r.ids == outcome.1,
    {
        let name = resolve_name(outcome.0, table);
        AddReply { error_code: outcome.0, error_name: name, ids: outcome.1 }
    }
}

} // verus!
