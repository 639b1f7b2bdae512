use vstd::prelude::*;

verus! {

/// A car; its identifier is absent before the row is created.
#[derive(Clone, Debug)]
pub struct Car {
    pub id: Option<i32>,
    pub car_name: String,
}

/// A user account.
#[derive(Clone, Debug)]
pub struct Usr {
    pub id: Option<i32>,
    pub usr_name: String,
    pub usr_password: String,
}

/// One row of the error-definitions table.
#[derive(Clone, Debug)]
pub struct Error {
    pub id: i32,
    pub error_name: String,
}

/// A notification subscription.
#[derive(Clone, Debug)]
pub struct Subscription {
    pub id: Option<i32>,
    pub object_name: Option<String>,
    pub event_name: Option<String>,
    pub call_back: String,
}

} // verus!
