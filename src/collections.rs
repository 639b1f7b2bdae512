use vstd::prelude::*;
use vstd::string::StringExecFns;
use crate::batch::{add_run, modify_run, AddBatch, ModifyBatch};
use crate::entities::{Car, Subscription};
use crate::exp_helper::{delete_in_text, select_in_text, ExpHelper};
use crate::reply::Reply;
use crate::error_code::ErrorCode;

verus! {

/// The statement that fetches rows: every row with `all`, else the rows of the table
/// whose identifier is listed.
pub open spec fn select_text(all: Seq<char>, table: Seq<char>, ids: Option<Seq<i32>>) -> Seq<char> {
    match ids {
        Some(v) => select_in_text(table, v),
        None => all,
    }
}

fn select_statement(helper: &ExpHelper, all: &str, table: &str, ids: &Option<Vec<i32>>) -> (r: String)
    ensures
        r@ == select_text(all@, table@, match ids { Some(v) => Some(v@), None => None }),
{
    match ids {
        Some(v) => helper.get_select_in_exp(table, v),
        None => String::from_str(all),
    }
}

/// Rows of the `public.usr` table.
pub struct UsrCollection {
    exp_helper: ExpHelper,
}

impl UsrCollection {
    pub fn new(helper: &ExpHelper) -> (r: UsrCollection) {
        UsrCollection { exp_helper: *helper }
    }

    /// The statement that `get` runs.
    pub fn get_statement(&self, ids: &Option<Vec<i32>>) -> (r: String)
        ensures
            r@ == select_text(
                "SELECT id,usr_name,usr_password FROM public.usr"@,
                "public.usr"@,
                match ids { Some(v) => Some(v@), None => None },
            ),
    {
        select_statement(&self.exp_helper, "SELECT id,usr_name,usr_password FROM public.usr", "public.usr", ids)
    }
}

/// Rows of the `public.error` table.
pub struct ErrorCollection {
    exp_helper: ExpHelper,
}

impl ErrorCollection {
    pub fn new(helper: &ExpHelper) -> (r: ErrorCollection) {
        ErrorCollection { exp_helper: *helper }
    }

    /// The statement that `get` runs.
    pub fn get_statement(&self, ids: &Option<Vec<i32>>) -> (r: String)
        ensures
            r@ == select_text(
                "SELECT id,error_name FROM public.error"@,
                "public.error"@,
                match ids { Some(v) => Some(v@), None => None },
            ),
    {
        select_statement(&self.exp_helper, "SELECT id,error_name FROM public.error", "public.error", ids)
    }
}

/// Rows of the `public.car` table, read and written in batches.
pub struct CarCollection {
    exp_helper: ExpHelper,
}

impl CarCollection {
    pub fn new(helper: &ExpHelper) -> (r: CarCollection) {
        CarCollection { exp_helper: *helper }
    }

    /// The statement that `get` runs.
    pub fn get_statement(&self, ids: &Option<Vec<i32>>) -> (r: String)
        ensures
            r@ == select_text(
                "SELECT id,car_name FROM public.car"@,
                "public.car"@,
                match ids { Some(v) => Some(v@), None => None },
            ),
    {
        select_statement(&self.exp_helper, "SELECT id,car_name FROM public.car", "public.car", ids)
    }

    /// The single statement that `remove` runs.
    pub fn remove_statement(&self, ids: &Vec<i32>) -> (r: String)
        ensures
            r@ == delete_in_text("public.car"@, ids@),
    {
        self.exp_helper.get_delete_in_exp("public.car", ids)
    }

    /// The decisions of adding `items`, one insert each.
    pub fn begin_add(&self, items: &Vec<Car>) -> (r: AddBatch)
        ensures
            r.wf(),
            r.expected() == items@.len(),
            r.state() == add_run(seq![]),
    {
        AddBatch::new(items.len())
    }

    /// The decisions of modifying `items`, one update each.
    pub fn begin_modify(&self, items: &Vec<Car>) -> (r: ModifyBatch)
        requires
            items@.len() < u64::MAX,
        ensures
            r.wf(),
            r.expected() == items@.len(),
            r.state() == modify_run(seq![]),
    {
        ModifyBatch::new(items.len())
    }

    /// The identifier that the update of `item` is keyed by; zero, which no row
    /// has, when the item carries none.
    pub fn update_key(item: &Car) -> (r: i32)
        ensures
            r == match item.id { Some(id) => id, None => 0i32 },
    {
        match item.id {
            Some(id) => id,
            None => 0,
        }
    }
}

/// Subscriptions to notifications; not yet backed by storage.
pub struct SubscriptionCollection {
    exp_helper: ExpHelper,
}

impl SubscriptionCollection {
    pub fn new(helper: &ExpHelper) -> (r: SubscriptionCollection) {
        SubscriptionCollection { exp_helper: *helper }
    }

    /// The fixed subscription list: one subscription to car deletions.
    pub fn get(&self, ids: Option<Vec<i32>>) -> (r: Vec<Subscription>)
        ensures
            r@.len() == 1,
            r@[0].id == Some(1i32),
            r@[0].object_name is Some && r@[0].object_name->0@ == "car"@,
            r@[0].event_name is Some && r@[0].event_name->0@ == "ondelete"@,
            r@[0].call_back@ == "http://my.ru"@,
    {
        let mut items: Vec<Subscription> = Vec::new();
        items.push(Subscription {
            id: Some(1),
            object_name: Some(String::from_str("car")),
            event_name: Some(String::from_str("ondelete")),
            call_back: String::from_str("http://my.ru"),
        });
        items
    }

    /// Accepts a subscription; nothing is stored yet.
    pub fn subscribe(&self, object_name: &str, event_name: &str, call_back: &str) -> (r: Reply)
        ensures
            r.error_code == ErrorCode::ReplyOk,
            r.error_name is None,
    {
        Reply::ok()
    }

    /// Accepts the end of a subscription; nothing is stored yet.
    pub fn unsubscribe(&self, object_name: &str, event_name: &str, call_back: &str) -> (r: Reply)
        ensures
            r.error_code == ErrorCode::ReplyOk,
            r.error_name is None,
    {
        Reply::ok()
    }
}

} // verus!
