use webapi::collections::SubscriptionCollection;
use webapi::entities::Error;
use webapi::error_code::ErrorCode;
use webapi::error_names::ErrorNameTable;
use webapi::exp_helper::ExpHelper;
use webapi::reply::{AddReply, Reply};

fn row(id: i32, name: &str) -> Error {
    Error { id, error_name: name.to_string() }
}

#[test]
fn table_resolves_known_code() {
    let t = ErrorNameTable::from_rows(&vec![row(7, "DatabaseError")]);
    assert_eq!(t.lookup(7), Some("DatabaseError".to_string()));
}

#[test]
fn table_misses_unknown_code() {
    let t = ErrorNameTable::from_rows(&vec![row(7, "DatabaseError")]);
    assert_eq!(t.lookup(3), None);
    assert_eq!(ErrorNameTable::empty().lookup(7), None);
}

#[test]
fn later_row_replaces_earlier() {
    let t = ErrorNameTable::from_rows(&vec![row(1, "A"), row(2, "B"), row(1, "C")]);
    assert_eq!(t.lookup(1), Some("C".to_string()));
    assert_eq!(t.lookup(2), Some("B".to_string()));
}

#[test]
fn code_values() {
    assert_eq!(ErrorCode::ReplyOk.value(), 0);
    assert_eq!(ErrorCode::DatabaseError.value(), 1);
    assert_eq!(ErrorCode::NotFoundError.value(), 2);
}

#[test]
fn reply_carries_resolved_name() {
    let t = ErrorNameTable::from_rows(&vec![row(1, "DatabaseError"), row(2, "NotFoundError")]);
    let r = Reply::of(ErrorCode::NotFoundError, &t);
    assert_eq!(r.error_code, ErrorCode::NotFoundError);
    assert_eq!(r.error_name, Some("NotFoundError".to_string()));
    let ok = Reply::of(ErrorCode::ReplyOk, &t);
    assert_eq!(ok.error_code, ErrorCode::ReplyOk);
    assert_eq!(ok.error_name, None);
}

#[test]
fn reply_without_name_keeps_code() {
    let r = Reply::of(ErrorCode::DatabaseError, &ErrorNameTable::empty());
    assert_eq!(r.error_code, ErrorCode::DatabaseError);
    assert_eq!(r.error_name, None);
}

#[test]
fn add_reply_shapes() {
    let t = ErrorNameTable::from_rows(&vec![row(1, "DatabaseError")]);
    let ok = AddReply::ok(vec![10, 11]);
    assert_eq!(ok.error_code, ErrorCode::ReplyOk);
    assert_eq!(ok.ids, Some(vec![10, 11]));
    let failed = AddReply::of((ErrorCode::DatabaseError, None), &t);
    assert_eq!(failed.error_name, Some("DatabaseError".to_string()));
    assert_eq!(failed.ids, None);
}

#[test]
fn subscriptions_are_fixed() {
    let s = SubscriptionCollection::new(&ExpHelper::new());
    let items = s.get(None);
    assert_eq!(items.len(), 1);
    assert_eq!(items[0].id, Some(1));
    assert_eq!(items[0].object_name.as_deref(), Some("car"));
    assert_eq!(items[0].event_name.as_deref(), Some("ondelete"));
    assert_eq!(items[0].call_back, "http://my.ru");
    assert_eq!(s.subscribe("car", "ondelete", "x").error_code, ErrorCode::ReplyOk);
    assert_eq!(s.unsubscribe("car", "ondelete", "x").error_name, None);
}
