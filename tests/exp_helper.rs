use webapi::exp_helper::ExpHelper;
use webapi::collections::{CarCollection, ErrorCollection, UsrCollection};

#[test]
fn ids_expression_keeps_input_order() {
    let h = ExpHelper::new();
    assert_eq!(h.get_ids_as_exp(&vec![3, 1, 2]), "3,1,2");
}

#[test]
fn ids_expression_single_and_empty() {
    let h = ExpHelper::new();
    assert_eq!(h.get_ids_as_exp(&vec![42]), "42");
    assert_eq!(h.get_ids_as_exp(&vec![]), "");
}

#[test]
fn ids_expression_formats_extremes() {
    let h = ExpHelper::new();
    assert_eq!(h.get_ids_as_exp(&vec![0, -7, i32::MIN, i32::MAX]), "0,-7,-2147483648,2147483647");
    assert_eq!(h.get_ids_as_exp(&vec![10, 100, 909]), "10,100,909");
}

#[test]
fn select_and_delete_expressions() {
    let h = ExpHelper::new();
    assert_eq!(h.get_select_in_exp("public.car", &vec![10, 11]), "SELECT * FROM public.car WHERE id IN (10,11)");
    assert_eq!(h.get_delete_in_exp("public.car", &vec![10, 11]), "DELETE FROM public.car WHERE id IN (10,11)");
}

#[test]
fn collection_statements() {
    let h = ExpHelper::new();
    let cars = CarCollection::new(&h);
    assert_eq!(cars.get_statement(&None), "SELECT id,car_name FROM public.car");
    assert_eq!(cars.get_statement(&Some(vec![5, 5])), "SELECT * FROM public.car WHERE id IN (5,5)");
    assert_eq!(cars.remove_statement(&vec![1, 2, 3]), "DELETE FROM public.car WHERE id IN (1,2,3)");
    let usr = UsrCollection::new(&h);
    assert_eq!(usr.get_statement(&None), "SELECT id,usr_name,usr_password FROM public.usr");
    assert_eq!(usr.get_statement(&Some(vec![4])), "SELECT * FROM public.usr WHERE id IN (4)");
    let err = ErrorCollection::new(&h);
    assert_eq!(err.get_statement(&None), "SELECT id,error_name FROM public.error");
}

#[test]
fn get_statement_is_the_same_twice() {
    let cars = CarCollection::new(&ExpHelper::new());
    assert_eq!(cars.get_statement(&None), cars.get_statement(&None));
}
