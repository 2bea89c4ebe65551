use employee_api::errors::{Failure, StoreError};
use employee_api::forms::EmployeeForm;
use employee_api::store::Store;

fn full(fname: &str, lname: &str, age: i32, title: &str) -> EmployeeForm {
    EmployeeForm {
        id: None,
        fname: Some(fname.to_string()),
        lname: Some(lname.to_string()),
        age: Some(age),
        title: Some(title.to_string()),
    }
}

fn only_age(age: i32) -> EmployeeForm {
    EmployeeForm { id: None, fname: None, lname: None, age: Some(age), title: None }
}

fn nothing() -> EmployeeForm {
    EmployeeForm { id: None, fname: None, lname: None, age: None, title: None }
}

fn three() -> Store {
    let mut store = Store::new();
    assert_eq!(store.insert(&full("A", "B", 30, "Eng")).unwrap(), 1);
    assert_eq!(store.insert(&full("C", "D", 40, "Ops")).unwrap(), 2);
    assert_eq!(store.insert(&full("E", "F", 50, "Law")).unwrap(), 3);
    store
}

#[test]
fn a_new_table_is_empty() {
    let store = Store::new();
    assert_eq!(store.len(), 0);
    assert!(store.list().is_empty());
    assert!(matches!(store.get(1), Err(StoreError::NotFound)));
}

#[test]
fn insert_then_get_gives_the_fields_back() {
    let mut store = Store::new();
    let id = store.insert(&full("A", "B", 30, "Eng")).unwrap();
    assert_eq!(id, 1);
    let row = store.get(id).unwrap();
    assert_eq!(row.id, 1);
    assert_eq!(row.fname, "A");
    assert_eq!(row.lname, "B");
    assert_eq!(row.age, 30);
    assert_eq!(row.title, "Eng");
    assert_eq!(store.len(), 1);
}

#[test]
fn insert_disregards_a_submitted_identifier() {
    let mut store = Store::new();
    let mut form = full("A", "B", 30, "Eng");
    form.id = Some(500);
    assert_eq!(store.insert(&form).unwrap(), 1);
    assert!(matches!(store.get(500), Err(StoreError::NotFound)));
    assert_eq!(store.get(1).unwrap().fname, "A");
}

#[test]
fn identifiers_count_up_and_are_not_handed_out_twice() {
    let mut store = three();
    assert_eq!(store.delete(3), 1);
    assert_eq!(store.insert(&full("G", "H", 60, "Art")).unwrap(), 4);
    assert_eq!(store.delete(1), 1);
    assert_eq!(store.insert(&full("I", "J", 70, "Sea")).unwrap(), 5);
    let ids: Vec<i32> = store.list().iter().map(|row| row.id).collect();
    assert_eq!(ids, vec![2, 4, 5]);
}

#[test]
fn list_keeps_the_order_of_insertion() {
    let store = three();
    let rows = store.list();
    assert_eq!(rows.len(), 3);
    assert_eq!(rows[0].fname, "A");
    assert_eq!(rows[1].fname, "C");
    assert_eq!(rows[2].fname, "E");
    assert_eq!(rows[2].id, 3);
}

#[test]
fn insert_without_a_column_is_a_validation_error() {
    let mut store = three();
    let mut form = full("A", "B", 30, "Eng");
    form.lname = None;
    match store.insert(&form) {
        Err(StoreError::ValidationError { message }) => assert_eq!(
            message,
            "null value in column \"lname\" of relation \"employees\" violates not-null constraint"
        ),
        other => panic!("expected a validation error, got {:?}", other),
    }
    assert_eq!(store.len(), 3);
    assert_eq!(store.insert(&full("G", "H", 60, "Art")).unwrap(), 4);
}

#[test]
fn insert_names_the_first_missing_column() {
    let mut store = Store::new();
    let cases = [("fname", 0), ("lname", 1), ("age", 2), ("title", 3)];
    for (name, missing) in cases {
        let mut form = full("A", "B", 30, "Eng");
        match missing {
            0 => form.fname = None,
            1 => form.lname = None,
            2 => form.age = None,
            _ => form.title = None,
        }
        let error = store.insert(&form).unwrap_err();
        assert!(matches!(error, StoreError::ValidationError { .. }));
        assert_eq!(
            error.message(),
            format!(
                "null value in column \"{}\" of relation \"employees\" violates not-null constraint",
                name
            )
        );
    }
    assert_eq!(store.insert(&nothing()).unwrap_err().message().contains("\"fname\""), true);
    assert_eq!(store.len(), 0);
}

#[test]
fn insert_fails_when_no_identifier_is_left() {
    let mut store = Store::starting_after(i32::MAX - 1);
    assert_eq!(store.insert(&full("A", "B", 30, "Eng")).unwrap(), i32::MAX);
    match store.insert(&full("C", "D", 40, "Ops")) {
        Err(StoreError::PersistenceError { message }) => assert_eq!(
            message,
            "nextval: reached maximum value of sequence \"employees_id_seq\" (2147483647)"
        ),
        other => panic!("expected a persistence error, got {:?}", other),
    }
    assert_eq!(store.len(), 1);
    assert_eq!(store.get(i32::MAX).unwrap().fname, "A");
}

#[test]
fn an_incomplete_form_is_refused_before_the_identifiers_are_looked_at() {
    let mut store = Store::starting_after(i32::MAX);
    assert!(matches!(store.insert(&only_age(3)), Err(StoreError::ValidationError { .. })));
    assert!(matches!(
        store.insert(&full("A", "B", 30, "Eng")),
        Err(StoreError::PersistenceError { .. })
    ));
    assert_eq!(store.len(), 0);
}

#[test]
fn starting_after_a_negative_number_starts_at_one() {
    let mut store = Store::starting_after(-5);
    assert_eq!(store.insert(&full("A", "B", 30, "Eng")).unwrap(), 1);
    let mut later = Store::starting_after(41);
    assert_eq!(later.insert(&full("A", "B", 30, "Eng")).unwrap(), 42);
}

#[test]
fn update_overwrites_the_given_columns_only() {
    let mut store = three();
    assert_eq!(store.update(2, &only_age(41)), 1);
    let row = store.get(2).unwrap();
    assert_eq!(row.id, 2);
    assert_eq!(row.fname, "C");
    assert_eq!(row.lname, "D");
    assert_eq!(row.age, 41);
    assert_eq!(row.title, "Ops");
}

#[test]
fn update_leaves_the_other_rows_alone() {
    let mut store = three();
    assert_eq!(store.update(2, &full("X", "Y", 1, "Z")), 1);
    let rows = store.list();
    assert_eq!(rows.len(), 3);
    assert_eq!((rows[0].id, rows[0].fname.as_str(), rows[0].age), (1, "A", 30));
    assert_eq!((rows[1].id, rows[1].fname.as_str(), rows[1].age), (2, "X", 1));
    assert_eq!((rows[2].id, rows[2].fname.as_str(), rows[2].age), (3, "E", 50));
}

#[test]
fn update_never_writes_the_identifier() {
    let mut store = three();
    let mut form = only_age(33);
    form.id = Some(77);
    assert_eq!(store.update(3, &form), 1);
    assert_eq!(store.get(3).unwrap().age, 33);
    assert!(matches!(store.get(77), Err(StoreError::NotFound)));
}

#[test]
fn update_with_nothing_given_touches_the_row_and_changes_nothing() {
    let mut store = three();
    assert_eq!(store.update(1, &nothing()), 1);
    let row = store.get(1).unwrap();
    assert_eq!((row.fname.as_str(), row.lname.as_str(), row.age, row.title.as_str()), ("A", "B", 30, "Eng"));
}

#[test]
fn update_of_a_missing_row_touches_nothing() {
    let mut store = three();
    assert_eq!(store.update(999999, &only_age(1)), 0);
    assert_eq!(store.update(0, &only_age(1)), 0);
    assert_eq!(store.update(-1, &only_age(1)), 0);
    let ages: Vec<i32> = store.list().iter().map(|row| row.age).collect();
    assert_eq!(ages, vec![30, 40, 50]);
}

#[test]
fn delete_then_get_is_not_found() {
    let mut store = three();
    assert_eq!(store.delete(2), 1);
    assert!(matches!(store.get(2), Err(StoreError::NotFound)));
    assert_eq!(store.len(), 2);
    assert_eq!(store.get(1).unwrap().fname, "A");
    assert_eq!(store.get(3).unwrap().fname, "E");
}

#[test]
fn delete_of_a_missing_row_touches_nothing() {
    let mut store = three();
    assert_eq!(store.delete(999999), 0);
    assert_eq!(store.len(), 3);
    assert_eq!(store.delete(1), 1);
    assert_eq!(store.delete(1), 0);
    assert_eq!(store.len(), 2);
}

#[test]
fn get_hands_out_a_copy() {
    let store = three();
    let mut row = store.get(1).unwrap();
    row.age = 99;
    assert_eq!(store.get(1).unwrap().age, 30);
}

#[test]
fn messages_of_the_failures() {
    assert_eq!(StoreError::NotFound.message(), "Record not found");
    assert_eq!(
        StoreError::PersistenceError { message: "connection refused".to_string() }.message(),
        "connection refused"
    );
    assert_eq!(
        StoreError::ValidationError { message: "bad".to_string() }.clone().message(),
        "bad"
    );
}

#[test]
fn a_backend_s_failure_is_sorted_into_three_kinds() {
    assert!(matches!(StoreError::classify(Failure::NoRow, "gone".to_string()), StoreError::NotFound));
    match StoreError::classify(Failure::NotNullViolation, "null value".to_string()) {
        StoreError::ValidationError { message } => assert_eq!(message, "null value"),
        other => panic!("expected a validation error, got {:?}", other),
    }
    match StoreError::classify(Failure::Other, "connection refused".to_string()) {
        StoreError::PersistenceError { message } => assert_eq!(message, "connection refused"),
        other => panic!("expected a persistence error, got {:?}", other),
    }
}
