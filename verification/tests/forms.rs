use employee_api::forms::{Assignment, Column, EmployeeForm};
use employee_api::models::Employee;

fn form(
    id: Option<i32>,
    fname: Option<&str>,
    lname: Option<&str>,
    age: Option<i32>,
    title: Option<&str>,
) -> EmployeeForm {
    EmployeeForm {
        id,
        fname: fname.map(String::from),
        lname: lname.map(String::from),
        age,
        title: title.map(String::from),
    }
}

fn ada() -> Employee {
    Employee {
        id: 7,
        fname: "Ada".to_string(),
        lname: "Lovelace".to_string(),
        age: 36,
        title: "Analyst".to_string(),
    }
}

#[test]
fn column_names_are_the_table_s() {
    assert_eq!(Column::Fname.name(), "fname");
    assert_eq!(Column::Lname.name(), "lname");
    assert_eq!(Column::Age.name(), "age");
    assert_eq!(Column::Title.name(), "title");
}

#[test]
fn without_id_clears_the_identifier_only() {
    let cleared = form(Some(5), Some("A"), None, Some(30), Some("Eng")).without_id();
    assert_eq!(cleared.id, None);
    assert_eq!(cleared.fname.as_deref(), Some("A"));
    assert_eq!(cleared.lname, None);
    assert_eq!(cleared.age, Some(30));
    assert_eq!(cleared.title.as_deref(), Some("Eng"));
}

#[test]
fn first_missing_goes_by_table_order() {
    assert_eq!(form(None, None, None, None, None).first_missing(), Some(Column::Fname));
    assert_eq!(form(None, Some("A"), None, None, None).first_missing(), Some(Column::Lname));
    assert_eq!(form(None, Some("A"), Some("B"), None, None).first_missing(), Some(Column::Age));
    assert_eq!(
        form(None, Some("A"), Some("B"), Some(1), None).first_missing(),
        Some(Column::Title)
    );
    assert_eq!(form(None, None, Some("B"), Some(1), Some("T")).first_missing(), Some(Column::Fname));
    assert_eq!(form(None, Some("A"), Some("B"), Some(1), Some("T")).first_missing(), None);
}

#[test]
fn a_form_is_complete_without_an_identifier() {
    assert!(form(None, Some("A"), Some("B"), Some(1), Some("T")).is_complete());
    assert!(form(Some(3), Some("A"), Some("B"), Some(1), Some("T")).is_complete());
    assert!(!form(Some(3), Some("A"), Some("B"), None, Some("T")).is_complete());
    assert!(!form(Some(3), None, None, None, None).is_complete());
}

#[test]
fn record_takes_the_given_identifier() {
    let row = form(Some(99), Some("A"), Some("B"), Some(30), Some("Eng")).record(4).unwrap();
    assert_eq!(row.id, 4);
    assert_eq!(row.fname, "A");
    assert_eq!(row.lname, "B");
    assert_eq!(row.age, 30);
    assert_eq!(row.title, "Eng");
}

#[test]
fn record_names_the_first_missing_column() {
    assert_eq!(
        form(None, Some("A"), None, None, Some("Eng")).record(1).unwrap_err(),
        Column::Lname
    );
    assert_eq!(form(None, Some("A"), Some("B"), Some(1), None).record(1).unwrap_err(), Column::Title);
}

#[test]
fn changeset_holds_the_given_columns_in_table_order() {
    let set = form(Some(1), Some("A"), None, Some(31), Some("Eng")).changeset();
    assert_eq!(set.len(), 3);
    assert!(matches!(&set[0], Assignment::Fname(v) if v == "A"));
    assert!(matches!(&set[1], Assignment::Age(31)));
    assert!(matches!(&set[2], Assignment::Title(v) if v == "Eng"));
    assert_eq!(set[0].column(), Column::Fname);
    assert_eq!(set[1].column(), Column::Age);
    assert_eq!(set[2].column(), Column::Title);
}

#[test]
fn changeset_never_holds_the_identifier() {
    assert!(form(Some(12), None, None, None, None).changeset().is_empty());
    assert_eq!(form(Some(12), None, Some("B"), None, None).changeset().len(), 1);
    assert_eq!(form(None, Some("A"), Some("B"), Some(1), Some("T")).changeset().len(), 4);
}

#[test]
fn an_assignment_writes_one_column() {
    let mut row = ada();
    Assignment::Lname("Byron".to_string()).assign(&mut row);
    assert_eq!(row.id, 7);
    assert_eq!(row.fname, "Ada");
    assert_eq!(row.lname, "Byron");
    assert_eq!(row.age, 36);
    assert_eq!(row.title, "Analyst");
    Assignment::Age(37).assign(&mut row);
    assert_eq!(row.age, 37);
    assert_eq!(row.lname, "Byron");
}

#[test]
fn apply_overwrites_the_given_columns_only() {
    let mut row = ada();
    form(Some(1000), None, None, Some(31), None).apply(&mut row);
    assert_eq!(row.id, 7);
    assert_eq!(row.fname, "Ada");
    assert_eq!(row.lname, "Lovelace");
    assert_eq!(row.age, 31);
    assert_eq!(row.title, "Analyst");
}

#[test]
fn apply_of_an_empty_form_changes_nothing() {
    let mut row = ada();
    form(None, None, None, None, None).apply(&mut row);
    assert_eq!(row.id, 7);
    assert_eq!(row.fname, "Ada");
    assert_eq!(row.lname, "Lovelace");
    assert_eq!(row.age, 36);
    assert_eq!(row.title, "Analyst");
}

#[test]
fn apply_of_a_full_form_keeps_the_identifier() {
    let mut row = ada();
    form(Some(1), Some("Grace"), Some("Hopper"), Some(85), Some("Admiral")).apply(&mut row);
    assert_eq!(row.id, 7);
    assert_eq!(row.fname, "Grace");
    assert_eq!(row.lname, "Hopper");
    assert_eq!(row.age, 85);
    assert_eq!(row.title, "Admiral");
}

#[test]
fn a_text_column_may_be_set_to_the_empty_string() {
    let mut row = ada();
    form(None, None, None, None, Some("")).apply(&mut row);
    assert_eq!(row.title, "");
    assert_eq!(row.fname, "Ada");
}

#[test]
fn clones_are_equal_field_by_field() {
    let original = form(Some(2), Some("A"), None, Some(3), None);
    let copy = original.clone();
    assert_eq!(copy.id, Some(2));
    assert_eq!(copy.fname.as_deref(), Some("A"));
    assert_eq!(copy.lname, None);
    assert_eq!(copy.age, Some(3));
    assert_eq!(copy.title, None);
    let row = ada().clone();
    assert_eq!(row.id, 7);
    assert_eq!(row.fname, "Ada");
    assert_eq!(row.title, "Analyst");
}
