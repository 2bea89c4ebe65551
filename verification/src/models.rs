//! The record kept for each employee, and the list returned when all of
//! them are asked for.

use vstd::prelude::*;
use crate::errors::{StoreError, StoreErrorView};

verus! {

/// One employee as stored: every field is populated.
#[derive(Debug)]
pub struct Employee {
    pub id: i32,
    pub fname: String,
    pub lname: String,
    pub age: i32,
    pub title: String,
}

/// What an [`Employee`] means in contracts.
pub struct EmployeeView {
    pub id: i32,
    pub fname: Seq<char>,
    pub lname: Seq<char>,
    pub age: i32,
    pub title: Seq<char>,
}

impl View for Employee {
    type V = EmployeeView;

    open spec fn view(&self) -> EmployeeView {
        EmployeeView {
            id: self.id,
            fname: self.fname@,
            lname: self.lname@,
            age: self.age,
            title: self.title@,
        }
    }
}

impl Clone for Employee {
    fn clone(&self) -> (copy: Self)
        ensures
            copy == *self,
    {
        Employee {
            id: self.id,
            fname: self.fname.clone(),
            lname: self.lname.clone(),
            age: self.age,
            title: self.title.clone(),
        }
    }
}

/// The outcome of looking one employee up, as contracts see it.
pub open spec fn found_view(found: Result<Employee, StoreError>) -> Result<
    EmployeeView,
    StoreErrorView,
> {
    match found {
        Ok(employee) => Ok(employee@),
        Err(error) => Err(error@),
    }
}

/// The views of a run of employees, in the same order.
pub open spec fn views(rows: Seq<Employee>) -> Seq<EmployeeView> {
    rows.map_values(|e: Employee| e@)
}

/// Every employee of one listing, in the order the table holds them.
#[derive(Debug)]
pub struct EmployeeList {
    pub results: Vec<Employee>,
}

impl View for EmployeeList {
    type V = Seq<EmployeeView>;

    open spec fn view(&self) -> Seq<EmployeeView> {
        views(self.results@)
    }
}

/// Copies a run of employees, one by one.
pub fn clone_rows(rows: &Vec<Employee>) -> (copy: Vec<Employee>)
    ensures
        copy@ == rows@,
{
    let mut copy: Vec<Employee> = Vec::new();
    let mut i: usize = 0;
    while i < rows.len()
        invariant
            i <= rows.len(),
            copy@ == rows@.subrange(0, i as int),
        decreases rows.len() - i,
    {
        copy.push(rows[i].clone());
        i += 1;
    }
    copy
}

impl Clone for EmployeeList {
    fn clone(&self) -> (copy: Self)
        ensures
            copy.results@ == self.results@,
            copy@ == self@,
    {
        EmployeeList { results: clone_rows(&self.results) }
    }
}

} // verus!
