//! The change set a client submits: the fields of an employee, each one
//! either given or left out.
//!
//! A form is used twice. On creation every column but the identifier must be
//! given. On update only the given columns are written; a column that was
//! left out keeps what the table holds, and the identifier is never written.

use vstd::prelude::*;
use crate::models::{Employee, EmployeeView};

verus! {

/// A column a client may write. The identifier is not among them: the table
/// alone assigns it.
#[derive(Clone, Copy, Debug, PartialEq, Eq, Structural)]
pub enum Column {
    Fname,
    Lname,
    Age,
    Title,
}

impl Column {
    /// The column's name in the table.
    pub open spec fn name_spec(self) -> Seq<char> {
        match self {
            Column::Fname => "fname"@,
            Column::Lname => "lname"@,
            Column::Age => "age"@,
            Column::Title => "title"@,
        }
    }

    /// The column's name in the table.
    pub fn name(self) -> (name: &'static str)
        ensures
            name@ == self.name_spec(),
    {
        match self {
            Column::Fname => "fname",
            Column::Lname => "lname",
            Column::Age => "age",
            Column::Title => "title",
        }
    }
}

/// One column together with the value to store in it.
#[derive(Debug)]
pub enum Assignment {
    Fname(String),
    Lname(String),
    Age(i32),
    Title(String),
}

/// What an [`Assignment`] means in contracts.
pub enum AssignmentView {
    Fname(Seq<char>),
    Lname(Seq<char>),
    Age(i32),
    Title(Seq<char>),
}

impl AssignmentView {
    /// The column that is written.
    pub open spec fn column(self) -> Column {
        match self {
            AssignmentView::Fname(_) => Column::Fname,
            AssignmentView::Lname(_) => Column::Lname,
            AssignmentView::Age(_) => Column::Age,
            AssignmentView::Title(_) => Column::Title,
        }
    }

    /// The row after the one column has been written.
    pub open spec fn assign(self, row: EmployeeView) -> EmployeeView {
        match self {
            AssignmentView::Fname(v) => EmployeeView { fname: v, ..row },
            AssignmentView::Lname(v) => EmployeeView { lname: v, ..row },
            AssignmentView::Age(v) => EmployeeView { age: v, ..row },
            AssignmentView::Title(v) => EmployeeView { title: v, ..row },
        }
    }
}

impl View for Assignment {
    type V = AssignmentView;

    open spec fn view(&self) -> AssignmentView {
        match self {
            Assignment::Fname(v) => AssignmentView::Fname(v@),
            Assignment::Lname(v) => AssignmentView::Lname(v@),
            Assignment::Age(v) => AssignmentView::Age(*v),
            Assignment::Title(v) => AssignmentView::Title(v@),
        }
    }
}

impl Assignment {
    /// The column that is written.
    pub fn column(&self) -> (column: Column)
        ensures
            column == self@.column(),
    {
        match self {
            Assignment::Fname(_) => Column::Fname,
            Assignment::Lname(_) => Column::Lname,
            Assignment::Age(_) => Column::Age,
            Assignment::Title(_) => Column::Title,
        }
    }

    /// Writes the one column into `row` and leaves the others, the
    /// identifier among them, as they are.
    pub fn assign(&self, row: &mut Employee)
        ensures
            final(row)@ == self@.assign(old(row)@),
    {
        match self {
            Assignment::Fname(v) => {
                row.fname = v.clone();
            },
            Assignment::Lname(v) => {
                row.lname = v.clone();
            },
            Assignment::Age(v) => {
                row.age = *v;
            },
            Assignment::Title(v) => {
                row.title = v.clone();
            },
        }
    }
}

/// The views of a run of assignments, in the same order.
pub open spec fn assignment_views(set: Seq<Assignment>) -> Seq<AssignmentView> {
    set.map_values(|a: Assignment| a@)
}

/// The row after every assignment of `set` has been written, first to last.
pub open spec fn assign_all(set: Seq<AssignmentView>, row: EmployeeView) -> EmployeeView
    decreases set.len(),
{
    if set.len() == 0 {
        row
    } else {
        set.last().assign(assign_all(set.drop_last(), row))
    }
}

/// Writing a set that ends in `last` is writing the rest, then `last`.
pub proof fn lemma_assign_all_push(
    set: Seq<AssignmentView>,
    last: AssignmentView,
    row: EmployeeView,
)
    ensures
        assign_all(set.push(last), row) == last.assign(assign_all(set, row)),
{
    assert(set.push(last).drop_last() =~= set);
}

/// A client's change set: each field given or left out.
#[derive(Debug)]
pub struct EmployeeForm {
    pub id: Option<i32>,
    pub fname: Option<String>,
    pub lname: Option<String>,
    pub age: Option<i32>,
    pub title: Option<String>,
}

/// What an [`EmployeeForm`] means in contracts.
pub struct EmployeeFormView {
    pub id: Option<i32>,
    pub fname: Option<Seq<char>>,
    pub lname: Option<Seq<char>>,
    pub age: Option<i32>,
    pub title: Option<Seq<char>>,
}

/// The view of a text field that may have been left out.
pub open spec fn text_view(field: Option<String>) -> Option<Seq<char>> {
    match field {
        Some(text) => Some(text@),
        None => None,
    }
}

impl View for EmployeeForm {
    type V = EmployeeFormView;

    open spec fn view(&self) -> EmployeeFormView {
        EmployeeFormView {
            id: self.id,
            fname: text_view(self.fname),
            lname: text_view(self.lname),
            age: self.age,
            title: text_view(self.title),
        }
    }
}

impl EmployeeFormView {
    /// The same form with the identifier left out.
    pub open spec fn without_id(self) -> EmployeeFormView {
        EmployeeFormView { id: None, ..self }
    }

    /// The first column, in table order, that a new row needs and the form
    /// does not give.
    pub open spec fn first_missing(self) -> Option<Column> {
        if self.fname is None {
            Some(Column::Fname)
        } else if self.lname is None {
            Some(Column::Lname)
        } else if self.age is None {
            Some(Column::Age)
        } else if self.title is None {
            Some(Column::Title)
        } else {
            None
        }
    }

    /// Whether the form gives every column that a new row needs.
    pub open spec fn complete(self) -> bool {
        self.fname is Some && self.lname is Some && self.age is Some && self.title is Some
    }

    /// The row that a complete form describes, under the identifier `id`.
    /// An identifier in the form itself is disregarded.
    pub open spec fn record(self, id: i32) -> EmployeeView
        recommends
            self.complete(),
    {
        EmployeeView {
            id,
            fname: self.fname->0,
            lname: self.lname->0,
            age: self.age->0,
            title: self.title->0,
        }
    }

    /// `row` with every given column overwritten. Columns that were left out
    /// keep their value, and so does the identifier, whatever the form says
    /// of it.
    pub open spec fn apply(self, row: EmployeeView) -> EmployeeView {
        EmployeeView {
            id: row.id,
            fname: if self.fname is Some { self.fname->0 } else { row.fname },
            lname: if self.lname is Some { self.lname->0 } else { row.lname },
            age: if self.age is Some { self.age->0 } else { row.age },
            title: if self.title is Some { self.title->0 } else { row.title },
        }
    }

    /// The assignments that the form asks for: one for each given column, in
    /// table order, and none for the identifier.
    pub open spec fn changeset(self) -> Seq<AssignmentView> {
        let set = Seq::<AssignmentView>::empty();
        let set = match self.fname {
            Some(value) => set.push(AssignmentView::Fname(value)),
            None => set,
        };
        let set = match self.lname {
            Some(value) => set.push(AssignmentView::Lname(value)),
            None => set,
        };
        let set = match self.age {
            Some(value) => set.push(AssignmentView::Age(value)),
            None => set,
        };
        let set = match self.title {
            Some(value) => set.push(AssignmentView::Title(value)),
            None => set,
        };
        set
    }

    /// How many columns the form gives, the identifier not counted.
    pub open spec fn given(self) -> nat {
        let n: nat = 0;
        let n = if self.fname is Some { n + 1 } else { n };
        let n = if self.lname is Some { n + 1 } else { n };
        let n = if self.age is Some { n + 1 } else { n };
        let n = if self.title is Some { n + 1 } else { n };
        n as nat
    }
}

/// Writing a form's assignments one after the other gives the row that
/// [`EmployeeFormView::apply`] describes: exactly the given columns are
/// overwritten.
pub proof fn lemma_changeset_applies(form: EmployeeFormView, row: EmployeeView)
    ensures
        assign_all(form.changeset(), row) == form.apply(row),
        form.changeset().len() == form.given(),
{
    let mut set = Seq::<AssignmentView>::empty();
    if form.fname is Some {
        lemma_assign_all_push(set, AssignmentView::Fname(form.fname->0), row);
        set = set.push(AssignmentView::Fname(form.fname->0));
    }
    if form.lname is Some {
        lemma_assign_all_push(set, AssignmentView::Lname(form.lname->0), row);
        set = set.push(AssignmentView::Lname(form.lname->0));
    }
    if form.age is Some {
        lemma_assign_all_push(set, AssignmentView::Age(form.age->0), row);
        set = set.push(AssignmentView::Age(form.age->0));
    }
    if form.title is Some {
        lemma_assign_all_push(set, AssignmentView::Title(form.title->0), row);
    }
}

/// Copies a text field that may have been left out.
pub fn clone_text(field: &Option<String>) -> (copy: Option<String>)
    ensures
        copy == *field,
{
    match field {
        Some(text) => Some(text.clone()),
        None => None,
    }
}

impl Clone for EmployeeForm {
    fn clone(&self) -> (copy: Self)
        ensures
            copy == *self,
    {
        EmployeeForm {
            id: self.id,
            fname: clone_text(&self.fname),
            lname: clone_text(&self.lname),
            age: self.age,
            title: clone_text(&self.title),
        }
    }
}

impl EmployeeForm {
    /// The same form with the identifier left out.
    pub fn without_id(self) -> (form: EmployeeForm)
        ensures
            form@ == self@.without_id(),
    {
        EmployeeForm {
            id: None,
            fname: self.fname,
            lname: self.lname,
            age: self.age,
            title: self.title,
        }
    }

    /// The first column, in table order, that a new row needs and the form
    /// does not give; `None` when the form is complete.
    pub fn first_missing(&self) -> (missing: Option<Column>)
        ensures
            missing == self@.first_missing(),
            missing is None <==> self@.complete(),
    {
        if self.fname.is_none() {
            Some(Column::Fname)
        } else if self.lname.is_none() {
            Some(Column::Lname)
        } else if self.age.is_none() {
            Some(Column::Age)
        } else if self.title.is_none() {
            Some(Column::Title)
        } else {
            None
        }
    }

    /// Whether the form gives every column that a new row needs.
    pub fn is_complete(&self) -> (complete: bool)
        ensures
            complete == self@.complete(),
    {
        self.fname.is_some() && self.lname.is_some() && self.age.is_some() && self.title.is_some()
    }

    /// The row that the form describes under the identifier `id`, or the
    /// first column that is missing from it.
    pub fn record(&self, id: i32) -> (row: Result<Employee, Column>)
        ensures
            row is Ok <==> self@.complete(),
            match row {
                Ok(employee) => self@.complete() && employee@ == self@.record(id),
                Err(column) => self@.first_missing() == Some(column),
            },
    {
        match (&self.fname, &self.lname, &self.age, &self.title) {
            (Some(fname), Some(lname), Some(age), Some(title)) => Ok(
                Employee {
                    id,
                    fname: fname.clone(),
                    lname: lname.clone(),
                    age: *age,
                    title: title.clone(),
                },
            ),
            (None, _, _, _) => Err(Column::Fname),
            (Some(_), None, _, _) => Err(Column::Lname),
            (Some(_), Some(_), None, _) => Err(Column::Age),
            (Some(_), Some(_), Some(_), None) => Err(Column::Title),
        }
    }

    /// The assignments that the form asks for: one for each given column, in
    /// table order, and none for the identifier.
    pub fn changeset(&self) -> (set: Vec<Assignment>)
        ensures
            assignment_views(set@) == self@.changeset(),
    {
        let mut set: Vec<Assignment> = Vec::new();
        if let Some(fname) = &self.fname {
            set.push(Assignment::Fname(fname.clone()));
        }
        if let Some(lname) = &self.lname {
            set.push(Assignment::Lname(lname.clone()));
        }
        if let Some(age) = &self.age {
            set.push(Assignment::Age(*age));
        }
        if let Some(title) = &self.title {
            set.push(Assignment::Title(title.clone()));
        }
        set
    }

    /// Overwrites in `row` every column that the form gives, by writing the
    /// form's assignments one after the other.
    pub fn apply(&self, row: &mut Employee)
        ensures
            final(row)@ == self@.apply(old(row)@),
    {
        let set = self.changeset();
        let ghost all = assignment_views(set@);
        let mut i: usize = 0;
        while i < set.len()
            invariant
                i <= set.len(),
                all == assignment_views(set@),
                row@ == assign_all(all.take(i as int), old(row)@),
            decreases set.len() - i,
        {
            set[i].assign(row);
            proof {
                assert(all.take(i + 1) =~= all.take(i as int).push(all[i as int]));
                lemma_assign_all_push(all.take(i as int), all[i as int], old(row)@);
            }
            i += 1;
        }
        proof {
            assert(all.take(set.len() as int) =~= all);
            lemma_changeset_applies(self@, old(row)@);
        }
    }
}

} // verus!
