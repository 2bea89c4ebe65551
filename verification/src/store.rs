//! The employee table: the one place that owns the rows.
//!
//! The table assigns identifiers itself, counting up from 1, and never hands
//! one out twice. Its five operations are stated first over [`StoreView`],
//! the table as a sequence of rows, and then carried out by [`Store`].

use vstd::prelude::*;
use crate::errors::{outcome_view, StoreError, StoreErrorView};
use crate::forms::{EmployeeForm, EmployeeFormView};
use crate::models::{clone_rows, found_view, views, Employee, EmployeeView};

verus! {

/// The table in contracts: its rows in the order they are listed, and the
/// identifier that was assigned last.
pub struct StoreView {
    pub rows: Seq<EmployeeView>,
    pub last_id: i32,
}

impl StoreView {
    /// The table before anything was inserted.
    pub open spec fn empty() -> StoreView {
        StoreView { rows: Seq::empty(), last_id: 0 }
    }

    /// What holds of every table: each identifier was assigned by the table,
    /// and no two rows share one.
    pub open spec fn wf(self) -> bool {
        &&& 0 <= self.last_id
        &&& forall|i: int|
            0 <= i < self.rows.len() ==> 1 <= (#[trigger] self.rows[i]).id <= self.last_id
        &&& forall|i: int, j: int|
            0 <= i < j < self.rows.len() ==> (#[trigger] self.rows[i]).id != (
            #[trigger] self.rows[j]).id
    }

    /// Whether some row has the identifier `id`.
    pub open spec fn contains(self, id: i32) -> bool {
        exists|i: int| 0 <= i < self.rows.len() && (#[trigger] self.rows[i]).id == id
    }

    /// Where the row with the identifier `id` stands, if there is one.
    pub open spec fn position(self, id: i32) -> int {
        choose|i: int| 0 <= i < self.rows.len() && (#[trigger] self.rows[i]).id == id
    }

    /// The row with the identifier `id`, or that there is none.
    pub open spec fn get(self, id: i32) -> Result<EmployeeView, StoreErrorView> {
        if self.contains(id) {
            Ok(self.rows[self.position(id)])
        } else {
            Err(StoreErrorView::NotFound)
        }
    }

    /// What inserting `form` answers: the new identifier, or why no row was
    /// added. An incomplete form is refused before anything else is looked
    /// at.
    pub open spec fn insert_result(self, form: EmployeeFormView) -> Result<i32, StoreErrorView> {
        if form.first_missing() is Some {
            Err(StoreErrorView::not_null(form.first_missing()->0))
        } else if self.last_id == i32::MAX {
            Err(StoreErrorView::exhausted())
        } else {
            Ok((self.last_id + 1) as i32)
        }
    }

    /// The table after inserting `form`: one row more at the end where the
    /// insertion succeeds, and the same table where it does not.
    pub open spec fn after_insert(self, form: EmployeeFormView) -> StoreView {
        match self.insert_result(form) {
            Ok(id) => StoreView { rows: self.rows.push(form.record(id)), last_id: id },
            Err(_) => self,
        }
    }

    /// How many rows an update or a deletion by `id` touches.
    pub open spec fn affected(self, id: i32) -> usize {
        if self.contains(id) {
            1
        } else {
            0
        }
    }

    /// The table after the row with the identifier `id` took the columns
    /// that `form` gives.
    pub open spec fn after_update(self, id: i32, form: EmployeeFormView) -> StoreView {
        if self.contains(id) {
            let at = self.position(id);
            StoreView { rows: self.rows.update(at, form.apply(self.rows[at])), ..self }
        } else {
            self
        }
    }

    /// The table after the row with the identifier `id` was taken out.
    pub open spec fn after_delete(self, id: i32) -> StoreView {
        if self.contains(id) {
            StoreView { rows: self.rows.remove(self.position(id)), ..self }
        } else {
            self
        }
    }
}

/// In a table, a row that has the identifier `id` stands where
/// [`StoreView::position`] says.
pub proof fn lemma_position_is_unique(table: StoreView, id: i32, at: int)
    requires
        table.wf(),
        0 <= at < table.rows.len(),
        table.rows[at].id == id,
    ensures
        table.contains(id),
        table.position(id) == at,
{
}

/// Inserting keeps the table a table: the new identifier is above every
/// identifier handed out before.
pub proof fn lemma_insert_keeps_wf(table: StoreView, form: EmployeeFormView)
    requires
        table.wf(),
    ensures
        table.after_insert(form).wf(),
        table.after_insert(form).last_id >= table.last_id,
{
    let after = table.after_insert(form);
    if table.insert_result(form) is Ok {
        assert forall|i: int| 0 <= i < after.rows.len() implies 1 <= (#[trigger] after.rows[i]).id
            <= after.last_id by {
            if i < table.rows.len() {
                assert(after.rows[i] == table.rows[i]);
            }
        }
        assert forall|i: int, j: int| 0 <= i < j < after.rows.len() implies (
        #[trigger] after.rows[i]).id != (#[trigger] after.rows[j]).id by {
            assert(after.rows[i] == table.rows[i]);
            if j < table.rows.len() {
                assert(after.rows[j] == table.rows[j]);
            }
        }
    }
}

/// Updating keeps the table a table: no identifier changes.
pub proof fn lemma_update_keeps_wf(table: StoreView, id: i32, form: EmployeeFormView)
    requires
        table.wf(),
    ensures
        table.after_update(id, form).wf(),
        table.after_update(id, form).rows.len() == table.rows.len(),
        forall|i: int|
            0 <= i < table.rows.len() ==> (#[trigger] table.after_update(id, form).rows[i]).id
                == table.rows[i].id,
{
    let after = table.after_update(id, form);
    assert forall|i: int, j: int| 0 <= i < j < after.rows.len() implies (
    #[trigger] after.rows[i]).id != (#[trigger] after.rows[j]).id by {
        assert(after.rows[i].id == table.rows[i].id);
        assert(after.rows[j].id == table.rows[j].id);
    }
}

/// Deleting keeps the table a table.
pub proof fn lemma_delete_keeps_wf(table: StoreView, id: i32)
    requires
        table.wf(),
    ensures
        table.after_delete(id).wf(),
{
    let after = table.after_delete(id);
    if table.contains(id) {
        let at = table.position(id);
        assert forall|i: int| 0 <= i < after.rows.len() implies 1 <= (#[trigger] after.rows[i]).id
            <= after.last_id by {
            assert(after.rows[i] == table.rows[if i < at { i } else { i + 1 }]);
        }
        assert forall|i: int, j: int| 0 <= i < j < after.rows.len() implies (
        #[trigger] after.rows[i]).id != (#[trigger] after.rows[j]).id by {
            assert(after.rows[i] == table.rows[if i < at { i } else { i + 1 }]);
            assert(after.rows[j] == table.rows[if j < at { j } else { j + 1 }]);
        }
    }
}

/// A complete form that is inserted can be read back: the row found under
/// the identifier that the insertion answered has the form's four fields.
/// The one way a complete form is turned away is that no identifier is left,
/// and then the table stays as it was.
pub proof fn lemma_insert_then_get(table: StoreView, form: EmployeeFormView)
    requires
        table.wf(),
        form.complete(),
    ensures
        match table.insert_result(form) {
            Ok(id) => {
                &&& !table.contains(id)
                &&& table.after_insert(form).get(id) == Ok::<EmployeeView, StoreErrorView>(
                    EmployeeView {
                        id,
                        fname: form.fname->0,
                        lname: form.lname->0,
                        age: form.age->0,
                        title: form.title->0,
                    },
                )
            },
            Err(error) => {
                &&& table.last_id == i32::MAX
                &&& error == StoreErrorView::exhausted()
                &&& table.after_insert(form) == table
            },
        },
{
    if table.insert_result(form) is Ok {
        let id = table.insert_result(form)->Ok_0;
        lemma_insert_keeps_wf(table, form);
        lemma_position_is_unique(table.after_insert(form), id, table.rows.len() as int);
    }
}

/// Inserting leaves every row that was there before as it was.
pub proof fn lemma_insert_keeps_rows(table: StoreView, form: EmployeeFormView, other: i32)
    requires
        table.wf(),
        table.contains(other),
    ensures
        table.after_insert(form).get(other) == table.get(other),
{
    if table.insert_result(form) is Ok {
        lemma_insert_keeps_wf(table, form);
        lemma_position_is_unique(table.after_insert(form), other, table.position(other));
    }
}

/// After an update, the row read back is the old row with exactly the given
/// columns overwritten: a column that the form leaves out keeps its value,
/// and so does the identifier.
pub proof fn lemma_update_then_get(table: StoreView, id: i32, form: EmployeeFormView)
    requires
        table.wf(),
        table.contains(id),
    ensures
        table.affected(id) == 1,
        table.after_update(id, form).get(id) == Ok::<EmployeeView, StoreErrorView>(
            form.apply(table.get(id)->Ok_0),
        ),
        form.apply(table.get(id)->Ok_0).id == id,
        form.fname is None ==> form.apply(table.get(id)->Ok_0).fname == (table.get(id)->Ok_0).fname,
        form.lname is None ==> form.apply(table.get(id)->Ok_0).lname == (table.get(id)->Ok_0).lname,
        form.age is None ==> form.apply(table.get(id)->Ok_0).age == (table.get(id)->Ok_0).age,
        form.title is None ==> form.apply(table.get(id)->Ok_0).title == (table.get(id)->Ok_0).title,
{
    lemma_update_keeps_wf(table, id, form);
    lemma_position_is_unique(table.after_update(id, form), id, table.position(id));
}

/// An update touches no row but the one it names.
pub proof fn lemma_update_keeps_others(
    table: StoreView,
    id: i32,
    form: EmployeeFormView,
    other: i32,
)
    requires
        table.wf(),
        other != id,
    ensures
        table.after_update(id, form).get(other) == table.get(other),
{
    let after = table.after_update(id, form);
    lemma_update_keeps_wf(table, id, form);
    if table.contains(other) {
        lemma_position_is_unique(after, other, table.position(other));
    } else if after.contains(other) {
        let at = after.position(other);
        assert(table.rows[at].id == after.rows[at].id);
    }
}

/// A row that was deleted is not found again.
pub proof fn lemma_delete_then_get(table: StoreView, id: i32)
    requires
        table.wf(),
    ensures
        !table.after_delete(id).contains(id),
        table.after_delete(id).get(id) == Err::<EmployeeView, StoreErrorView>(
            StoreErrorView::NotFound,
        ),
        table.after_delete(id).rows.len() == table.rows.len() - table.affected(id),
{
    let after = table.after_delete(id);
    if table.contains(id) {
        let at = table.position(id);
        if after.contains(id) {
            let k = after.position(id);
            assert(after.rows[k] == table.rows[if k < at { k } else { k + 1 }]);
        }
    }
}

/// A deletion touches no row but the one it names.
pub proof fn lemma_delete_keeps_others(table: StoreView, id: i32, other: i32)
    requires
        table.wf(),
        other != id,
    ensures
        table.after_delete(id).get(other) == table.get(other),
{
    let after = table.after_delete(id);
    lemma_delete_keeps_wf(table, id);
    if table.contains(id) {
        let gone = table.position(id);
        if table.contains(other) {
            let at = table.position(other);
            lemma_position_is_unique(after, other, if at < gone { at } else { at - 1 });
        } else if after.contains(other) {
            let k = after.position(other);
            assert(after.rows[k] == table.rows[if k < gone { k } else { k + 1 }]);
        }
    }
}

/// An update or a deletion that names an identifier no row has touches
/// nothing and answers 0; it is not a failure.
pub proof fn lemma_absent_is_untouched(table: StoreView, id: i32, form: EmployeeFormView)
    requires
        !table.contains(id),
    ensures
        table.affected(id) == 0,
        table.after_update(id, form) == table,
        table.after_delete(id) == table,
{
}

/// A form that lacks a column is refused with a validation error that names
/// the first such column, and no row is added.
pub proof fn lemma_incomplete_insert_is_refused(table: StoreView, form: EmployeeFormView)
    requires
        !form.complete(),
    ensures
        form.first_missing() is Some,
        table.insert_result(form) == Err::<i32, StoreErrorView>(
            StoreErrorView::not_null(form.first_missing()->0),
        ),
        table.insert_result(form)->Err_0 is ValidationError,
        table.after_insert(form) == table,
        table.after_insert(form).rows.len() == table.rows.len(),
{
}

/// The employee table.
pub struct Store {
    rows: Vec<Employee>,
    last_id: i32,
}

impl View for Store {
    type V = StoreView;

    closed spec fn view(&self) -> StoreView {
        StoreView { rows: views(self.rows@), last_id: self.last_id }
    }
}

impl Store {
    /// A table without rows.
    pub fn new() -> (store: Store)
        ensures
            store@ == StoreView::empty(),
            store@.wf(),
    {
        let store = Store { rows: Vec::new(), last_id: 0 };
        assert(store@.rows =~= Seq::<EmployeeView>::empty());
        store
    }

    /// A table without rows whose identifiers go on after `last_id`, as a
    /// table does that held rows before. A negative `last_id` counts as 0.
    pub fn starting_after(last_id: i32) -> (store: Store)
        ensures
            store@ == (StoreView {
                rows: Seq::empty(),
                last_id: if last_id < 0 { 0 } else { last_id },
            }),
            store@.wf(),
    {
        let store = Store { rows: Vec::new(), last_id: if last_id < 0 { 0 } else { last_id } };
        assert(store@.rows =~= Seq::<EmployeeView>::empty());
        store
    }

    /// How many rows the table holds.
    pub fn len(&self) -> (len: usize)
        ensures
            len == self@.rows.len(),
    {
        self.rows.len()
    }

    fn find(&self, id: i32) -> (found: Option<usize>)
        requires
            self@.wf(),
        ensures
            match found {
                Some(at) => self@.contains(id) && at == self@.position(id),
                None => !self@.contains(id),
            },
    {
        let mut i: usize = 0;
        while i < self.rows.len()
            invariant
                i <= self.rows.len(),
                self@.wf(),
                forall|k: int| 0 <= k < i ==> (#[trigger] self@.rows[k]).id != id,
            decreases self.rows.len() - i,
        {
            if self.rows[i].id == id {
                proof {
                    lemma_position_is_unique(self@, id, i as int);
                }
                return Some(i);
            }
            i += 1;
        }
        None
    }

    /// Every row, in the order the table holds them.
    pub fn list(&self) -> (rows: Vec<Employee>)
        ensures
            views(rows@) == self@.rows,
    {
        clone_rows(&self.rows)
    }

    /// The row with the identifier `id`; `NotFound` when there is none.
    pub fn get(&self, id: i32) -> (found: Result<Employee, StoreError>)
        requires
            self@.wf(),
        ensures
            found_view(found) == self@.get(id),
    {
        match self.find(id) {
            Some(at) => Ok(self.rows[at].clone()),
            None => Err(StoreError::NotFound),
        }
    }

    /// Adds the row that `form` describes under an identifier of the table's
    /// own choosing, and answers that identifier. An identifier in the form
    /// is disregarded. A form that lacks a column is refused with
    /// `ValidationError`; a complete form is refused with `PersistenceError`
    /// once the last identifier, `i32::MAX`, has been handed out. Where the
    /// form is refused the table stays as it was.
    pub fn insert(&mut self, form: &EmployeeForm) -> (inserted: Result<i32, StoreError>)
        requires
            old(self)@.wf(),
        ensures
            final(self)@ == old(self)@.after_insert(form@),
            final(self)@.wf(),
            outcome_view(inserted) == old(self)@.insert_result(form@),
    {
        if self.last_id == i32::MAX {
            return match form.first_missing() {
                Some(column) => Err(StoreError::not_null(column)),
                None => Err(StoreError::exhausted()),
            };
        }
        let id: i32 = self.last_id + 1;
        match form.record(id) {
            Err(column) => Err(StoreError::not_null(column)),
            Ok(employee) => {
                self.last_id = id;
                self.rows.push(employee);
                assert(self@.rows =~= old(self)@.rows.push(form@.record(id)));
                Ok(id)
            },
        }
    }

    /// Overwrites, in the row with the identifier `id`, the columns that
    /// `form` gives, and answers how many rows were touched: 1, or 0 when no
    /// row has that identifier. Columns that the form leaves out, and the
    /// identifier, keep their value.
    pub fn update(&mut self, id: i32, form: &EmployeeForm) -> (affected: usize)
        requires
            old(self)@.wf(),
        ensures
            final(self)@ == old(self)@.after_update(id, form@),
            final(self)@.wf(),
            affected == old(self)@.affected(id),
    {
        match self.find(id) {
            Some(at) => {
                let mut row = self.rows[at].clone();
                form.apply(&mut row);
                self.rows.set(at, row);
                assert(self@.rows =~= old(self)@.rows.update(
                    at as int,
                    form@.apply(old(self)@.rows[at as int]),
                ));
                1
            },
            None => 0,
        }
    }

    /// Takes out the row with the identifier `id` and answers how many rows
    /// were touched: 1, or 0 when no row has that identifier.
    pub fn delete(&mut self, id: i32) -> (affected: usize)
        requires
            old(self)@.wf(),
        ensures
            final(self)@ == old(self)@.after_delete(id),
            final(self)@.wf(),
            affected == old(self)@.affected(id),
    {
        match self.find(id) {
            Some(at) => {
                self.rows.remove(at);
                assert(self@.rows =~= old(self)@.rows.remove(at as int));
                1
            },
            None => 0,
        }
    }
}

} // verus!
