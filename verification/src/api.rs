//! The five operations on employees and the responder for requests that no
//! route serves: what each does to the table, and the response it gives.

use vstd::prelude::*;
use crate::errors::{not_null_message, outcome_view, ApiError, StoreError, StoreErrorView};
use crate::forms::{EmployeeForm, EmployeeFormView};
use crate::http::{Method, Response, ResponseView, BAD_REQUEST, NOT_FOUND};
use crate::json::{object_text, render_object};
use crate::models::{found_view, views, Employee, EmployeeList, EmployeeView};
use crate::store::{
    lemma_delete_then_get, lemma_incomplete_insert_is_refused, lemma_insert_then_get,
    lemma_update_then_get, Store, StoreView,
};

verus! {

/// The payload of a refusal: a flat object that carries `message` under
/// `error`.
pub open spec fn error_payload(message: Seq<char>) -> Seq<char> {
    object_text("error"@, message)
}

/// The payload sent when no route serves a request: a flat object that
/// carries `not found` under `message`.
pub open spec fn not_found_payload() -> Seq<char> {
    object_text("message"@, "not found"@)
}

/// The response to a listing: 200 with every row.
pub open spec fn list_response(rows: Seq<EmployeeView>) -> ResponseView {
    ResponseView::employees(rows)
}

/// The response to a lookup: 200 with the row, or 404 without a payload
/// whatever the reason the row could not be had.
pub open spec fn get_response(found: Result<EmployeeView, StoreErrorView>) -> ResponseView {
    match found {
        Ok(employee) => ResponseView::employee(employee),
        Err(_) => ResponseView::absent(),
    }
}

/// The response to a creation: 201 that points at the collection, or 400
/// with the failure's message.
pub open spec fn put_response(inserted: Result<i32, StoreErrorView>) -> ResponseView {
    match inserted {
        Ok(_) => ResponseView::created("/employees"@),
        Err(error) => ResponseView::bad_request(error_payload(error.message())),
    }
}

/// The response to an update: 204 however many rows were touched, none
/// included, or 400 with the failure's message.
pub open spec fn update_response(updated: Result<usize, StoreErrorView>) -> ResponseView {
    match updated {
        Ok(_) => ResponseView::no_content(),
        Err(error) => ResponseView::bad_request(error_payload(error.message())),
    }
}

/// The response to a deletion: 204 where a row was taken out, 404 without a
/// payload where none was.
pub open spec fn delete_response(affected: usize) -> ResponseView {
    if affected >= 1 {
        ResponseView::no_content()
    } else {
        ResponseView::absent()
    }
}

/// The response to a request that no route serves.
pub open spec fn not_found_response() -> ResponseView {
    ResponseView::unmatched(not_found_payload())
}

impl ApiError {
    /// The JSON text of this payload: a flat object that carries the message
    /// under `message`.
    pub fn payload(&self) -> (text: String)
        ensures
            text@ == object_text("message"@, self@),
    {
        render_object("message", self.message.as_str())
    }
}

/// 400 with `message` as the reason.
pub fn refuse(message: &str) -> (response: Response)
    ensures
        response@ == ResponseView::bad_request(error_payload(message@)),
{
    Response::bad_request(render_object("error", message))
}

/// Answers a request that no route serves: 404 with `{"message": "not found"}`.
pub fn not_found() -> (response: Response)
    ensures
        response@ == not_found_response(),
{
    let error = ApiError { message: "not found".to_owned() };
    Response::unmatched(error.payload())
}

/// Turns the rows of a listing into its response.
pub fn respond_list(rows: Vec<Employee>) -> (response: Response)
    ensures
        response@ == list_response(views(rows@)),
{
    Response::employees(EmployeeList { results: rows })
}

/// Turns the outcome of a lookup into its response.
pub fn respond_get(found: Result<Employee, StoreError>) -> (response: Response)
    ensures
        response@ == get_response(found_view(found)),
{
    match found {
        Ok(employee) => Response::employee(employee),
        Err(_) => Response::absent(),
    }
}

/// Turns the outcome of an insertion into its response.
pub fn respond_put(inserted: Result<i32, StoreError>) -> (response: Response)
    ensures
        response@ == put_response(outcome_view(inserted)),
{
    match inserted {
        Ok(_) => Response::created("/employees".to_owned()),
        Err(error) => {
            let message = error.message();
            refuse(message.as_str())
        },
    }
}

/// Turns the outcome of an update into its response.
pub fn respond_update(updated: Result<usize, StoreError>) -> (response: Response)
    ensures
        response@ == update_response(outcome_view(updated)),
{
    match updated {
        Ok(_) => Response::no_content(),
        Err(error) => {
            let message = error.message();
            refuse(message.as_str())
        },
    }
}

/// Turns the number of rows that a deletion touched into its response.
pub fn respond_delete(affected: usize) -> (response: Response)
    ensures
        response@ == delete_response(affected),
{
    if affected >= 1 {
        Response::no_content()
    } else {
        Response::absent()
    }
}

/// Lists every employee: 200 with all rows, in the table's order.
pub fn employee_list(store: &Store) -> (response: Response)
    ensures
        response@ == list_response(store@.rows),
{
    let results = store.list();
    respond_list(results)
}

/// Looks one employee up: 200 with the row, 404 without a payload where no
/// row has the identifier.
pub fn employee_get(store: &Store, employee_id: i32) -> (response: Response)
    requires
        store@.wf(),
    ensures
        response@ == get_response(store@.get(employee_id)),
{
    respond_get(store.get(employee_id))
}

/// Creates an employee from a form. An identifier in the form is cleared
/// first: the table alone assigns one. 201 that points at the collection
/// where a row was added; 400 with the reason, and the table as it was,
/// where none was.
pub fn employee_put(store: &mut Store, json_employee: EmployeeForm) -> (response: Response)
    requires
        old(store)@.wf(),
    ensures
        final(store)@.wf(),
        final(store)@ == old(store)@.after_insert(json_employee@.without_id()),
        response@ == put_response(old(store)@.insert_result(json_employee@.without_id())),
{
    let new_employee = json_employee.without_id();
    let inserted = store.insert(&new_employee);
    respond_put(inserted)
}

/// Updates the employee that the route names with the columns that the form
/// gives. An identifier in the form is disregarded. 204 whether or not a
/// row has the identifier.
pub fn employee_update(
    store: &mut Store,
    employee_id: i32,
    json_employee: EmployeeForm,
) -> (response: Response)
    requires
        old(store)@.wf(),
    ensures
        final(store)@.wf(),
        final(store)@ == old(store)@.after_update(employee_id, json_employee@),
        response@ == update_response(
            Ok::<usize, StoreErrorView>(old(store)@.affected(employee_id)),
        ),
        response@ == ResponseView::no_content(),
{
    let affected = store.update(employee_id, &json_employee);
    respond_update(Ok(affected))
}

/// Deletes the employee that the route names: 204 where a row was taken
/// out, 404 without a payload where no row has the identifier.
pub fn employee_delete(store: &mut Store, employee_id: i32) -> (response: Response)
    requires
        old(store)@.wf(),
    ensures
        final(store)@.wf(),
        final(store)@ == old(store)@.after_delete(employee_id),
        response@ == delete_response(old(store)@.affected(employee_id)),
{
    let deleted = store.delete(employee_id);
    respond_delete(deleted)
}

/// A complete form that is put can be got: creating answers 201, and a
/// lookup by the identifier that was assigned answers 200 with the form's
/// four fields under that identifier. The one way a complete form is turned
/// away is that no identifier is left; the answer is then 400 and the table
/// stays as it was.
pub proof fn lemma_created_is_served(table: StoreView, form: EmployeeFormView)
    requires
        table.wf(),
        form.complete(),
    ensures
        match table.insert_result(form.without_id()) {
            Ok(id) => {
                &&& put_response(table.insert_result(form.without_id())) == ResponseView::created(
                    "/employees"@,
                )
                &&& get_response(table.after_insert(form.without_id()).get(id))
                    == ResponseView::employee(
                    EmployeeView {
                        id,
                        fname: form.fname->0,
                        lname: form.lname->0,
                        age: form.age->0,
                        title: form.title->0,
                    },
                )
            },
            Err(_) => {
                &&& table.last_id == i32::MAX
                &&& put_response(table.insert_result(form.without_id())).status == BAD_REQUEST
                &&& table.after_insert(form.without_id()) == table
            },
        },
{
    lemma_insert_then_get(table, form.without_id());
}

/// After an update of a row that exists, a lookup answers 200 with the old
/// row in which exactly the given columns are overwritten; the update
/// itself answers 204.
pub proof fn lemma_updated_is_served(table: StoreView, id: i32, form: EmployeeFormView)
    requires
        table.wf(),
        table.contains(id),
    ensures
        update_response(Ok::<usize, StoreErrorView>(table.affected(id)))
            == ResponseView::no_content(),
        get_response(table.after_update(id, form).get(id)) == ResponseView::employee(
            form.apply(table.get(id)->Ok_0),
        ),
{
    lemma_update_then_get(table, id, form);
}

/// After a deletion, a lookup by the same identifier answers 404 without a
/// payload, whether or not a row was there to delete.
pub proof fn lemma_deleted_is_absent(table: StoreView, id: i32)
    requires
        table.wf(),
    ensures
        get_response(table.after_delete(id).get(id)) == ResponseView::absent(),
        delete_response(table.after_delete(id).affected(id)) == ResponseView::absent(),
{
    lemma_delete_then_get(table, id);
}

/// An identifier that no row has is no failure: an update answers 204, a
/// deletion and a lookup answer 404 without a payload, and the table stays
/// as it was.
pub proof fn lemma_absent_is_no_failure(table: StoreView, id: i32, form: EmployeeFormView)
    requires
        !table.contains(id),
    ensures
        update_response(Ok::<usize, StoreErrorView>(table.affected(id)))
            == ResponseView::no_content(),
        delete_response(table.affected(id)) == ResponseView::absent(),
        get_response(table.get(id)) == ResponseView::absent(),
        table.after_update(id, form) == table,
        table.after_delete(id) == table,
{
}

/// A form that lacks a column cannot be put: the answer is 400 with the
/// message that names the first such column, and no row is added.
pub proof fn lemma_incomplete_is_refused(table: StoreView, form: EmployeeFormView)
    requires
        !form.complete(),
    ensures
        form.first_missing() is Some,
        put_response(table.insert_result(form.without_id())) == ResponseView::bad_request(
            error_payload(not_null_message(form.first_missing()->0)),
        ),
        table.after_insert(form.without_id()) == table,
{
    lemma_incomplete_insert_is_refused(table, form.without_id());
}

/// The operation that a route leads to.
#[derive(Clone, Copy, Debug, PartialEq, Eq, Structural)]
pub enum Handler {
    EmployeeList,
    EmployeeGet,
    EmployeePut,
    EmployeeUpdate,
    EmployeeDelete,
}

/// One line of the route table: a method, a path pattern, the media type of
/// what is exchanged, and the operation served.
#[derive(Debug)]
pub struct Route {
    pub method: Method,
    pub path: String,
    pub format: String,
    pub handler: Handler,
}

/// What a [`Route`] means in contracts.
pub struct RouteView {
    pub method: Method,
    pub path: Seq<char>,
    pub format: Seq<char>,
    pub handler: Handler,
}

impl View for Route {
    type V = RouteView;

    open spec fn view(&self) -> RouteView {
        RouteView {
            method: self.method,
            path: self.path@,
            format: self.format@,
            handler: self.handler,
        }
    }
}

/// The views of a run of routes, in the same order.
pub open spec fn route_views(table: Seq<Route>) -> Seq<RouteView> {
    table.map_values(|route: Route| route@)
}

/// The line of the route table for `handler`: every route exchanges JSON.
pub open spec fn route_for(handler: Handler) -> RouteView {
    let (method, path) = match handler {
        Handler::EmployeeList => (Method::Get, "/employees"@),
        Handler::EmployeeGet => (Method::Get, "/employees/<employee_id>"@),
        Handler::EmployeePut => (Method::Put, "/employees"@),
        Handler::EmployeeUpdate => (Method::Post, "/employees/<employee_id>"@),
        Handler::EmployeeDelete => (Method::Delete, "/employees/<employee_id>"@),
    };
    RouteView { method, path, format: "application/json"@, handler }
}

/// The route table.
pub open spec fn routes() -> Seq<RouteView> {
    seq![
        route_for(Handler::EmployeeList),
        route_for(Handler::EmployeeGet),
        route_for(Handler::EmployeePut),
        route_for(Handler::EmployeeUpdate),
        route_for(Handler::EmployeeDelete),
    ]
}

/// A responder for the requests that end in one status.
#[derive(Clone, Copy, Debug, PartialEq, Eq, Structural)]
pub struct Catcher {
    pub code: u16,
}

fn route(method: Method, path: &str, handler: Handler) -> (route: Route)
    ensures
        route@ == (RouteView { method, path: path@, format: "application/json"@, handler }),
{
    Route { method, path: path.to_owned(), format: "application/json".to_owned(), handler }
}

/// The route table: one line for each of the five operations.
pub fn gen_routes() -> (table: Vec<Route>)
    ensures
        route_views(table@) == routes(),
{
    let mut table: Vec<Route> = Vec::new();
    table.push(route(Method::Get, "/employees", Handler::EmployeeList));
    table.push(route(Method::Get, "/employees/<employee_id>", Handler::EmployeeGet));
    table.push(route(Method::Put, "/employees", Handler::EmployeePut));
    table.push(route(Method::Post, "/employees/<employee_id>", Handler::EmployeeUpdate));
    table.push(route(Method::Delete, "/employees/<employee_id>", Handler::EmployeeDelete));
    table
}

/// The responders for failed requests: a single one, for status 404, which
/// answers as [`not_found`] does.
pub fn gen_errors() -> (catchers: Vec<Catcher>)
    ensures
        catchers@ == seq![Catcher { code: NOT_FOUND }],
{
    let mut catchers: Vec<Catcher> = Vec::new();
    catchers.push(Catcher { code: NOT_FOUND });
    catchers
}

} // verus!
