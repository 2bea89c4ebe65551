//! Requests and responses as plain values: a method, a status, an optional
//! location and a payload.

use vstd::prelude::*;
use crate::models::{Employee, EmployeeList, EmployeeView};

verus! {

/// The status of a response that carries what was asked for.
pub const OK: u16 = 200;

/// The status of a response to a creation that succeeded.
pub const CREATED: u16 = 201;

/// The status of a response that succeeded and has nothing to carry.
pub const NO_CONTENT: u16 = 204;

/// The status of a response to a request that was refused.
pub const BAD_REQUEST: u16 = 400;

/// The status of a response when what was asked for does not exist.
pub const NOT_FOUND: u16 = 404;

/// The method of a request.
#[derive(Clone, Copy, Debug, PartialEq, Eq, Structural)]
pub enum Method {
    Get,
    Put,
    Post,
    Delete,
    Options,
    Head,
    Trace,
    Connect,
    Patch,
}

/// What a response carries. Records are handed over as values, for the
/// caller to write; a message is handed over as the JSON text to send.
#[derive(Debug)]
pub enum Body {
    Empty,
    Employee(Employee),
    Employees(EmployeeList),
    Json(String),
}

/// What a [`Body`] means in contracts.
pub enum BodyView {
    Empty,
    Employee(EmployeeView),
    Employees(Seq<EmployeeView>),
    Json(Seq<char>),
}

impl View for Body {
    type V = BodyView;

    open spec fn view(&self) -> BodyView {
        match self {
            Body::Empty => BodyView::Empty,
            Body::Employee(employee) => BodyView::Employee(employee@),
            Body::Employees(list) => BodyView::Employees(list@),
            Body::Json(text) => BodyView::Json(text@),
        }
    }
}

/// The answer to one request.
#[derive(Debug)]
pub struct Response {
    pub status: u16,
    pub location: Option<String>,
    pub body: Body,
}

/// What a [`Response`] means in contracts.
pub struct ResponseView {
    pub status: u16,
    pub location: Option<Seq<char>>,
    pub body: BodyView,
}

impl View for Response {
    type V = ResponseView;

    open spec fn view(&self) -> ResponseView {
        ResponseView {
            status: self.status,
            location: match self.location {
                Some(location) => Some(location@),
                None => None,
            },
            body: self.body@,
        }
    }
}

impl ResponseView {
    /// The media type of the payload: JSON for every payload, none where
    /// there is no payload.
    pub open spec fn content_type(self) -> Option<Seq<char>> {
        if self.body is Empty {
            None
        } else {
            Some("application/json"@)
        }
    }

    /// 200 with one employee.
    pub open spec fn employee(employee: EmployeeView) -> ResponseView {
        ResponseView { status: OK, location: None, body: BodyView::Employee(employee) }
    }

    /// 200 with a listing.
    pub open spec fn employees(rows: Seq<EmployeeView>) -> ResponseView {
        ResponseView { status: OK, location: None, body: BodyView::Employees(rows) }
    }

    /// 201 with the place to look for what was created, and no payload.
    pub open spec fn created(location: Seq<char>) -> ResponseView {
        ResponseView { status: CREATED, location: Some(location), body: BodyView::Empty }
    }

    /// 204 with no payload.
    pub open spec fn no_content() -> ResponseView {
        ResponseView { status: NO_CONTENT, location: None, body: BodyView::Empty }
    }

    /// 400 with the JSON text `payload`.
    pub open spec fn bad_request(payload: Seq<char>) -> ResponseView {
        ResponseView { status: BAD_REQUEST, location: None, body: BodyView::Json(payload) }
    }

    /// 404 with no payload.
    pub open spec fn absent() -> ResponseView {
        ResponseView { status: NOT_FOUND, location: None, body: BodyView::Empty }
    }

    /// 404 with the JSON text `payload`.
    pub open spec fn unmatched(payload: Seq<char>) -> ResponseView {
        ResponseView { status: NOT_FOUND, location: None, body: BodyView::Json(payload) }
    }
}

impl Response {
    /// The media type of the payload: JSON for every payload, none where
    /// there is no payload.
    pub fn content_type(&self) -> (media: Option<&'static str>)
        ensures
            match media {
                Some(name) => self@.content_type() == Some(name@),
                None => self@.content_type() is None,
            },
    {
        match &self.body {
            Body::Empty => None,
            _ => Some("application/json"),
        }
    }

    /// 200 with one employee.
    pub fn employee(employee: Employee) -> (response: Response)
        ensures
            response@ == ResponseView::employee(employee@),
    {
        Response { status: OK, location: None, body: Body::Employee(employee) }
    }

    /// 200 with a listing.
    pub fn employees(list: EmployeeList) -> (response: Response)
        ensures
            response@ == ResponseView::employees(list@),
    {
        Response { status: OK, location: None, body: Body::Employees(list) }
    }

    /// 201 with the place to look for what was created, and no payload.
    pub fn created(location: String) -> (response: Response)
        ensures
            response@ == ResponseView::created(location@),
    {
        Response { status: CREATED, location: Some(location), body: Body::Empty }
    }

    /// 204 with no payload.
    pub fn no_content() -> (response: Response)
        ensures
            response@ == ResponseView::no_content(),
    {
        Response { status: NO_CONTENT, location: None, body: Body::Empty }
    }

    /// 400 with the JSON text `payload`.
    pub fn bad_request(payload: String) -> (response: Response)
        ensures
            response@ == ResponseView::bad_request(payload@),
    {
        Response { status: BAD_REQUEST, location: None, body: Body::Json(payload) }
    }

    /// 404 with no payload.
    pub fn absent() -> (response: Response)
        ensures
            response@ == ResponseView::absent(),
    {
        Response { status: NOT_FOUND, location: None, body: Body::Empty }
    }

    /// 404 with the JSON text `payload`.
    pub fn unmatched(payload: String) -> (response: Response)
        ensures
            response@ == ResponseView::unmatched(payload@),
    {
        Response { status: NOT_FOUND, location: None, body: Body::Json(payload) }
    }
}

} // verus!
