//! From a method and a path to the operation that serves them.
//!
//! Two paths are served: the collection, `/employees`, and one member of
//! it, `/employees/` followed by the member's identifier in decimal.
//! Everything else is answered by the responder for unmatched requests.

use vstd::prelude::*;
use vstd::string::is_ascii_spec_bytes;
use vstd::utf8::is_ascii_chars;
use crate::api::{
    delete_response, employee_delete, employee_get, employee_list, employee_put,
    employee_update, error_payload, get_response, list_response, not_found, not_found_response,
    put_response, refuse, route_for, routes, update_response, Handler,
};
use crate::errors::StoreErrorView;
use crate::forms::{EmployeeForm, EmployeeFormView};
use crate::http::{Method, Response, ResponseView};
use crate::store::{Store, StoreView};

verus! {

/// The byte of `-` in ASCII.
const MINUS: u8 = 45;

/// The byte of `+` in ASCII.
const PLUS: u8 = 43;

/// The byte of `0` in ASCII.
const ZERO: u8 = 48;

/// The byte of `9` in ASCII.
const NINE: u8 = 57;

/// Whether `c` is one of the ten decimal digits.
pub open spec fn is_digit(c: char) -> bool {
    '0' <= c && c <= '9'
}

/// Whether `text` holds decimal digits only.
pub open spec fn all_digits(text: Seq<char>) -> bool {
    forall|i: int| 0 <= i < text.len() ==> is_digit(#[trigger] text[i])
}

/// The number that a run of decimal digits spells; 0 for the empty run.
pub open spec fn decimal(digits: Seq<char>) -> int
    decreases digits.len(),
{
    if digits.len() == 0 {
        0
    } else {
        10 * decimal(digits.drop_last()) + (digits.last() as int - '0' as int)
    }
}

/// The identifier that a path segment spells: an optional `+` or `-`, then
/// one or more decimal digits, the whole within the range of `i32`.
/// `None` for every other segment.
pub open spec fn id_of(segment: Seq<char>) -> Option<i32> {
    let signed = segment.len() > 0 && (segment[0] == '-' || segment[0] == '+');
    let negative = segment.len() > 0 && segment[0] == '-';
    let digits = if signed {
        segment.drop_first()
    } else {
        segment
    };
    let value = if negative {
        -decimal(digits)
    } else {
        decimal(digits)
    };
    if digits.len() > 0 && all_digits(digits) && i32::MIN <= value <= i32::MAX {
        Some(value as i32)
    } else {
        None
    }
}

/// What a request asks for.
#[derive(Clone, Copy, Debug, PartialEq, Eq, Structural)]
pub enum Target {
    List,
    Get(i32),
    Create,
    Update(i32),
    Delete(i32),
    NotFound,
}

impl Target {
    /// The operation that serves the target, if one does.
    pub open spec fn handler(self) -> Option<Handler> {
        match self {
            Target::List => Some(Handler::EmployeeList),
            Target::Get(_) => Some(Handler::EmployeeGet),
            Target::Create => Some(Handler::EmployeePut),
            Target::Update(_) => Some(Handler::EmployeeUpdate),
            Target::Delete(_) => Some(Handler::EmployeeDelete),
            Target::NotFound => None,
        }
    }
}

/// The path of the collection.
pub open spec fn collection_path() -> Seq<char> {
    "/employees"@
}

/// What every path of a member starts with.
pub open spec fn member_prefix() -> Seq<char> {
    "/employees/"@
}

/// What is asked for on the collection.
pub open spec fn collection_target(method: Method) -> Target {
    match method {
        Method::Get => Target::List,
        Method::Put => Target::Create,
        _ => Target::NotFound,
    }
}

/// What is asked for on the member with the identifier `id`.
pub open spec fn member_target(method: Method, id: i32) -> Target {
    match method {
        Method::Get => Target::Get(id),
        Method::Post => Target::Update(id),
        Method::Delete => Target::Delete(id),
        _ => Target::NotFound,
    }
}

/// What a request with this method and path asks for.
pub open spec fn target_of(method: Method, path: Seq<char>) -> Target {
    let prefix = member_prefix();
    if path == collection_path() {
        collection_target(method)
    } else if path.len() > prefix.len() && path.subrange(0, prefix.len() as int) == prefix {
        match id_of(path.subrange(prefix.len() as int, path.len() as int)) {
            Some(id) => member_target(method, id),
            None => Target::NotFound,
        }
    } else {
        Target::NotFound
    }
}

/// A run of digits spells at least what any of its beginnings spells.
proof fn lemma_decimal_grows(digits: Seq<char>, k: int)
    requires
        all_digits(digits),
        0 <= k <= digits.len(),
    ensures
        0 <= decimal(digits.take(k)) <= decimal(digits),
    decreases digits.len(),
{
    if digits.len() > 0 {
        let shorter = digits.drop_last();
        assert(all_digits(shorter));
        if k == digits.len() {
            assert(digits.take(k) =~= digits);
            lemma_decimal_grows(shorter, 0);
        } else {
            assert(shorter.take(k) =~= digits.take(k));
            lemma_decimal_grows(shorter, k);
        }
    }
}

/// A segment with a character outside ASCII spells no identifier.
proof fn lemma_id_is_ascii(segment: Seq<char>)
    requires
        !is_ascii_chars(segment),
    ensures
        id_of(segment) is None,
{
    let k = choose|k: int| 0 <= k < segment.len() && !('\0' <= #[trigger] segment[k] <= '\u{7f}');
    let signed = segment.len() > 0 && (segment[0] == '-' || segment[0] == '+');
    let digits = if signed {
        segment.drop_first()
    } else {
        segment
    };
    let at = if signed {
        k - 1
    } else {
        k
    };
    assert(digits[at] == segment[k] && !is_digit(digits[at]));
}

/// Compares two ASCII strings.
fn ascii_eq(a: &str, b: &str) -> (same: bool)
    requires
        is_ascii_chars(a@),
        is_ascii_chars(b@),
    ensures
        same == (a@ == b@),
{
    let x = a.as_bytes();
    let y = b.as_bytes();
    proof {
        is_ascii_spec_bytes(a);
        is_ascii_spec_bytes(b);
    }
    if x.len() != y.len() {
        return false;
    }
    let mut i: usize = 0;
    while i < x.len()
        invariant
            i <= x.len(),
            x.len() == y.len(),
            x@.len() == a@.len(),
            y@.len() == b@.len(),
            is_ascii_chars(a@),
            is_ascii_chars(b@),
            forall|k: int| 0 <= k < a@.len() ==> #[trigger] x@[k] == a@[k] as u8,
            forall|k: int| 0 <= k < b@.len() ==> #[trigger] y@[k] == b@[k] as u8,
            forall|k: int| 0 <= k < i ==> #[trigger] a@[k] == b@[k],
        decreases x.len() - i,
    {
        if x[i] != y[i] {
            return false;
        }
        i += 1;
    }
    assert(a@ =~= b@);
    true
}

/// Reads the identifier that a path segment spells: an optional `+` or `-`,
/// then one or more decimal digits, the whole within the range of `i32`.
pub fn parse_id(segment: &str) -> (id: Option<i32>)
    ensures
        id == id_of(segment@),
{
    if !segment.is_ascii() {
        proof {
            lemma_id_is_ascii(segment@);
        }
        return None;
    }
    let bytes = segment.as_bytes();
    proof {
        is_ascii_spec_bytes(segment);
    }
    let n = bytes.len();
    if n == 0 {
        return None;
    }
    let negative = bytes[0] == MINUS;
    let start: usize = if bytes[0] == MINUS || bytes[0] == PLUS {
        1
    } else {
        0
    };
    let ghost digits = segment@.subrange(start as int, n as int);
    if start == n {
        return None;
    }
    let limit: i64 = if negative {
        2147483648
    } else {
        2147483647
    };
    let mut value: i64 = 0;
    let mut i: usize = start;
    while i < n
        invariant
            start <= i <= n,
            n == bytes@.len(),
            n == segment@.len(),
            is_ascii_chars(segment@),
            forall|k: int| 0 <= k < n ==> #[trigger] bytes@[k] == segment@[k] as u8,
            start == 1 <==> segment@[0] == '-' || segment@[0] == '+',
            negative <==> segment@[0] == '-',
            limit == if negative { 2147483648i64 } else { 2147483647i64 },
            digits == segment@.subrange(start as int, n as int),
            digits == if start == 1 { segment@.drop_first() } else { segment@ },
            all_digits(digits.take(i - start)),
            value == decimal(digits.take(i - start)),
            0 <= value <= limit,
        decreases n - i,
    {
        let byte = bytes[i];
        if byte < ZERO || byte > NINE {
            assert(!is_digit(digits[i - start]));
            return None;
        }
        let next: i64 = value * 10 + (byte - ZERO) as i64;
        proof {
            let longer = digits.take(i - start + 1);
            assert(longer.drop_last() =~= digits.take(i - start));
            assert(all_digits(longer));
        }
        if next > limit {
            proof {
                if all_digits(digits) {
                    lemma_decimal_grows(digits, i - start + 1);
                }
            }
            return None;
        }
        value = next;
        i += 1;
    }
    assert(digits.take(n - start) =~= digits);
    if negative {
        Some((-value) as i32)
    } else {
        Some(value as i32)
    }
}

/// Finds what a request with this method and path asks for.
pub fn resolve(method: Method, path: &str) -> (target: Target)
    ensures
        target == target_of(method, path@),
{
    let collection = "/employees";
    let prefix = "/employees/";
    proof {
        reveal_strlit("/employees");
        reveal_strlit("/employees/");
    }
    if !path.is_ascii() {
        proof {
            let k = choose|k: int|
                0 <= k < path@.len() && !('\0' <= #[trigger] path@[k] <= '\u{7f}');
            if path@.len() > prefix@.len() && path@.subrange(0, prefix@.len() as int) == prefix@ {
                let segment = path@.subrange(prefix@.len() as int, path@.len() as int);
                if k < prefix@.len() {
                    assert(path@.subrange(0, prefix@.len() as int)[k] == path@[k]);
                } else {
                    assert(segment[k - prefix@.len()] == path@[k]);
                }
                lemma_id_is_ascii(segment);
            }
        }
        return Target::NotFound;
    }
    proof {
        is_ascii_spec_bytes(path);
        is_ascii_spec_bytes(prefix);
    }
    if ascii_eq(path, collection) {
        return match method {
            Method::Get => Target::List,
            Method::Put => Target::Create,
            _ => Target::NotFound,
        };
    }
    let end = path.as_bytes().len();
    let start = prefix.as_bytes().len();
    if end <= start || !ascii_eq(path.substring_ascii(0, start), prefix) {
        return Target::NotFound;
    }
    match parse_id(path.substring_ascii(start, end)) {
        Some(id) => match method {
            Method::Get => Target::Get(id),
            Method::Post => Target::Update(id),
            Method::Delete => Target::Delete(id),
            _ => Target::NotFound,
        },
        None => Target::NotFound,
    }
}

/// Every operation that a request can reach stands in the route table,
/// under the method of the request.
pub proof fn lemma_target_has_route(method: Method, path: Seq<char>)
    ensures
        match target_of(method, path).handler() {
            Some(handler) => routes().contains(route_for(handler)) && route_for(handler).method
                == method,
            None => target_of(method, path) == Target::NotFound,
        },
{
}

/// One request: its method, its path, and its body as far as it could be
/// decoded. A body that could not be decoded comes with the decoder's
/// message. Only the routes that take a body look at it.
#[derive(Debug)]
pub struct Request {
    pub method: Method,
    pub path: String,
    pub body: Result<EmployeeForm, String>,
}

/// What a [`Request`] means in contracts.
pub struct RequestView {
    pub method: Method,
    pub path: Seq<char>,
    pub body: Result<EmployeeFormView, Seq<char>>,
}

impl View for Request {
    type V = RequestView;

    open spec fn view(&self) -> RequestView {
        RequestView {
            method: self.method,
            path: self.path@,
            body: match self.body {
                Ok(form) => Ok(form@),
                Err(message) => Err(message@),
            },
        }
    }
}

/// The table after `request` was served.
pub open spec fn table_after(table: StoreView, request: RequestView) -> StoreView {
    match (target_of(request.method, request.path), request.body) {
        (Target::Create, Ok(form)) => table.after_insert(form.without_id()),
        (Target::Update(id), Ok(form)) => table.after_update(id, form),
        (Target::Delete(id), _) => table.after_delete(id),
        _ => table,
    }
}

/// The response to `request` on `table`.
pub open spec fn response_to(table: StoreView, request: RequestView) -> ResponseView {
    match target_of(request.method, request.path) {
        Target::List => list_response(table.rows),
        Target::Get(id) => get_response(table.get(id)),
        Target::Create => match request.body {
            Ok(form) => put_response(table.insert_result(form.without_id())),
            Err(message) => ResponseView::bad_request(error_payload(message)),
        },
        Target::Update(id) => match request.body {
            Ok(form) => update_response(Ok::<usize, StoreErrorView>(table.affected(id))),
            Err(message) => ResponseView::bad_request(error_payload(message)),
        },
        Target::Delete(id) => delete_response(table.affected(id)),
        Target::NotFound => not_found_response(),
    }
}

/// Serves one request: finds the operation that its method and path ask
/// for, carries it out on the table and answers. A body that could not be
/// decoded is answered with 400 and the decoder's message, and the table
/// stays as it was.
pub fn dispatch(store: &mut Store, request: Request) -> (response: Response)
    requires
        old(store)@.wf(),
    ensures
        final(store)@.wf(),
        final(store)@ == table_after(old(store)@, request@),
        response@ == response_to(old(store)@, request@),
{
    let Request { method, path, body } = request;
    match resolve(method, path.as_str()) {
        Target::List => employee_list(store),
        Target::Get(id) => employee_get(store, id),
        Target::Create => match body {
            Ok(form) => employee_put(store, form),
            Err(message) => refuse(message.as_str()),
        },
        Target::Update(id) => match body {
            Ok(form) => employee_update(store, id, form),
            Err(message) => refuse(message.as_str()),
        },
        Target::Delete(id) => employee_delete(store, id),
        Target::NotFound => not_found(),
    }
}

} // verus!
