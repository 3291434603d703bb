//! Dispatch from request method and path to a response.
//!
//! The service knows two routes, both under GET: the root greeting and the
//! ticket list. Everything else is answered 404 with an empty body.
//! `response_of` is the whole observable behaviour of the service as one
//! spec function of method and path; `respond` is proved to realise it.

use vstd::prelude::*;

use crate::json::greeting_json;
use crate::json::render_greeting;
use crate::json::render_tickets;
use crate::json::tickets_json;
use crate::strutil::str_eq;
use crate::ticket::fixed_tickets;
use crate::ticket::fixed_tickets_view;

verus! {

/// Where a request is dispatched.
#[derive(Clone, Copy, Debug, PartialEq, Eq, Structural)]
pub enum Route {
    Root,
    Tickets,
    NotFound,
}

/// The route a method and path select.
pub open spec fn route_of(method: Seq<char>, path: Seq<char>) -> Route {
    if method == "GET"@ && path == "/"@ {
        Route::Root
    } else if method == "GET"@ && path == "/tickets"@ {
        Route::Tickets
    } else {
        Route::NotFound
    }
}

/// Matches a request's method and path against the route table.
pub fn route(method: &str, path: &str) -> (r: Route)
    ensures
        r == route_of(method@, path@),
{
    if str_eq(method, "GET") {
        if str_eq(path, "/") {
            Route::Root
        } else if str_eq(path, "/tickets") {
            Route::Tickets
        } else {
            Route::NotFound
        }
    } else {
        Route::NotFound
    }
}

/// A response: a status code and a body.
pub struct HttpResponse {
    pub status: u16,
    pub body: String,
}

/// The mathematical image of a response.
pub ghost struct HttpResponseView {
    pub status: int,
    pub body: Seq<char>,
}

impl View for HttpResponse {
    type V = HttpResponseView;

    open spec fn view(&self) -> HttpResponseView {
        HttpResponseView { status: self.status as int, body: self.body@ }
    }
}

/// The response the service owes to a method and path: 200 with the fixed
/// JSON body on the two known routes, 404 with an empty body elsewhere.
pub open spec fn response_of(method: Seq<char>, path: Seq<char>) -> HttpResponseView {
    match route_of(method, path) {
        Route::Root => HttpResponseView { status: 200, body: greeting_json() },
        Route::Tickets => HttpResponseView {
            status: 200,
            body: tickets_json(fixed_tickets_view()),
        },
        Route::NotFound => HttpResponseView { status: 404, body: Seq::empty() },
    }
}

/// Answers one request. The result is determined by method and path alone.
pub fn respond(method: &str, path: &str) -> (r: HttpResponse)
    ensures
        r@ == response_of(method@, path@),
{
    match route(method, path) {
        Route::Root => HttpResponse { status: 200, body: render_greeting() },
        Route::Tickets => {
            let ts = fixed_tickets();
            HttpResponse { status: 200, body: render_tickets(&ts) }
        },
        Route::NotFound => HttpResponse { status: 404, body: String::new() },
    }
}

/// The media type of every body the service serves.
pub fn json_content_type() -> (r: &'static str)
    ensures
        r@ == "application/json"@,
{
    "application/json"
}

/// Every GET of the root path is answered 200 with exactly the greeting
/// body.
pub proof fn lemma_root_response(method: Seq<char>, path: Seq<char>)
    requires
        method == "GET"@,
        path == "/"@,
    ensures
        response_of(method, path).status == 200,
        response_of(method, path).body == greeting_json(),
{
}

/// Every GET of the ticket path is answered 200 with exactly the rendered
/// fixed ticket list, whose three records stand in their fixed order.
pub proof fn lemma_tickets_response(method: Seq<char>, path: Seq<char>)
    requires
        method == "GET"@,
        path == "/tickets"@,
    ensures
        response_of(method, path).status == 200,
        response_of(method, path).body == tickets_json(fixed_tickets_view()),
        fixed_tickets_view().len() == 3,
        forall|i: int|
            0 <= i < fixed_tickets_view().len() ==> #[trigger] fixed_tickets_view()[i].number == i
                + 1,
{
    reveal_strlit("/");
    reveal_strlit("/tickets");
    assert(path != "/"@) by {
        assert(path.len() != "/"@.len());
    }
    crate::ticket::lemma_fixed_ticket_numbers();
}

/// Any request outside the two GET routes is answered 404 with an empty
/// body.
pub proof fn lemma_unmatched_not_found(method: Seq<char>, path: Seq<char>)
    requires
        !(method == "GET"@ && (path == "/"@ || path == "/tickets"@)),
    ensures
        response_of(method, path).status == 404,
        response_of(method, path).body == Seq::<char>::empty(),
{
}

/// Repetition changes nothing: any two responses to the same method and
/// path carry identical status and character-identical bodies, however
/// often and in whatever order the requests are made.
pub proof fn lemma_response_idempotent(
    method: Seq<char>,
    path: Seq<char>,
    r1: HttpResponseView,
    r2: HttpResponseView,
)
    requires
        r1 == response_of(method, path),
        r2 == response_of(method, path),
    ensures
        r1 == r2,
{
}

} // verus!
