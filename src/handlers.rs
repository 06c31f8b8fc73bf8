use vstd::prelude::*;
use crate::document::{read_string_field, string_field_of};
use crate::http_text::{
    bad_request_body, format_response, handle_400, handle_404, not_found_body, response_text, Status,
};
use crate::request::{
    first_line, words, body_of, parse_request_line, request_body, request_line, sanitize_body, sanitized,
};
use crate::routing::{route, route_of, verb_of, same_text, Resource, Verb};

verus! {

/// The document store could not carry out a call.
#[derive(Clone, Copy, Debug, PartialEq, Eq, Structural)]
pub struct BackendError;

/// How a request for a new record ended.
#[derive(Clone, Copy, Debug, PartialEq, Eq, Structural)]
pub enum StoreOutcome {
    /// The body is not a record of the collection; the store was not called.
    Malformed,
    /// The store accepted the record.
    Stored,
    /// The store call failed.
    Failed,
}

/// What to do for one request.
pub enum Plan {
    /// Answer at once with this response.
    Respond(String),
    /// Read the whole collection at `path`.
    Fetch { resource: Resource, path: String },
    /// Read `record` as a record of the collection and add it under `path`.
    Create { resource: Resource, path: String, record: String },
    /// Merge the JSON document `document` into the record at `path`.
    Update { resource: Resource, path: String, document: String },
    /// Delete the record at `path`.
    Remove { resource: Resource, path: String },
}

/// A plan with its texts as character sequences.
pub enum PlanView {
    Respond(Seq<char>),
    Fetch(Resource, Seq<char>),
    Create(Resource, Seq<char>, Seq<char>),
    Update(Resource, Seq<char>, Seq<char>),
    Remove(Resource, Seq<char>),
}

impl View for Plan {
    type V = PlanView;

    open spec fn view(&self) -> PlanView {
        match self {
            Plan::Respond(r) => PlanView::Respond(r@),
            Plan::Fetch { resource, path } => PlanView::Fetch(*resource, path@),
            Plan::Create { resource, path, record } => PlanView::Create(*resource, path@, record@),
            Plan::Update { resource, path, document } => PlanView::Update(
                *resource,
                path@,
                document@,
            ),
            Plan::Remove { resource, path } => PlanView::Remove(*resource, path@),
        }
    }
}

pub open spec fn bad_request() -> Seq<char> {
    response_text(Status::BadRequest, bad_request_body())
}

pub open spec fn not_found() -> Seq<char> {
    response_text(Status::NotFound, not_found_body())
}

/// The body as an update or a deletion reads it: empty when there is none.
pub open spec fn body_or_empty(s: Seq<char>) -> Seq<char> {
    match body_of(s) {
        Some(b) => b,
        None => Seq::empty(),
    }
}

/// The store path of the record that a request's body names by its
/// string `id`, when the body is a JSON document with one.
pub open spec fn record_path(resource: Resource, s: Seq<char>) -> Option<Seq<char>> {
    match string_field_of(sanitized(body_or_empty(s)), "id"@) {
        Some(Some(id)) => Some(resource.collection() + "/"@ + id),
        _ => None,
    }
}

/// What is done for the request text `s`.
pub open spec fn planned(s: Seq<char>) -> PlanView {
    let (m, p) = request_line(s);
    match route_of(m, p) {
        None => PlanView::Respond(not_found()),
        Some(ep) => match ep.verb {
            Verb::Get => PlanView::Fetch(ep.resource, ep.resource.collection()),
            Verb::Post => match body_of(s) {
                Some(b) => PlanView::Create(
                    ep.resource,
                    ep.resource.collection() + "/"@,
                    sanitized(b),
                ),
                None => PlanView::Respond(bad_request()),
            },
            Verb::Put => match record_path(ep.resource, s) {
                Some(path) => PlanView::Update(ep.resource, path, sanitized(body_or_empty(s))),
                None => PlanView::Respond(bad_request()),
            },
            Verb::Delete => match record_path(ep.resource, s) {
                Some(path) => PlanView::Remove(ep.resource, path),
                None => PlanView::Respond(bad_request()),
            },
        },
    }
}

/// Decides what to do for one request: answer at once (unknown route,
/// missing or unusable body), or make one call to the document store.
pub fn plan_request(request: &str) -> (r: Plan)
    ensures
        r@ == planned(request@),
{
    let (method, path) = parse_request_line(request);
    let ep = match route(method, path) {
        None => {
            return Plan::Respond(handle_404());
        },
        Some(ep) => ep,
    };
    let resource = ep.resource;
    let mut path = String::from_str(resource.collection_name());
    match ep.verb {
        Verb::Get => Plan::Fetch { resource, path },
        Verb::Post => match request_body(request) {
            Some(b) => {
                path.append("/");
                Plan::Create { resource, path, record: sanitize_body(b) }
            },
            None => Plan::Respond(handle_400()),
        },
        Verb::Put | Verb::Delete => {
            let body = match request_body(request) {
                Some(b) => sanitize_body(b),
                None => {
                    proof {
                        reveal_strlit("");
                    }
                    sanitize_body("")
                },
            };
            assert(body@ == sanitized(body_or_empty(request@)));
            match read_string_field(body.as_str(), "id") {
                Ok(Some(id)) => {
                    path.append("/");
                    path.append(id.as_str());
                    assert(record_path(resource, request@) == Some(path@));
                    if ep.verb == Verb::Put {
                        Plan::Update { resource, path, document: body }
                    } else {
                        Plan::Remove { resource, path }
                    }
                },
                _ => {
                    assert(record_path(resource, request@) is None);
                    Plan::Respond(handle_400())
                },
            }
        },
    }
}

/// An absent collection reads as JSON `null`, an empty one as `{}`.
pub open spec fn empty_collection(t: Seq<char>) -> bool {
    t == "null"@ || t == "{}"@
}

/// The answer to a read of a whole collection. An absent or empty
/// collection is answered with an empty list.
pub open spec fn fetched_response(resource: Resource, outcome: Result<Seq<char>, BackendError>) -> Seq<
    char,
> {
    match outcome {
        Ok(t) => if empty_collection(t) {
            response_text(Status::Success, "[]"@)
        } else {
            response_text(Status::Success, t)
        },
        Err(_) => response_text(Status::InternalError, "Failed to retrieve "@ + resource.collection()),
    }
}

pub open spec fn result_text(outcome: Result<String, BackendError>) -> Result<Seq<char>, BackendError> {
    match outcome {
        Ok(t) => Ok(t@),
        Err(e) => Err(e),
    }
}

/// Renders the response to a collection read, given the collection as
/// JSON text or the store's failure.
pub fn render_fetched(resource: Resource, outcome: Result<String, BackendError>) -> (r: String)
    ensures
        r@ == fetched_response(resource, result_text(outcome)),
{
    match outcome {
        Ok(t) => if same_text(t.as_str(), "null") || same_text(t.as_str(), "{}") {
            format_response(Status::Success, "[]")
        } else {
            format_response(Status::Success, t.as_str())
        },
        Err(_) => {
            let mut body = String::from_str("Failed to retrieve ");
            body.append(resource.collection_name());
            format_response(Status::InternalError, body.as_str())
        },
    }
}

pub open spec fn created_response(resource: Resource, outcome: StoreOutcome) -> Seq<char> {
    match outcome {
        StoreOutcome::Malformed => bad_request(),
        StoreOutcome::Stored => response_text(Status::Created, resource.record() + " created"@),
        StoreOutcome::Failed => response_text(
            Status::InternalError,
            "Failed to create "@ + resource.record_lower(),
        ),
    }
}

/// Renders the response to a request for a new record.
pub fn render_created(resource: Resource, outcome: StoreOutcome) -> (r: String)
    ensures
        r@ == created_response(resource, outcome),
{
    match outcome {
        StoreOutcome::Malformed => handle_400(),
        StoreOutcome::Stored => {
            let mut body = String::from_str(resource.record_name());
            body.append(" created");
            format_response(Status::Created, body.as_str())
        },
        StoreOutcome::Failed => {
            let mut body = String::from_str("Failed to create ");
            body.append(resource.record_name_lower());
            format_response(Status::InternalError, body.as_str())
        },
    }
}

pub open spec fn changed_response(
    resource: Resource,
    outcome: Result<(), BackendError>,
    done: Seq<char>,
    verb: Seq<char>,
) -> Seq<char> {
    match outcome {
        Ok(_) => response_text(Status::Success, resource.record() + done),
        Err(_) => response_text(
            Status::InternalError,
            "Failed to "@ + verb + " "@ + resource.record_lower(),
        ),
    }
}

fn render_changed(resource: Resource, outcome: Result<(), BackendError>, done: &str, verb: &str) -> (r:
    String)
    ensures
        r@ == changed_response(resource, outcome, done@, verb@),
{
    match outcome {
        Ok(_) => {
            let mut body = String::from_str(resource.record_name());
            body.append(done);
            format_response(Status::Success, body.as_str())
        },
        Err(_) => {
            let mut body = String::from_str("Failed to ");
            body.append(verb);
            body.append(" ");
            body.append(resource.record_name_lower());
            format_response(Status::InternalError, body.as_str())
        },
    }
}

/// Renders the response to an update of one record.
pub fn render_updated(resource: Resource, outcome: Result<(), BackendError>) -> (r: String)
    ensures
        r@ == changed_response(resource, outcome, " updated"@, "update"@),
{
    render_changed(resource, outcome, " updated", "update")
}

/// Renders the response to a deletion of one record.
pub fn render_removed(resource: Resource, outcome: Result<(), BackendError>) -> (r: String)
    ensures
        r@ == changed_response(resource, outcome, " deleted"@, "delete"@),
{
    render_changed(resource, outcome, " deleted", "delete")
}

/// A request whose first line holds fewer than two words is answered with
/// "not found", whatever else it holds.
pub proof fn lemma_short_request_line_not_found(s: Seq<char>)
    requires
        words(first_line(s)).len() < 2,
    ensures
        planned(s) == PlanView::Respond(not_found()),
{
    reveal_strlit("GET");
    reveal_strlit("POST");
    reveal_strlit("PUT");
    reveal_strlit("DELETE");
    assert("GET"@.len() != 0 && "POST"@.len() != 0 && "PUT"@.len() != 0 && "DELETE"@.len() != 0);
    assert(verb_of(Seq::empty()) is None);
}

} // verus!
