use vstd::prelude::*;

verus! {

/// The request methods this service handles.
#[derive(Clone, Copy, Debug, PartialEq, Eq, Structural)]
pub enum Verb {
    Get,
    Post,
    Put,
    Delete,
}

/// The collections kept in the document store.
#[derive(Clone, Copy, Debug, PartialEq, Eq, Structural)]
pub enum Resource {
    Movies,
    Actors,
    Reviews,
}

/// A routed request: what to do, and to which collection.
#[derive(Clone, Copy, Debug, PartialEq, Eq, Structural)]
pub struct Endpoint {
    pub verb: Verb,
    pub resource: Resource,
}

pub open spec fn verb_of(m: Seq<char>) -> Option<Verb> {
    if m == "GET"@ {
        Some(Verb::Get)
    } else if m == "POST"@ {
        Some(Verb::Post)
    } else if m == "PUT"@ {
        Some(Verb::Put)
    } else if m == "DELETE"@ {
        Some(Verb::Delete)
    } else {
        None
    }
}

pub open spec fn resource_of(p: Seq<char>) -> Option<Resource> {
    if p == "/api/movies"@ {
        Some(Resource::Movies)
    } else if p == "/api/actors"@ {
        Some(Resource::Actors)
    } else if p == "/api/reviews"@ {
        Some(Resource::Reviews)
    } else {
        None
    }
}

/// The routing table: a known method on a known collection path.
pub open spec fn route_of(m: Seq<char>, p: Seq<char>) -> Option<Endpoint> {
    match (verb_of(m), resource_of(p)) {
        (Some(verb), Some(resource)) => Some(Endpoint { verb, resource }),
        _ => None,
    }
}

/// Compares two texts character by character.
pub fn same_text(a: &str, b: &str) -> (r: bool)
    ensures
        r == (a@ == b@),
{
    let n = a.unicode_len();
    if n != b.unicode_len() {
        return false;
    }
    let mut i: usize = 0;
    while i < n
        invariant
            n == a@.len() == b@.len(),
            i <= n,
            forall|j: int| 0 <= j < i ==> a@[j] == b@[j],
        decreases n - i,
    {
        if a.get_char(i) != b.get_char(i) {
            return false;
        }
        i = i + 1;
    }
    assert(a@ =~= b@);
    true
}

fn verb(method: &str) -> (r: Option<Verb>)
    ensures
        r == verb_of(method@),
{
    if same_text(method, "GET") {
        Some(Verb::Get)
    } else if same_text(method, "POST") {
        Some(Verb::Post)
    } else if same_text(method, "PUT") {
        Some(Verb::Put)
    } else if same_text(method, "DELETE") {
        Some(Verb::Delete)
    } else {
        None
    }
}

fn resource(path: &str) -> (r: Option<Resource>)
    ensures
        r == resource_of(path@),
{
    if same_text(path, "/api/movies") {
        Some(Resource::Movies)
    } else if same_text(path, "/api/actors") {
        Some(Resource::Actors)
    } else if same_text(path, "/api/reviews") {
        Some(Resource::Reviews)
    } else {
        None
    }
}

/// Looks a method and path up in the routing table.
///
/// Exactly the four verbs `GET`, `POST`, `PUT`, `DELETE` on the three paths
/// `/api/movies`, `/api/actors`, `/api/reviews` are routed.
pub fn route(method: &str, path: &str) -> (r: Option<Endpoint>)
    ensures
        r == route_of(method@, path@),
        r is Some <==> (verb_of(method@) is Some && resource_of(path@) is Some),
{
    match (verb(method), resource(path)) {
        (Some(verb), Some(resource)) => Some(Endpoint { verb, resource }),
        _ => None,
    }
}

impl Resource {
    /// The collection's key in the document store.
    pub open spec fn collection(self) -> Seq<char> {
        match self {
            Resource::Movies => "movies"@,
            Resource::Actors => "actors"@,
            Resource::Reviews => "reviews"@,
        }
    }

    /// The name of one record of the collection, capitalised.
    pub open spec fn record(self) -> Seq<char> {
        match self {
            Resource::Movies => "Movie"@,
            Resource::Actors => "Actor"@,
            Resource::Reviews => "Review"@,
        }
    }

    /// The name of one record of the collection, in lower case.
    pub open spec fn record_lower(self) -> Seq<char> {
        match self {
            Resource::Movies => "movie"@,
            Resource::Actors => "actor"@,
            Resource::Reviews => "review"@,
        }
    }

    pub fn collection_name(self) -> (r: &'static str)
        ensures
            r@ == self.collection(),
    {
        match self {
            Resource::Movies => "movies",
            Resource::Actors => "actors",
            Resource::Reviews => "reviews",
        }
    }

    pub fn record_name(self) -> (r: &'static str)
        ensures
            r@ == self.record(),
    {
        match self {
            Resource::Movies => "Movie",
            Resource::Actors => "Actor",
            Resource::Reviews => "Review",
        }
    }

    pub fn record_name_lower(self) -> (r: &'static str)
        ensures
            r@ == self.record_lower(),
    {
        match self {
            Resource::Movies => "movie",
            Resource::Actors => "actor",
            Resource::Reviews => "review",
        }
    }
}

} // verus!
