//! How the outcome of a data-access operation becomes an HTTP reply.
use vstd::prelude::*;
use crate::store::{Document, StoreFault};

verus! {

/// The two kinds of document the service keeps.
#[derive(Clone, Copy, Debug, PartialEq, Eq, Structural)]
pub enum Resource {
    User,
    Post,
}

/// The HTTP statuses the handlers answer with.
#[derive(Clone, Copy, Debug, PartialEq, Eq, Structural)]
pub enum Status {
    Success,
    Created,
    BadRequest,
    NotFound,
    ServerError,
}

pub open spec fn status_code(s: Status) -> u16 {
    match s {
        Status::Success => 200,
        Status::Created => 201,
        Status::BadRequest => 400,
        Status::NotFound => 404,
        Status::ServerError => 500,
    }
}

impl Status {
    /// The numeric HTTP status code.
    pub fn code(&self) -> (r: u16)
        ensures
            r == status_code(*self),
    {
        match self {
            Status::Success => 200,
            Status::Created => 201,
            Status::BadRequest => 400,
            Status::NotFound => 404,
            Status::ServerError => 500,
        }
    }
}

/// The human-readable messages a reply can carry.
#[derive(Clone, Copy, Debug, PartialEq, Eq, Structural)]
pub enum Message {
    InvalidId,
    NotFound(Resource),
    CreateFailed(Resource),
    FetchFailed(Resource),
    Updated(Resource),
    UpdateFailed(Resource),
    Deleted(Resource),
    DeleteFailed(Resource),
}

/// The body of a reply.
#[derive(Debug)]
pub enum Body<F> {
    Record(Document<F>),
    Records(Vec<Document<F>>),
    Text(Message),
}

/// A status and a body.
#[derive(Debug)]
pub struct Reply<F> {
    pub status: Status,
    pub body: Body<F>,
}

/// The reply to a path parameter that is not an identifier.
pub fn invalid_id<F>() -> (r: Reply<F>)
    ensures
        r.status == Status::BadRequest,
        r.body == Body::<F>::Text(Message::InvalidId),
{
    Reply { status: Status::BadRequest, body: Body::Text(Message::InvalidId) }
}

/// The reply to a create, given the document that was written and the
/// outcome of the write.
pub fn created<F>(kind: Resource, doc: Document<F>, outcome: Result<(), StoreFault>) -> (r: Reply<F>)
    ensures
        outcome is Ok ==> r.status == Status::Created && r.body == Body::Record(doc),
        outcome is Err ==> r.status == Status::ServerError && r.body
            == Body::<F>::Text(Message::CreateFailed(kind)),
{
    match outcome {
        Ok(()) => Reply { status: Status::Created, body: Body::Record(doc) },
        Err(_) => Reply { status: Status::ServerError, body: Body::Text(Message::CreateFailed(kind)) },
    }
}

/// The reply to a look-up by identifier.
pub fn found<F>(kind: Resource, outcome: Result<Option<Document<F>>, StoreFault>) -> (r: Reply<F>)
    ensures
        match outcome {
            Ok(Some(doc)) => r.status == Status::Success && r.body == Body::Record(doc),
            Ok(None) => r.status == Status::NotFound && r.body == Body::<F>::Text(
                Message::NotFound(kind),
            ),
            Err(_) => r.status == Status::ServerError && r.body == Body::<F>::Text(
                Message::FetchFailed(kind),
            ),
        },
{
    match outcome {
        Ok(Some(doc)) => Reply { status: Status::Success, body: Body::Record(doc) },
        Ok(None) => Reply { status: Status::NotFound, body: Body::Text(Message::NotFound(kind)) },
        Err(_) => Reply { status: Status::ServerError, body: Body::Text(Message::FetchFailed(kind)) },
    }
}

/// The reply to a listing: every document, or a failure with none.
pub fn listed<F>(kind: Resource, outcome: Result<Vec<Document<F>>, StoreFault>) -> (r: Reply<F>)
    ensures
        r.body is Records,
        outcome is Ok ==> r.status == Status::Success && r.body->Records_0@ == outcome->Ok_0@,
        outcome is Err ==> r.status == Status::ServerError && r.body->Records_0@.len() == 0,
{
    match outcome {
        Ok(docs) => Reply { status: Status::Success, body: Body::Records(docs) },
        Err(_) => Reply { status: Status::ServerError, body: Body::Records(Vec::new()) },
    }
}

/// The reply to an update, given how many documents matched.
pub fn updated<F>(kind: Resource, outcome: Result<u64, StoreFault>) -> (r: Reply<F>)
    ensures
        match outcome {
            Ok(n) => if n == 1 {
                r.status == Status::Success && r.body == Body::<F>::Text(Message::Updated(kind))
            } else {
                r.status == Status::NotFound && r.body == Body::<F>::Text(Message::NotFound(kind))
            },
            Err(_) => r.status == Status::ServerError && r.body == Body::<F>::Text(
                Message::UpdateFailed(kind),
            ),
        },
{
    match outcome {
        Ok(n) => if n == 1 {
            Reply { status: Status::Success, body: Body::Text(Message::Updated(kind)) }
        } else {
            Reply { status: Status::NotFound, body: Body::Text(Message::NotFound(kind)) }
        },
        Err(_) => Reply { status: Status::ServerError, body: Body::Text(Message::UpdateFailed(kind)) },
    }
}

/// The reply to a delete, given how many documents were removed.
pub fn deleted<F>(kind: Resource, outcome: Result<u64, StoreFault>) -> (r: Reply<F>)
    ensures
        match outcome {
            Ok(n) => if n == 1 {
                r.status == Status::Success && r.body == Body::<F>::Text(Message::Deleted(kind))
            } else {
                r.status == Status::NotFound && r.body == Body::<F>::Text(Message::NotFound(kind))
            },
            Err(_) => r.status == Status::ServerError && r.body == Body::<F>::Text(
                Message::DeleteFailed(kind),
            ),
        },
{
    match outcome {
        Ok(n) => if n == 1 {
            Reply { status: Status::Success, body: Body::Text(Message::Deleted(kind)) }
        } else {
            Reply { status: Status::NotFound, body: Body::Text(Message::NotFound(kind)) }
        },
        Err(_) => Reply { status: Status::ServerError, body: Body::Text(Message::DeleteFailed(kind)) },
    }
}

/// A listing read one document at a time from a store cursor. The first
/// failure discards everything read so far and ends the listing.
pub struct Listing<F> {
    kind: Resource,
    items: Vec<Document<F>>,
    failed: bool,
}

impl<F> Listing<F> {
    pub closed spec fn spec_kind(&self) -> Resource {
        self.kind
    }

    /// The documents read so far.
    pub closed spec fn items(&self) -> Seq<Document<F>> {
        self.items@
    }

    /// Whether a failure has been met.
    pub closed spec fn has_failed(&self) -> bool {
        self.failed
    }

    /// A listing with nothing read yet.
    pub fn new(kind: Resource) -> (r: Self)
        ensures
            r.spec_kind() == kind,
            r.items().len() == 0,
            !r.has_failed(),
    {
        Listing { kind, items: Vec::new(), failed: false }
    }

    /// Takes the next item of the cursor; returns whether to keep reading.
    pub fn feed(&mut self, next: Result<Document<F>, StoreFault>) -> (more: bool)
        ensures
            final(self).spec_kind() == old(self).spec_kind(),
            old(self).has_failed() ==> !more && final(self).has_failed() && final(self).items()
                == old(self).items(),
            !old(self).has_failed() ==> match next {
                Ok(doc) => more && !final(self).has_failed() && final(self).items() == old(
                    self,
                ).items().push(doc),
                Err(_) => !more && final(self).has_failed() && final(self).items().len() == 0,
            },
    {
        if self.failed {
            return false;
        }
        match next {
            Ok(doc) => {
                self.items.push(doc);
                true
            },
            Err(_) => {
                self.failed = true;
                self.items = Vec::new();
                false
            },
        }
    }

    /// The reply once the cursor is exhausted or a failure was met.
    pub fn finish(self) -> (r: Reply<F>)
        ensures
            r.body is Records,
            !self.has_failed() ==> r.status == Status::Success && r.body->Records_0@ == self.items(),
            self.has_failed() ==> r.status == Status::ServerError && r.body->Records_0@.len()
                == 0,
    {
        if self.failed {
            listed(self.kind, Err(StoreFault::Unavailable))
        } else {
            listed(self.kind, Ok(self.items))
        }
    }
}

} // verus!
