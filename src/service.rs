//! Whole request handlers over an in-memory collection: read the path
//! parameter, run one data-access operation, and map its outcome to a reply.
use vstd::prelude::*;
use crate::ident::{DocId, is_id_text, id_bytes_of, parse_id};
use crate::reply::{Body, Message, Reply, Resource, Status, created, deleted, found, invalid_id, listed, updated};
use crate::store::{Collection, Document, Record};

verus! {

/// The status of a create with identifier `id` on a collection holding `m`.
pub open spec fn create_status<F>(m: Map<Seq<u8>, F>, id: Seq<u8>) -> Status {
    if m.contains_key(id) {
        Status::ServerError
    } else {
        Status::Created
    }
}

/// The collection after a create with identifier `id`.
pub open spec fn after_create<F>(m: Map<Seq<u8>, F>, id: Seq<u8>, f: F) -> Map<Seq<u8>, F> {
    if m.contains_key(id) {
        m
    } else {
        m.insert(id, f)
    }
}

/// The status of a get, update or delete whose path parameter is `t`.
pub open spec fn by_id_status<F>(m: Map<Seq<u8>, F>, t: Seq<char>) -> Status {
    if !is_id_text(t) {
        Status::BadRequest
    } else if m.contains_key(id_bytes_of(t)) {
        Status::Success
    } else {
        Status::NotFound
    }
}

/// The collection after an update of the document named by `t` to `f`.
pub open spec fn after_update<F>(m: Map<Seq<u8>, F>, t: Seq<char>, f: F) -> Map<Seq<u8>, F> {
    if is_id_text(t) && m.contains_key(id_bytes_of(t)) {
        m.insert(id_bytes_of(t), f)
    } else {
        m
    }
}

/// The collection after a delete of the document named by `t`.
pub open spec fn after_delete<F>(m: Map<Seq<u8>, F>, t: Seq<char>) -> Map<Seq<u8>, F> {
    if is_id_text(t) {
        m.remove(id_bytes_of(t))
    } else {
        m
    }
}

/// Creates a document with the given identifier.
pub fn create_with_id<F: Record>(coll: &mut Collection<F>, kind: Resource, id: DocId, fields: F) -> (r: Reply<F>)
    requires
        old(coll).wf(),
        old(coll)@.len() < usize::MAX,
    ensures
        final(coll).wf(),
        final(coll)@ == after_create(old(coll)@, id@, fields),
        r.status == create_status(old(coll)@, id@),
        r.status == Status::Created ==> r.body == Body::Record(Document { id, fields }),
        r.status == Status::ServerError ==> r.body == Body::<F>::Text(Message::CreateFailed(kind)),
{
    let doc = Document { id, fields };
    let outcome = coll.insert(doc.duplicate());
    created(kind, doc, outcome)
}

/// Creates a document under a fresh identifier assigned here. The reply is
/// Created exactly when that identifier was not yet taken.
pub fn handle_create<F: Record>(coll: &mut Collection<F>, kind: Resource, fields: F) -> (r: Reply<F>)
    requires
        old(coll).wf(),
        old(coll)@.len() < usize::MAX,
    ensures
        final(coll).wf(),
        old(coll)@ == Map::<Seq<u8>, F>::empty() ==> r.status == Status::Created,
        r.status == Status::Created || r.status == Status::ServerError,
        r.status == Status::Created ==> r.body is Record && {
            let doc = r.body->Record_0;
            &&& doc.fields == fields
            &&& !old(coll)@.contains_key(doc.id@)
            &&& final(coll)@ == old(coll)@.insert(doc.id@, fields)
        },
        r.status == Status::ServerError ==> final(coll)@ == old(coll)@,
{
    create_with_id(coll, kind, DocId::generate(), fields)
}

/// Lists every document of the collection.
pub fn handle_list<F: Record>(coll: &Collection<F>, kind: Resource) -> (r: Reply<F>)
    requires
        coll.wf(),
    ensures
        r.status == Status::Success,
        r.body is Records,
        r.body->Records_0@ == coll.documents(),
        r.body->Records_0@.len() == coll@.len(),
        forall|i: int| 0 <= i < coll@.len() ==> #[trigger] coll@.contains_key(
            r.body->Records_0@[i].id@,
        ) && coll@[r.body->Records_0@[i].id@] == r.body->Records_0@[i].fields,
        forall|k: Seq<u8>| #[trigger] coll@.contains_key(k) ==> exists|i: int|
            0 <= i < r.body->Records_0@.len() && r.body->Records_0@[i].id@ == k,
        forall|i: int, j: int| 0 <= i < j < r.body->Records_0@.len() ==> r.body->Records_0@[i].id@
            != r.body->Records_0@[j].id@,
{
    let all = coll.find_all();
    let mut out: Vec<Document<F>> = Vec::new();
    let mut i: usize = 0;
    while i < all.len()
        invariant
            0 <= i <= all@.len(),
            out@ == all@.subrange(0, i as int),
        decreases all@.len() - i,
    {
        out.push(all[i].duplicate());
        i = i + 1;
        assert(out@ =~= all@.subrange(0, i as int));
    }
    assert(out@ =~= all@);
    listed(kind, Ok(out))
}

/// Fetches the document named by the path parameter `id_text`.
pub fn handle_get<F: Record>(coll: &Collection<F>, kind: Resource, id_text: &str) -> (r: Reply<F>)
    requires
        coll.wf(),
    ensures
        r.status == by_id_status(coll@, id_text@),
        r.status == Status::BadRequest ==> r.body == Body::<F>::Text(Message::InvalidId),
        r.status == Status::NotFound ==> r.body == Body::<F>::Text(Message::NotFound(kind)),
        r.status == Status::Success ==> r.body is Record && r.body->Record_0.id@ == id_bytes_of(
            id_text@,
        ) && r.body->Record_0.fields == coll@[id_bytes_of(id_text@)],
{
    let id = match parse_id(id_text) {
        Ok(id) => id,
        Err(_) => return invalid_id(),
    };
    let doc = match coll.find(&id) {
        Some(d) => Some(d.duplicate()),
        None => None,
    };
    found(kind, Ok(doc))
}

/// Replaces the fields of the document named by the path parameter `id_text`.
pub fn handle_update<F: Record>(coll: &mut Collection<F>, kind: Resource, id_text: &str, fields: F) -> (r: Reply<F>)
    requires
        old(coll).wf(),
    ensures
        final(coll).wf(),
        final(coll)@ == after_update(old(coll)@, id_text@, fields),
        r.status == by_id_status(old(coll)@, id_text@),
        r.body == Body::<F>::Text(
            match r.status {
                Status::BadRequest => Message::InvalidId,
                Status::NotFound => Message::NotFound(kind),
                _ => Message::Updated(kind),
            },
        ),
{
    let id = match parse_id(id_text) {
        Ok(id) => id,
        Err(_) => return invalid_id(),
    };
    let matched = coll.update(&id, fields);
    updated(kind, Ok(matched))
}

/// Removes the document named by the path parameter `id_text`.
pub fn handle_delete<F: Record>(coll: &mut Collection<F>, kind: Resource, id_text: &str) -> (r: Reply<F>)
    requires
        old(coll).wf(),
    ensures
        final(coll).wf(),
        final(coll)@ == after_delete(old(coll)@, id_text@),
        r.status == by_id_status(old(coll)@, id_text@),
        r.body == Body::<F>::Text(
            match r.status {
                Status::BadRequest => Message::InvalidId,
                Status::NotFound => Message::NotFound(kind),
                _ => Message::Deleted(kind),
            },
        ),
{
    let id = match parse_id(id_text) {
        Ok(id) => id,
        Err(_) => return invalid_id(),
    };
    let removed = coll.delete(&id);
    deleted(kind, Ok(removed))
}

} // verus!
