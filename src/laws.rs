//! Properties that hold across several requests, over the outcome functions
//! that the handlers' contracts are stated with.
use vstd::prelude::*;
use crate::ident::{is_id_text, id_bytes_of};
use crate::reply::Status;
use crate::service::{after_create, after_delete, after_update, by_id_status, create_status};

verus! {

/// A create that succeeds was given an identifier that no document of the
/// collection held, and afterwards that identifier names the new document.
pub proof fn law_created_id_is_fresh<F>(m: Map<Seq<u8>, F>, id: Seq<u8>, f: F)
    ensures
        create_status(m, id) == Status::Created ==> !m.contains_key(id) && after_create(m, id, f)
            == m.insert(id, f),
{
}

/// After a successful create, a get with the text of the assigned identifier
/// succeeds and finds the fields that were created.
pub proof fn law_create_then_get<F>(m: Map<Seq<u8>, F>, id: Seq<u8>, f: F, t: Seq<char>)
    requires
        is_id_text(t),
        id_bytes_of(t) == id,
    ensures
        create_status(m, id) == Status::Created ==> by_id_status(after_create(m, id, f), t)
            == Status::Success && after_create(m, id, f)[id_bytes_of(t)] == f,
{
}

/// A path parameter that is not an identifier gives Bad Request to get,
/// update and delete, and leaves the collection as it was.
pub proof fn law_malformed_id_is_rejected<F>(m: Map<Seq<u8>, F>, t: Seq<char>, f: F)
    requires
        !is_id_text(t),
    ensures
        by_id_status(m, t) == Status::BadRequest,
        after_update(m, t, f) == m,
        after_delete(m, t) == m,
{
}

/// An identifier that names no document gives Not Found to get, update and
/// delete, and leaves the collection as it was.
pub proof fn law_absent_id_is_not_found<F>(m: Map<Seq<u8>, F>, t: Seq<char>, f: F)
    requires
        is_id_text(t),
        !m.contains_key(id_bytes_of(t)),
    ensures
        by_id_status(m, t) == Status::NotFound,
        after_update(m, t, f) == m,
        after_delete(m, t) == m,
{
    assert(m.remove(id_bytes_of(t)) =~= m);
}

/// Applying the same update twice gives the same collection as applying it
/// once, and the same status both times.
pub proof fn law_update_is_idempotent<F>(m: Map<Seq<u8>, F>, t: Seq<char>, f: F)
    ensures
        after_update(after_update(m, t, f), t, f) == after_update(m, t, f),
        by_id_status(after_update(m, t, f), t) == by_id_status(m, t),
{
    if is_id_text(t) && m.contains_key(id_bytes_of(t)) {
        assert(m.insert(id_bytes_of(t), f).insert(id_bytes_of(t), f) =~= m.insert(id_bytes_of(t), f));
    }
}

/// Deleting a stored document succeeds; deleting it again right after gives
/// Not Found.
pub proof fn law_second_delete_is_not_found<F>(m: Map<Seq<u8>, F>, t: Seq<char>)
    requires
        is_id_text(t),
        m.contains_key(id_bytes_of(t)),
    ensures
        by_id_status(m, t) == Status::Success,
        by_id_status(after_delete(m, t), t) == Status::NotFound,
{
}

} // verus!
