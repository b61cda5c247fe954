use crud_api::ident::DocId;
use crud_api::reply::{
    created, deleted, found, invalid_id, listed, updated, Body, Listing, Message, Resource, Status,
};
use crud_api::store::{Document, StoreFault, UserFields};

fn user(n: u8, name: &str) -> Document<UserFields> {
    Document { id: DocId { bytes: [n; 12] }, fields: UserFields { username: name.to_string() } }
}

#[test]
fn status_codes() {
    assert_eq!(Status::Success.code(), 200);
    assert_eq!(Status::Created.code(), 201);
    assert_eq!(Status::BadRequest.code(), 400);
    assert_eq!(Status::NotFound.code(), 404);
    assert_eq!(Status::ServerError.code(), 500);
}

#[test]
fn invalid_id_is_bad_request() {
    let r = invalid_id::<UserFields>();
    assert_eq!(r.status, Status::BadRequest);
    assert!(matches!(r.body, Body::Text(Message::InvalidId)));
}

#[test]
fn create_outcomes() {
    let r = created(Resource::User, user(1, "alice"), Ok(()));
    assert_eq!(r.status, Status::Created);
    match r.body {
        Body::Record(d) => assert_eq!(d.fields.username, "alice"),
        _ => panic!("expected the record"),
    }
    let r = created(Resource::User, user(1, "alice"), Err(StoreFault::Unavailable));
    assert_eq!(r.status, Status::ServerError);
    assert!(matches!(r.body, Body::Text(Message::CreateFailed(Resource::User))));
}

#[test]
fn find_outcomes() {
    let r = found(Resource::Post, Ok(Some(user(2, "bob"))));
    assert_eq!(r.status, Status::Success);
    let r = found::<UserFields>(Resource::Post, Ok(None));
    assert_eq!(r.status, Status::NotFound);
    assert!(matches!(r.body, Body::Text(Message::NotFound(Resource::Post))));
    let r = found::<UserFields>(Resource::Post, Err(StoreFault::Unavailable));
    assert_eq!(r.status, Status::ServerError);
    assert!(matches!(r.body, Body::Text(Message::FetchFailed(Resource::Post))));
}

#[test]
fn list_outcomes() {
    let r = listed(Resource::User, Ok(vec![user(1, "a"), user(2, "b")]));
    assert_eq!(r.status, Status::Success);
    assert!(matches!(&r.body, Body::Records(v) if v.len() == 2));
    let r = listed::<UserFields>(Resource::User, Err(StoreFault::Unavailable));
    assert_eq!(r.status, Status::ServerError);
    assert!(matches!(&r.body, Body::Records(v) if v.is_empty()));
}

#[test]
fn update_outcomes() {
    let r = updated::<UserFields>(Resource::User, Ok(1));
    assert_eq!(r.status, Status::Success);
    assert!(matches!(r.body, Body::Text(Message::Updated(Resource::User))));
    let r = updated::<UserFields>(Resource::User, Ok(0));
    assert_eq!(r.status, Status::NotFound);
    assert!(matches!(r.body, Body::Text(Message::NotFound(Resource::User))));
    let r = updated::<UserFields>(Resource::User, Err(StoreFault::Unavailable));
    assert_eq!(r.status, Status::ServerError);
    assert!(matches!(r.body, Body::Text(Message::UpdateFailed(Resource::User))));
}

#[test]
fn delete_outcomes() {
    let r = deleted::<UserFields>(Resource::Post, Ok(1));
    assert_eq!(r.status, Status::Success);
    assert!(matches!(r.body, Body::Text(Message::Deleted(Resource::Post))));
    let r = deleted::<UserFields>(Resource::Post, Ok(0));
    assert_eq!(r.status, Status::NotFound);
    let r = deleted::<UserFields>(Resource::Post, Err(StoreFault::Unavailable));
    assert_eq!(r.status, Status::ServerError);
    assert!(matches!(r.body, Body::Text(Message::DeleteFailed(Resource::Post))));
}

#[test]
fn listing_keeps_every_item() {
    let mut l = Listing::new(Resource::User);
    assert!(l.feed(Ok(user(1, "a"))));
    assert!(l.feed(Ok(user(2, "b"))));
    let r = l.finish();
    assert_eq!(r.status, Status::Success);
    match r.body {
        Body::Records(v) => {
            assert_eq!(v.len(), 2);
            assert_eq!(v[0].fields.username, "a");
            assert_eq!(v[1].fields.username, "b");
        }
        _ => panic!("expected records"),
    }
}

#[test]
fn listing_failure_discards_what_was_read() {
    let mut l = Listing::new(Resource::User);
    assert!(l.feed(Ok(user(1, "a"))));
    assert!(!l.feed(Err(StoreFault::Unavailable)));
    assert!(!l.feed(Ok(user(2, "b"))));
    let r = l.finish();
    assert_eq!(r.status, Status::ServerError);
    assert!(matches!(&r.body, Body::Records(v) if v.is_empty()));
}

#[test]
fn empty_listing_is_ok() {
    let r = Listing::<UserFields>::new(Resource::Post).finish();
    assert_eq!(r.status, Status::Success);
    assert!(matches!(&r.body, Body::Records(v) if v.is_empty()));
}
