use shop_graph::dispatch::{status_of, Reply};
use shop_graph::error::{Relation, ResolveError, StorageError};

#[test]
fn reply_to_a_found_entity_is_its_payload() {
    let outcome: Result<Option<i32>, ResolveError> = Ok(Some(1));
    assert_eq!(Reply::for_one(&outcome), Reply::Payload);
    assert_eq!(Reply::for_one(&outcome).status(), 200);
}

#[test]
fn reply_to_an_unknown_entity_is_empty_and_a_success() {
    let outcome: Result<Option<i32>, ResolveError> = Ok(None);
    assert_eq!(Reply::for_one(&outcome), Reply::Empty);
    assert_eq!(Reply::for_one(&outcome).status(), 200);
}

#[test]
fn reply_to_a_failed_query_is_a_failure() {
    let outcome: Result<Option<i32>, ResolveError> =
        Err(ResolveError::Storage(StorageError::Connectivity));
    assert_eq!(Reply::for_one(&outcome), Reply::Failure);
    assert_eq!(Reply::for_one(&outcome).status(), 400);
    let outcome: Result<Option<i32>, ResolveError> =
        Err(ResolveError::ReferentialIntegrity { relation: Relation::Shops, id: 1 });
    assert_eq!(Reply::for_one(&outcome), Reply::Failure);
}

#[test]
fn reply_to_a_collection_is_its_payload_even_when_empty() {
    let outcome: Result<Vec<i32>, ResolveError> = Ok(Vec::new());
    assert_eq!(Reply::for_many(&outcome), Reply::Payload);
    let outcome: Result<Vec<i32>, ResolveError> = Ok(vec![1, 2]);
    assert_eq!(Reply::for_many(&outcome), Reply::Payload);
    let outcome: Result<Vec<i32>, ResolveError> =
        Err(ResolveError::Storage(StorageError::MalformedRow));
    assert_eq!(Reply::for_many(&outcome), Reply::Failure);
    assert_eq!(Reply::for_many(&outcome).status(), 400);
}

#[test]
fn status_of_several_roots_fails_as_soon_as_one_root_failed() {
    assert_eq!(status_of(&Vec::new()), 200);
    assert_eq!(status_of(&vec![Reply::Payload, Reply::Empty]), 200);
    assert_eq!(status_of(&vec![Reply::Payload, Reply::Failure, Reply::Empty]), 400);
    assert_eq!(status_of(&vec![Reply::Failure]), 400);
    assert_eq!(status_of(&vec![Reply::Empty, Reply::Empty, Reply::Failure]), 400);
}
