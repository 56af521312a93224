use std::sync::Arc;

use songbook::catalog::{Catalog, SongCreation};
use songbook::errors::CatalogError;
use songbook::offload::{settle_worker, WorkerOutcome};
use tokio::sync::Mutex;

#[test]
fn completed_workers_hand_their_result_through() {
    let settled = settle_worker(WorkerOutcome::Completed(5_i64));
    assert_eq!(settled, Ok(5));
}

#[test]
fn aborted_workers_surface_as_worker_aborted() {
    let settled: Result<i64, CatalogError> = settle_worker(WorkerOutcome::Aborted);
    assert_eq!(settled, Err(CatalogError::WorkerAborted));
}

#[test]
fn offloaded_operations_deliver_across_the_worker_boundary() {
    let runtime = tokio::runtime::Runtime::new().unwrap();
    let store = Arc::new(Mutex::new(Catalog::open_in_memory().unwrap()));

    let db = store.clone();
    let joined = runtime.block_on(async move {
        tokio::task::spawn_blocking(move || {
            let mut cat = db.blocking_lock();
            cat.create_song(&"Offloaded".to_string(), &"A".to_string())
        })
        .await
    });
    let outcome = match joined {
        Ok(result) => WorkerOutcome::Completed(result),
        Err(_) => WorkerOutcome::Aborted,
    };
    let created = settle_worker(outcome).unwrap().unwrap();
    assert!(matches!(created, SongCreation::Created(1)));
}

#[test]
fn a_worker_that_panics_is_reported_not_dropped() {
    let runtime = tokio::runtime::Runtime::new().unwrap();
    let joined: Result<i64, tokio::task::JoinError> = runtime.block_on(async {
        tokio::task::spawn_blocking(|| panic!("worker died")).await
    });
    let outcome = match joined {
        Ok(v) => WorkerOutcome::Completed(v),
        Err(_) => WorkerOutcome::Aborted,
    };
    assert_eq!(settle_worker(outcome), Err(CatalogError::WorkerAborted));
}

#[test]
fn concurrent_same_title_creations_insert_at_most_once() {
    let runtime = tokio::runtime::Runtime::new().unwrap();
    let store = Arc::new(Mutex::new(Catalog::open_in_memory().unwrap()));

    let outcomes = runtime.block_on(async {
        let mut handles = Vec::new();
        for _ in 0..8 {
            let db = store.clone();
            handles.push(tokio::task::spawn_blocking(move || {
                let mut cat = db.blocking_lock();
                cat.create_song(&"Same Title".to_string(), &"A".to_string())
                    .unwrap()
            }));
        }
        let mut outcomes = Vec::new();
        for handle in handles {
            outcomes.push(handle.await.unwrap());
        }
        outcomes
    });

    let created = outcomes
        .iter()
        .filter(|o| matches!(o, SongCreation::Created(_)))
        .count();
    let duplicates = outcomes
        .iter()
        .filter(|o| matches!(o, SongCreation::DuplicateSong))
        .count();
    assert_eq!(created, 1);
    assert_eq!(duplicates, 7);

    let cat = store.blocking_lock();
    assert_eq!(cat.list_songs(None).unwrap().len(), 1);
}
