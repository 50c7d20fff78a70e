use std::time::Duration;

use background_service::background_service_manager::{
    finished_flags, finished_indexes, finished_positions, reap_finished, reap_flagged, remove_indexes, take_all,
};
use background_service::service_context_wasm::{handle_service_remove, ServiceMap};
use background_service::service_info::ServiceInfo as ListServiceInfo;
use background_service::service_info_wasm::ServiceInfo;
use background_service::IdCounter;
use tokio_util::sync::CancellationToken;

#[test]
fn remove_indexes_keeps_the_rest_in_order() {
    let mut items = vec!['a', 'b', 'c', 'd', 'e'];
    remove_indexes(&mut items, vec![0, 2, 4]);
    assert_eq!(items, vec!['b', 'd']);
    let mut items = vec![1, 2, 3];
    remove_indexes(&mut items, vec![]);
    assert_eq!(items, vec![1, 2, 3]);
    let mut items = vec![1, 2, 3];
    remove_indexes(&mut items, vec![2]);
    assert_eq!(items, vec![1, 2]);
}

#[test]
fn take_all_empties_last_first() {
    let mut items = vec![1, 2, 3];
    let taken = take_all(&mut items);
    assert!(items.is_empty());
    assert_eq!(taken, vec![3, 2, 1]);
}

#[test]
fn reap_drops_only_finished_services() {
    let rt = tokio::runtime::Runtime::new().unwrap();
    let mut ids = IdCounter::new();
    let (tx, rx) = std::sync::mpsc::channel::<()>();
    let done = rt.spawn(async { Ok::<(), &'static str>(()) });
    let waiting = rt.spawn_blocking(move || {
        let _ = rx.recv();
        Ok::<(), &'static str>(())
    });
    let done2 = rt.spawn(async { Ok::<(), &'static str>(()) });
    rt.block_on(async { tokio::time::sleep(Duration::from_millis(200)).await });
    let mut services = vec![
        ListServiceInfo::new(ids.next_id(), "done".to_owned(), Duration::from_secs(1), done),
        ListServiceInfo::new(ids.next_id(), "waiting".to_owned(), Duration::from_secs(1), waiting),
        ListServiceInfo::new(ids.next_id(), "done2".to_owned(), Duration::from_secs(1), done2),
    ];
    assert_eq!(finished_flags(&services), vec![true, false, true]);
    assert_eq!(finished_indexes(&services), vec![0, 2]);
    let removed = reap_finished(&mut services);
    assert_eq!(removed, vec![0, 2]);
    assert_eq!(services.len(), 1);
    assert_eq!(services[0].name(), "waiting");
    assert_eq!(services[0].id().value(), 2);
    tx.send(()).unwrap();
}

fn info(ids: &mut IdCounter, name: &str, token: &CancellationToken) -> ServiceInfo {
    ServiceInfo::new(ids.next_id(), name.to_owned(), Duration::from_secs(2), token.clone())
}

#[test]
fn service_map_take_after_insert() {
    let mut ids = IdCounter::new();
    let token = CancellationToken::new();
    let mut map = ServiceMap::new();
    let a = info(&mut ids, "a", &token);
    let a_id = a.id();
    map.insert(a);
    map.insert(info(&mut ids, "b", &token));
    assert_eq!(map.len(), 2);
    let taken = map.take(&a_id).unwrap();
    assert_eq!(taken.name(), "a");
    assert_eq!(taken.id(), a_id);
    assert_eq!(taken.timeout(), Duration::from_secs(2));
    assert!(map.take(&a_id).is_none());
    assert_eq!(map.len(), 1);
    assert!(taken.wait_for_shutdown::<()>().is_ok());
}

#[test]
fn service_map_cancel_service_cancels_only_that_one() {
    let mut ids = IdCounter::new();
    let t1 = CancellationToken::new();
    let t2 = CancellationToken::new();
    let mut map = ServiceMap::new();
    let a = info(&mut ids, "a", &t1);
    let a_id = a.id();
    map.insert(a);
    map.insert(info(&mut ids, "b", &t2));
    map.cancel_service(&a_id);
    assert!(t1.is_cancelled());
    assert!(!t2.is_cancelled());
}

#[test]
fn service_map_drain_returns_every_service_once() {
    let mut ids = IdCounter::new();
    let token = CancellationToken::new();
    let mut map = ServiceMap::new();
    for name in ["a", "b", "c"] {
        map.insert(info(&mut ids, name, &token));
    }
    let mut names: Vec<String> = map.drain().iter().map(|s| s.name().to_owned()).collect();
    names.sort();
    assert_eq!(names, vec!["a".to_owned(), "b".to_owned(), "c".to_owned()]);
    assert_eq!(map.len(), 0);
    assert!(map.drain().is_empty());
}

#[test]
fn handle_service_remove_respects_cancellation() {
    let mut ids = IdCounter::new();
    let token = CancellationToken::new();
    let mut map = ServiceMap::new();
    let a = info(&mut ids, "a", &token);
    let a_id = a.id();
    map.insert(a);
    let b = info(&mut ids, "b", &token);
    let b_id = b.id();
    map.insert(b);

    let manager_token = CancellationToken::new();
    let r = handle_service_remove(&a_id, Err::<(), &str>("failed"), &mut map, &manager_token);
    assert_eq!(r, Err("failed"));
    assert_eq!(map.len(), 1);

    manager_token.cancel();
    let r = handle_service_remove(&b_id, Ok::<(), &str>(()), &mut map, &manager_token);
    assert_eq!(r, Ok(()));
    assert_eq!(map.len(), 1);
    map.remove_ended(&b_id, false);
    assert_eq!(map.len(), 0);
}

#[test]
fn taking_one_service_leaves_the_others() {
    let mut ids = IdCounter::new();
    let token = CancellationToken::new();
    let mut map = ServiceMap::new();
    let a = info(&mut ids, "a", &token);
    let b = info(&mut ids, "b", &token);
    let (a_id, b_id) = (a.id(), b.id());
    map.insert(a);
    map.insert(b);
    let _ = map.take(&a_id);
    let b_again = map.take(&b_id).unwrap();
    assert_eq!(b_again.name(), "b");
    assert_eq!(b_again.id(), b_id);
}

#[test]
fn finished_positions_are_exactly_the_flagged_ones() {
    assert_eq!(finished_positions(&vec![false, true, true, false, true]), vec![1, 2, 4]);
    assert!(finished_positions(&vec![false, false]).is_empty());
    assert!(finished_positions(&vec![]).is_empty());
}

#[test]
fn reap_flagged_drops_exactly_the_flagged_items() {
    let mut items = vec!["a", "b", "c", "d"];
    let removed = reap_flagged(&mut items, &vec![true, false, false, true]);
    assert_eq!(removed, vec![0, 3]);
    assert_eq!(items, vec!["b", "c"]);
    let mut items = vec![1, 2];
    assert!(reap_flagged(&mut items, &vec![false, false]).is_empty());
    assert_eq!(items, vec![1, 2]);
}
