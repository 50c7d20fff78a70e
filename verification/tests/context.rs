use std::time::Duration;

use background_service::manager::{removed_services, Manager, Settings};
use background_service::native::service_info::{wait_result, ServiceInfo, WaitResult};
use background_service::service_context::handle_service_remove;
use background_service::IdCounter;
use tokio_util::sync::CancellationToken;

type Res = Result<(), &'static str>;

#[test]
fn child_contexts_form_a_cancellation_tree() {
    let rt = tokio::runtime::Runtime::new().unwrap();
    let _guard = rt.enter();
    let token = CancellationToken::new();
    let manager = Manager::<&'static str>::new(token.clone(), Settings::default());
    let root = manager.get_context();
    let child = root.child();
    let grandchild = child.child();
    assert!(!root.is_cancelled());
    root.cancel_children();
    assert!(!root.is_cancelled());
    assert!(child.is_cancelled());
    assert!(grandchild.is_cancelled());
    assert!(!token.is_cancelled());
    let other = manager.get_context();
    let other_child = other.child();
    other_child.cancel_all();
    assert!(token.is_cancelled());
    assert!(other.is_cancelled());
}

#[test]
fn registered_services_can_be_cancelled_taken_and_shut_down() {
    let rt = tokio::runtime::Runtime::new().unwrap();
    let _guard = rt.enter();
    let mut ids = IdCounter::new();
    let token = CancellationToken::new();
    let manager = Manager::<&'static str>::new(token.clone(), Settings::default());
    let context = manager.get_context();
    let child = context.child();
    let service_token = child.self_token().clone();
    let watched = service_token.clone();
    let handle = manager.tracker().spawn(async move {
        watched.cancelled().await;
        Err::<(), &'static str>("stopped")
    });
    let id = ids.next_id();
    context.register(id, "worker".to_owned(), Duration::from_secs(1), handle, service_token.clone());
    context.cancel_service(&id);
    assert!(service_token.is_cancelled());
    let service = context.take_service(&id).unwrap();
    assert_eq!(service.name(), "worker");
    assert_eq!(service.id(), id);
    assert!(context.take_service(&id).is_none());
    let abort = service.abort_handle();
    let result = rt.block_on(service.into_handle()).unwrap();
    let r = ServiceInfo::finish_shutdown("worker".to_owned(), WaitResult::Completed(result), abort);
    assert!(r.is_err());
}

#[test]
fn a_timed_out_service_is_aborted() {
    let rt = tokio::runtime::Runtime::new().unwrap();
    let _guard = rt.enter();
    let handle = rt.spawn(async {
        tokio::time::sleep(Duration::from_secs(3600)).await;
        Ok::<(), &'static str>(())
    });
    let service = ServiceInfo::new(IdCounter::new().next_id(), "slow".to_owned(), Duration::from_millis(1), handle, CancellationToken::new());
    let abort = service.abort_handle();
    let handle = service.into_handle();
    let r = ServiceInfo::finish_shutdown("slow".to_owned(), WaitResult::<Res, &'static str>::TimedOut, abort);
    assert!(r.is_err());
    let joined = rt.block_on(handle);
    assert!(joined.unwrap_err().is_cancelled());
}

#[test]
fn begin_cancel_takes_every_registered_service() {
    let rt = tokio::runtime::Runtime::new().unwrap();
    let _guard = rt.enter();
    let mut ids = IdCounter::new();
    let token = CancellationToken::new();
    let manager = Manager::<&'static str>::new(token.clone(), Settings::default());
    let context = manager.get_context();
    for name in ["a", "b"] {
        let handle = manager.tracker().spawn(async { Ok::<(), &'static str>(()) });
        context.register(ids.next_id(), name.to_owned(), Duration::from_secs(1), handle, CancellationToken::new());
    }
    let mut taken: Vec<String> = manager.begin_cancel().iter().map(|s| s.name().to_owned()).collect();
    taken.sort();
    assert_eq!(taken, vec!["a".to_owned(), "b".to_owned()]);
    assert!(token.is_cancelled());
    assert!(manager.tracker().is_closed());
    assert!(manager.begin_cancel().is_empty());
}

#[test]
fn remaining_wait_time_saturates() {
    let manager = Manager::<&'static str>::new(CancellationToken::new(), Settings::default().task_wait_duration(Duration::from_secs(3)));
    assert_eq!(manager.remaining_wait_time(Duration::from_secs(1)), Duration::from_secs(2));
    assert_eq!(manager.remaining_wait_time(Duration::from_secs(5)), Duration::ZERO);
    assert_eq!(manager.settings().wait_duration(), Duration::from_secs(3));
}

#[test]
fn a_service_that_ends_leaves_the_registry_unless_shutting_down() {
    let rt = tokio::runtime::Runtime::new().unwrap();
    let _guard = rt.enter();
    let mut ids = IdCounter::new();
    let token = CancellationToken::new();
    let manager = Manager::<&'static str>::new(token.clone(), Settings::default());
    let context = manager.get_context();
    let a = ids.next_id();
    let b = ids.next_id();
    for id in [a, b] {
        let handle = manager.tracker().spawn(async { Ok::<(), &'static str>(()) });
        context.register(id, "s".to_owned(), Duration::from_secs(1), handle, CancellationToken::new());
    }
    let services = context.services_handle();
    assert_eq!(handle_service_remove(&a, Err::<(), &str>("e"), &services, &token), Err("e"));
    assert!(context.take_service(&a).is_none());
    token.cancel();
    assert_eq!(handle_service_remove(&b, Ok::<(), &str>(()), &services, &token), Ok(()));
    assert!(context.take_service(&b).is_some());
}

#[test]
fn wait_result_tells_the_three_outcomes_apart() {
    type Boxed = Box<dyn std::error::Error + Send + Sync>;
    let rt = tokio::runtime::Runtime::new().unwrap();
    let done = rt.block_on(async {
        let h = tokio::spawn(async { 7u32 });
        tokio::time::timeout(Duration::from_secs(5), h).await
    });
    assert!(matches!(wait_result::<u32, Boxed>(done), WaitResult::Completed(7)));
    let failed = rt.block_on(async {
        let h = tokio::spawn(async {
            tokio::time::sleep(Duration::from_secs(3600)).await;
            1u32
        });
        h.abort();
        tokio::time::timeout(Duration::from_secs(5), h).await
    });
    assert!(matches!(wait_result::<u32, Boxed>(failed), WaitResult::JoinError(_)));
    let slow = rt.block_on(async {
        let h = tokio::spawn(async {
            tokio::time::sleep(Duration::from_secs(3600)).await;
            1u32
        });
        tokio::time::timeout(Duration::from_millis(10), h).await
    });
    assert!(matches!(wait_result::<u32, Boxed>(slow), WaitResult::TimedOut));
}

#[test]
fn removed_services_keeps_what_was_found_in_order() {
    let mut ids = IdCounter::new();
    let (a, b, c) = (ids.next_id(), ids.next_id(), ids.next_id());
    let r = removed_services(vec![Some((a, "a")), None, Some((b, "b")), None, Some((c, "c"))]);
    assert_eq!(r, vec!["a", "b", "c"]);
    assert!(removed_services::<u8>(vec![None, None]).is_empty());
}

#[test]
fn spawn_parts_give_a_child_watching_the_registered_token() {
    let rt = tokio::runtime::Runtime::new().unwrap();
    let _guard = rt.enter();
    let token = CancellationToken::new();
    let manager = Manager::<&'static str>::new(token.clone(), Settings::default());
    let context = manager.get_context();
    let (child, registered) = context.spawn_parts();
    let (sibling, _) = context.spawn_parts();
    registered.cancel();
    assert!(child.is_cancelled());
    assert!(!sibling.is_cancelled());
    assert!(!context.is_cancelled());
    let (grandchild, _) = sibling.spawn_parts();
    context.cancel_children();
    assert!(sibling.is_cancelled());
    assert!(grandchild.is_cancelled());
    assert!(!token.is_cancelled());
    assert!(context.root_token().clone().is_cancelled() == token.is_cancelled());
    token.cancel();
    assert!(context.is_cancelled());
    assert!(manager.cancellation_token().is_cancelled());
}
