//! The handle through which a running service reaches its manager: it spawns
//! further services, looks them up by id, and cancels them.
//!
//! Cancellation is layered: `cancel_all` cancels the manager's token and with
//! it every service; `cancel_children` cancels only the services this context
//! (or a service it spawned) started; a service watches its own token.

use dashmap::DashMap;
use std::sync::Arc;
use std::time::Duration;
use tokio::task::JoinHandle;
use tokio_util::sync::{
    CancellationToken, WaitForCancellationFuture, WaitForCancellationFutureOwned,
};
use tokio_util::task::TaskTracker;
use vstd::prelude::*;

use crate::native::service_info::ServiceInfo;
use crate::sync::{
    arc_clone, map_get, map_insert, map_remove, ref_value, token_cancel, token_cancelled,
    token_cancelled_owned, token_child, token_clone, token_descends, token_is_cancelled,
    tracker_clone,
};
use crate::TaskId;

verus! {

/// A service's view of its manager.
#[verifier::reject_recursive_types(E)]
#[derive(Debug)]
pub struct ServiceContext<E> {
    services: Arc<DashMap<TaskId, ServiceInfo<E>>>,
    tracker: TaskTracker,
    root_token: CancellationToken,
    self_token: CancellationToken,
    child_token: CancellationToken,
}

impl<E> Clone for ServiceContext<E> {
    fn clone(&self) -> (r: Self)
        ensures
            r.services() == self.services(),
            r.task_tracker() == self.task_tracker(),
            r.manager_token() == self.manager_token(),
            r.own_token() == self.own_token(),
            r.children_token() == self.children_token(),
    {
        ServiceContext {
            services: arc_clone(&self.services),
            tracker: tracker_clone(&self.tracker),
            root_token: token_clone(&self.root_token),
            self_token: token_clone(&self.self_token),
            child_token: token_clone(&self.child_token),
        }
    }
}

impl<E> ServiceContext<E> {
    /// The registry of running services that this context works on.
    pub closed spec fn services(&self) -> Arc<DashMap<TaskId, ServiceInfo<E>>> {
        self.services
    }

    /// The token this context's service watches.
    pub closed spec fn own_token(&self) -> CancellationToken {
        self.self_token
    }

    /// The manager's token, as this context holds it.
    pub closed spec fn manager_token(&self) -> CancellationToken {
        self.root_token
    }

    /// The token below which the services spawned from this context hang.
    pub closed spec fn children_token(&self) -> CancellationToken {
        self.child_token
    }

    /// The tracker the manager's tasks are spawned on.
    pub closed spec fn task_tracker(&self) -> TaskTracker {
        self.tracker
    }

    /// The context the manager hands out: it watches the manager's own token,
    /// and the services it spawns hang below a child of that token.
    pub fn new(
        services: Arc<DashMap<TaskId, ServiceInfo<E>>>,
        tracker: TaskTracker,
        cancellation_token: CancellationToken,
    ) -> (r: Self)
        ensures
            r.services() == services,
            r.own_token() == cancellation_token,
            r.manager_token() == cancellation_token,
            token_descends(r.children_token(), cancellation_token),
            r.task_tracker() == tracker,
    {
        let child_token = token_child(&cancellation_token);
        ServiceContext {
            root_token: token_clone(&cancellation_token),
            self_token: cancellation_token,
            child_token,
            tracker,
            services,
        }
    }

    /// The context of a service spawned from this one: the service watches a
    /// new child of this context's child token, and what it spawns in turn
    /// hangs below a child of the service's own token.
    pub fn child(&self) -> (r: Self)
        ensures
            r.services() == self.services(),
            r.task_tracker() == self.task_tracker(),
            r.manager_token() == self.manager_token(),
            token_descends(r.own_token(), self.children_token()),
            token_descends(r.children_token(), r.own_token()),
    {
        let self_token = token_child(&self.child_token);
        let child_token = token_child(&self_token);
        ServiceContext {
            services: arc_clone(&self.services),
            tracker: tracker_clone(&self.tracker),
            root_token: token_clone(&self.root_token),
            self_token,
            child_token,
        }
    }

    /// Takes the service `id` out of the registry, so that the manager no
    /// longer waits for it when shutting down.
    pub fn take_service(&self, id: &TaskId) -> Option<ServiceInfo<E>> {
        if let Some((_, service)) = map_remove(&self.services, id) {
            Some(service)
        } else {
            None
        }
    }

    /// Asks the service `id`, if it is registered, to stop.
    pub fn cancel_service(&self, id: &TaskId) {
        if let Some(guard) = map_get(&self.services, id) {
            ref_value(&guard).cancel();
        }
    }

    /// Cancels the task of the service `id` outright, if it is registered.
    pub fn abort_service(&self, id: &TaskId) {
        if let Some(guard) = map_get(&self.services, id) {
            ref_value(&guard).abort();
        }
    }

    /// Cancels the manager's token, and with it every service.
    pub fn cancel_all(&self) {
        token_cancel(&self.root_token);
    }

    /// Cancels every service spawned from this context, and what they spawned.
    pub fn cancel_children(&self) {
        token_cancel(&self.child_token);
    }

    /// A future that completes once this context's service is asked to stop.
    pub fn cancelled(&self) -> WaitForCancellationFuture<'_> {
        token_cancelled(&self.self_token)
    }

    /// The owning form of `cancelled`.
    pub fn cancelled_owned(&self) -> WaitForCancellationFutureOwned {
        token_cancelled_owned(token_clone(&self.self_token))
    }

    /// Whether this context's service has been asked to stop.
    pub fn is_cancelled(&self) -> bool {
        token_is_cancelled(&self.self_token)
    }

    /// What spawning a service from this context starts from: the context the
    /// service runs in (a child of this one) and the token through which the
    /// registry will ask the service to stop, which is the one it watches.
    pub fn spawn_parts(&self) -> (r: (ServiceContext<E>, CancellationToken))
        ensures
            r.0.services() == self.services(),
            r.0.task_tracker() == self.task_tracker(),
            r.0.manager_token() == self.manager_token(),
            token_descends(r.0.own_token(), self.children_token()),
            token_descends(r.0.children_token(), r.0.own_token()),
            r.1 == r.0.own_token(),
    {
        let child = self.child();
        let token = token_clone(&child.self_token);
        (child, token)
    }

    /// Registers the service `id` that runs as the task `handle` and is asked
    /// to stop through `token`.
    pub fn register(
        &self,
        id: TaskId,
        name: String,
        timeout: Duration,
        handle: JoinHandle<Result<(), E>>,
        token: CancellationToken,
    ) {
        let info = ServiceInfo::new(id, name, timeout, handle, token);
        let _ = map_insert(&self.services, id, info);
    }

    /// The token this context's service watches.
    pub fn self_token(&self) -> (r: &CancellationToken)
        ensures
            *r == self.own_token(),
    {
        &self.self_token
    }

    /// The manager's token.
    pub fn root_token(&self) -> (r: &CancellationToken)
        ensures
            *r == self.manager_token(),
    {
        &self.root_token
    }

    /// The tracker the manager's tasks are spawned on.
    pub fn tracker(&self) -> (r: &TaskTracker)
        ensures
            *r == self.task_tracker(),
    {
        &self.tracker
    }

    /// Another pointer to the registry of running services.
    pub fn services_handle(&self) -> (r: Arc<DashMap<TaskId, ServiceInfo<E>>>)
        ensures
            r == self.services(),
    {
        arc_clone(&self.services)
    }
}

/// Ends the service `id` that finished with `res` on its own: unless the
/// manager's `cancellation_token` has been cancelled (the manager then collects
/// every service itself), the service leaves the registry. Its result is
/// handed back unchanged.
pub fn handle_service_remove<E>(
    id: &TaskId,
    res: Result<(), E>,
    services: &DashMap<TaskId, ServiceInfo<E>>,
    cancellation_token: &CancellationToken,
) -> (r: Result<(), E>)
    ensures
        r == res,
{
    if !token_is_cancelled(cancellation_token) {
        let _ = map_remove(services, id);
    }
    res
}

} // verus!
