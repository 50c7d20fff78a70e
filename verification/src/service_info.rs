//! A service as the list-based `BackgroundServiceManager` tracks it.

use std::time::Duration;
use tokio::task::{AbortHandle, JoinHandle};
use vstd::prelude::*;

use crate::error::BackgroundServiceError;
use crate::native::service_info::{is_shutdown_outcome, shutdown_result, WaitResult};
use crate::sync::{
    abort_handle_abort, join_handle_abort, join_handle_abort_handle, join_handle_is_finished,
};
use crate::TaskId;

verus! {

/// The parts of a tracked service that the library reasons about.
pub ghost struct ServiceInfoView {
    pub id: u64,
    pub name: Seq<char>,
    pub timeout: Duration,
}

/// A running service as the list-based manager tracks it.
#[verifier::reject_recursive_types(E)]
#[derive(Debug)]
pub struct ServiceInfo<E> {
    pub(crate) name: String,
    pub(crate) id: TaskId,
    pub(crate) timeout: Duration,
    pub(crate) handle: JoinHandle<Result<(), E>>,
}

impl<E> View for ServiceInfo<E> {
    type V = ServiceInfoView;

    closed spec fn view(&self) -> ServiceInfoView {
        ServiceInfoView { id: self.id@, name: self.name@, timeout: self.timeout }
    }
}

impl<E> ServiceInfo<E> {
    /// The task that runs the service.
    pub closed spec fn task(&self) -> JoinHandle<Result<(), E>> {
        self.handle
    }

    /// Records a service that runs as the task `handle`.
    pub fn new(id: TaskId, name: String, timeout: Duration, handle: JoinHandle<Result<(), E>>) -> (r: Self)
        ensures
            r@ == (ServiceInfoView { id: id@, name: name@, timeout }),
            r.task() == handle,
    {
        ServiceInfo { name, id, timeout, handle }
    }

    /// The service's name.
    pub fn name(&self) -> (r: &str)
        ensures
            r@ == self@.name,
    {
        self.name.as_str()
    }

    /// How long shutting the service down may take.
    pub fn timeout(&self) -> (r: Duration)
        ensures
            r == self@.timeout,
    {
        self.timeout
    }

    /// The id the service was given.
    pub fn id(&self) -> (r: TaskId)
        ensures
            r@ == self@.id,
    {
        self.id
    }

    /// Cancels the service's task outright.
    pub fn abort(&self) {
        join_handle_abort(&self.handle);
    }

    /// Whether the service's task has ended, as the runtime reports it now.
    pub fn is_finished(&self) -> bool {
        join_handle_is_finished(&self.handle)
    }

    /// A handle that can cancel the service's task once the service itself
    /// has been handed over for waiting.
    pub fn abort_handle(&self) -> AbortHandle {
        join_handle_abort_handle(&self.handle)
    }

    /// The task that runs the service, to be waited for.
    pub fn into_handle(self) -> (r: JoinHandle<Result<(), E>>)
        ensures
            r == self.task(),
    {
        self.handle
    }

    /// The end of shutting the service `name` down: on a timeout its task is
    /// cancelled through `abort_handle`, and the outcome becomes the
    /// service's shutdown result.
    pub fn finish_shutdown(
        name: String,
        wait: WaitResult<Result<(), E>, E>,
        abort_handle: AbortHandle,
    ) -> (r: Result<(), BackgroundServiceError<E>>)
        ensures
            is_shutdown_outcome(name@, wait, r),
    {
        if let WaitResult::TimedOut = wait {
            abort_handle_abort(&abort_handle);
        }
        shutdown_result(name, wait)
    }
}

} // verus!
