//! What the manager keeps of a running service, and how the outcome of
//! waiting for it to finish becomes the service's shutdown result.

use std::time::Duration;
use tokio::task::{AbortHandle, JoinError, JoinHandle};
use tokio::time::error::Elapsed;
use tokio_util::sync::CancellationToken;
use vstd::prelude::*;

use crate::error::BackgroundServiceError;
use crate::sync::{abort_handle_abort, join_handle_abort, join_handle_abort_handle, token_cancel};
use crate::TaskId;

verus! {

/// What came of waiting, within a service's timeout, for its task to end.
pub enum WaitResult<T, E> {
    /// The timeout elapsed first.
    TimedOut,
    /// The task ended and returned this.
    Completed(T),
    /// The task could not be joined (it panicked or was cancelled).
    JoinError(E),
}

#[verifier::external_type_specification]
#[verifier::external_body]
pub struct ExElapsed(Elapsed);

/// `From::from` for the failure of a task: turns a `JoinError` into the
/// error type services report with. Nothing is said of the result.
#[verifier::external_body]
fn join_error_into<E: From<JoinError>>(e: JoinError) -> E {
    E::from(e)
}

/// What came of waiting for a task under `tokio::time::timeout`: the timeout
/// elapsing, the task failing, or the task's own result.
pub fn wait_result<T, E: From<JoinError>>(outcome: Result<Result<T, JoinError>, Elapsed>) -> (r: WaitResult<T, E>)
    ensures
        match outcome {
            Ok(Ok(v)) => r == WaitResult::<T, E>::Completed(v),
            Ok(Err(_)) => r is JoinError,
            Err(_) => r is TimedOut,
        },
{
    match outcome {
        Ok(Ok(v)) => WaitResult::Completed(v),
        Ok(Err(e)) => WaitResult::JoinError(join_error_into(e)),
        Err(_) => WaitResult::TimedOut,
    }
}

/// The shutdown result that the outcome `wait` of waiting for the service
/// `name` gives: success only when the service itself returned `Ok`.
pub open spec fn is_shutdown_outcome<E>(
    name: Seq<char>,
    wait: WaitResult<Result<(), E>, E>,
    r: Result<(), BackgroundServiceError<E>>,
) -> bool {
    match wait {
        WaitResult::Completed(Ok(())) => r is Ok,
        WaitResult::Completed(Err(e)) => r matches Err(
            BackgroundServiceError::ExecutionFailure(n, e2),
        ) && n@ == name && e2 == e,
        WaitResult::JoinError(e) => r matches Err(BackgroundServiceError::ExecutionPanic(n, e2))
            && n@ == name && e2 == e,
        WaitResult::TimedOut => r matches Err(BackgroundServiceError::TimedOut(n)) && n@ == name,
    }
}

/// Turns what came of waiting for the service `name` into its shutdown result.
pub fn shutdown_result<E>(name: String, wait: WaitResult<Result<(), E>, E>) -> (r: Result<
    (),
    BackgroundServiceError<E>,
>)
    ensures
        is_shutdown_outcome(name@, wait, r),
{
    match wait {
        WaitResult::Completed(Ok(())) => Ok(()),
        WaitResult::Completed(Err(e)) => Err(BackgroundServiceError::ExecutionFailure(name, e)),
        WaitResult::JoinError(e) => Err(BackgroundServiceError::ExecutionPanic(name, e)),
        WaitResult::TimedOut => Err(BackgroundServiceError::TimedOut(name)),
    }
}

/// The parts of a registered service that the library reasons about.
pub ghost struct ServiceInfoView {
    pub id: u64,
    pub name: Seq<char>,
    pub timeout: Duration,
}

/// A running service as the manager tracks it.
#[verifier::reject_recursive_types(E)]
#[derive(Debug)]
pub struct ServiceInfo<E> {
    pub(crate) name: String,
    pub(crate) id: TaskId,
    pub(crate) timeout: Duration,
    pub(crate) handle: JoinHandle<Result<(), E>>,
    pub(crate) cancellation_token: CancellationToken,
}

impl<E> View for ServiceInfo<E> {
    type V = ServiceInfoView;

    closed spec fn view(&self) -> ServiceInfoView {
        ServiceInfoView { id: self.id@, name: self.name@, timeout: self.timeout }
    }
}

impl<E> ServiceInfo<E> {
    /// The task that runs the service.
    pub closed spec fn task(&self) -> JoinHandle<Result<(), E>> {
        self.handle
    }

    /// The token through which the service is asked to stop.
    pub closed spec fn token(&self) -> CancellationToken {
        self.cancellation_token
    }

    /// Records a service that runs as the task `handle` and is cancelled
    /// through `cancellation_token`.
    pub fn new(
        id: TaskId,
        name: String,
        timeout: Duration,
        handle: JoinHandle<Result<(), E>>,
        cancellation_token: CancellationToken,
    ) -> (r: Self)
        ensures
            r@ == (ServiceInfoView { id: id@, name: name@, timeout }),
            r.task() == handle,
            r.token() == cancellation_token,
    {
        ServiceInfo { name, id, timeout, handle, cancellation_token }
    }

    /// The service's name.
    pub fn name(&self) -> (r: &str)
        ensures
            r@ == self@.name,
    {
        self.name.as_str()
    }

    /// How long shutting the service down may take.
    pub fn timeout(&self) -> (r: Duration)
        ensures
            r == self@.timeout,
    {
        self.timeout
    }

    /// The id the service is registered under.
    pub fn id(&self) -> (r: TaskId)
        ensures
            r@ == self@.id,
    {
        self.id
    }

    /// Cancels the service's task outright.
    pub fn abort(&self) {
        join_handle_abort(&self.handle);
    }

    /// Asks the service to stop, through its cancellation token.
    pub fn cancel(&self) {
        token_cancel(&self.cancellation_token);
    }

    /// A handle that can cancel the service's task once the service itself
    /// has been handed over for waiting.
    pub fn abort_handle(&self) -> (r: Option<AbortHandle>)
        ensures
            r is Some,
    {
        Some(join_handle_abort_handle(&self.handle))
    }

    /// The task that runs the service, to be waited for.
    pub fn into_handle(self) -> (r: JoinHandle<Result<(), E>>)
        ensures
            r == self.task(),
    {
        self.handle
    }

    /// The end of shutting the service `name` down: on a timeout its task is
    /// cancelled through `abort_handle`, and the outcome becomes the
    /// service's shutdown result.
    pub fn finish_shutdown(
        name: String,
        wait: WaitResult<Result<(), E>, E>,
        abort_handle: Option<AbortHandle>,
    ) -> (r: Result<(), BackgroundServiceError<E>>)
        ensures
            is_shutdown_outcome(name@, wait, r),
    {
        if let WaitResult::TimedOut = wait {
            if let Some(h) = abort_handle {
                abort_handle_abort(&h);
            }
        }
        shutdown_result(name, wait)
    }
}

} // verus!
