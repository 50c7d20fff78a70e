//! A service as the single-threaded manager tracks it. Such a service has no
//! task handle to wait on: it is only ever asked to stop.

use std::time::Duration;
use tokio_util::sync::CancellationToken;
use vstd::prelude::*;

use crate::error::BackgroundServiceError;
use crate::sync::token_cancel;
use crate::TaskId;

verus! {

/// The parts of a registered service that the library reasons about.
pub ghost struct ServiceInfoView {
    pub id: u64,
    pub name: Seq<char>,
    pub timeout: Duration,
    pub token: CancellationToken,
}

/// A running service as the single-threaded manager tracks it.
#[derive(Debug)]
pub struct ServiceInfo {
    pub(crate) name: String,
    pub(crate) id: TaskId,
    pub(crate) timeout: Duration,
    pub(crate) cancellation_token: CancellationToken,
}

impl View for ServiceInfo {
    type V = ServiceInfoView;

    closed spec fn view(&self) -> ServiceInfoView {
        ServiceInfoView {
            id: self.id@,
            name: self.name@,
            timeout: self.timeout,
            token: self.cancellation_token,
        }
    }
}

impl ServiceInfo {
    /// Records a service that is cancelled through `cancellation_token`.
    pub fn new(id: TaskId, name: String, timeout: Duration, cancellation_token: CancellationToken) -> (r: Self)
        ensures
            r@ == (ServiceInfoView { id: id@, name: name@, timeout, token: cancellation_token }),
    {
        ServiceInfo { name, id, timeout, cancellation_token }
    }

    /// Shutting such a service down always succeeds: there is nothing to wait for.
    pub fn wait_for_shutdown<E>(self) -> (r: Result<(), BackgroundServiceError<E>>)
        ensures
            r is Ok,
    {
        Ok(())
    }

    /// The service's name.
    pub fn name(&self) -> (r: &str)
        ensures
            r@ == self@.name,
    {
        self.name.as_str()
    }

    /// How long shutting the service down may take.
    pub fn timeout(&self) -> (r: Duration)
        ensures
            r == self@.timeout,
    {
        self.timeout
    }

    /// The id the service is registered under.
    pub fn id(&self) -> (r: TaskId)
        ensures
            r@ == self@.id,
    {
        self.id
    }

    /// Asks the service to stop, through its cancellation token.
    pub fn cancel(&self) {
        token_cancel(&self.cancellation_token);
    }
}

} // verus!
