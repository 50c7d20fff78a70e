//! The runtime objects a service is supervised through: cancellation tokens,
//! the task tracker, task handles and the concurrent map of running services.
//!
//! All of them are shared between tasks and change under the library's feet
//! (a token is cancelled from elsewhere, a task finishes, another task removes
//! an entry), so what the calls below return depends on more than their
//! arguments; the contracts state only what holds of every outcome.

use dashmap::mapref::one::Ref;
use dashmap::DashMap;
use std::sync::Arc;
use tokio::task::{AbortHandle, JoinError, JoinHandle};
use tokio_util::sync::{
    CancellationToken, WaitForCancellationFuture, WaitForCancellationFutureOwned,
};
use tokio_util::task::TaskTracker;
use vstd::prelude::*;

use crate::TaskId;

verus! {

#[verifier::external_type_specification]
#[verifier::external_body]
pub struct ExCancellationToken(CancellationToken);

#[verifier::external_type_specification]
#[verifier::external_body]
pub struct ExWaitForCancellationFuture<'a>(WaitForCancellationFuture<'a>);

#[verifier::external_type_specification]
#[verifier::external_body]
pub struct ExWaitForCancellationFutureOwned(WaitForCancellationFutureOwned);

#[verifier::external_type_specification]
#[verifier::external_body]
pub struct ExTaskTracker(TaskTracker);

#[verifier::external_type_specification]
#[verifier::external_body]
#[verifier::reject_recursive_types(T)]
pub struct ExJoinHandle<T>(JoinHandle<T>);

#[verifier::external_type_specification]
#[verifier::external_body]
pub struct ExJoinError(JoinError);

#[verifier::external_type_specification]
#[verifier::external_body]
pub struct ExAbortHandle(AbortHandle);

#[verifier::external_type_specification]
#[verifier::external_body]
#[verifier::reject_recursive_types(K)]
#[verifier::reject_recursive_types(V)]
#[verifier::reject_recursive_types(S)]
pub struct ExDashMap<K, V, S>(DashMap<K, V, S>);

#[verifier::external_type_specification]
#[verifier::external_body]
#[verifier::reject_recursive_types(K)]
#[verifier::reject_recursive_types(V)]
pub struct ExRef<'a, K, V>(Ref<'a, K, V>);

/// Whether `child` was made by `CancellationToken::child_token` from `parent`
/// (or from another handle on the same token): such a token is cancelled
/// whenever its parent is, while cancelling it leaves the parent alone.
pub uninterp spec fn token_descends(child: CancellationToken, parent: CancellationToken) -> bool;

/// `CancellationToken::clone`: another handle on the same token, which shares
/// its cancellation both ways; the library treats it as the same token.
/// Whether it is cancelled is shared state and is not stated.
#[verifier::external_body]
pub(crate) fn token_clone(token: &CancellationToken) -> (r: CancellationToken)
    ensures
        r == *token,
{
    token.clone()
}

/// `CancellationToken::child_token`: a new token below `token`, cancelled
/// whenever `token` is. Whether it is cancelled is not stated.
#[verifier::external_body]
pub(crate) fn token_child(token: &CancellationToken) -> (r: CancellationToken)
    ensures
        token_descends(r, *token),
{
    token.child_token()
}

/// `CancellationToken::cancel`: cancels the token and all of its children.
#[verifier::external_body]
pub(crate) fn token_cancel(token: &CancellationToken) {
    token.cancel()
}

/// `CancellationToken::is_cancelled`. The answer depends on what other tasks
/// have done to the token, so nothing is said of it.
#[verifier::external_body]
pub(crate) fn token_is_cancelled(token: &CancellationToken) -> bool {
    token.is_cancelled()
}

/// `CancellationToken::cancelled`: a future that completes once the token is
/// cancelled. Nothing is said of the future.
#[verifier::external_body]
pub(crate) fn token_cancelled<'a>(token: &'a CancellationToken) -> WaitForCancellationFuture<'a> {
    token.cancelled()
}

/// `CancellationToken::cancelled_owned`: the owning form of `token_cancelled`.
#[verifier::external_body]
pub(crate) fn token_cancelled_owned(token: CancellationToken) -> WaitForCancellationFutureOwned {
    token.cancelled_owned()
}

/// `TaskTracker::new`: a new, open tracker with no tasks.
#[verifier::external_body]
pub(crate) fn tracker_new() -> TaskTracker {
    TaskTracker::new()
}

/// `TaskTracker::clone`: another handle on the same tracker (same tasks, same
/// open or closed state); the library treats it as the same tracker.
#[verifier::external_body]
pub(crate) fn tracker_clone(tracker: &TaskTracker) -> (r: TaskTracker)
    ensures
        r == *tracker,
{
    tracker.clone()
}

/// `TaskTracker::close`: closes the tracker; the result says whether this call
/// closed it, which depends on earlier calls from other handles.
#[verifier::external_body]
pub(crate) fn tracker_close(tracker: &TaskTracker) -> bool {
    tracker.close()
}

/// `JoinHandle::abort`: asks the runtime to cancel the task.
#[verifier::external_body]
pub(crate) fn join_handle_abort<T>(handle: &JoinHandle<T>) {
    handle.abort()
}

/// `JoinHandle::abort_handle`: a handle that can cancel the task later.
#[verifier::external_body]
pub(crate) fn join_handle_abort_handle<T>(handle: &JoinHandle<T>) -> AbortHandle {
    handle.abort_handle()
}

/// `JoinHandle::is_finished`: whether the task has finished, which depends on
/// the runtime; nothing is said of the answer.
#[verifier::external_body]
pub(crate) fn join_handle_is_finished<T>(handle: &JoinHandle<T>) -> bool {
    handle.is_finished()
}

/// `AbortHandle::abort`: asks the runtime to cancel the task.
#[verifier::external_body]
pub(crate) fn abort_handle_abort(handle: &AbortHandle) {
    handle.abort()
}

/// `Arc::clone`: a new pointer to the same value.
#[verifier::external_body]
pub(crate) fn arc_clone<T>(value: &Arc<T>) -> (r: Arc<T>)
    ensures
        r == *value,
{
    Arc::clone(value)
}

/// `DashMap::new`: an empty map.
#[verifier::external_body]
pub(crate) fn map_new<V>() -> DashMap<TaskId, V> {
    DashMap::new()
}

/// `DashMap::insert`: stores `value` under `key`, handing back what was stored
/// there before, if anything. The map is shared, so nothing is said of it.
#[verifier::external_body]
pub(crate) fn map_insert<V>(map: &DashMap<TaskId, V>, key: TaskId, value: V) -> Option<V> {
    map.insert(key, value)
}

/// `DashMap::remove`: takes the entry stored under `key` out of the map, if
/// there is one at the time of the call. An entry handed back has `key` as
/// its key.
#[verifier::external_body]
pub(crate) fn map_remove<V>(map: &DashMap<TaskId, V>, key: &TaskId) -> (r: Option<(TaskId, V)>)
    ensures
        r matches Some(entry) ==> entry.0 == *key,
{
    map.remove(key)
}

/// `DashMap::get`: a read guard on the entry under `key`, if there is one at
/// the time of the call.
#[verifier::external_body]
pub(crate) fn map_get<'a, V>(map: &'a DashMap<TaskId, V>, key: &TaskId) -> Option<Ref<'a, TaskId, V>> {
    map.get(key)
}

/// `Ref::value`: the value a read guard holds.
#[verifier::external_body]
pub(crate) fn ref_value<'b, 'a, V>(guard: &'b Ref<'a, TaskId, V>) -> &'b V {
    guard.value()
}

/// The keys of the map at the time of the call, collected from `DashMap::iter`
/// and `RefMulti::key`.
#[verifier::external_body]
pub(crate) fn map_keys<V>(map: &DashMap<TaskId, V>) -> Vec<TaskId> {
    map.iter().map(|entry| *entry.key()).collect()
}

} // verus!
