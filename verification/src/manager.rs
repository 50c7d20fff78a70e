//! The manager of running services: its settings, and the decisions it makes
//! when it shuts everything down.

use dashmap::DashMap;
use std::sync::Arc;
use std::time::Duration;
use tokio_util::sync::CancellationToken;
use tokio_util::task::TaskTracker;
use vstd::prelude::*;

use crate::error::{outcome, BackgroundServiceError, BackgroundServiceErrors};
use crate::native::service_info::ServiceInfo;
use crate::service_context::ServiceContext;
use crate::sync::{
    arc_clone, map_keys, map_new, map_remove, token_cancel, token_clone, token_descends, tracker_clone,
    tracker_close, tracker_new,
};
use crate::time::{duration_from_secs, duration_nanos, duration_saturating_sub, nanos_per_sec};
use crate::TaskId;

verus! {

/// The settings as the library reasons about them.
pub ghost struct SettingsView {
    pub blocking_task_monitor_interval: Option<Duration>,
    pub task_wait_duration: Duration,
}

/// How the manager watches its services and how long it waits at shutdown.
#[derive(Debug, PartialEq, Eq)]
pub struct Settings {
    blocking_task_monitor_interval: Option<Duration>,
    task_wait_duration: Duration,
}

impl View for Settings {
    type V = SettingsView;

    closed spec fn view(&self) -> SettingsView {
        SettingsView {
            blocking_task_monitor_interval: self.blocking_task_monitor_interval,
            task_wait_duration: self.task_wait_duration,
        }
    }
}

impl Clone for Settings {
    fn clone(&self) -> (r: Self)
        ensures
            r@ == self@,
    {
        Settings {
            blocking_task_monitor_interval: self.blocking_task_monitor_interval,
            task_wait_duration: self.task_wait_duration,
        }
    }
}

impl Default for Settings {
    /// No monitor for blocked runtime threads; tasks still running after the
    /// services have shut down are waited for up to a second.
    fn default() -> (r: Self)
        ensures
            r@.blocking_task_monitor_interval is None,
            duration_nanos(r@.task_wait_duration) == nanos_per_sec(),
    {
        Settings { blocking_task_monitor_interval: None, task_wait_duration: duration_from_secs(1) }
    }
}

impl Settings {
    /// Runs a monitor that keeps the runtime polling even when a task blocks
    /// a worker thread, waking every `interval`.
    pub fn blocking_task_monitor_interval(self, interval: Duration) -> (r: Self)
        ensures
            r@ == (SettingsView { blocking_task_monitor_interval: Some(interval), ..self@ }),
    {
        let mut s = self;
        s.blocking_task_monitor_interval = Some(interval);
        s
    }

    /// Waits up to `task_wait_duration` in all, at shutdown, for the tasks
    /// still tracked.
    pub fn task_wait_duration(self, task_wait_duration: Duration) -> (r: Self)
        ensures
            r@ == (SettingsView { task_wait_duration, ..self@ }),
    {
        let mut s = self;
        s.task_wait_duration = task_wait_duration;
        s
    }

    /// The interval of the blocked-thread monitor to start now, given whether
    /// the process already runs one: at most one monitor runs per process.
    pub fn monitor_to_start(&self, already_started: bool) -> (r: Option<Duration>)
        ensures
            r == (if already_started {
                None
            } else {
                self@.blocking_task_monitor_interval
            }),
    {
        if already_started {
            None
        } else {
            self.blocking_task_monitor_interval
        }
    }

    /// The interval of the blocked-thread monitor, if one is to run.
    pub fn monitor_interval(&self) -> (r: Option<Duration>)
        ensures
            r == self@.blocking_task_monitor_interval,
    {
        self.blocking_task_monitor_interval
    }

    /// How long shutdown waits, in all, for the tasks still tracked.
    pub fn wait_duration(&self) -> (r: Duration)
        ensures
            r == self@.task_wait_duration,
    {
        self.task_wait_duration
    }
}

/// Whether the process runs a blocked-thread monitor once managers whose
/// settings ask for the monitor intervals `intervals` have been made in turn,
/// starting from `started`: making a manager that asks for a monitor marks it
/// as running.
pub open spec fn monitor_flag_after(started: bool, intervals: Seq<Option<Duration>>) -> bool
    decreases intervals.len(),
{
    if intervals.len() == 0 {
        started
    } else {
        monitor_flag_after(started || intervals[0] is Some, intervals.drop_first())
    }
}

/// How many monitors are started when managers whose settings ask for the
/// monitor intervals `intervals` are made in turn, starting from `started`:
/// one is started exactly when a manager asks for one and none runs yet (as
/// `Settings::monitor_to_start` decides).
pub open spec fn monitors_started(started: bool, intervals: Seq<Option<Duration>>) -> nat
    decreases intervals.len(),
{
    if intervals.len() == 0 {
        0
    } else {
        (if !started && intervals[0] is Some {
            1nat
        } else {
            0nat
        }) + monitors_started(started || intervals[0] is Some, intervals.drop_first())
    }
}

/// At most one blocked-thread monitor runs per process: however many managers
/// are made, with whatever settings, at most one of them starts a monitor, and
/// none does once one runs; afterwards a monitor is marked as running exactly
/// when one was already, or some manager asked for one.
pub proof fn at_most_one_monitor(started: bool, intervals: Seq<Option<Duration>>)
    ensures
        monitors_started(started, intervals) <= (if started {
            0nat
        } else {
            1nat
        }),
        monitor_flag_after(started, intervals) == (started || exists|i: int|
            0 <= i < intervals.len() && #[trigger] intervals[i] is Some),
    decreases intervals.len(),
{
    if intervals.len() > 0 {
        let rest = intervals.drop_first();
        at_most_one_monitor(started || intervals[0] is Some, rest);
        if exists|i: int| 0 <= i < rest.len() && #[trigger] rest[i] is Some {
            let i = choose|i: int| 0 <= i < rest.len() && #[trigger] rest[i] is Some;
            assert(intervals[i + 1] is Some);
        }
        if exists|i: int| 0 <= i < intervals.len() && #[trigger] intervals[i] is Some {
            let i = choose|i: int| 0 <= i < intervals.len() && #[trigger] intervals[i] is Some;
            if i > 0 {
                assert(rest[i - 1] is Some);
            }
        }
    }
}

/// What is left of the shutdown's wait budget `budget` once `elapsed` has
/// passed: nothing when it is used up.
pub open spec fn remaining_nanos(budget: Duration, elapsed: Duration) -> nat {
    if duration_nanos(budget) >= duration_nanos(elapsed) {
        (duration_nanos(budget) - duration_nanos(elapsed)) as nat
    } else {
        0
    }
}

/// The name under which tasks that outlive the shutdown are reported.
pub open spec fn tracker_name() -> Seq<char> {
    seq!['T', 'a', 's', 'k', 'T', 'r', 'a', 'c', 'k', 'e', 'r']
}

/// The values that the removals handed back, in order, skipping the
/// removals that found nothing.
pub open spec fn removed_values<T>(removals: Seq<Option<(TaskId, T)>>) -> Seq<T>
    decreases removals.len(),
{
    if removals.len() == 0 {
        Seq::empty()
    } else {
        let rest = removed_values(removals.drop_first());
        match removals[0] {
            Some(entry) => seq![entry.1] + rest,
            None => rest,
        }
    }
}

/// The services that a round of removals from the registry handed back, in
/// the order of the removals.
pub fn removed_services<T>(removals: Vec<Option<(TaskId, T)>>) -> (r: Vec<T>)
    ensures
        r@ == removed_values(removals@),
{
    let ghost all = removals@;
    let mut removals = removals;
    let mut taken: Vec<T> = Vec::new();
    while removals.len() > 0
        invariant
            taken@ + removed_values(removals@) == removed_values(all),
        decreases removals@.len(),
    {
        let ghost rest = removals@;
        let removal = removals.remove(0);
        assert(removals@ == rest.drop_first());
        match removal {
            Some((_, service)) => {
                taken.push(service);
                assert(taken@ + removed_values(removals@) == removed_values(all));
            },
            None => {},
        }
    }
    taken
}

/// However long the services take to shut down, the wait that follows for
/// the remaining tasks ends when the budget does: together the two waits
/// last the longer of the budget and the services' own wait.
pub proof fn waits_end_with_the_budget(budget: Duration, elapsed: Duration)
    ensures
        remaining_nanos(budget, elapsed) <= duration_nanos(budget),
        duration_nanos(elapsed) + remaining_nanos(budget, elapsed) == (if duration_nanos(budget)
            >= duration_nanos(elapsed) {
            duration_nanos(budget)
        } else {
            duration_nanos(elapsed)
        }),
{
}

/// Supervises the services spawned through its contexts.
#[verifier::reject_recursive_types(E)]
#[derive(Debug)]
pub struct Manager<E> {
    cancellation_token: CancellationToken,
    services: Arc<DashMap<TaskId, ServiceInfo<E>>>,
    tracker: TaskTracker,
    settings: Settings,
}

impl<E> Manager<E> {
    /// The manager's settings.
    pub closed spec fn settings_view(&self) -> SettingsView {
        self.settings@
    }

    /// The registry of running services.
    pub closed spec fn services(&self) -> Arc<DashMap<TaskId, ServiceInfo<E>>> {
        self.services
    }

    /// The token that shuts the manager down.
    pub closed spec fn shutdown_token(&self) -> CancellationToken {
        self.cancellation_token
    }

    /// The tracker the services' tasks run on.
    pub closed spec fn task_tracker(&self) -> TaskTracker {
        self.tracker
    }

    /// A manager with no services, shut down through `cancellation_token`.
    pub fn new(cancellation_token: CancellationToken, settings: Settings) -> (r: Self)
        ensures
            r.settings_view() == settings@,
            r.shutdown_token() == cancellation_token,
    {
        Manager { services: Arc::new(map_new()), tracker: tracker_new(), cancellation_token, settings }
    }

    /// Asks every service to stop.
    pub fn stop(&self) {
        token_cancel(&self.cancellation_token);
    }

    /// A context through which services are spawned under this manager.
    pub fn get_context(&self) -> (r: ServiceContext<E>)
        ensures
            r.services() == self.services(),
            r.task_tracker() == self.task_tracker(),
            r.own_token() == self.shutdown_token(),
            r.manager_token() == self.shutdown_token(),
            token_descends(r.children_token(), self.shutdown_token()),
    {
        ServiceContext::new(
            arc_clone(&self.services),
            tracker_clone(&self.tracker),
            token_clone(&self.cancellation_token),
        )
    }

    /// The manager's settings.
    pub fn settings(&self) -> (r: &Settings)
        ensures
            r@ == self.settings_view(),
    {
        &self.settings
    }

    /// The token that shuts the manager down.
    pub fn cancellation_token(&self) -> (r: &CancellationToken)
        ensures
            *r == self.shutdown_token(),
    {
        &self.cancellation_token
    }

    /// The tracker the services' tasks run on.
    pub fn tracker(&self) -> (r: &TaskTracker)
        ensures
            *r == self.task_tracker(),
    {
        &self.tracker
    }

    /// The first step of shutting down: cancels every service, closes the
    /// tracker, and takes every registered service out of the registry to be
    /// waited for.
    pub fn begin_cancel(&self) -> Vec<ServiceInfo<E>> {
        token_cancel(&self.cancellation_token);
        let _ = tracker_close(&self.tracker);
        let keys = map_keys(&self.services);
        let mut removals: Vec<Option<(TaskId, ServiceInfo<E>)>> = Vec::new();
        let mut i: usize = 0;
        while i < keys.len()
            invariant
                i <= keys@.len(),
            decreases keys@.len() - i,
        {
            removals.push(map_remove(&self.services, &keys[i]));
            i = i + 1;
        }
        removed_services(removals)
    }

    /// How long to wait for the tasks still tracked, once `elapsed` of the
    /// shutdown's wait budget has gone on waiting for the services.
    pub fn remaining_wait_time(&self, elapsed: Duration) -> (r: Duration)
        ensures
            duration_nanos(r) == remaining_nanos(self.settings_view().task_wait_duration, elapsed),
    {
        duration_saturating_sub(self.settings.wait_duration(), elapsed)
    }

    /// The last step of shutting down: the services' failures, followed by a
    /// time-out of the tracker when tasks were still running at the end of
    /// the wait; `Ok` when there is nothing to report.
    pub fn finish_cancel(errors: Vec<BackgroundServiceError<E>>, tracker_timed_out: bool) -> (r: Result<
        (),
        BackgroundServiceErrors<E>,
    >)
        ensures
            r is Ok <==> (errors@.len() == 0 && !tracker_timed_out),
            r matches Err(all) ==> {
                &&& all.0@.len() == errors@.len() + (if tracker_timed_out { 1int } else { 0 })
                &&& all.0@.take(errors@.len() as int) == errors@
                &&& tracker_timed_out ==> (all.0@.last() matches BackgroundServiceError::TimedOut(
                    n,
                ) && n@ == tracker_name())
            },
    {
        let mut errors = errors;
        let ghost before = errors@;
        if tracker_timed_out {
            let name = "TaskTracker".to_owned();
            proof {
                reveal_strlit("TaskTracker");
            }
            errors.push(BackgroundServiceError::TimedOut(name));
        }
        assert(errors@.take(before.len() as int) =~= before);
        outcome(errors)
    }
}

} // verus!
