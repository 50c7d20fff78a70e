//! The settings of the single-threaded manager (the one used where there is
//! no multi-threaded runtime).

use std::time::Duration;
use vstd::prelude::*;

use crate::time::{duration_from_secs, duration_nanos, nanos_per_sec};

verus! {

/// The settings as the library reasons about them.
pub ghost struct SettingsView {
    pub blocking_task_monitor_interval: Option<Duration>,
    pub task_wait_duration: Duration,
}

/// The settings of the single-threaded manager. It keeps them for
/// compatibility: it neither runs a monitor nor waits for tracked tasks.
#[derive(Debug, PartialEq, Eq)]
pub struct Settings {
    blocking_task_monitor_interval: Option<Duration>,
    task_wait_duration: Duration,
}

impl View for Settings {
    type V = SettingsView;

    closed spec fn view(&self) -> SettingsView {
        SettingsView {
            blocking_task_monitor_interval: self.blocking_task_monitor_interval,
            task_wait_duration: self.task_wait_duration,
        }
    }
}

impl Clone for Settings {
    fn clone(&self) -> (r: Self)
        ensures
            r@ == self@,
    {
        Settings {
            blocking_task_monitor_interval: self.blocking_task_monitor_interval,
            task_wait_duration: self.task_wait_duration,
        }
    }
}

impl Default for Settings {
    /// No monitor for blocked runtime threads; tasks still running after the
    /// services have shut down are waited for up to a second.
    fn default() -> (r: Self)
        ensures
            r@.blocking_task_monitor_interval is None,
            duration_nanos(r@.task_wait_duration) == nanos_per_sec(),
    {
        Settings { blocking_task_monitor_interval: None, task_wait_duration: duration_from_secs(1) }
    }
}

impl Settings {
    /// Runs a monitor that keeps the runtime polling even when a task blocks
    /// a worker thread, waking every `interval`.
    pub fn blocking_task_monitor_interval(self, interval: Duration) -> (r: Self)
        ensures
            r@ == (SettingsView { blocking_task_monitor_interval: Some(interval), ..self@ }),
    {
        let mut s = self;
        s.blocking_task_monitor_interval = Some(interval);
        s
    }

    /// Waits up to `task_wait_duration` in all, at shutdown, for the tasks
    /// still tracked.
    pub fn task_wait_duration(self, task_wait_duration: Duration) -> (r: Self)
        ensures
            r@ == (SettingsView { task_wait_duration, ..self@ }),
    {
        let mut s = self;
        s.task_wait_duration = task_wait_duration;
        s
    }

    /// The interval of the blocked-thread monitor, if one is to run.
    pub fn monitor_interval(&self) -> (r: Option<Duration>)
        ensures
            r == self@.blocking_task_monitor_interval,
    {
        self.blocking_task_monitor_interval
    }

    /// How long shutdown waits, in all, for the tasks still tracked.
    pub fn wait_duration(&self) -> (r: Duration)
        ensures
            r == self@.task_wait_duration,
    {
        self.task_wait_duration
    }
}

} // verus!
