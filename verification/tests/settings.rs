use std::time::Duration;

use background_service::background_service_manager::Settings as ListSettings;
use background_service::manager::Settings;
use background_service::manager_wasm::Settings as LocalSettings;
use background_service::IdCounter;

#[test]
fn ids_start_at_one_and_count_up() {
    let mut counter = IdCounter::new();
    assert!(!counter.is_exhausted());
    let a = counter.next_id();
    let b = counter.next_id();
    let c = counter.next_id();
    assert_eq!(a.value(), 1);
    assert_eq!(b.value(), 2);
    assert_eq!(c.value(), 3);
    assert_ne!(a, b);
    assert_ne!(b, c);
}

#[test]
fn default_settings_wait_one_second_without_monitor() {
    let s = Settings::default();
    assert_eq!(s.monitor_interval(), None);
    assert_eq!(s.wait_duration(), Duration::from_secs(1));
}

#[test]
fn builders_set_only_their_field() {
    let s = Settings::default().blocking_task_monitor_interval(Duration::from_secs(2));
    assert_eq!(s.monitor_interval(), Some(Duration::from_secs(2)));
    assert_eq!(s.wait_duration(), Duration::from_secs(1));
    let s = s.task_wait_duration(Duration::from_secs(5));
    assert_eq!(s.monitor_interval(), Some(Duration::from_secs(2)));
    assert_eq!(s.wait_duration(), Duration::from_secs(5));
    assert_eq!(s.clone(), s);
    assert_ne!(s, Settings::default());
}

#[test]
fn local_settings_builders() {
    let s = LocalSettings::default();
    assert_eq!(s.monitor_interval(), None);
    assert_eq!(s.wait_duration(), Duration::from_secs(1));
    let s = s.task_wait_duration(Duration::from_millis(300)).blocking_task_monitor_interval(Duration::from_secs(7));
    assert_eq!(s.monitor_interval(), Some(Duration::from_secs(7)));
    assert_eq!(s.wait_duration(), Duration::from_millis(300));
}

#[test]
fn list_settings_builders() {
    let s = ListSettings::default();
    assert_eq!(s.monitor_interval(), None);
    assert_eq!(s.reap_interval(), Duration::from_secs(1));
    let s = s.completed_task_monitor_interval(Duration::from_millis(50));
    assert_eq!(s.reap_interval(), Duration::from_millis(50));
    assert_eq!(s.monitor_interval(), None);
    let s = s.blocking_task_monitor_interval(Duration::from_secs(2));
    assert_eq!(s.monitor_interval(), Some(Duration::from_secs(2)));
    assert_eq!(s.reap_interval(), Duration::from_millis(50));
    assert_eq!(s, ListSettings::default().completed_task_monitor_interval(Duration::from_millis(50)).blocking_task_monitor_interval(Duration::from_secs(2)));
}

#[test]
fn at_most_one_monitor_is_started() {
    let s = Settings::default().blocking_task_monitor_interval(Duration::from_secs(2));
    assert_eq!(s.monitor_to_start(false), Some(Duration::from_secs(2)));
    assert_eq!(s.monitor_to_start(true), None);
    assert_eq!(Settings::default().monitor_to_start(false), None);
    let l = ListSettings::default().blocking_task_monitor_interval(Duration::from_secs(3));
    assert_eq!(l.monitor_to_start(false), Some(Duration::from_secs(3)));
    assert_eq!(l.monitor_to_start(true), None);
}

#[test]
fn a_sequence_of_managers_starts_one_monitor() {
    let calls = [
        Settings::default(),
        Settings::default().blocking_task_monitor_interval(Duration::from_secs(1)),
        Settings::default().blocking_task_monitor_interval(Duration::from_secs(2)),
        Settings::default(),
    ];
    let mut started = false;
    let mut count = 0;
    for s in &calls {
        if s.monitor_interval().is_some() {
            let already = started;
            started = true;
            if s.monitor_to_start(already).is_some() {
                count += 1;
            }
        }
    }
    assert_eq!(count, 1);
    assert!(started);
}
