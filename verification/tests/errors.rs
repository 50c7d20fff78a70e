use std::sync::Arc;

use background_service::error::{collect_errors, outcome, BackgroundServiceError, BackgroundServiceErrors};
use background_service::manager::Manager;
use background_service::native::service_info::{shutdown_result, WaitResult};

type Error = BackgroundServiceError<&'static str>;

fn names(errors: &[Error]) -> Vec<String> {
    errors
        .iter()
        .map(|e| match e {
            BackgroundServiceError::TimedOut(n) => format!("timeout {n}"),
            BackgroundServiceError::ExecutionFailure(n, e) => format!("failure {n} {e}"),
            BackgroundServiceError::ExecutionPanic(n, e) => format!("panic {n} {e}"),
        })
        .collect()
}

#[test]
fn timed_out_lists_only_timeouts_in_order() {
    let errors = BackgroundServiceErrors(Arc::new(vec![
        Error::TimedOut("a".to_owned()),
        Error::ExecutionFailure("b".to_owned(), "boom"),
        Error::TimedOut("c".to_owned()),
        Error::ExecutionPanic("d".to_owned(), "panic"),
    ]));
    assert_eq!(errors.timed_out(), vec!["a".to_owned(), "c".to_owned()]);
    let copy = errors.clone();
    assert_eq!(copy.timed_out(), vec!["a".to_owned(), "c".to_owned()]);
}

#[test]
fn timed_out_of_no_timeouts_is_empty() {
    let errors = BackgroundServiceErrors(Arc::new(vec![Error::ExecutionFailure("b".to_owned(), "x")]));
    assert!(errors.timed_out().is_empty());
}

#[test]
fn collect_errors_keeps_failures_in_order() {
    let results = vec![
        Ok(()),
        Err(Error::TimedOut("a".to_owned())),
        Ok(()),
        Err(Error::ExecutionFailure("b".to_owned(), "e")),
    ];
    let errors = collect_errors(results);
    assert_eq!(names(&errors), vec!["timeout a".to_owned(), "failure b e".to_owned()]);
}

#[test]
fn outcome_is_ok_only_without_errors() {
    assert!(outcome::<&str>(vec![]).is_ok());
    let r = outcome(vec![Error::TimedOut("a".to_owned())]);
    match r {
        Err(all) => assert_eq!(names(&all.0), vec!["timeout a".to_owned()]),
        Ok(()) => panic!("expected an error"),
    }
}

#[test]
fn finish_cancel_reports_tracker_timeout_last() {
    assert!(Manager::<&str>::finish_cancel(vec![], false).is_ok());
    let r = Manager::finish_cancel(vec![Error::ExecutionPanic("x".to_owned(), "p")], true);
    match r {
        Err(all) => {
            assert_eq!(names(&all.0), vec!["panic x p".to_owned(), "timeout TaskTracker".to_owned()]);
            assert_eq!(all.timed_out(), vec!["TaskTracker".to_owned()]);
        }
        Ok(()) => panic!("expected an error"),
    }
    let r = Manager::<&str>::finish_cancel(vec![], true);
    assert!(r.is_err());
}

#[test]
fn shutdown_result_maps_each_outcome() {
    assert!(shutdown_result::<&str>("s".to_owned(), WaitResult::Completed(Ok(()))).is_ok());
    let r = shutdown_result("s".to_owned(), WaitResult::Completed(Err("bad")));
    assert_eq!(names(&[r.unwrap_err()]), vec!["failure s bad".to_owned()]);
    let r = shutdown_result::<&str>("s".to_owned(), WaitResult::JoinError("joined"));
    assert_eq!(names(&[r.unwrap_err()]), vec!["panic s joined".to_owned()]);
    let r = shutdown_result::<&str>("s".to_owned(), WaitResult::TimedOut);
    assert_eq!(names(&[r.unwrap_err()]), vec!["timeout s".to_owned()]);
}
