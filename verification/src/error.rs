//! The errors that shutting services down can produce.
//!
//! A service's own failure, and the failure of the task that ran it, are
//! carried as values of the type parameter `E` (a boxed error in practice):
//! nothing here looks inside them.

use std::sync::Arc;
use vstd::prelude::*;

use crate::sync::arc_clone;

verus! {

/// Why one service did not shut down cleanly.
#[derive(Debug)]
pub enum BackgroundServiceError<E> {
    /// The service did not finish within its shutdown timeout.
    TimedOut(String),
    /// The service finished with an error.
    ExecutionFailure(String, E),
    /// The task running the service failed (it panicked or was cancelled).
    ExecutionPanic(String, E),
}

/// Every service failure that a shutdown collected.
#[derive(Debug)]
pub struct BackgroundServiceErrors<E>(pub Arc<Vec<BackgroundServiceError<E>>>);

impl<E> Clone for BackgroundServiceErrors<E> {
    fn clone(&self) -> (r: Self)
        ensures
            r.0@ == self.0@,
    {
        BackgroundServiceErrors(arc_clone(&self.0))
    }
}

/// The names of the services that timed out, in the order their errors come.
pub open spec fn timed_out_names<E>(errors: Seq<BackgroundServiceError<E>>) -> Seq<Seq<char>>
    decreases errors.len(),
{
    if errors.len() == 0 {
        Seq::empty()
    } else {
        let rest = timed_out_names(errors.drop_first());
        match errors[0] {
            BackgroundServiceError::TimedOut(name) => seq![name@] + rest,
            _ => rest,
        }
    }
}

/// The errors among `results`, in order.
pub open spec fn failures<E>(results: Seq<Result<(), BackgroundServiceError<E>>>) -> Seq<
    BackgroundServiceError<E>,
>
    decreases results.len(),
{
    if results.len() == 0 {
        Seq::empty()
    } else {
        let rest = failures(results.drop_first());
        match results[0] {
            Err(e) => seq![e] + rest,
            Ok(_) => rest,
        }
    }
}

/// A shutdown reports no failure exactly when every service shut down
/// cleanly.
pub proof fn no_failures_iff_all_ok<E>(results: Seq<Result<(), BackgroundServiceError<E>>>)
    ensures
        failures(results).len() == 0 <==> forall|i: int| 0 <= i < results.len() ==> #[trigger] results[i] is Ok,
    decreases results.len(),
{
    if results.len() > 0 {
        no_failures_iff_all_ok(results.drop_first());
        assert forall|i: int| 1 <= i < results.len() implies #[trigger] results[i] == results.drop_first()[i - 1] by {}
        if failures(results).len() == 0 {
            assert forall|i: int| 0 <= i < results.len() implies #[trigger] results[i] is Ok by {
                if i > 0 {
                    assert(results.drop_first()[i - 1] is Ok);
                }
            }
        } else if forall|i: int| 0 <= i < results.len() ==> #[trigger] results[i] is Ok {
            assert(results[0] is Ok);
            assert forall|i: int| 0 <= i < results.drop_first().len() implies #[trigger] results.drop_first()[i] is Ok by {
                assert(results[i + 1] is Ok);
            }
        }
    }
}

/// Every failure of a shutdown is the error of one of the services' results,
/// and there are no more failures than results.
pub proof fn failures_come_from_results<E>(results: Seq<Result<(), BackgroundServiceError<E>>>)
    ensures
        failures(results).len() <= results.len(),
        forall|j: int| 0 <= j < failures(results).len() ==> exists|i: int| 0 <= i < results.len() && #[trigger] results[i] == Err::<(), BackgroundServiceError<E>>(#[trigger] failures(results)[j]),
    decreases results.len(),
{
    if results.len() > 0 {
        let rest = results.drop_first();
        failures_come_from_results(rest);
        assert forall|j: int| 0 <= j < failures(results).len() implies exists|i: int| 0 <= i < results.len() && #[trigger] results[i] == Err::<(), BackgroundServiceError<E>>(#[trigger] failures(results)[j]) by {
            match results[0] {
                Err(e) => {
                    if j == 0 {
                        assert(results[0] == Err::<(), BackgroundServiceError<E>>(failures(results)[0]));
                    } else {
                        assert(failures(results)[j] == failures(rest)[j - 1]);
                        let i = choose|i: int| 0 <= i < rest.len() && #[trigger] rest[i] == Err::<(), BackgroundServiceError<E>>(failures(rest)[j - 1]);
                        assert(results[i + 1] == rest[i]);
                    }
                },
                Ok(_) => {
                    assert(failures(results)[j] == failures(rest)[j]);
                    let i = choose|i: int| 0 <= i < rest.len() && #[trigger] rest[i] == Err::<(), BackgroundServiceError<E>>(failures(rest)[j]);
                    assert(results[i + 1] == rest[i]);
                },
            }
        }
    }
}

/// A time-out reported after `errors` is the last name that `timed_out`
/// lists.
pub proof fn timed_out_lists_appended_timeout<E>(errors: Seq<BackgroundServiceError<E>>, name: String)
    ensures
        timed_out_names(errors.push(BackgroundServiceError::TimedOut(name))) == timed_out_names(
            errors,
        ).push(name@),
    decreases errors.len(),
{
    let pushed = errors.push(BackgroundServiceError::TimedOut(name));
    if errors.len() == 0 {
        assert(pushed.drop_first() =~= Seq::<BackgroundServiceError<E>>::empty());
        assert(timed_out_names(pushed.drop_first()) =~= Seq::<Seq<char>>::empty());
        assert(pushed[0] == BackgroundServiceError::<E>::TimedOut(name));
        assert(timed_out_names(errors) =~= Seq::<Seq<char>>::empty());
        assert(timed_out_names(pushed) =~= seq![name@]);
    } else {
        timed_out_lists_appended_timeout(errors.drop_first(), name);
        assert(pushed.drop_first() =~= errors.drop_first().push(BackgroundServiceError::TimedOut(name)));
        assert(pushed[0] == errors[0]);
        match errors[0] {
            BackgroundServiceError::TimedOut(n) => {
                assert(timed_out_names(pushed) =~= timed_out_names(errors).push(name@));
            },
            _ => {},
        }
    }
}

/// How many of `results` are errors.
pub open spec fn error_count<E>(results: Seq<Result<(), BackgroundServiceError<E>>>) -> nat
    decreases results.len(),
{
    if results.len() == 0 {
        0
    } else {
        (if results[0] is Err {
            1nat
        } else {
            0nat
        }) + error_count(results.drop_first())
    }
}

/// Every error among the results is collected, none is dropped and none
/// added, in the order of the results: there are as many failures as results
/// that are errors, and the error of the result at position `i` is the
/// failure that follows the errors of the results before `i`.
pub proof fn every_error_is_collected_in_order<E>(results: Seq<Result<(), BackgroundServiceError<E>>>)
    ensures
        failures(results).len() == error_count(results),
        forall|i: int|
            0 <= i < results.len() && #[trigger] results[i] is Err ==> error_count(results.take(i))
                < failures(results).len() && Err::<(), BackgroundServiceError<E>>(
                failures(results)[error_count(results.take(i)) as int],
            ) == results[i],
    decreases results.len(),
{
    if results.len() > 0 {
        let rest = results.drop_first();
        every_error_is_collected_in_order(rest);
        assert(results.take(0) =~= Seq::<Result<(), BackgroundServiceError<E>>>::empty());
        assert forall|i: int|
            0 <= i < results.len() && #[trigger] results[i] is Err implies error_count(results.take(i))
                < failures(results).len() && Err::<(), BackgroundServiceError<E>>(
                failures(results)[error_count(results.take(i)) as int],
            ) == results[i] by {
            if i > 0 {
                assert(results.take(i).drop_first() =~= rest.take(i - 1));
                assert(results.take(i)[0] == results[0]);
                assert(rest[i - 1] == results[i]);
                assert(rest[i - 1] is Err);
                assert(rest.take(i - 1).len() == i - 1);
            }
        }
    }
}

/// The views of a sequence of strings.
pub open spec fn string_views(strings: Seq<String>) -> Seq<Seq<char>> {
    strings.map_values(|s: String| s@)
}

impl<E> BackgroundServiceErrors<E> {
    /// The names of the services that failed by timing out, in order.
    pub fn timed_out(&self) -> (names: Vec<String>)
        ensures
            string_views(names@) == timed_out_names(self.0@),
    {
        let errors: &Vec<BackgroundServiceError<E>> = &self.0;
        let mut names: Vec<String> = Vec::new();
        let mut i: usize = 0;
        assert(errors@.skip(0) == errors@);
        while i < errors.len()
            invariant
                i <= errors@.len(),
                errors@ == self.0@,
                string_views(names@) + timed_out_names(errors@.skip(i as int)) == timed_out_names(
                    errors@,
                ),
            decreases errors@.len() - i,
        {
            let ghost before = names@;
            assert(errors@.skip(i as int).drop_first() == errors@.skip(i + 1));
            match &errors[i] {
                BackgroundServiceError::TimedOut(name) => {
                    names.push(name.clone());
                    assert(string_views(names@) == string_views(before) + seq![name@]);
                },
                _ => {},
            }
            i = i + 1;
        }
        assert(errors@.skip(i as int) == Seq::<BackgroundServiceError<E>>::empty());
        names
    }
}

/// The errors among the results of shutting services down, in order.
pub fn collect_errors<E>(results: Vec<Result<(), BackgroundServiceError<E>>>) -> (errors: Vec<
    BackgroundServiceError<E>,
>)
    ensures
        errors@ == failures(results@),
        errors@.len() == error_count(results@),
        forall|i: int|
            0 <= i < results@.len() && #[trigger] results@[i] is Err ==> error_count(
                results@.take(i),
            ) < errors@.len() && Err::<(), BackgroundServiceError<E>>(
                errors@[error_count(results@.take(i)) as int],
            ) == results@[i],
{
    proof {
        every_error_is_collected_in_order(results@);
    }
    let ghost all = results@;
    let mut results = results;
    let mut errors: Vec<BackgroundServiceError<E>> = Vec::new();
    while results.len() > 0
        invariant
            errors@ + failures(results@) == failures(all),
        decreases results@.len(),
    {
        let ghost rest = results@;
        let r = results.remove(0);
        assert(results@ == rest.drop_first());
        match r {
            Err(e) => {
                errors.push(e);
                assert(errors@ + failures(results@) == failures(all));
            },
            Ok(_) => {},
        }
    }
    errors
}

/// `Ok` when no service failed, else every failure, in order.
pub fn outcome<E>(errors: Vec<BackgroundServiceError<E>>) -> (r: Result<
    (),
    BackgroundServiceErrors<E>,
>)
    ensures
        r is Ok <==> errors@.len() == 0,
        r matches Err(all) ==> all.0@ == errors@,
{
    if errors.len() == 0 {
        Ok(())
    } else {
        Err(BackgroundServiceErrors(Arc::new(errors)))
    }
}

} // verus!
