//! The list-based manager: its settings, and the bookkeeping on its list of
//! services (dropping the services that have ended, emptying the list on
//! shutdown).

use std::time::Duration;
use vstd::prelude::*;

use crate::service_info::ServiceInfo;
use crate::time::{duration_from_secs, duration_nanos, nanos_per_sec};

verus! {

/// The settings as the library reasons about them.
pub ghost struct SettingsView {
    pub blocking_task_monitor_interval: Option<Duration>,
    pub completed_task_monitor_interval: Duration,
}

/// How the list-based manager watches its services.
#[derive(Debug, PartialEq, Eq)]
pub struct Settings {
    blocking_task_monitor_interval: Option<Duration>,
    completed_task_monitor_interval: Duration,
}

impl View for Settings {
    type V = SettingsView;

    closed spec fn view(&self) -> SettingsView {
        SettingsView {
            blocking_task_monitor_interval: self.blocking_task_monitor_interval,
            completed_task_monitor_interval: self.completed_task_monitor_interval,
        }
    }
}

impl Default for Settings {
    /// No monitor for blocked runtime threads; ended services are looked for
    /// every second.
    fn default() -> (r: Self)
        ensures
            r@.blocking_task_monitor_interval is None,
            duration_nanos(r@.completed_task_monitor_interval) == nanos_per_sec(),
    {
        Settings {
            blocking_task_monitor_interval: None,
            completed_task_monitor_interval: duration_from_secs(1),
        }
    }
}

impl Settings {
    /// Runs a monitor that keeps the runtime polling even when a task blocks
    /// a worker thread, waking every `interval`.
    pub fn blocking_task_monitor_interval(self, interval: Duration) -> (r: Self)
        ensures
            r@ == (SettingsView { blocking_task_monitor_interval: Some(interval), ..self@ }),
    {
        Settings { blocking_task_monitor_interval: Some(interval), ..self }
    }

    /// Looks for services that have ended every `interval`.
    pub fn completed_task_monitor_interval(self, interval: Duration) -> (r: Self)
        ensures
            r@ == (SettingsView { completed_task_monitor_interval: interval, ..self@ }),
    {
        Settings { completed_task_monitor_interval: interval, ..self }
    }

    /// The interval of the blocked-thread monitor to start now, given whether
    /// the process already runs one: at most one monitor runs per process.
    pub fn monitor_to_start(&self, already_started: bool) -> (r: Option<Duration>)
        ensures
            r == (if already_started {
                None
            } else {
                self@.blocking_task_monitor_interval
            }),
    {
        if already_started {
            None
        } else {
            self.blocking_task_monitor_interval
        }
    }

    /// The interval of the blocked-thread monitor, if one is to run.
    pub fn monitor_interval(&self) -> (r: Option<Duration>)
        ensures
            r == self@.blocking_task_monitor_interval,
    {
        self.blocking_task_monitor_interval
    }

    /// How often ended services are looked for.
    pub fn reap_interval(&self) -> (r: Duration)
        ensures
            r == self@.completed_task_monitor_interval,
    {
        self.completed_task_monitor_interval
    }
}

/// `s` without the elements at the positions in `drop`, in order.
pub open spec fn without_positions<T>(s: Seq<T>, drop: Set<int>) -> Seq<T>
    decreases s.len(),
{
    if s.len() == 0 {
        s
    } else {
        let rest = without_positions(s.drop_last(), drop);
        if drop.contains(s.len() - 1) {
            rest
        } else {
            rest.push(s.last())
        }
    }
}

/// The positions in `indexes` are increasing and lie within a sequence of
/// length `len`.
pub open spec fn valid_positions(indexes: Seq<usize>, len: nat) -> bool {
    &&& forall|i: int, j: int| 0 <= i < j < indexes.len() ==> indexes[i] < indexes[j]
    &&& forall|i: int| 0 <= i < indexes.len() ==> indexes[i] < len
}

/// The positions listed in `indexes`.
pub open spec fn position_set(indexes: Seq<usize>) -> Set<int> {
    Set::new(|p: int| exists|i: int| 0 <= i < indexes.len() && indexes[i] == p)
}

/// Dropping positions that all lie at or past the end leaves `s` as it is;
/// in particular a reap that finds no ended service changes nothing.
pub proof fn lemma_without_nothing<T>(s: Seq<T>, drop: Set<int>)
    requires
        forall|p: int| drop.contains(p) ==> p >= s.len(),
    ensures
        without_positions(s, drop) == s,
    decreases s.len(),
{
    if s.len() > 0 {
        lemma_without_nothing(s.drop_last(), drop);
        assert(s.drop_last().push(s.last()) =~= s);
    }
}

/// Dropping positions that all lie past `d` keeps everything up to `d`.
pub proof fn lemma_without_keeps_prefix<T>(s: Seq<T>, drop: Set<int>, d: int)
    requires
        0 <= d < s.len(),
        forall|p: int| drop.contains(p) ==> p > d,
    ensures
        without_positions(s, drop).len() > d,
        forall|p: int| 0 <= p <= d ==> #[trigger] without_positions(s, drop)[p] == s[p],
    decreases s.len(),
{
    if s.len() - 1 == d {
        lemma_without_nothing(s.drop_last(), drop);
    } else {
        lemma_without_keeps_prefix(s.drop_last(), drop, d);
    }
}

/// Removing position `d` from what is left after dropping positions past `d`
/// is dropping `d` as well.
pub proof fn lemma_remove_below<T>(s: Seq<T>, drop: Set<int>, d: int)
    requires
        0 <= d < s.len(),
        forall|p: int| drop.contains(p) ==> p > d,
    ensures
        without_positions(s, drop).remove(d) == without_positions(s, drop.insert(d)),
    decreases s.len(),
{
    let rest = s.drop_last();
    let last = s.len() - 1;
    if last == d {
        lemma_without_nothing(s, drop);
        lemma_without_nothing(rest, drop.insert(d));
        assert(s.remove(d) =~= rest);
    } else {
        lemma_remove_below(rest, drop, d);
        if !drop.contains(last) {
            let w = without_positions(rest, drop);
            lemma_without_keeps_prefix(rest, drop, d);
            assert(w.push(s.last()).remove(d) =~= w.remove(d).push(s.last()));
        }
    }
}

/// Removes the elements at the positions `indexes` from `items`, highest
/// position first so that the positions still to go stay valid.
pub fn remove_indexes<T>(items: &mut Vec<T>, indexes: Vec<usize>)
    requires
        valid_positions(indexes@, old(items)@.len()),
    ensures
        final(items)@ == without_positions(old(items)@, position_set(indexes@)),
        final(items)@.len() == old(items)@.len() - indexes@.len(),
{
    let ghost start = items@;
    let mut j: usize = indexes.len();
    proof {
        lemma_without_nothing(start, Set::empty());
        assert(position_set(indexes@.skip(j as int)) =~= Set::<int>::empty());
    }
    while j > 0
        invariant
            j <= indexes@.len(),
            valid_positions(indexes@, start.len()),
            items@ == without_positions(start, position_set(indexes@.skip(j as int))),
            items@.len() == start.len() - (indexes@.len() - j),
        decreases j,
    {
        j = j - 1;
        let index = indexes[j];
        let ghost rest = indexes@.skip(j + 1);
        let ghost all = indexes@.skip(j as int);
        let ghost done = position_set(rest);
        assert forall|p: int| done.contains(p) implies p > index by {
            let i = choose|i: int| 0 <= i < rest.len() && #[trigger] rest[i] == p;
            assert(indexes@[j + 1 + i] == p);
        }
        proof {
            lemma_without_keeps_prefix(start, done, index as int);
            lemma_remove_below(start, done, index as int);
        }
        items.remove(index);
        assert(position_set(all) =~= done.insert(index as int)) by {
            assert forall|p: int| #[trigger] position_set(all).contains(p) implies done.insert(
                index as int,
            ).contains(p) by {
                let i = choose|i: int| 0 <= i < all.len() && #[trigger] all[i] == p;
                if i > 0 {
                    assert(rest[i - 1] == p);
                }
            }
            assert forall|p: int| done.insert(index as int).contains(p) implies #[trigger] position_set(
                all,
            ).contains(p) by {
                if p == index {
                    assert(all[0] == p);
                } else {
                    let i = choose|i: int| 0 <= i < rest.len() && #[trigger] rest[i] == p;
                    assert(all[i + 1] == p);
                }
            }
        }
    }
    assert(indexes@.skip(0) =~= indexes@);
}

/// Every element that is kept is one of the list's elements at a position
/// that was not dropped, and no more are kept than there were.
pub proof fn kept_elements_come_from_the_list<T>(s: Seq<T>, drop: Set<int>)
    ensures
        forall|k: int|
            0 <= k < without_positions(s, drop).len() ==> exists|p: int|
                0 <= p < s.len() && !drop.contains(p) && #[trigger] without_positions(s, drop)[k] == s[p],
        without_positions(s, drop).len() <= s.len(),
    decreases s.len(),
{
    if s.len() > 0 {
        let rest = s.drop_last();
        kept_elements_come_from_the_list(rest, drop);
        let w = without_positions(rest, drop);
        assert forall|k: int|
            0 <= k < without_positions(s, drop).len() implies exists|p: int|
                0 <= p < s.len() && !drop.contains(p) && #[trigger] without_positions(s, drop)[k] == s[p] by {
            if k < w.len() {
                let p = choose|p: int| 0 <= p < rest.len() && !drop.contains(p) && #[trigger] w[k] == rest[p];
                assert(s[p] == rest[p]);
            } else {
                assert(without_positions(s, drop)[k] == s[s.len() - 1]);
            }
        }
    }
}

/// The positions whose flag is set, in increasing order.
pub open spec fn flagged_positions(flags: Seq<bool>) -> Seq<usize>
    decreases flags.len(),
{
    if flags.len() == 0 {
        Seq::empty()
    } else {
        let rest = flagged_positions(flags.drop_last());
        if flags.last() {
            rest.push((flags.len() - 1) as usize)
        } else {
            rest
        }
    }
}

/// The set of positions whose flag is set.
pub open spec fn flagged_set(flags: Seq<bool>) -> Set<int> {
    Set::new(|p: int| 0 <= p < flags.len() && flags[p])
}

/// The flagged positions are valid positions of a list as long as the flags,
/// and they are exactly the positions whose flag is set.
pub proof fn lemma_flagged_positions(flags: Seq<bool>)
    requires
        flags.len() <= usize::MAX,
    ensures
        valid_positions(flagged_positions(flags), flags.len()),
        position_set(flagged_positions(flags)) == flagged_set(flags),
    decreases flags.len(),
{
    if flags.len() > 0 {
        let before = flags.drop_last();
        let rest = flagged_positions(before);
        lemma_flagged_positions(before);
        let last = (flags.len() - 1) as usize;
        if flags.last() {
            let fp = rest.push(last);
            assert(fp == flagged_positions(flags));
            assert forall|i: int, j: int| 0 <= i < j < fp.len() implies fp[i] < fp[j] by {
                if j < rest.len() {
                    assert(fp[i] == rest[i] && fp[j] == rest[j]);
                } else {
                    assert(fp[i] == rest[i]);
                }
            }
            assert forall|p: int| #[trigger] position_set(fp).contains(p) <==> flagged_set(flags).contains(p) by {
                if position_set(fp).contains(p) {
                    let i = choose|i: int| 0 <= i < fp.len() && #[trigger] fp[i] == p;
                    if i < rest.len() {
                        assert(rest[i] == p);
                        assert(position_set(rest).contains(p));
                        assert(before[p] == flags[p]);
                    }
                }
                if flagged_set(flags).contains(p) {
                    if p == last {
                        assert(fp[rest.len() as int] == p);
                    } else {
                        assert(before[p] == flags[p]);
                        assert(flagged_set(before).contains(p));
                        let i = choose|i: int| 0 <= i < rest.len() && #[trigger] rest[i] == p;
                        assert(fp[i] == p);
                    }
                }
            }
            assert(position_set(fp) =~= flagged_set(flags));
        } else {
            assert(rest == flagged_positions(flags));
            assert forall|p: int| #[trigger] position_set(rest).contains(p) <==> flagged_set(flags).contains(p) by {
                if flagged_set(flags).contains(p) {
                    assert(p != last);
                    assert(before[p] == flags[p]);
                    assert(flagged_set(before).contains(p));
                }
                if position_set(rest).contains(p) {
                    assert(flagged_set(before).contains(p));
                    assert(before[p] == flags[p]);
                }
            }
            assert(position_set(rest) =~= flagged_set(flags));
        }
    }
}

/// Whether each service's task has ended, position by position, as the
/// runtime reports it at the time of each check.
pub fn finished_flags<E>(services: &Vec<ServiceInfo<E>>) -> (r: Vec<bool>)
    ensures
        r@.len() == services@.len(),
{
    let mut r: Vec<bool> = Vec::new();
    let mut i: usize = 0;
    while i < services.len()
        invariant
            i <= services@.len(),
            r@.len() == i,
        decreases services@.len() - i,
    {
        r.push(services[i].is_finished());
        i = i + 1;
    }
    r
}

/// The positions whose flag is set, in increasing order.
pub fn finished_positions(flags: &Vec<bool>) -> (r: Vec<usize>)
    ensures
        r@ == flagged_positions(flags@),
        valid_positions(r@, flags@.len()),
        position_set(r@) == flagged_set(flags@),
{
    let mut r: Vec<usize> = Vec::new();
    let mut i: usize = 0;
    while i < flags.len()
        invariant
            i <= flags@.len(),
            r@ == flagged_positions(flags@.take(i as int)),
        decreases flags@.len() - i,
    {
        assert(flags@.take(i + 1).drop_last() == flags@.take(i as int));
        if flags[i] {
            r.push(i);
        }
        i = i + 1;
    }
    assert(flags@.take(i as int) == flags@);
    proof {
        lemma_flagged_positions(flags@);
    }
    r
}

/// The positions of the services whose tasks have ended, as the runtime
/// reports it at the time of each check.
pub fn finished_indexes<E>(services: &Vec<ServiceInfo<E>>) -> (r: Vec<usize>)
    ensures
        valid_positions(r@, services@.len()),
{
    let flags = finished_flags(services);
    finished_positions(&flags)
}

/// Drops from `items` exactly the elements whose flag in `finished` is set,
/// keeping the others in their order; returns the dropped positions, in
/// increasing order.
pub fn reap_flagged<T>(items: &mut Vec<T>, finished: &Vec<bool>) -> (removed: Vec<usize>)
    requires
        finished@.len() == old(items)@.len(),
    ensures
        removed@ == flagged_positions(finished@),
        valid_positions(removed@, old(items)@.len()),
        position_set(removed@) == flagged_set(finished@),
        final(items)@ == without_positions(old(items)@, flagged_set(finished@)),
        final(items)@.len() == old(items)@.len() - removed@.len(),
{
    let removed = finished_positions(finished);
    let copy = clone_positions(&removed);
    remove_indexes(items, copy);
    removed
}

/// Drops the services whose tasks have ended from the list, keeping the order
/// of the rest; returns the positions that were dropped.
pub fn reap_finished<E>(services: &mut Vec<ServiceInfo<E>>) -> (removed: Vec<usize>)
    ensures
        valid_positions(removed@, old(services)@.len()),
        final(services)@ == without_positions(old(services)@, position_set(removed@)),
        final(services)@.len() == old(services)@.len() - removed@.len(),
{
    let flags = finished_flags(services);
    reap_flagged(services, &flags)
}

/// A copy of a list of positions.
fn clone_positions(v: &Vec<usize>) -> (r: Vec<usize>)
    ensures
        r@ == v@,
{
    let mut r: Vec<usize> = Vec::new();
    let mut i: usize = 0;
    while i < v.len()
        invariant
            i <= v@.len(),
            r@ == v@.take(i as int),
        decreases v@.len() - i,
    {
        r.push(v[i]);
        assert(v@.take(i + 1) == v@.take(i as int).push(v@[i as int]));
        i = i + 1;
    }
    assert(v@.take(i as int) == v@);
    r
}

/// Empties the list, handing the services back last first (the order in
/// which they are popped).
pub fn take_all<T>(items: &mut Vec<T>) -> (r: Vec<T>)
    ensures
        final(items)@.len() == 0,
        r@ == old(items)@.reverse(),
{
    let ghost start = items@;
    let mut r: Vec<T> = Vec::new();
    while items.len() > 0
        invariant
            start == items@ + r@.reverse(),
        decreases items@.len(),
    {
        let ghost before = items@;
        let ghost rb = r@;
        let x = items.pop().unwrap();
        r.push(x);
        assert(r@.reverse() =~= seq![x] + rb.reverse());
        assert(before =~= items@.push(x));
        assert(start =~= items@ + r@.reverse());
    }
    assert(r@.reverse().reverse() =~= r@);
    assert(start =~= r@.reverse());
    r
}

} // verus!
