//! The registry of the single-threaded manager: the services that are running,
//! each under its own id.

use std::collections::HashMap;
use tokio_util::sync::CancellationToken;
use vstd::prelude::*;

use crate::service_info_wasm::{ServiceInfo, ServiceInfoView};
use crate::sync::token_is_cancelled;
use crate::TaskId;
use vstd::std_specs::hash::{into_iter_keys, spec_keys_iter};

verus! {

broadcast use vstd::std_specs::hash::group_hash_axioms;

/// The running services of a single-threaded manager, each stored under its id.
#[derive(Debug)]
pub struct ServiceMap {
    map: HashMap<u64, ServiceInfo>,
}

impl View for ServiceMap {
    type V = Map<u64, ServiceInfoView>;

    closed spec fn view(&self) -> Map<u64, ServiceInfoView> {
        self.map@.map_values(|s: ServiceInfo| s@)
    }
}

impl ServiceMap {
    /// Every service is stored under its own id.
    #[verifier::type_invariant]
    closed spec fn keyed_by_id(&self) -> bool {
        forall|k: u64| #[trigger] self.map@.contains_key(k) ==> self.map@[k]@.id == k
    }

    /// A registry with no services.
    pub fn new() -> (r: ServiceMap)
        ensures
            r@ == Map::<u64, ServiceInfoView>::empty(),
    {
        let r = ServiceMap { map: HashMap::new() };
        assert(r@ =~= Map::<u64, ServiceInfoView>::empty());
        r
    }

    /// The number of registered services.
    pub fn len(&self) -> (r: usize)
        ensures
            r == self@.len(),
    {
        let r = self.map.len();
        assert(self@.dom() =~= self.map@.dom());
        r
    }

    /// Registers `info` under its id, in place of any service registered there.
    pub fn insert(&mut self, info: ServiceInfo)
        ensures
            final(self)@ == old(self)@.insert(info@.id, info@),
    {
        proof { use_type_invariant(&*self); }
        let id = info.id().value();
        let ghost v = info@;
        let mut map = HashMap::new();
        std::mem::swap(&mut map, &mut self.map);
        map.insert(id, info);
        self.map = map;
        assert(self@ =~= old(self)@.insert(v.id, v));
    }

    /// Takes the service registered under `id` out of the registry.
    pub fn take(&mut self, id: &TaskId) -> (r: Option<ServiceInfo>)
        ensures
            final(self)@ == old(self)@.remove(id@),
            match r {
                Some(s) => old(self)@.contains_key(id@) && s@ == old(self)@[id@] && s@.id == id@,
                None => !old(self)@.contains_key(id@),
            },
    {
        proof { use_type_invariant(&*self); }
        let key = id.value();
        let mut map = HashMap::new();
        std::mem::swap(&mut map, &mut self.map);
        let r = map.remove(&key);
        self.map = map;
        assert(self@ =~= old(self)@.remove(id@));
        r
    }

    /// Asks the service registered under `id`, if any, to stop.
    pub fn cancel_service(&self, id: &TaskId) {
        let key = id.value();
        if let Some(service) = self.map.get(&key) {
            service.cancel();
        }
    }

    /// What happens when the service `id` has ended on its own: it leaves the
    /// registry, unless the manager's cancellation had been requested (the
    /// manager then collects every service itself).
    pub fn remove_ended(&mut self, id: &TaskId, cancelled: bool)
        ensures
            final(self)@ == (if cancelled {
                old(self)@
            } else {
                old(self)@.remove(id@)
            }),
    {
        if !cancelled {
            let _ = self.take(id);
        }
    }

    /// Takes every service out of the registry.
    pub fn drain(&mut self) -> (r: Vec<ServiceInfo>)
        ensures
            final(self)@ == Map::<u64, ServiceInfoView>::empty(),
            r@.len() == old(self)@.len(),
            forall|i: int|
                0 <= i < r@.len() ==> old(self)@.contains_key(#[trigger] r@[i]@.id)
                    && old(self)@[r@[i]@.id] == r@[i]@,
            forall|i: int, j: int|
                0 <= i < j < r@.len() ==> #[trigger] r@[i]@.id != #[trigger] r@[j]@.id,
    {
        proof { use_type_invariant(&*self); }
        let ghost start = self@;
        assert(start.dom() =~= self.map@.dom());
        let ghost ks: Seq<u64> = into_iter_keys(spec_keys_iter(&self.map));
        let mut keys: Vec<u64> = Vec::new();
        for k in it: self.map.keys()
            invariant
                it.seq().unref() == ks,
                ks.to_set() == start.dom(),
                ks.no_duplicates(),
                ks.len() == start.len(),
                keys@ == ks.take(it.index()),
                keys@.len() == it.index(),
        {
            keys.push(*k);
        }
        assert(keys@.len() == ks.len());
        assert(keys@ =~= ks);
        let mut out: Vec<ServiceInfo> = Vec::new();
        let mut i: usize = 0;
        while i < keys.len()
            invariant
                i <= keys@.len(),
                keys@.to_set() == start.dom(),
                keys@.no_duplicates(),
                keys@.len() == start.len(),
                out@.len() == i,
                forall|j: int| 0 <= j < i ==> #[trigger] out@[j]@ == start[keys@[j]],
                forall|k: u64| #[trigger] start.contains_key(k) ==> start[k].id == k,
                self@ == start.remove_keys(keys@.take(i as int).to_set()),
            decreases keys@.len() - i,
        {
            let key = keys[i];
            let tid = TaskId::from_value(key);
            assert(keys@.contains(key));
            assert(!keys@.take(i as int).contains(key));
            let taken = self.take(&tid);
            assert(keys@.take(i + 1) == keys@.take(i as int).push(key));
            proof {
                keys@.take(i as int).lemma_push_to_set_commute(key);
            }
            assert(keys@.take(i + 1).to_set() =~= keys@.take(i as int).to_set().insert(key));
            assert(start.remove_keys(keys@.take(i as int).to_set()).remove(key) =~= start.remove_keys(
                keys@.take(i as int).to_set().insert(key),
            ));
            assert(self@ =~= start.remove_keys(keys@.take(i + 1).to_set()));
            match taken {
                Some(s) => {
                    out.push(s);
                },
                None => {
                    assert(false);
                },
            }
            i = i + 1;
        }
        assert(keys@.take(i as int) == keys@);
        assert(self@ =~= Map::<u64, ServiceInfoView>::empty());
        assert forall|a: int| 0 <= a < out@.len() implies start.contains_key(#[trigger] out@[a]@.id)
            && start[out@[a]@.id] == out@[a]@ by {
            assert(keys@.to_set().contains(keys@[a]));
        }
        assert forall|a: int, b: int| 0 <= a < b < out@.len() implies #[trigger] out@[a]@.id
            != #[trigger] out@[b]@.id by {
            assert(keys@.to_set().contains(keys@[a]));
            assert(keys@.to_set().contains(keys@[b]));
            assert(out@[a]@.id == keys@[a]);
            assert(out@[b]@.id == keys@[b]);
        }
        out
    }
}

/// Taking a service right after registering it hands that service back, and
/// leaves the registry as it was without the id; taking it again finds
/// nothing.
pub proof fn take_after_insert(before: Map<u64, ServiceInfoView>, info: ServiceInfoView)
    ensures
        before.insert(info.id, info).contains_key(info.id),
        before.insert(info.id, info)[info.id] == info,
        before.insert(info.id, info).remove(info.id) == before.remove(info.id),
        !before.insert(info.id, info).remove(info.id).contains_key(info.id),
{
    assert(before.insert(info.id, info).remove(info.id) =~= before.remove(info.id));
}

/// Registering or taking a service under one id leaves the services under
/// every other id as they were.
pub proof fn other_ids_untouched(before: Map<u64, ServiceInfoView>, info: ServiceInfoView, other: u64)
    requires
        other != info.id,
    ensures
        before.insert(info.id, info).contains_key(other) == before.contains_key(other),
        before.remove(info.id).contains_key(other) == before.contains_key(other),
        before.contains_key(other) ==> before.insert(info.id, info)[other] == before[other]
            && before.remove(info.id)[other] == before[other],
{
}

/// Ends the service `id` that finished with `res` on its own: unless the
/// manager's `cancellation_token` has been cancelled, the service leaves the
/// registry. Its result is handed back unchanged.
pub fn handle_service_remove<E>(
    id: &TaskId,
    res: Result<(), E>,
    services: &mut ServiceMap,
    cancellation_token: &CancellationToken,
) -> (r: Result<(), E>)
    ensures
        r == res,
        final(services)@ == old(services)@ || final(services)@ == old(services)@.remove(id@),
{
    let cancelled = token_is_cancelled(cancellation_token);
    services.remove_ended(id, cancelled);
    res
}

} // verus!
