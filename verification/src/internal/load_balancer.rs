//! Balancers: a fixed address, a rotation over the current topology, and a
//! handle that shares one balancer among many callers.

use crate::errors::Error;
use crate::internal::discovery::DiscoveryState;
use crate::internal::discovery::NodeInfo;
use crate::internal::discovery::Service;
use crate::internal::sync::exclusive_ref;
use crate::internal::sync::share;
use crate::internal::sync::shared_ref;
use http::Uri;
use std::sync::atomic::AtomicUsize;
use std::sync::atomic::Ordering;
use std::sync::Arc;
use std::sync::PoisonError;
use std::sync::RwLock;
use std::sync::RwLockReadGuard;
use std::sync::RwLockWriteGuard;
use vstd::arithmetic::div_mod::lemma_add_mod_noop;
use vstd::arithmetic::div_mod::lemma_mod_bound;
use vstd::arithmetic::div_mod::lemma_mod_self_0;
use vstd::arithmetic::div_mod::lemma_small_mod;
use vstd::prelude::*;

verus! {

/// What every balancer offers. Each implementation states in its own
/// contract which address it selects and what an update does to it. A
/// balancer can be handed to other threads and used from several at once.
pub trait LoadBalancer: Send + Sync {
    /// An address for one request to `service`.
    fn endpoint(&self, service: Service) -> Result<Uri, Error>;

    /// Installs a new topology, where the balancer has one.
    fn set_discovery_state(&mut self, discovery_state: &Arc<DiscoveryState>) -> Result<(), Error>;
}

/// The position in a list of `len` nodes that a rotation selects when its
/// counter reads `counter`: the reading, counted cyclically.
pub open spec fn rotation_index(counter: usize, len: nat) -> int {
    counter as int % len as int
}

/// The answer of a rotation over `snapshot` when its counter reads
/// `counter`: the address of the node at the reading's position in the
/// service's list.
pub open spec fn rotation_pick(
    snapshot: Map<Service, Seq<NodeInfo>>,
    service: Service,
    counter: usize,
) -> Result<Uri, Error> {
    if !snapshot.contains_key(service) {
        Err(Error::UnknownService(service))
    } else if snapshot[service].len() == 0 {
        Err(Error::EmptyEndpointList(service))
    } else {
        Ok(snapshot[service][rotation_index(counter, snapshot[service].len())].uri)
    }
}

/// Selects the endpoint of `service` for a given reading of the counter.
pub fn endpoint_at(state: &DiscoveryState, service: Service, counter: usize) -> (picked: Result<
    Uri,
    Error,
>)
    ensures
        picked == rotation_pick(state@, service, counter),
{
    match state.nodes(service) {
        None => Err(Error::UnknownService(service)),
        Some(nodes) => {
            if nodes.len() > 0 {
                let node = &nodes[counter % nodes.len()];
                Ok(node.uri.clone())
            } else {
                Err(Error::EmptyEndpointList(service))
            }
        },
    }
}

/// The reading that a lookup draws after `calls` earlier lookups from a
/// counter that stood at `start`: the counter goes up by one with every
/// lookup, and past its largest value it starts over at zero.
pub open spec fn reading_after(start: usize, calls: nat) -> usize {
    ((start + calls) % (usize::MAX + 1)) as usize
}

/// No two nodes of the list have the same address.
pub open spec fn no_address_twice(nodes: Seq<NodeInfo>) -> bool {
    forall|i: int, j: int| 0 <= i < j < nodes.len() ==> nodes[i].uri != nodes[j].uri
}

/// Rotation covers the list. Where a service has `n` nodes, the first `n`
/// lookups on a fresh counter get the nodes one by one, in the order of the
/// list, and the lookup after them gets the first node again. Where no address
/// occurs twice in the list, each address is the answer of exactly one of
/// those `n` lookups.
pub proof fn lemma_rotation_covers_the_list(
    snapshot: Map<Service, Seq<NodeInfo>>,
    service: Service,
)
    requires
        snapshot.contains_key(service),
        0 < snapshot[service].len() <= usize::MAX,
    ensures
        forall|k: nat|
            k < snapshot[service].len() ==> #[trigger] rotation_pick(
                snapshot,
                service,
                reading_after(0, k),
            ) == Ok::<Uri, Error>(snapshot[service][k as int].uri),
        rotation_pick(snapshot, service, reading_after(0, snapshot[service].len())) == Ok::<
            Uri,
            Error,
        >(snapshot[service][0].uri),
        no_address_twice(snapshot[service]) ==> forall|k: nat, i: int|
            k < snapshot[service].len() && 0 <= i < snapshot[service].len() ==> (
            #[trigger] rotation_pick(snapshot, service, reading_after(0, k)) == Ok::<Uri, Error>(
                #[trigger] snapshot[service][i].uri,
            ) <==> k == i),
{
    let nodes = snapshot[service];
    let n = nodes.len();
    assert forall|k: nat| k <= n implies reading_after(0, k) == k by {
        lemma_small_mod(k, (usize::MAX + 1) as nat);
    }
    assert forall|k: nat| k < n implies #[trigger] rotation_pick(
        snapshot,
        service,
        reading_after(0, k),
    ) == Ok::<Uri, Error>(nodes[k as int].uri) by {
        lemma_small_mod(k, n);
    }
    assert(rotation_pick(snapshot, service, reading_after(0, n)) == Ok::<Uri, Error>(
        nodes[0].uri,
    )) by {
        lemma_mod_self_0(n as int);
    }
}

/// Rotation has no end. Whatever the counter reads, also after it has passed
/// its largest value and started over, a lookup for a service with nodes gets
/// the node at the reading's position, counted cyclically, and so one of the
/// service's nodes.
pub proof fn lemma_rotation_survives_wraparound(
    snapshot: Map<Service, Seq<NodeInfo>>,
    service: Service,
    start: usize,
    calls: nat,
)
    requires
        snapshot.contains_key(service),
        snapshot[service].len() > 0,
    ensures
        reading_after(usize::MAX, 1) == 0,
        reading_after(start, calls + 1) == if reading_after(start, calls) == usize::MAX {
            0
        } else {
            reading_after(start, calls) + 1
        },
        0 <= rotation_index(reading_after(start, calls), snapshot[service].len())
            < snapshot[service].len(),
        rotation_pick(snapshot, service, reading_after(start, calls)) == Ok::<Uri, Error>(
            snapshot[service][rotation_index(
                reading_after(start, calls),
                snapshot[service].len(),
            )].uri,
        ),
{
    let modulus = usize::MAX + 1;
    lemma_mod_self_0(modulus);
    lemma_add_mod_noop(start + calls, 1, modulus);
    lemma_small_mod(1, modulus as nat);
    let reading = (start + calls) % modulus;
    lemma_mod_bound(start + calls, modulus);
    if reading != usize::MAX {
        lemma_small_mod((reading + 1) as nat, modulus as nat);
    }
    lemma_mod_bound(reading_after(start, calls) as int, snapshot[service].len() as int);
}

/// A balancer that cycles through the nodes of the current topology.
pub struct RoundRobin {
    counter: AtomicUsize,
    discovery_state: Arc<DiscoveryState>,
    start: Ghost<usize>,
}

impl View for RoundRobin {
    type V = Map<Service, Seq<NodeInfo>>;

    /// The topology the balancer currently selects from.
    closed spec fn view(&self) -> Map<Service, Seq<NodeInfo>> {
        self.discovery_state@
    }
}

impl RoundRobin {
    /// The cell that holds the counter. What the cell reads changes with
    /// every lookup and is beyond any contract; which cell the balancer
    /// counts in is not.
    pub closed spec fn counter_cell(&self) -> AtomicUsize {
        self.counter
    }

    /// What the counter read when the balancer was made. This is a record of
    /// the start: lookups that do not overlap draw the readings
    /// `reading_after(counter_start(), 0)`, `reading_after(counter_start(), 1)`
    /// and so on, but what the counter reads now is beyond any contract.
    pub closed spec fn counter_start(&self) -> usize {
        self.start@
    }

    /// A rotation that starts at the head of each list and knows no service
    /// until the first update.
    pub fn new() -> (balancer: Self)
        ensures
            balancer@ == Map::<Service, Seq<NodeInfo>>::empty(),
            balancer.counter_start() == 0,
    {
        RoundRobin::with_counter(0)
    }

    /// As `new`, with the counter set to `counter`.
    pub fn with_counter(counter: usize) -> (balancer: Self)
        ensures
            balancer@ == Map::<Service, Seq<NodeInfo>>::empty(),
            balancer.counter_start() == counter,
    {
        RoundRobin {
            counter: AtomicUsize::new(counter),
            discovery_state: Arc::new(DiscoveryState::new()),
            start: Ghost(counter),
        }
    }

    /// Draws the next reading of the counter. Concurrent callers draw
    /// different readings; past the largest value the counter starts over.
    fn advance(&self) -> usize {
        self.counter.fetch_add(1, Ordering::Relaxed)
    }
}

impl LoadBalancer for RoundRobin {
    /// Draws a reading of the counter and answers with `rotation_pick` for
    /// it. Which reading a call draws depends on the calls before it and
    /// beside it; the contract holds for every reading: an unknown service
    /// and an empty list are reported as such, and any other lookup gets the
    /// address of one of the service's nodes.
    fn endpoint(&self, service: Service) -> (picked: Result<Uri, Error>)
        ensures
            exists|counter: usize| picked == rotation_pick(self@, service, counter),
            picked == Err::<Uri, Error>(Error::UnknownService(service)) <==> !self@.contains_key(
                service,
            ),
            picked == Err::<Uri, Error>(Error::EmptyEndpointList(service)) <==> self@.contains_key(
                service,
            ) && self@[service].len() == 0,
            picked is Ok <==> self@.contains_key(service) && self@[service].len() > 0,
            picked matches Ok(uri) ==> exists|i: int|
                0 <= i < self@[service].len() && uri == #[trigger] self@[service][i].uri,
    {
        let counter = self.advance();
        let picked = endpoint_at(&self.discovery_state, service, counter);
        assert(picked == rotation_pick(self@, service, counter));
        picked
    }

    /// Replaces the topology as a whole; nothing of the earlier one remains.
    /// The counter is not touched: the rotation goes on from where it was.
    fn set_discovery_state(&mut self, discovery_state: &Arc<DiscoveryState>) -> (done: Result<
        (),
        Error,
    >)
        ensures
            done == Ok::<(), Error>(()),
            final(self)@ == discovery_state@,
            final(self).counter_cell() == old(self).counter_cell(),
            final(self).counter_start() == old(self).counter_start(),
    {
        self.discovery_state = share(discovery_state);
        Ok(())
    }
}

/// A balancer with one address, fixed when it is made.
pub struct StaticLoadBalancer {
    endpoint: Uri,
}

impl StaticLoadBalancer {
    /// The address the balancer was made with.
    pub closed spec fn address(&self) -> Uri {
        self.endpoint
    }

    /// The balancer that answers every lookup with `endpoint`.
    pub fn new(endpoint: Uri) -> (balancer: Self)
        ensures
            balancer.address() == endpoint,
    {
        StaticLoadBalancer { endpoint }
    }
}

impl LoadBalancer for StaticLoadBalancer {
    /// The fixed address, whatever the service.
    fn endpoint(&self, _service: Service) -> (picked: Result<Uri, Error>)
        ensures
            picked == Ok::<Uri, Error>(self.address()),
    {
        Ok(self.endpoint.clone())
    }

    /// Refuses: there is no topology to replace, and the address stays.
    fn set_discovery_state(&mut self, _discovery_state: &Arc<DiscoveryState>) -> (done: Result<
        (),
        Error,
    >)
        ensures
            done == Err::<(), Error>(Error::UnsupportedUpdate),
            *final(self) == *old(self),
    {
        Err(Error::UnsupportedUpdate)
    }
}

/// `picked` is an answer that `balancer` may give to a lookup of `service`
/// by its own contract.
#[verifier::inline]
pub open spec fn lookup_allowed<B: LoadBalancer + ?Sized>(
    balancer: &B,
    service: Service,
    picked: Result<Uri, Error>,
) -> bool {
    B::endpoint.ensures((balancer, service), picked)
}

/// `done` is an answer that the balancer behind `used` may give by its own
/// contract to an update with `discovery_state`; what the update does to the
/// balancer is told by the value behind `used` before and after.
#[verifier::inline]
pub open spec fn update_allowed<B: LoadBalancer + ?Sized>(
    used: &mut B,
    discovery_state: &Arc<DiscoveryState>,
    done: Result<(), Error>,
) -> bool {
    B::set_discovery_state.ensures((used, discovery_state), done)
}

/// An update is seen by every lookup after it. Where a rotation has taken an
/// update with `discovery_state`, whatever it held before, the update
/// succeeded, and a lookup on the rotation as the update left it is answered
/// from `discovery_state` alone: with the address of one of the service's
/// nodes there, or with the error that this topology calls for.
pub proof fn lemma_lookup_sees_the_update(
    used: &mut RoundRobin,
    discovery_state: &Arc<DiscoveryState>,
    done: Result<(), Error>,
    service: Service,
    picked: Result<Uri, Error>,
)
    requires
        update_allowed(used, discovery_state, done),
        lookup_allowed(&*final(used), service, picked),
    ensures
        done == Ok::<(), Error>(()),
        exists|counter: usize| picked == rotation_pick(discovery_state@, service, counter),
{
}

/// Answers a lookup for a caller that asked for shared access to a balancer:
/// with access, the balancer answers for the same service; without, the
/// failure to get access is the answer.
pub fn endpoint_under<B: LoadBalancer + ?Sized>(access: Option<&B>, service: Service) -> (picked:
    Result<Uri, Error>)
    ensures
        match access {
            Some(balancer) => lookup_allowed(balancer, service, picked),
            None => picked == Err::<Uri, Error>(Error::AccessFailure),
        },
{
    match access {
        Some(balancer) => balancer.endpoint(service),
        None => Err(Error::AccessFailure),
    }
}

/// Answers an update for a caller that asked for exclusive access to a
/// balancer: with access, the balancer takes the same topology and answers;
/// without, the failure to get access is the answer. The contract speaks of
/// the balancer's own update: it ran on the value that `access` leads to,
/// left the value that `access` leads to afterwards, and returned `done`.
pub fn update_under<B: LoadBalancer + ?Sized>(
    access: Option<&mut B>,
    discovery_state: &Arc<DiscoveryState>,
) -> (done: Result<(), Error>)
    ensures
        match access {
            Some(balancer) => exists|used: &mut B|
                &*used == &*balancer && &*final(used) == &*final(balancer)
                    && #[trigger] update_allowed(used, discovery_state, done),
            None => done == Err::<(), Error>(Error::AccessFailure),
        },
{
    match access {
        Some(balancer) => balancer.set_discovery_state(discovery_state),
        None => Err(Error::AccessFailure),
    }
}

/// A handle to one balancer that many callers share. Every clone of a handle
/// leads to the same balancer, so an update through one is seen through all.
///
/// The lock is held while the guarded balancer answers. So a balancer that is
/// put behind a handle must not call back into a handle to its own lock, from
/// `endpoint` or from `set_discovery_state`: the thread would ask for a lock it
/// already holds, and std then lets the call panic or never return. The
/// balancers of this module hold no handle and cannot do so.
pub struct SharedLoadBalancer {
    inner: Arc<RwLock<Box<dyn LoadBalancer>>>,
    at_start: Ghost<spec_fn(Service, Result<Uri, Error>) -> bool>,
}

impl Clone for SharedLoadBalancer {
    /// Another handle to the same lock and balancer; nothing is copied.
    fn clone(&self) -> (handle: Self)
        ensures
            handle == *self,
    {
        SharedLoadBalancer { inner: share(&self.inner), at_start: self.at_start }
    }
}

impl SharedLoadBalancer {
    /// Whether `picked` is an answer that the balancer the handle was made
    /// with may give to a lookup of `service`. This is a record of the start
    /// and is the same for every clone; nothing is claimed of what the lock
    /// holds after an update.
    pub closed spec fn allowed_at_start(
        &self,
        service: Service,
        picked: Result<Uri, Error>,
    ) -> bool {
        (self.at_start@)(service, picked)
    }

    /// Puts `load_balancer` behind a lock of its own and returns the first
    /// handle to it. The handle is made with exactly the balancer given: what
    /// it records of the start is what `load_balancer` may answer.
    pub fn new(load_balancer: Box<dyn LoadBalancer>) -> (handle: Self)
        ensures
            forall|service: Service, picked: Result<Uri, Error>|
                #[trigger] handle.allowed_at_start(service, picked) == lookup_allowed(
                    &*load_balancer,
                    service,
                    picked,
                ),
    {
        let at_start = Ghost(
            |service: Service, picked: Result<Uri, Error>|
                lookup_allowed(&*load_balancer, service, picked),
        );
        SharedLoadBalancer { inner: Arc::new(RwLock::new(load_balancer)), at_start }
    }
}

/// Answers a lookup from what came of asking the lock for shared access: a
/// poisoned lock is reported as the failure to get access, and a guard leads
/// to the guarded balancer, which answers for the same service. The guard is
/// given up before the answer is returned.
pub fn endpoint_locked<'a>(
    locked: Result<
        RwLockReadGuard<'a, Box<dyn LoadBalancer>>,
        PoisonError<RwLockReadGuard<'a, Box<dyn LoadBalancer>>>,
    >,
    service: Service,
) -> (picked: Result<Uri, Error>)
    ensures
        locked is Err ==> picked == Err::<Uri, Error>(Error::AccessFailure),
        locked is Ok ==> exists|balancer: &dyn LoadBalancer|
            #[trigger] lookup_allowed(balancer, service, picked),
{
    let access = match &locked {
        Ok(guard) => Some(&**shared_ref(guard)),
        Err(_) => None,
    };
    endpoint_under(access, service)
}

/// Answers an update from what came of asking the lock for exclusive access:
/// a poisoned lock is reported as the failure to get access, and a guard leads
/// to the guarded balancer, which takes the same topology and answers. The
/// guard is given up before the answer is returned.
pub fn update_locked<'a>(
    locked: Result<
        RwLockWriteGuard<'a, Box<dyn LoadBalancer>>,
        PoisonError<RwLockWriteGuard<'a, Box<dyn LoadBalancer>>>,
    >,
    discovery_state: &Arc<DiscoveryState>,
) -> (done: Result<(), Error>)
    ensures
        locked is Err ==> done == Err::<(), Error>(Error::AccessFailure),
        locked is Ok ==> exists|used: &mut dyn LoadBalancer|
            #[trigger] update_allowed(used, discovery_state, done),
{
    let mut locked = locked;
    let access = match &mut locked {
        Ok(guard) => Some(&mut **exclusive_ref(guard)),
        Err(_) => None,
    };
    update_under(access, discovery_state)
}

impl LoadBalancer for SharedLoadBalancer {
    /// Looks up under the read lock. What the lock holds is not known to
    /// the caller, so the answer is told as far as it can be: it is the
    /// failure to get access, or an answer that the guarded balancer may
    /// give for the same service.
    fn endpoint(&self, service: Service) -> (picked: Result<Uri, Error>)
        ensures
            picked == Err::<Uri, Error>(Error::AccessFailure) || exists|balancer: &dyn LoadBalancer|
                #[trigger] lookup_allowed(balancer, service, picked),
    {
        endpoint_locked(self.inner.read(), service)
    }

    /// Updates under the write lock. The handle itself stays as it is; the
    /// answer is the failure to get access, or an answer that the guarded
    /// balancer may give to an update with the same topology.
    fn set_discovery_state(&mut self, discovery_state: &Arc<DiscoveryState>) -> (done: Result<
        (),
        Error,
    >)
        ensures
            *final(self) == *old(self),
            done == Err::<(), Error>(Error::AccessFailure) || exists|used: &mut dyn LoadBalancer|
                #[trigger] update_allowed(used, discovery_state, done),
    {
        update_locked(self.inner.write(), discovery_state)
    }
}

} // verus!
