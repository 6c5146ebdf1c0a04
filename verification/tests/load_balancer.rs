use http::Uri;
use std::str::FromStr;
use std::sync::atomic::AtomicUsize;
use std::sync::atomic::Ordering::Relaxed;
use std::sync::Arc;
use std::sync::RwLock;
use ydb::errors::Error;
use ydb::internal::discovery::DiscoveryState;
use ydb::internal::discovery::NodeInfo;
use ydb::internal::discovery::Service;
use ydb::internal::discovery::Service::Table;
use ydb::internal::load_balancer::endpoint_at;
use ydb::internal::load_balancer::endpoint_locked;
use ydb::internal::load_balancer::endpoint_under;
use ydb::internal::load_balancer::update_locked;
use ydb::internal::load_balancer::update_under;
use ydb::internal::load_balancer::LoadBalancer;
use ydb::internal::load_balancer::RoundRobin;
use ydb::internal::load_balancer::SharedLoadBalancer;
use ydb::internal::load_balancer::StaticLoadBalancer;

struct MockBalancer {
    endpoint: Uri,
    endpoint_counter: AtomicUsize,
    set_updates_counter: AtomicUsize,
    last_state: Arc<DiscoveryState>,
}

impl MockBalancer {
    pub fn new(endpoint: Uri, state: DiscoveryState) -> Self {
        Self {
            endpoint,
            endpoint_counter: Default::default(),
            set_updates_counter: Default::default(),
            last_state: Arc::new(state),
        }
    }
}

impl LoadBalancer for MockBalancer {
    fn endpoint(&self, _service: Service) -> Result<Uri, Error> {
        self.endpoint_counter.fetch_add(1, Relaxed);
        Ok(self.endpoint.clone())
    }

    fn set_discovery_state(&mut self, discovery_state: &Arc<DiscoveryState>) -> Result<(), Error> {
        self.set_updates_counter.fetch_add(1, Relaxed);
        self.last_state = discovery_state.clone();
        Ok(())
    }
}

fn uri(text: &str) -> Uri {
    Uri::from_str(text).unwrap()
}

fn nodes(addresses: &[&str]) -> Vec<NodeInfo> {
    addresses.iter().map(|a| NodeInfo::new(uri(a))).collect()
}

fn table_state(addresses: &[&str]) -> Arc<DiscoveryState> {
    Arc::new(DiscoveryState::new().with_service(Table, nodes(addresses)))
}

#[test]
fn shared_load_balancer() -> Result<(), Error> {
    let test_uri = Uri::from_str("http://test.com").unwrap();

    let s1 = SharedLoadBalancer::new(Box::new(MockBalancer::new(
        test_uri.clone(),
        DiscoveryState::default(),
    )));
    let _s2 = s1.clone();

    assert_eq!(test_uri, s1.endpoint(Table)?);
    Ok(())
}

#[test]
fn static_balancer_returns_its_address_for_every_service() {
    let address = uri("http://fixed.example:2135");
    let balancer = StaticLoadBalancer::new(address.clone());
    for service in [
        Service::Discovery,
        Service::Export,
        Service::Import,
        Service::Scripting,
        Service::Table,
    ] {
        assert_eq!(balancer.endpoint(service), Ok(address.clone()));
        assert_eq!(balancer.endpoint(service), Ok(address.clone()));
    }
}

#[test]
fn static_balancer_rejects_updates() {
    let address = uri("http://fixed.example:2135");
    let mut balancer = StaticLoadBalancer::new(address.clone());
    let state = table_state(&["http://other.example:2135"]);
    assert_eq!(balancer.set_discovery_state(&state), Err(Error::UnsupportedUpdate));
    assert_eq!(balancer.endpoint(Table), Ok(address));
}

#[test]
fn round_robin_visits_each_node_in_order() {
    let mut balancer = RoundRobin::new();
    let state = table_state(&["http://n1:2135", "http://n2:2135", "http://n3:2135"]);
    assert_eq!(balancer.set_discovery_state(&state), Ok(()));
    assert_eq!(balancer.endpoint(Table), Ok(uri("http://n1:2135")));
    assert_eq!(balancer.endpoint(Table), Ok(uri("http://n2:2135")));
    assert_eq!(balancer.endpoint(Table), Ok(uri("http://n3:2135")));
    assert_eq!(balancer.endpoint(Table), Ok(uri("http://n1:2135")));
}

#[test]
fn round_robin_update_replaces_the_topology() {
    let mut balancer = RoundRobin::new();
    let first = table_state(&["http://n1:2135", "http://n2:2135", "http://n3:2135"]);
    balancer.set_discovery_state(&first).unwrap();
    assert_eq!(balancer.endpoint(Table), Ok(uri("http://n1:2135")));
    assert_eq!(balancer.endpoint(Table), Ok(uri("http://n2:2135")));
    let second = table_state(&["http://n4:2135"]);
    balancer.set_discovery_state(&second).unwrap();
    assert_eq!(balancer.endpoint(Table), Ok(uri("http://n4:2135")));
    assert_eq!(balancer.endpoint(Table), Ok(uri("http://n4:2135")));
}

#[test]
fn round_robin_update_keeps_the_counter() {
    let mut balancer = RoundRobin::new();
    assert_eq!(balancer.endpoint(Table), Err(Error::UnknownService(Table)));
    let state = table_state(&["http://n1:2135", "http://n2:2135"]);
    assert_eq!(balancer.set_discovery_state(&state), Ok(()));
    assert_eq!(balancer.endpoint(Table), Ok(uri("http://n2:2135")));
    assert_eq!(balancer.endpoint(Table), Ok(uri("http://n1:2135")));
}

#[test]
fn round_robin_without_update_knows_no_service() {
    let balancer = RoundRobin::new();
    assert_eq!(balancer.endpoint(Table), Err(Error::UnknownService(Table)));
    assert_eq!(
        balancer.endpoint(Service::Discovery),
        Err(Error::UnknownService(Service::Discovery))
    );
}

#[test]
fn round_robin_reports_unknown_service() {
    let mut balancer = RoundRobin::new();
    balancer.set_discovery_state(&table_state(&["http://n1:2135"])).unwrap();
    assert_eq!(
        balancer.endpoint(Service::Scripting),
        Err(Error::UnknownService(Service::Scripting))
    );
}

#[test]
fn round_robin_reports_empty_list() {
    let mut balancer = RoundRobin::new();
    balancer.set_discovery_state(&table_state(&[])).unwrap();
    let answer = balancer.endpoint(Table);
    assert_eq!(answer, Err(Error::EmptyEndpointList(Table)));
    assert_ne!(answer, Err(Error::UnknownService(Table)));
}

#[test]
fn round_robin_counter_wraps_around() {
    let mut balancer = RoundRobin::with_counter(usize::MAX - 1);
    let state = table_state(&["http://n1:2135", "http://n2:2135", "http://n3:2135"]);
    balancer.set_discovery_state(&state).unwrap();
    let all = [uri("http://n1:2135"), uri("http://n2:2135"), uri("http://n3:2135")];
    let before_last = balancer.endpoint(Table).unwrap();
    assert_eq!(before_last, all[(usize::MAX - 1) % 3]);
    let last = balancer.endpoint(Table).unwrap();
    assert_eq!(last, all[usize::MAX % 3]);
    assert_eq!(balancer.endpoint(Table), Ok(uri("http://n1:2135")));
    assert_eq!(balancer.endpoint(Table), Ok(uri("http://n2:2135")));
    assert_eq!(balancer.endpoint(Table), Ok(uri("http://n3:2135")));
}

#[test]
fn endpoint_at_counts_cyclically() {
    let state = DiscoveryState::new()
        .with_service(Table, nodes(&["http://n1:2135", "http://n2:2135", "http://n3:2135"]))
        .with_service(Service::Export, nodes(&[]));
    assert_eq!(endpoint_at(&state, Table, 0), Ok(uri("http://n1:2135")));
    assert_eq!(endpoint_at(&state, Table, 1), Ok(uri("http://n2:2135")));
    assert_eq!(endpoint_at(&state, Table, 2), Ok(uri("http://n3:2135")));
    assert_eq!(endpoint_at(&state, Table, 3), Ok(uri("http://n1:2135")));
    assert_eq!(endpoint_at(&state, Table, 7), Ok(uri("http://n2:2135")));
    assert_eq!(endpoint_at(&state, Table, 65536), Ok(uri("http://n2:2135")));
    assert_eq!(
        endpoint_at(&state, Service::Export, 5),
        Err(Error::EmptyEndpointList(Service::Export))
    );
    assert_eq!(
        endpoint_at(&state, Service::Import, 5),
        Err(Error::UnknownService(Service::Import))
    );
}

#[test]
fn endpoint_at_the_largest_counter() {
    let state = DiscoveryState::new()
        .with_service(Table, nodes(&["http://n1:2135", "http://n2:2135"]));
    assert_eq!(endpoint_at(&state, Table, usize::MAX), Ok(uri("http://n2:2135")));
    assert_eq!(endpoint_at(&state, Table, usize::MAX - 1), Ok(uri("http://n1:2135")));
}

#[test]
fn shared_handles_see_the_same_topology() {
    let mut a = SharedLoadBalancer::new(Box::new(RoundRobin::new()));
    let b = a.clone();
    assert_eq!(b.endpoint(Table), Err(Error::UnknownService(Table)));
    assert_eq!(a.set_discovery_state(&table_state(&["http://n1:2135"])), Ok(()));
    assert_eq!(b.endpoint(Table), Ok(uri("http://n1:2135")));
    assert_eq!(a.endpoint(Table), Ok(uri("http://n1:2135")));
    let mut c = b.clone();
    assert_eq!(c.set_discovery_state(&table_state(&["http://n2:2135"])), Ok(()));
    assert_eq!(a.endpoint(Table), Ok(uri("http://n2:2135")));
    assert_eq!(b.endpoint(Table), Ok(uri("http://n2:2135")));
}

#[test]
fn shared_handles_share_the_counter() {
    let mut a = SharedLoadBalancer::new(Box::new(RoundRobin::new()));
    let b = a.clone();
    a.set_discovery_state(&table_state(&["http://n1:2135", "http://n2:2135"])).unwrap();
    assert_eq!(a.endpoint(Table), Ok(uri("http://n1:2135")));
    assert_eq!(b.endpoint(Table), Ok(uri("http://n2:2135")));
    assert_eq!(a.endpoint(Table), Ok(uri("http://n1:2135")));
}

#[test]
fn shared_static_balancer_rejects_updates() {
    let address = uri("http://fixed.example:2135");
    let mut shared = SharedLoadBalancer::new(Box::new(StaticLoadBalancer::new(address.clone())));
    assert_eq!(
        shared.set_discovery_state(&table_state(&["http://n1:2135"])),
        Err(Error::UnsupportedUpdate)
    );
    assert_eq!(shared.endpoint(Table), Ok(address));
}

#[test]
fn shared_balancer_forwards_updates_to_the_wrapped_one() {
    let mut shared = SharedLoadBalancer::new(Box::new(MockBalancer::new(
        uri("http://test.com"),
        DiscoveryState::default(),
    )));
    assert_eq!(shared.set_discovery_state(&table_state(&["http://n1:2135"])), Ok(()));
    assert_eq!(shared.endpoint(Service::Import), Ok(uri("http://test.com")));
}

#[test]
fn lookup_without_access_fails() {
    let none: Option<&StaticLoadBalancer> = None;
    assert_eq!(endpoint_under(none, Table), Err(Error::AccessFailure));
    let address = uri("http://fixed.example:2135");
    let balancer = StaticLoadBalancer::new(address.clone());
    assert_eq!(endpoint_under(Some(&balancer), Table), Ok(address));
}

#[test]
fn update_without_access_fails() {
    let state = table_state(&["http://n1:2135"]);
    let none: Option<&mut RoundRobin> = None;
    assert_eq!(update_under(none, &state), Err(Error::AccessFailure));
    let mut balancer = RoundRobin::new();
    assert_eq!(update_under(Some(&mut balancer), &state), Ok(()));
    assert_eq!(balancer.endpoint(Table), Ok(uri("http://n1:2135")));
    let mut fixed = StaticLoadBalancer::new(uri("http://fixed.example:2135"));
    assert_eq!(update_under(Some(&mut fixed), &state), Err(Error::UnsupportedUpdate));
}

fn require_shareable<T: Send + Sync + Clone>(_value: &T) {}

#[test]
fn shared_balancer_can_be_handed_to_other_threads() {
    let shared = SharedLoadBalancer::new(Box::new(RoundRobin::new()));
    require_shareable(&shared);
    let fixed = SharedLoadBalancer::new(Box::new(StaticLoadBalancer::new(uri("http://a:1"))));
    require_shareable(&fixed);
}

#[test]
fn lookup_with_a_guard_is_answered_by_the_guarded_balancer() {
    let address = uri("http://fixed.example:2135");
    let lock: RwLock<Box<dyn LoadBalancer>> =
        RwLock::new(Box::new(StaticLoadBalancer::new(address.clone())));
    assert_eq!(endpoint_locked(lock.read(), Service::Import), Ok(address.clone()));
    assert_eq!(endpoint_locked(lock.read(), Table), Ok(address));
    assert!(lock.try_write().is_ok());
}

#[test]
fn update_with_a_guard_reaches_the_guarded_balancer() {
    let lock: RwLock<Box<dyn LoadBalancer>> = RwLock::new(Box::new(RoundRobin::new()));
    assert_eq!(endpoint_locked(lock.read(), Table), Err(Error::UnknownService(Table)));
    let state = table_state(&["http://n1:2135", "http://n2:2135"]);
    assert_eq!(update_locked(lock.write(), &state), Ok(()));
    assert_eq!(endpoint_locked(lock.read(), Table), Ok(uri("http://n2:2135")));
    assert_eq!(endpoint_locked(lock.read(), Table), Ok(uri("http://n1:2135")));
    assert!(lock.try_write().is_ok());
}

#[test]
fn update_with_a_guard_is_refused_by_a_fixed_balancer() {
    let address = uri("http://fixed.example:2135");
    let lock: RwLock<Box<dyn LoadBalancer>> =
        RwLock::new(Box::new(StaticLoadBalancer::new(address.clone())));
    let state = table_state(&["http://n1:2135"]);
    assert_eq!(update_locked(lock.write(), &state), Err(Error::UnsupportedUpdate));
    assert_eq!(endpoint_locked(lock.read(), Table), Ok(address));
}
