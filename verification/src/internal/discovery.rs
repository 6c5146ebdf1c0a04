//! The node directory: which addresses serve which service.

use http::Uri;
use std::collections::HashMap;
use vstd::prelude::*;

verus! {

/// `http::Uri`, a validated address, opaque. Nothing in this crate looks
/// inside one: addresses are stored, told apart in contracts as whole values,
/// and handed out.
#[verifier::external_type_specification]
#[verifier::external_body]
pub struct ExUri(Uri);

/// `<http::Uri as Clone>::clone`. The impl is derived and clones the scheme,
/// the authority and the path with its query; the contract claims that the
/// copy is the same address as the one it was made from.
pub assume_specification[ <Uri as Clone>::clone ](uri: &Uri) -> (copy: Uri)
    ensures
        copy == *uri,
;

/// The services a cluster node may offer.
#[derive(Clone, Copy, Debug, PartialEq, Eq, Hash, Structural)]
pub enum Service {
    Discovery,
    Export,
    Import,
    Scripting,
    Table,
}

impl Service {
    /// The key under which a service's nodes are filed; distinct services
    /// have distinct keys.
    spec fn code(self) -> u8 {
        match self {
            Service::Discovery => 0,
            Service::Export => 1,
            Service::Import => 2,
            Service::Scripting => 3,
            Service::Table => 4,
        }
    }

    /// The identifier of the service as text.
    pub open spec fn name_text(self) -> Seq<char> {
        match self {
            Service::Discovery => "discovery"@,
            Service::Export => "export"@,
            Service::Import => "import"@,
            Service::Scripting => "scripting"@,
            Service::Table => "table_service"@,
        }
    }

    fn key(self) -> (key: u8)
        ensures
            key == self.code(),
    {
        match self {
            Service::Discovery => 0,
            Service::Export => 1,
            Service::Import => 2,
            Service::Scripting => 3,
            Service::Table => 4,
        }
    }

    /// The identifier under which the cluster announces the service.
    pub fn name(&self) -> (name: &'static str)
        ensures
            name@ == self.name_text(),
    {
        match self {
            Service::Discovery => "discovery",
            Service::Export => "export",
            Service::Import => "import",
            Service::Scripting => "scripting",
            Service::Table => "table_service",
        }
    }
}

/// One node of the cluster, known by its address.
pub struct NodeInfo {
    pub uri: Uri,
}

impl NodeInfo {
    /// The node at `uri`.
    pub fn new(uri: Uri) -> (node: Self)
        ensures
            node.uri == uri,
    {
        NodeInfo { uri }
    }
}

/// A snapshot of the topology: for each registered service, its nodes in the
/// order in which they are to be tried. A snapshot is built once and then only
/// read; a change of topology is a new snapshot.
pub struct DiscoveryState {
    services: HashMap<u8, Vec<NodeInfo>>,
}

impl View for DiscoveryState {
    type V = Map<Service, Seq<NodeInfo>>;

    /// The registered services, each with its nodes in order.
    closed spec fn view(&self) -> Map<Service, Seq<NodeInfo>> {
        Map::new(
            |service: Service| self.services@.contains_key(service.code()),
            |service: Service| self.services@[service.code()]@,
        )
    }
}

impl DiscoveryState {
    /// The snapshot in which no service is registered.
    pub fn new() -> (state: Self)
        ensures
            state@ == Map::<Service, Seq<NodeInfo>>::empty(),
    {
        let state = DiscoveryState { services: HashMap::new() };
        assert(state@ =~= Map::<Service, Seq<NodeInfo>>::empty());
        state
    }

    /// Registers `service` with exactly `nodes`, in this order. An earlier
    /// list for the same service is replaced; other services keep theirs.
    pub fn with_service(self, service: Service, nodes: Vec<NodeInfo>) -> (state: Self)
        ensures
            state@ == self@.insert(service, nodes@),
    {
        let mut services = self.services;
        services.insert(service.key(), nodes);
        let state = DiscoveryState { services };
        assert(state@ =~= self@.insert(service, nodes@));
        state
    }

    /// The nodes of `service`, if it is registered.
    pub fn nodes(&self, service: Service) -> (found: Option<&Vec<NodeInfo>>)
        ensures
            match found {
                Some(nodes) => self@.contains_key(service) && nodes@ == self@[service],
                None => !self@.contains_key(service),
            },
    {
        self.services.get(&service.key())
    }
}

impl Default for DiscoveryState {
    fn default() -> (state: Self)
        ensures
            state@ == Map::<Service, Seq<NodeInfo>>::empty(),
    {
        DiscoveryState::new()
    }
}

} // verus!
