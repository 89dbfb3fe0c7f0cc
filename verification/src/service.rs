//! Values that describe services, their endpoints and application nodes.
use std::collections::HashMap;
use vstd::prelude::*;
use crate::error::clone_opt_string;

verus! {

/// What is registered: a service in a zone, with optional details.
#[derive(Debug, PartialEq, Eq)]
pub struct ServiceDesc {
    pub service: String,
    pub zone: String,
    pub typ: Option<String>,
    pub proto: Option<String>,
    pub description: Option<String>,
}

impl Clone for ServiceDesc {
    fn clone(&self) -> (r: Self)
        ensures
            r == *self,
    {
        ServiceDesc {
            service: self.service.clone(),
            zone: self.zone.clone(),
            typ: clone_opt_string(&self.typ),
            proto: clone_opt_string(&self.proto),
            description: clone_opt_string(&self.description),
        }
    }
}

impl ServiceDesc {
    /// Whether this description is registered under `(service, zone)`.
    pub open spec fn has_key(&self, service: Seq<char>, zone: Seq<char>) -> bool {
        self.service@ == service && self.zone@ == zone
    }

    /// Whether two descriptions are registered under the same key.
    pub open spec fn same_key(&self, other: &ServiceDesc) -> bool {
        self.has_key(other.service@, other.zone@)
    }
}

/// A change in the catalog of service descriptions.
#[derive(Debug, PartialEq, Eq)]
pub struct ServiceDescEvent {
    pub event_type: String,
    pub service: ServiceDesc,
}

impl Clone for ServiceDescEvent {
    fn clone(&self) -> (r: Self)
        ensures
            r == *self,
    {
        ServiceDescEvent { event_type: self.event_type.clone(), service: self.service.clone() }
    }
}

impl ServiceDescEvent {
    pub const PUT: &'static str = "put";

    pub const DELETE: &'static str = "delete";
}

/// Where a service can be reached: its socket address in the form
/// `host:port`, and an optional configuration text.
#[derive(Debug, PartialEq, Eq)]
pub struct ServiceEndpoint {
    pub address: String,
    pub config: Option<String>,
}

impl Clone for ServiceEndpoint {
    fn clone(&self) -> (r: Self)
        ensures
            r == *self,
    {
        ServiceEndpoint { address: self.address.clone(), config: clone_opt_string(&self.config) }
    }
}

/// A service in one zone, with the endpoints that serve it.
#[derive(Debug, PartialEq, Eq, Clone)]
pub struct ZoneService {
    pub desc: ServiceDesc,
    pub endpoints: Vec<ServiceEndpoint>,
}

impl ZoneService {
    /// The addresses of the endpoints, in their order.
    pub fn addresses(&self) -> (r: Vec<String>)
        ensures
            r@.len() == self.endpoints@.len(),
            forall|i: int| 0 <= i < r@.len() ==> r@[i] == #[trigger] self.endpoints@[i].address,
    {
        let mut out: Vec<String> = Vec::new();
        let mut i: usize = 0;
        while i < self.endpoints.len()
            invariant
                i <= self.endpoints.len(),
                out@.len() == i,
                forall|j: int| 0 <= j < i ==> out@[j] == #[trigger] self.endpoints@[j].address,
            decreases self.endpoints.len() - i,
        {
            out.push(self.endpoints[i].address.clone());
            i += 1;
        }
        out
    }
}

/// A service with its zones, each under its zone's name.
#[derive(Debug, PartialEq, Eq, Clone)]
pub struct Service {
    pub service: String,
    pub zones: HashMap<String, ZoneService>,
}

/// An instance of an application.
#[derive(Debug, PartialEq, Eq)]
pub struct AppNode {
    pub label: Option<String>,
    pub key: String,
    pub config: String,
}

impl Clone for AppNode {
    fn clone(&self) -> (r: Self)
        ensures
            r == *self,
    {
        AppNode {
            label: clone_opt_string(&self.label),
            key: self.key.clone(),
            config: self.config.clone(),
        }
    }
}

/// The nodes of an application, each key with its configuration, at a revision.
#[derive(Debug, PartialEq, Eq, Clone)]
pub struct AppNodes {
    pub nodes: HashMap<String, String>,
    pub revision: u64,
}

} // verus!
