//! The services viewpoint: services, their operations and interactions.
use vstd::prelude::*;
use std::collections::HashMap;
use crate::text::{opt_view, owned, strings_view};

verus! {

/// A service of a service-oriented architecture.
#[derive(Debug, Clone)]
pub struct Service {
    pub id: String,
    pub name: String,
    pub description: Option<String>,
    pub service_type: ServiceType,
    pub provides_capabilities: Vec<String>,
    pub endpoint: Option<String>,
    pub metadata: HashMap<String, serde_json::Value>,
}

/// The kind of a service.
#[derive(Debug, Clone, PartialEq, Eq)]
pub enum ServiceType {
    AiInference,
    DataProcessing,
    Storage,
    Messaging,
    Orchestration,
    Security,
    Custom(String),
}

/// An operation that a service offers.
#[derive(Debug, Clone)]
pub struct ServiceOperation {
    pub name: String,
    pub description: Option<String>,
    pub inputs: Vec<Parameter>,
    pub outputs: Vec<Parameter>,
    pub constraints: HashMap<String, serde_json::Value>,
}

/// A parameter of a service operation.
#[derive(Debug, Clone)]
pub struct Parameter {
    pub name: String,
    pub param_type: String,
    pub required: bool,
    pub default: Option<serde_json::Value>,
}

/// An interaction between two services.
#[derive(Debug, Clone)]
pub struct ServiceInteraction {
    pub id: String,
    pub source_service: String,
    pub target_service: String,
    pub interaction_type: InteractionType,
    pub message: Option<String>,
}

/// How two services interact.
#[derive(Debug, Clone, Copy, PartialEq, Eq, Structural)]
pub enum InteractionType {
    RequestResponse,
    AsyncMessage,
    Event,
    Stream,
}

impl Service {
    /// A service with no description, capabilities or endpoint.
    pub fn new(id: &str, name: &str, service_type: ServiceType) -> (r: Self)
        ensures
            r.id@ == id@,
            r.name@ == name@,
            r.description is None,
            r.service_type == service_type,
            r.provides_capabilities@.len() == 0,
            r.endpoint is None,
            r.metadata@.len() == 0,
    {
        Service {
            id: owned(id),
            name: owned(name),
            description: None,
            service_type: service_type,
            provides_capabilities: Vec::new(),
            endpoint: None,
            metadata: HashMap::new(),
        }
    }

    /// Set the description.
    pub fn with_description(self, desc: &str) -> (r: Self)
        ensures
            opt_view(r.description) == Some(desc@),
            r == (Service { description: r.description, ..self }),
    {
        let mut s = self;
        s.description = Some(owned(desc));
        s
    }

    /// Set the endpoint.
    pub fn with_endpoint(self, endpoint: &str) -> (r: Self)
        ensures
            opt_view(r.endpoint) == Some(endpoint@),
            r == (Service { endpoint: r.endpoint, ..self }),
    {
        let mut s = self;
        s.endpoint = Some(owned(endpoint));
        s
    }

    /// Add a capability the service provides.
    pub fn provides(self, capability_id: &str) -> (r: Self)
        ensures
            strings_view(r.provides_capabilities@) == strings_view(self.provides_capabilities@).push(capability_id@),
            r == (Service { provides_capabilities: r.provides_capabilities, ..self }),
    {
        let mut s = self;
        s.provides_capabilities.push(owned(capability_id));
        proof {
            assert(strings_view(s.provides_capabilities@) =~= strings_view(self.provides_capabilities@).push(capability_id@));
        }
        s
    }
}

} // verus!
