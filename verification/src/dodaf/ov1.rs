//! OV-1 operational concept: the organizations, external systems and interfaces it names.
use vstd::prelude::*;

verus! {

/// The kind of an operational organization.
#[derive(Debug, Clone, PartialEq, Eq)]
pub enum OrganizationType {
    Command,
    Support,
    Intelligence,
    Operations,
    Logistics,
    Custom(String),
}

/// A system outside the architecture that it interacts with.
#[derive(Debug, Clone)]
pub struct ExternalSystem {
    pub id: String,
    pub name: String,
    pub system_type: String,
    pub description: Option<String>,
    /// The organizations it interfaces with.
    pub interfaces_with: Vec<String>,
}

/// An interface between two organizations.
#[derive(Debug, Clone)]
pub struct OperationalInterface {
    pub id: String,
    pub name: String,
    pub from_org: String,
    pub to_org: String,
    pub interface_type: InterfaceType,
    pub data_flow: Option<String>,
}

/// The kind of an operational interface.
#[derive(Debug, Clone, Copy, PartialEq, Eq, Structural)]
pub enum InterfaceType {
    Information,
    Physical,
    Functional,
    Service,
}

} // verus!
