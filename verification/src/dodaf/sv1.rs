//! SV-1 systems interface description.
use vstd::prelude::*;
use std::collections::HashMap;
use crate::outside::now_rfc3339;
use crate::text::{opt_view, owned, str_eq, strings_view};

verus! {

/// SV-1 systems interface description: systems, their ports and the interfaces between them.
#[derive(Debug, Clone)]
pub struct SystemsInterfaceDescription {
    pub id: String,
    pub name: String,
    pub description: Option<String>,
    pub version: String,
    pub systems: Vec<System>,
    pub interfaces: Vec<SystemInterface>,
    pub ports: Vec<SystemPort>,
    pub system_aggregates: Vec<SystemAggregate>,
    /// Creation time, as RFC 3339 text.
    pub created_at: String,
    pub metadata: HashMap<String, serde_json::Value>,
}

/// A system of the architecture.
#[derive(Debug, Clone)]
pub struct System {
    pub id: String,
    pub name: String,
    pub description: Option<String>,
    pub system_type: SystemType,
    pub functions: Vec<String>,
    pub ports: Vec<String>,
    pub sub_systems: Vec<String>,
    pub located_at: Option<String>,
    pub properties: HashMap<String, serde_json::Value>,
}

/// The kind of a system.
#[derive(Debug, Clone, Copy, PartialEq, Eq, Structural)]
pub enum SystemType {
    Hardware,
    Software,
    Hybrid,
    Manual,
    Organic,
}

/// An interface connecting a port of one system to a port of another.
#[derive(Debug, Clone)]
pub struct SystemInterface {
    pub id: String,
    pub name: Option<String>,
    pub source_system: String,
    pub target_system: String,
    pub source_port: String,
    pub target_port: String,
    pub interface_type: InterfaceType,
    pub description: Option<String>,
}

/// The kind of a system interface.
#[derive(Debug, Clone, Copy, PartialEq, Eq, Structural)]
pub enum InterfaceType {
    Data,
    Control,
    Service,
    Physical,
    Power,
}

/// A port on a system.
#[derive(Debug, Clone)]
pub struct SystemPort {
    pub id: String,
    pub name: String,
    pub port_type: PortType,
    pub belongs_to_system: String,
    pub protocol: Option<String>,
    pub direction: PortDirection,
    /// How many connections the port allows.
    pub cardinality: Option<String>,
    pub properties: HashMap<String, serde_json::Value>,
}

/// The kind of a port.
#[derive(Debug, Clone, Copy, PartialEq, Eq, Structural)]
pub enum PortType {
    Input,
    Output,
    Bidirectional,
    Control,
    Data,
    Power,
}

/// The direction of data through a port.
#[derive(Debug, Clone, Copy, PartialEq, Eq, Structural)]
pub enum PortDirection {
    In,
    Out,
    InOut,
}

/// A group of systems treated as one.
#[derive(Debug, Clone)]
pub struct SystemAggregate {
    pub id: String,
    pub name: String,
    pub member_systems: Vec<String>,
    pub aggregate_type: String,
}

impl SystemsInterfaceDescription {
    /// An empty version 1.0 description created now.
    pub fn new(id: &str, name: &str) -> (r: Self)
        ensures
            r.id@ == id@,
            r.name@ == name@,
            r.description is None,
            r.version@ == "1.0"@,
            r.systems@.len() == 0,
            r.interfaces@.len() == 0,
            r.ports@.len() == 0,
            r.system_aggregates@.len() == 0,
            r.metadata@.len() == 0,
    {
        SystemsInterfaceDescription {
            id: owned(id),
            name: owned(name),
            description: None,
            version: owned("1.0"),
            systems: Vec::new(),
            interfaces: Vec::new(),
            ports: Vec::new(),
            system_aggregates: Vec::new(),
            created_at: now_rfc3339(),
            metadata: HashMap::new(),
        }
    }

    /// Set the description.
    pub fn with_description(self, desc: &str) -> (r: Self)
        ensures
            opt_view(r.description) == Some(desc@),
            r == (SystemsInterfaceDescription { description: r.description, ..self }),
    {
        let mut s = self;
        s.description = Some(owned(desc));
        s
    }

    /// Add a system.
    pub fn add_system(self, system: System) -> (r: Self)
        ensures
            r.systems@ == self.systems@.push(system),
            r == (SystemsInterfaceDescription { systems: r.systems, ..self }),
    {
        let mut s = self;
        s.systems.push(system);
        s
    }

    /// Add an interface.
    pub fn add_interface(self, interface: SystemInterface) -> (r: Self)
        ensures
            r.interfaces@ == self.interfaces@.push(interface),
            r == (SystemsInterfaceDescription { interfaces: r.interfaces, ..self }),
    {
        let mut s = self;
        s.interfaces.push(interface);
        s
    }

    /// Add a port.
    pub fn add_port(self, port: SystemPort) -> (r: Self)
        ensures
            r.ports@ == self.ports@.push(port),
            r == (SystemsInterfaceDescription { ports: r.ports, ..self }),
    {
        let mut s = self;
        s.ports.push(port);
        s
    }

    /// Add a system aggregate.
    pub fn add_aggregate(self, aggregate: SystemAggregate) -> (r: Self)
        ensures
            r.system_aggregates@ == self.system_aggregates@.push(aggregate),
            r == (SystemsInterfaceDescription { system_aggregates: r.system_aggregates, ..self }),
    {
        let mut s = self;
        s.system_aggregates.push(aggregate);
        s
    }

    /// The ports of system `system_id`, in order.
    pub fn get_system_ports(&self, system_id: &str) -> (r: Vec<&SystemPort>)
        ensures
            r@.map_values(|c: &SystemPort| *c) == ports_of(self.ports@, system_id@),
    {
        let mut r: Vec<&SystemPort> = Vec::new();
        let mut i: usize = 0;
        while i < self.ports.len()
            invariant
                i <= self.ports.len(),
                r@.map_values(|c: &SystemPort| *c) == ports_of(self.ports@.take(i as int), system_id@),
            decreases self.ports.len() - i,
        {
            assert(self.ports@.take(i + 1).drop_last() =~= self.ports@.take(i as int));
            if str_eq(self.ports[i].belongs_to_system.as_str(), system_id) {
                r.push(&self.ports[i]);
            }
            assert(r@.map_values(|c: &SystemPort| *c) =~= ports_of(self.ports@.take(i + 1), system_id@));
            i = i + 1;
        }
        assert(self.ports@.take(self.ports.len() as int) =~= self.ports@);
        r
    }

    /// The interfaces with system `system_id` at either end, in order.
    pub fn get_system_interfaces(&self, system_id: &str) -> (r: Vec<&SystemInterface>)
        ensures
            r@.map_values(|c: &SystemInterface| *c) == interfaces_of(self.interfaces@, system_id@),
    {
        let mut r: Vec<&SystemInterface> = Vec::new();
        let mut i: usize = 0;
        while i < self.interfaces.len()
            invariant
                i <= self.interfaces.len(),
                r@.map_values(|c: &SystemInterface| *c) == interfaces_of(self.interfaces@.take(i as int), system_id@),
            decreases self.interfaces.len() - i,
        {
            assert(self.interfaces@.take(i + 1).drop_last() =~= self.interfaces@.take(i as int));
            if (str_eq(self.interfaces[i].source_system.as_str(), system_id) || str_eq(self.interfaces[i].target_system.as_str(), system_id)) {
                r.push(&self.interfaces[i]);
            }
            assert(r@.map_values(|c: &SystemInterface| *c) =~= interfaces_of(self.interfaces@.take(i + 1), system_id@));
            i = i + 1;
        }
        assert(self.interfaces@.take(self.interfaces.len() as int) =~= self.interfaces@);
        r
    }
}

impl System {
    /// A system with no functions, ports, subsystems or location.
    pub fn new(id: &str, name: &str, system_type: SystemType) -> (r: Self)
        ensures
            r.id@ == id@,
            r.name@ == name@,
            r.description is None,
            r.system_type == system_type,
            r.functions@.len() == 0,
            r.ports@.len() == 0,
            r.sub_systems@.len() == 0,
            r.located_at is None,
            r.properties@.len() == 0,
    {
        System {
            id: owned(id),
            name: owned(name),
            description: None,
            system_type: system_type,
            functions: Vec::new(),
            ports: Vec::new(),
            sub_systems: Vec::new(),
            located_at: None,
            properties: HashMap::new(),
        }
    }

    /// Set the description.
    pub fn with_description(self, desc: &str) -> (r: Self)
        ensures
            opt_view(r.description) == Some(desc@),
            r == (System { description: r.description, ..self }),
    {
        let mut s = self;
        s.description = Some(owned(desc));
        s
    }

    /// Add a function.
    pub fn add_function(self, function_id: &str) -> (r: Self)
        ensures
            strings_view(r.functions@) == strings_view(self.functions@).push(function_id@),
            r == (System { functions: r.functions, ..self }),
    {
        let mut s = self;
        s.functions.push(owned(function_id));
        proof {
            assert(strings_view(s.functions@) =~= strings_view(self.functions@).push(function_id@));
        }
        s
    }

    /// Add a port.
    pub fn add_port(self, port_id: &str) -> (r: Self)
        ensures
            strings_view(r.ports@) == strings_view(self.ports@).push(port_id@),
            r == (System { ports: r.ports, ..self }),
    {
        let mut s = self;
        s.ports.push(owned(port_id));
        proof {
            assert(strings_view(s.ports@) =~= strings_view(self.ports@).push(port_id@));
        }
        s
    }

    /// Add a subsystem.
    pub fn add_subsystem(self, subsystem_id: &str) -> (r: Self)
        ensures
            strings_view(r.sub_systems@) == strings_view(self.sub_systems@).push(subsystem_id@),
            r == (System { sub_systems: r.sub_systems, ..self }),
    {
        let mut s = self;
        s.sub_systems.push(owned(subsystem_id));
        proof {
            assert(strings_view(s.sub_systems@) =~= strings_view(self.sub_systems@).push(subsystem_id@));
        }
        s
    }

    /// Set where the system is.
    pub fn with_location(self, location: &str) -> (r: Self)
        ensures
            opt_view(r.located_at) == Some(location@),
            r == (System { located_at: r.located_at, ..self }),
    {
        let mut s = self;
        s.located_at = Some(owned(location));
        s
    }
}

impl SystemPort {
    /// A port of system `system_id` with no protocol or cardinality.
    pub fn new(id: &str, name: &str, port_type: PortType, system_id: &str, direction: PortDirection) -> (r: Self)
        ensures
            r.id@ == id@,
            r.name@ == name@,
            r.port_type == port_type,
            r.belongs_to_system@ == system_id@,
            r.protocol is None,
            r.direction == direction,
            r.cardinality is None,
            r.properties@.len() == 0,
    {
        SystemPort {
            id: owned(id),
            name: owned(name),
            port_type: port_type,
            belongs_to_system: owned(system_id),
            protocol: None,
            direction: direction,
            cardinality: None,
            properties: HashMap::new(),
        }
    }

    /// Set the protocol.
    pub fn with_protocol(self, protocol: &str) -> (r: Self)
        ensures
            opt_view(r.protocol) == Some(protocol@),
            r == (SystemPort { protocol: r.protocol, ..self }),
    {
        let mut s = self;
        s.protocol = Some(owned(protocol));
        s
    }

    /// Set the cardinality.
    pub fn with_cardinality(self, cardinality: &str) -> (r: Self)
        ensures
            opt_view(r.cardinality) == Some(cardinality@),
            r == (SystemPort { cardinality: r.cardinality, ..self }),
    {
        let mut s = self;
        s.cardinality = Some(owned(cardinality));
        s
    }
}

impl SystemInterface {
    /// A data interface between the two ports, with no name or description.
    pub fn new(id: &str, source_system: &str, target_system: &str, source_port: &str, target_port: &str) -> (r: Self)
        ensures
            r.id@ == id@,
            r.name is None,
            r.source_system@ == source_system@,
            r.target_system@ == target_system@,
            r.source_port@ == source_port@,
            r.target_port@ == target_port@,
            r.interface_type == InterfaceType::Data,
            r.description is None,
    {
        SystemInterface {
            id: owned(id),
            name: None,
            source_system: owned(source_system),
            target_system: owned(target_system),
            source_port: owned(source_port),
            target_port: owned(target_port),
            interface_type: InterfaceType::Data,
            description: None,
        }
    }

    /// Set the name.
    pub fn with_name(self, name: &str) -> (r: Self)
        ensures
            opt_view(r.name) == Some(name@),
            r == (SystemInterface { name: r.name, ..self }),
    {
        let mut s = self;
        s.name = Some(owned(name));
        s
    }

    /// Set the interface type.
    pub fn with_type(self, iface_type: InterfaceType) -> (r: Self)
        ensures
            r == (SystemInterface { interface_type: iface_type, ..self }),
    {
        let mut s = self;
        s.interface_type = iface_type;
        s
    }

    /// Set the description.
    pub fn with_description(self, desc: &str) -> (r: Self)
        ensures
            opt_view(r.description) == Some(desc@),
            r == (SystemInterface { description: r.description, ..self }),
    {
        let mut s = self;
        s.description = Some(owned(desc));
        s
    }
}

/// The ports of `cs` that belong to system `system_id`, in order.
pub open spec fn ports_of(cs: Seq<SystemPort>, system_id: Seq<char>) -> Seq<SystemPort>
    decreases cs.len(),
{
    if cs.len() == 0 {
        Seq::empty()
    } else {
        ports_of(cs.drop_last(), system_id) + if cs.last().belongs_to_system@ == system_id {
            seq![cs.last()]
        } else {
            Seq::empty()
        }
    }
}

/// The interfaces of `cs` with `system_id` as source or target, in order.
pub open spec fn interfaces_of(cs: Seq<SystemInterface>, system_id: Seq<char>) -> Seq<SystemInterface>
    decreases cs.len(),
{
    if cs.len() == 0 {
        Seq::empty()
    } else {
        interfaces_of(cs.drop_last(), system_id) + if (cs.last().source_system@ == system_id || cs.last().target_system@ == system_id) {
            seq![cs.last()]
        } else {
            Seq::empty()
        }
    }
}

} // verus!
