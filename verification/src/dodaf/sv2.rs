//! SV-2 systems resource flows: communication systems and networks.
use vstd::prelude::*;
use crate::text::{opt_view, owned, strings_view};

verus! {

/// A communication system: a radio, router, satellite terminal and the like.
#[derive(Debug, Clone)]
pub struct CommunicationSystem {
    pub id: String,
    pub name: String,
    pub description: Option<String>,
    pub system_type: CommunicationType,
    pub media_type: MediaType,
    pub protocol: String,
}

/// What a communication system carries.
#[derive(Debug, Clone, Copy, PartialEq, Eq, Structural)]
pub enum CommunicationType {
    Voice,
    Data,
    Video,
    Messaging,
    ServiceInterface,
}

/// The medium a communication system uses.
#[derive(Debug, Clone, PartialEq, Eq)]
pub enum MediaType {
    Radio,
    Wire,
    Fiber,
    Satellite,
    Wireless,
    Custom(String),
}

/// A network of linked systems.
#[derive(Debug, Clone)]
pub struct CommunicationNetwork {
    pub id: String,
    pub name: String,
    pub description: Option<String>,
    pub network_type: NetworkType,
    pub member_systems: Vec<String>,
    pub communication_links: Vec<String>,
}

/// The kind of a network.
#[derive(Debug, Clone, PartialEq, Eq)]
pub enum NetworkType {
    LAN,
    WAN,
    Internet,
    Intranet,
    Extranet,
    P2P,
    Custom(String),
}

impl CommunicationSystem {
    /// A communication system with no description.
    pub fn new(id: &str, name: &str, comm_type: CommunicationType, media: MediaType, protocol: &str) -> (r: Self)
        ensures
            r.id@ == id@,
            r.name@ == name@,
            r.description is None,
            r.system_type == comm_type,
            r.media_type == media,
            r.protocol@ == protocol@,
    {
        CommunicationSystem {
            id: owned(id),
            name: owned(name),
            description: None,
            system_type: comm_type,
            media_type: media,
            protocol: owned(protocol),
        }
    }

    /// Set the description.
    pub fn with_description(self, desc: &str) -> (r: Self)
        ensures
            opt_view(r.description) == Some(desc@),
            r == (CommunicationSystem { description: r.description, ..self }),
    {
        let mut s = self;
        s.description = Some(owned(desc));
        s
    }
}

impl CommunicationNetwork {
    /// A network with no members or links.
    pub fn new(id: &str, name: &str, network_type: NetworkType) -> (r: Self)
        ensures
            r.id@ == id@,
            r.name@ == name@,
            r.description is None,
            r.network_type == network_type,
            r.member_systems@.len() == 0,
            r.communication_links@.len() == 0,
    {
        CommunicationNetwork {
            id: owned(id),
            name: owned(name),
            description: None,
            network_type: network_type,
            member_systems: Vec::new(),
            communication_links: Vec::new(),
        }
    }

    /// Set the description.
    pub fn with_description(self, desc: &str) -> (r: Self)
        ensures
            opt_view(r.description) == Some(desc@),
            r == (CommunicationNetwork { description: r.description, ..self }),
    {
        let mut s = self;
        s.description = Some(owned(desc));
        s
    }

    /// Add a member system.
    pub fn add_member_system(self, system_id: &str) -> (r: Self)
        ensures
            strings_view(r.member_systems@) == strings_view(self.member_systems@).push(system_id@),
            r == (CommunicationNetwork { member_systems: r.member_systems, ..self }),
    {
        let mut s = self;
        s.member_systems.push(owned(system_id));
        proof {
            assert(strings_view(s.member_systems@) =~= strings_view(self.member_systems@).push(system_id@));
        }
        s
    }

    /// Add a communication link.
    pub fn add_link(self, link_id: &str) -> (r: Self)
        ensures
            strings_view(r.communication_links@) == strings_view(self.communication_links@).push(link_id@),
            r == (CommunicationNetwork { communication_links: r.communication_links, ..self }),
    {
        let mut s = self;
        s.communication_links.push(owned(link_id));
        proof {
            assert(strings_view(s.communication_links@) =~= strings_view(self.communication_links@).push(link_id@));
        }
        s
    }
}

} // verus!
