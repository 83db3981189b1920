//! Performer taxonomy (OV-4), and the mapping of BPMN lanes to performers.
use vstd::prelude::*;
use std::collections::HashMap;
use crate::text::{contains_seq, contains_str, owned};

verus! {

/// An entity that performs activities.
#[derive(Debug, Clone, PartialEq)]
pub struct Performer {
    pub id: String,
    pub name: String,
    pub description: Option<String>,
    pub performer_type: PerformerType,
    pub metadata: HashMap<String, String>,
}

/// The kinds of performer, with what each kind records.
#[derive(Debug, Clone, PartialEq)]
pub enum PerformerType {
    /// An individual person.
    Person { role: String, organization: String, skills: Vec<String>, clearance_level: Option<String> },
    /// An organizational unit.
    Organization { name: String, org_type: OrganizationType, parent_org: Option<String>, location: Option<String> },
    /// A software service.
    Service {
        name: String,
        service_type: ServiceType,
        interface: String,
        endpoint: Option<String>,
        version: Option<String>,
    },
    /// A service interface: an API or protocol.
    ServiceInterface { protocol: String, specification: String, operations: Vec<String> },
    /// A physical or logical system.
    System { name: String, system_type: SystemType, version: String, vendor: Option<String> },
    /// Hardware or equipment.
    Equipment { name: String, equipment_type: String, model: Option<String>, serial_number: Option<String> },
}

/// Kinds of organization.
#[derive(Debug, Clone, Copy, PartialEq, Eq, Structural)]
pub enum OrganizationType {
    Command,
    Agency,
    Department,
    Division,
    Branch,
    Team,
    Unit,
    Contractor,
    Partner,
}

/// Kinds of service.
#[derive(Debug, Clone, PartialEq, Eq)]
pub enum ServiceType {
    WebService,
    RestApi,
    GraphQLApi,
    MessageQueue,
    Database,
    FileSystem,
    AIAgent,
    LLM,
    Custom(String),
}

/// Kinds of system.
#[derive(Debug, Clone, Copy, PartialEq, Eq, Structural)]
pub enum SystemType {
    ComputerSystem,
    NetworkSystem,
    StorageSystem,
    SecuritySystem,
    CommunicationSystem,
    ApplicationSystem,
    DatabaseSystem,
}

/// The part a performer plays in an activity.
#[derive(Debug, Clone, Copy, PartialEq, Eq, Structural)]
pub enum AssignmentType {
    Primary,
    Secondary,
    Backup,
    Reviewer,
    Approver,
}

/// The performer type that a lane's name suggests: a name that mentions
/// `API` or `Agent` is an AI agent service (so an "API Gateway Service" is
/// one), then `System` or `Service` a system, then `Team` or `Department` a
/// team; anything else is a person.
pub open spec fn lane_type_ok(lane_name: Seq<char>, t: PerformerType) -> bool {
    if contains_seq(lane_name, "API"@) || contains_seq(lane_name, "Agent"@) {
        t matches PerformerType::Service { name, service_type, interface, endpoint, version } && name@ == lane_name
            && service_type is AIAgent && interface@ == "REST"@ && endpoint is None && version is None
    } else if contains_seq(lane_name, "System"@) || contains_seq(lane_name, "Service"@) {
        t matches PerformerType::System { name, system_type, version, vendor } && name@ == lane_name
            && system_type == SystemType::ApplicationSystem && version@ == "1.0"@ && vendor is None
    } else if contains_seq(lane_name, "Team"@) || contains_seq(lane_name, "Department"@) {
        t matches PerformerType::Organization { name, org_type, parent_org, location } && name@ == lane_name
            && org_type == OrganizationType::Team && parent_org is None && location is None
    } else {
        t matches PerformerType::Person { role, organization, skills, clearance_level } && role@ == lane_name
            && organization@ == "Unknown"@ && skills@.len() == 0 && clearance_level is None
    }
}

/// Maps BPMN lanes and participants to performers.
pub struct PerformerMapper;

impl PerformerMapper {
    /// The performer for a BPMN lane, its kind guessed from the lane's name.
    pub fn from_bpmn_lane(lane_id: &str, lane_name: &str) -> (p: Performer)
        ensures
            p.id@ == lane_id@,
            p.name@ == lane_name@,
            p.description is None,
            p.metadata@.len() == 0,
            lane_type_ok(lane_name@, p.performer_type),
    {
        let performer_type = if contains_str(lane_name, "API") || contains_str(lane_name, "Agent") {
            PerformerType::Service {
                name: owned(lane_name),
                service_type: ServiceType::AIAgent,
                interface: owned("REST"),
                endpoint: None,
                version: None,
            }
        } else if contains_str(lane_name, "System") || contains_str(lane_name, "Service") {
            PerformerType::System {
                name: owned(lane_name),
                system_type: SystemType::ApplicationSystem,
                version: owned("1.0"),
                vendor: None,
            }
        } else if contains_str(lane_name, "Team") || contains_str(lane_name, "Department") {
            PerformerType::Organization {
                name: owned(lane_name),
                org_type: OrganizationType::Team,
                parent_org: None,
                location: None,
            }
        } else {
            PerformerType::Person {
                role: owned(lane_name),
                organization: owned("Unknown"),
                skills: Vec::new(),
                clearance_level: None,
            }
        };
        Performer {
            id: owned(lane_id),
            name: owned(lane_name),
            description: None,
            performer_type,
            metadata: HashMap::new(),
        }
    }
}

} // verus!
