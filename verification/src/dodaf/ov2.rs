//! OV-2 operational resource flows: needlines and performer connections between nodes.
use vstd::prelude::*;
use crate::text::{opt_view, owned, strings_view};
use super::ov5::Frequency;

verus! {

/// The kind of an operational node.
#[derive(Debug, Clone, PartialEq, Eq)]
pub enum OperationalNodeType {
    Organization,
    System,
    Facility,
    Platform,
    Custom(String),
}

/// A needline: a requirement to exchange information between two nodes.
#[derive(Debug, Clone)]
pub struct Needline {
    pub id: String,
    pub name: String,
    pub source_node: String,
    pub target_node: String,
    pub information_elements: Vec<String>,
    pub criticality: Criticality,
    pub frequency: Option<Frequency>,
    pub timeliness: Option<String>,
}

/// A performer moving or linking between two nodes.
#[derive(Debug, Clone)]
pub struct PerformerConnection {
    pub id: String,
    pub performer: String,
    pub from_node: String,
    pub to_node: String,
    pub connection_type: PerformerConnectionType,
}

/// The kind of a performer connection.
#[derive(Debug, Clone, Copy, PartialEq, Eq, Structural)]
pub enum PerformerConnectionType {
    Assignment,
    Reassignment,
    Coordination,
    Reporting,
}

/// How critical a needline is.
#[derive(Debug, Clone, Copy, PartialEq, Eq, Structural)]
pub enum Criticality {
    /// Mission critical.
    Critical,
    /// Essential to operations.
    Essential,
    /// Important but not essential.
    Important,
    /// Desirable.
    Desirable,
}

impl Needline {
    /// A needline from `source` to `target` carrying nothing yet.
    pub fn new(id: &str, name: &str, source: &str, target: &str, criticality: Criticality) -> (r: Self)
        ensures
            r.id@ == id@,
            r.name@ == name@,
            r.source_node@ == source@,
            r.target_node@ == target@,
            r.information_elements@.len() == 0,
            r.criticality == criticality,
            r.frequency is None,
            r.timeliness is None,
    {
        Needline {
            id: owned(id),
            name: owned(name),
            source_node: owned(source),
            target_node: owned(target),
            information_elements: Vec::new(),
            criticality: criticality,
            frequency: None,
            timeliness: None,
        }
    }

    /// Add an information element.
    pub fn add_information_element(self, element: &str) -> (r: Self)
        ensures
            strings_view(r.information_elements@) == strings_view(self.information_elements@).push(element@),
            r == (Needline { information_elements: r.information_elements, ..self }),
    {
        let mut s = self;
        s.information_elements.push(owned(element));
        proof {
            assert(strings_view(s.information_elements@) =~= strings_view(self.information_elements@).push(element@));
        }
        s
    }

    /// Set the frequency.
    pub fn with_frequency(self, freq: Frequency) -> (r: Self)
        ensures
            r == (Needline { frequency: Some(freq), ..self }),
    {
        let mut s = self;
        s.frequency = Some(freq);
        s
    }

    /// Set the timeliness requirement.
    pub fn with_timeliness(self, timeliness: &str) -> (r: Self)
        ensures
            opt_view(r.timeliness) == Some(timeliness@),
            r == (Needline { timeliness: r.timeliness, ..self }),
    {
        let mut s = self;
        s.timeliness = Some(owned(timeliness));
        s
    }
}

} // verus!
