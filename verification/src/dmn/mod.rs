//! Decision modelling (DMN 1.3): decision graphs and requirement diagrams,
//! decision table rules and hit policies, FEEL operators, document checks
//! and errors.
pub mod decision_graph;
pub mod decision_table;
pub mod errors;
pub mod feel;
pub mod xml;

use vstd::prelude::*;

verus! {

/// A decision service: decisions offered together, with what they need.
#[derive(Debug, Clone)]
pub struct DecisionService {
    pub id: String,
    pub name: String,
    pub output_decisions: Vec<String>,
    pub encapsulated_decisions: Vec<String>,
    pub input_decisions: Vec<String>,
    pub input_data: Vec<String>,
}

/// Versions of the DMN standard.
#[derive(Debug, Clone, Copy, PartialEq, Eq, Structural)]
pub enum DmnVersion {
    V1_1,
    V1_2,
    V1_3,
}

impl Default for DmnVersion {
    fn default() -> (r: Self)
        ensures
            r == DmnVersion::V1_3,
    {
        DmnVersion::V1_3
    }
}

} // verus!
