//! OV-6 operational rules, states and events.
use vstd::prelude::*;
use std::collections::HashMap;
use crate::outside::now_rfc3339;
use crate::text::{opt_view, owned, strings_view};

verus! {

/// OV-6a operational rules model.
#[derive(Debug, Clone)]
pub struct OperationalRulesModel {
    pub id: String,
    pub name: String,
    pub description: Option<String>,
    pub version: String,
    pub rules: Vec<OperationalRule>,
    pub rule_sets: Vec<RuleSet>,
    pub constraints: Vec<Constraint>,
    /// Creation time, as RFC 3339 text.
    pub created_at: String,
    pub metadata: HashMap<String, serde_json::Value>,
}

/// An operational rule: when its condition holds, its action is taken.
#[derive(Debug, Clone)]
pub struct OperationalRule {
    pub id: String,
    pub name: String,
    pub description: String,
    pub rule_type: RuleType,
    pub applicability: RuleApplicability,
    pub condition: String,
    pub action: String,
    pub alternative_action: Option<String>,
    pub applies_to_activities: Vec<String>,
    pub applies_to_performers: Vec<String>,
    pub priority: i32,
    pub enabled: bool,
    pub enforcement_method: Option<String>,
}

/// The kind of an operational rule.
#[derive(Debug, Clone, Copy, PartialEq, Eq, Structural)]
pub enum RuleType {
    Policy,
    Regulation,
    Constraint,
    Guideline,
    Procedure,
    BusinessLogic,
}

/// When a rule applies.
#[derive(Debug, Clone, Copy, PartialEq, Eq, Structural)]
pub enum RuleApplicability {
    Always,
    Conditional,
    PerScenario,
    PerMissionPhase,
    PerEnvironment,
}

/// A named set of rules and how they are combined.
#[derive(Debug, Clone)]
pub struct RuleSet {
    pub id: String,
    pub name: String,
    pub description: Option<String>,
    pub rules: Vec<String>,
    pub evaluation_logic: EvaluationLogic,
}

/// How the rules of a set are combined.
#[derive(Debug, Clone, Copy, PartialEq, Eq, Structural)]
pub enum EvaluationLogic {
    /// Every rule must hold.
    All,
    /// At least one rule must hold.
    Any,
    /// The first rule that applies decides.
    Ordered,
    /// The rules are weighed against each other.
    Weighted,
}

/// A constraint on operations.
#[derive(Debug, Clone)]
pub struct Constraint {
    pub id: String,
    pub name: String,
    pub constraint_type: ConstraintType,
    pub expression: String,
    pub applies_to: Vec<String>,
}

/// The kind of a constraint.
#[derive(Debug, Clone, PartialEq, Eq)]
pub enum ConstraintType {
    Temporal,
    Resource,
    Sequence,
    Exclusion,
    Cardinality,
    Custom(String),
}

/// A state of an operational state machine (OV-6b).
#[derive(Debug, Clone)]
pub struct OperationalState {
    pub id: String,
    pub name: String,
    pub description: Option<String>,
    pub state_type: StateType,
    pub entry_action: Option<String>,
    pub exit_action: Option<String>,
    pub activities_in_state: Vec<String>,
    pub is_initial: bool,
    pub is_terminal: bool,
    pub is_composite: bool,
    pub parent_state: Option<String>,
}

/// The kind of an operational state.
#[derive(Debug, Clone, PartialEq, Eq)]
pub enum StateType {
    Idle,
    Active,
    Processing,
    Waiting,
    Blocked,
    Error,
    Terminal,
    Custom(String),
}

/// An event that triggers state transitions.
#[derive(Debug, Clone)]
pub struct TransitionEvent {
    pub id: String,
    pub name: String,
    pub description: Option<String>,
    pub event_type: EventType,
    pub triggers_transitions: Vec<String>,
}

/// The kind of a transition event.
#[derive(Debug, Clone, Copy, PartialEq, Eq, Structural)]
pub enum EventType {
    External,
    Internal,
    Temporal,
    Signal,
    Condition,
    Error,
    Completion,
}

/// How two traced events relate.
#[derive(Debug, Clone, Copy, PartialEq, Eq, Structural)]
pub enum EventRelationshipType {
    Sequence,
    Causality,
    Parallel,
    Conditional,
    Synchronous,
}

/// A relation between two traced events (OV-6c).
#[derive(Debug, Clone)]
pub struct EventRelationship {
    pub source_event_id: String,
    pub target_event_id: String,
    pub relationship_type: EventRelationshipType,
}

/// An object that lives through a trace, from its creation event.
#[derive(Debug, Clone)]
pub struct TraceObject {
    pub id: String,
    pub name: String,
    pub object_type: String,
    pub creation_event: String,
    pub terminal_event: Option<String>,
    pub properties: HashMap<String, serde_json::Value>,
}

impl OperationalRulesModel {
    /// An empty version 1.0 rules model created now.
    pub fn new(id: &str, name: &str) -> (r: Self)
        ensures
            r.id@ == id@,
            r.name@ == name@,
            r.description is None,
            r.version@ == "1.0"@,
            r.rules@.len() == 0,
            r.rule_sets@.len() == 0,
            r.constraints@.len() == 0,
            r.metadata@.len() == 0,
    {
        OperationalRulesModel {
            id: owned(id),
            name: owned(name),
            description: None,
            version: owned("1.0"),
            rules: Vec::new(),
            rule_sets: Vec::new(),
            constraints: Vec::new(),
            created_at: now_rfc3339(),
            metadata: HashMap::new(),
        }
    }

    /// Set the description.
    pub fn with_description(self, desc: &str) -> (r: Self)
        ensures
            opt_view(r.description) == Some(desc@),
            r == (OperationalRulesModel { description: r.description, ..self }),
    {
        let mut s = self;
        s.description = Some(owned(desc));
        s
    }

    /// Add a rule.
    pub fn add_rule(self, rule: OperationalRule) -> (r: Self)
        ensures
            r.rules@ == self.rules@.push(rule),
            r == (OperationalRulesModel { rules: r.rules, ..self }),
    {
        let mut s = self;
        s.rules.push(rule);
        s
    }

    /// Add a rule set.
    pub fn add_rule_set(self, rule_set: RuleSet) -> (r: Self)
        ensures
            r.rule_sets@ == self.rule_sets@.push(rule_set),
            r == (OperationalRulesModel { rule_sets: r.rule_sets, ..self }),
    {
        let mut s = self;
        s.rule_sets.push(rule_set);
        s
    }

    /// Add a constraint.
    pub fn add_constraint(self, constraint: Constraint) -> (r: Self)
        ensures
            r.constraints@ == self.constraints@.push(constraint),
            r == (OperationalRulesModel { constraints: r.constraints, ..self }),
    {
        let mut s = self;
        s.constraints.push(constraint);
        s
    }
}

impl OperationalRule {
    /// An enabled rule of priority 1 that always applies, to nothing yet.
    pub fn new(id: &str, name: &str, description: &str, rule_type: RuleType, condition: &str, action: &str) -> (r: Self)
        ensures
            r.id@ == id@,
            r.name@ == name@,
            r.description@ == description@,
            r.rule_type == rule_type,
            r.applicability == RuleApplicability::Always,
            r.condition@ == condition@,
            r.action@ == action@,
            r.alternative_action is None,
            r.applies_to_activities@.len() == 0,
            r.applies_to_performers@.len() == 0,
            r.priority == 1,
            r.enabled == true,
            r.enforcement_method is None,
    {
        OperationalRule {
            id: owned(id),
            name: owned(name),
            description: owned(description),
            rule_type: rule_type,
            applicability: RuleApplicability::Always,
            condition: owned(condition),
            action: owned(action),
            alternative_action: None,
            applies_to_activities: Vec::new(),
            applies_to_performers: Vec::new(),
            priority: 1,
            enabled: true,
            enforcement_method: None,
        }
    }

    /// Set when the rule applies.
    pub fn with_applicability(self, applicability: RuleApplicability) -> (r: Self)
        ensures
            r == (OperationalRule { applicability: applicability, ..self }),
    {
        let mut s = self;
        s.applicability = applicability;
        s
    }

    /// Set the priority.
    pub fn with_priority(self, priority: i32) -> (r: Self)
        ensures
            r == (OperationalRule { priority: priority, ..self }),
    {
        let mut s = self;
        s.priority = priority;
        s
    }

    /// Add an activity the rule applies to.
    pub fn add_applicable_activity(self, activity_id: &str) -> (r: Self)
        ensures
            strings_view(r.applies_to_activities@) == strings_view(self.applies_to_activities@).push(activity_id@),
            r == (OperationalRule { applies_to_activities: r.applies_to_activities, ..self }),
    {
        let mut s = self;
        s.applies_to_activities.push(owned(activity_id));
        proof {
            assert(strings_view(s.applies_to_activities@) =~= strings_view(self.applies_to_activities@).push(activity_id@));
        }
        s
    }

    /// Add a performer the rule applies to.
    pub fn add_applicable_performer(self, performer_id: &str) -> (r: Self)
        ensures
            strings_view(r.applies_to_performers@) == strings_view(self.applies_to_performers@).push(performer_id@),
            r == (OperationalRule { applies_to_performers: r.applies_to_performers, ..self }),
    {
        let mut s = self;
        s.applies_to_performers.push(owned(performer_id));
        proof {
            assert(strings_view(s.applies_to_performers@) =~= strings_view(self.applies_to_performers@).push(performer_id@));
        }
        s
    }
}

impl OperationalState {
    /// A simple state that is neither initial nor terminal.
    pub fn new(id: &str, name: &str, state_type: StateType) -> (r: Self)
        ensures
            r.id@ == id@,
            r.name@ == name@,
            r.description is None,
            r.state_type == state_type,
            r.entry_action is None,
            r.exit_action is None,
            r.activities_in_state@.len() == 0,
            r.is_initial == false,
            r.is_terminal == false,
            r.is_composite == false,
            r.parent_state is None,
    {
        OperationalState {
            id: owned(id),
            name: owned(name),
            description: None,
            state_type: state_type,
            entry_action: None,
            exit_action: None,
            activities_in_state: Vec::new(),
            is_initial: false,
            is_terminal: false,
            is_composite: false,
            parent_state: None,
        }
    }

    /// Set the description.
    pub fn with_description(self, desc: &str) -> (r: Self)
        ensures
            opt_view(r.description) == Some(desc@),
            r == (OperationalState { description: r.description, ..self }),
    {
        let mut s = self;
        s.description = Some(owned(desc));
        s
    }

    /// Mark the state initial.
    pub fn as_initial(self) -> (r: Self)
        ensures
            r == (OperationalState { is_initial: true, ..self }),
    {
        let mut s = self;
        s.is_initial = true;
        s
    }

    /// Mark the state terminal.
    pub fn as_terminal(self) -> (r: Self)
        ensures
            r == (OperationalState { is_terminal: true, ..self }),
    {
        let mut s = self;
        s.is_terminal = true;
        s
    }

    /// Add an activity performed in this state.
    pub fn add_activity(self, activity_id: &str) -> (r: Self)
        ensures
            strings_view(r.activities_in_state@) == strings_view(self.activities_in_state@).push(activity_id@),
            r == (OperationalState { activities_in_state: r.activities_in_state, ..self }),
    {
        let mut s = self;
        s.activities_in_state.push(owned(activity_id));
        proof {
            assert(strings_view(s.activities_in_state@) =~= strings_view(self.activities_in_state@).push(activity_id@));
        }
        s
    }
}

} // verus!
