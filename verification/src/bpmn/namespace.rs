//! BPMN 2.0 XML namespaces.
use vstd::prelude::*;

verus! {

/// The BPMN 2.0 model namespace.
pub const BPMN2: &'static str = "http://www.omg.org/spec/BPMN/20100524/MODEL";

/// The BPMN 2.0 diagram interchange namespace.
pub const BPMNDI: &'static str = "http://www.omg.org/spec/BPMN/20100524/DI";

/// The diagram definition namespace for bounds and other shapes.
pub const DC: &'static str = "http://www.omg.org/spec/DD/20100524/DC";

/// The diagram interchange namespace for waypoints.
pub const DI: &'static str = "http://www.omg.org/spec/DD/20100524/DI";

} // verus!
