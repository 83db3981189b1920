//! What the executor records of how workflows map onto DoDAF capabilities
//! and systems.
use vstd::prelude::*;

verus! {

/// The capabilities a workflow provides, and those it lacks.
#[derive(Debug, Clone)]
pub struct CapabilityMapping {
    pub workflow_id: String,
    pub capabilities: Vec<String>,
    pub capability_gaps: Vec<String>,
}

/// The systems an activity runs on.
#[derive(Debug, Clone)]
pub struct SystemMapping {
    pub activity_id: String,
    pub systems: Vec<SystemReference>,
}

/// A system and the interfaces of it that are used.
#[derive(Debug, Clone)]
pub struct SystemReference {
    pub system_id: String,
    pub system_name: String,
    pub interfaces: Vec<String>,
}

/// The views a compliance report checks, in its order, with the advice
/// given when one is missing.
pub open spec fn checked_views() -> Seq<(Seq<char>, Seq<char>)> {
    seq![
        ("OV-5"@, "Add operational activity metadata to workflow"@),
        ("OV-3"@, "Define resource flows between activities"@),
        ("OV-4"@, "Assign performers to activities"@),
        ("CV-6"@, "Map workflow to organizational capabilities"@),
        ("SV-1"@, "Map systems to activities"@),
    ]
}

/// The names of the checked views that are missing, in order.
pub open spec fn missing_names(present: Seq<bool>, n: int) -> Seq<Seq<char>>
    decreases n,
{
    if n <= 0 {
        Seq::empty()
    } else {
        missing_names(present, n - 1) + (if present[n - 1] { Seq::empty() } else { seq![checked_views()[n - 1].0] })
    }
}

/// The advice for the checked views that are missing, in order.
pub open spec fn missing_advice(present: Seq<bool>, n: int) -> Seq<Seq<char>>
    decreases n,
{
    if n <= 0 {
        Seq::empty()
    } else {
        missing_advice(present, n - 1) + (if present[n - 1] { Seq::empty() } else { seq![checked_views()[n - 1].1] })
    }
}

fn view_name_and_advice(k: usize) -> (r: (String, String))
    requires
        k < 5,
    ensures
        r.0@ == checked_views()[k as int].0,
        r.1@ == checked_views()[k as int].1,
{
    if k == 0 {
        (crate::text::owned("OV-5"), crate::text::owned("Add operational activity metadata to workflow"))
    } else if k == 1 {
        (crate::text::owned("OV-3"), crate::text::owned("Define resource flows between activities"))
    } else if k == 2 {
        (crate::text::owned("OV-4"), crate::text::owned("Assign performers to activities"))
    } else if k == 3 {
        (crate::text::owned("CV-6"), crate::text::owned("Map workflow to organizational capabilities"))
    } else {
        (crate::text::owned("SV-1"), crate::text::owned("Map systems to activities"))
    }
}

/// Which of OV-5, OV-3, OV-4, CV-6 and SV-1 (given by `present`, in that
/// order) a compliance report lists as missing, and the advice it gives for
/// each, in the same order.
pub fn compliance_gaps(present: &[bool; 5]) -> (r: (Vec<String>, Vec<String>))
    ensures
        crate::text::strings_view(r.0@) == missing_names(present@, 5),
        crate::text::strings_view(r.1@) == missing_advice(present@, 5),
{
    let mut missing: Vec<String> = Vec::new();
    let mut advice: Vec<String> = Vec::new();
    let mut k: usize = 0;
    while k < 5
        invariant
            k <= 5,
            present@.len() == 5,
            crate::text::strings_view(missing@) == missing_names(present@, k as int),
            crate::text::strings_view(advice@) == missing_advice(present@, k as int),
        decreases 5 - k,
    {
        if !present[k] {
            let (name, tip) = view_name_and_advice(k);
            missing.push(name);
            advice.push(tip);
        }
        k = k + 1;
        assert(crate::text::strings_view(missing@) =~= missing_names(present@, k as int));
        assert(crate::text::strings_view(advice@) =~= missing_advice(present@, k as int));
    }
    (missing, advice)
}

} // verus!
