//! Decision tables: hit policies, rule entries, and the shape checks that a
//! table applies to its rules.
//!
//! Hit policies: UNIQUE (exactly one rule matches), FIRST (the first match
//! wins), PRIORITY (the highest priority wins), ANY (all matches agree),
//! COLLECT (all matches, collected), RULE ORDER (all matches in rule order)
//! and OUTPUT ORDER (all matches, by output priority).
use vstd::prelude::*;
use super::errors::{DmnError, DmnResult};
use crate::text::{concat2, concat3, decimal, owned, str_eq, usize_to_decimal};

verus! {

/// How a decision table combines the rules that match.
#[derive(Debug, Clone, Copy, PartialEq, Eq, Structural)]
pub enum HitPolicy {
    Unique,
    First,
    Priority,
    Any,
    Collect,
    RuleOrder,
    OutputOrder,
}

impl Default for HitPolicy {
    fn default() -> (r: Self)
        ensures
            r == HitPolicy::Unique,
    {
        HitPolicy::Unique
    }
}

/// The one-letter name of a hit policy.
pub open spec fn policy_letter(p: HitPolicy) -> Seq<char> {
    match p {
        HitPolicy::Unique => "U"@,
        HitPolicy::First => "F"@,
        HitPolicy::Priority => "P"@,
        HitPolicy::Any => "A"@,
        HitPolicy::Collect => "C"@,
        HitPolicy::RuleOrder => "R"@,
        HitPolicy::OutputOrder => "O"@,
    }
}

/// The hit policy that upper-case text `u` names, by full name or letter.
pub open spec fn policy_named(u: Seq<char>) -> Option<HitPolicy> {
    if u == "UNIQUE"@ || u == "U"@ {
        Some(HitPolicy::Unique)
    } else if u == "FIRST"@ || u == "F"@ {
        Some(HitPolicy::First)
    } else if u == "PRIORITY"@ || u == "P"@ {
        Some(HitPolicy::Priority)
    } else if u == "ANY"@ || u == "A"@ {
        Some(HitPolicy::Any)
    } else if u == "COLLECT"@ || u == "C"@ {
        Some(HitPolicy::Collect)
    } else if u == "RULE ORDER"@ || u == "RULEORDER"@ || u == "R"@ {
        Some(HitPolicy::RuleOrder)
    } else if u == "OUTPUT ORDER"@ || u == "OUTPUTORDER"@ || u == "O"@ {
        Some(HitPolicy::OutputOrder)
    } else {
        None
    }
}

/// Parsing the one-letter name of a hit policy gives that policy back.
pub proof fn lemma_policy_letter_parses(p: HitPolicy)
    ensures
        policy_named(policy_letter(p)) == Some(p),
{
    reveal_strlit("U");
    reveal_strlit("F");
    reveal_strlit("P");
    reveal_strlit("A");
    reveal_strlit("C");
    reveal_strlit("R");
    reveal_strlit("O");
    reveal_strlit("UNIQUE");
    reveal_strlit("FIRST");
    reveal_strlit("PRIORITY");
    reveal_strlit("ANY");
    reveal_strlit("COLLECT");
    reveal_strlit("RULE ORDER");
    reveal_strlit("RULEORDER");
    reveal_strlit("OUTPUT ORDER");
    reveal_strlit("OUTPUTORDER");
    let l = policy_letter(p);
    assert(l.len() == 1);
    assert(l != "UNIQUE"@ && l != "FIRST"@ && l != "PRIORITY"@ && l != "ANY"@ && l != "COLLECT"@);
    assert(l != "RULE ORDER"@ && l != "RULEORDER"@ && l != "OUTPUT ORDER"@ && l != "OUTPUTORDER"@);
    assert(l[0] == match p {
        HitPolicy::Unique => 'U',
        HitPolicy::First => 'F',
        HitPolicy::Priority => 'P',
        HitPolicy::Any => 'A',
        HitPolicy::Collect => 'C',
        HitPolicy::RuleOrder => 'R',
        HitPolicy::OutputOrder => 'O',
    });
    assert("U"@[0] == 'U' && "F"@[0] == 'F' && "P"@[0] == 'P' && "A"@[0] == 'A');
    assert("C"@[0] == 'C' && "R"@[0] == 'R' && "O"@[0] == 'O');
}

/// `s` in upper case, as `str::to_uppercase` makes it.
pub uninterp spec fn uppercase(s: Seq<char>) -> Seq<char>;

/// `s` in upper case, from `str::to_uppercase` (full Unicode case mapping).
/// Its value is named, not described.
#[verifier::external_body]
fn to_uppercase(s: &str) -> (r: String)
    ensures
        r@ == uppercase(s@),
{
    s.to_uppercase()
}

/// The verdict of parsing a hit policy whose text is `s` and upper-case text `u`.
pub open spec fn policy_parsed(u: Seq<char>, s: Seq<char>, r: DmnResult<HitPolicy>) -> bool {
    match policy_named(u) {
        Some(p) => r == Ok::<HitPolicy, DmnError>(p),
        None => r matches Err(DmnError::InvalidDecisionTable(m)) && m@ == "Unknown hit policy: "@ + s,
    }
}

impl HitPolicy {
    /// The one-letter name of the policy.
    pub fn name(&self) -> (r: &str)
        ensures
            r@ == policy_letter(*self),
    {
        match self {
            HitPolicy::Unique => "U",
            HitPolicy::First => "F",
            HitPolicy::Priority => "P",
            HitPolicy::Any => "A",
            HitPolicy::Collect => "C",
            HitPolicy::RuleOrder => "R",
            HitPolicy::OutputOrder => "O",
        }
    }

    /// The policy named by `s`, in any case, by full name or letter.
    pub fn from_str(s: &str) -> (r: DmnResult<Self>)
        ensures
            policy_parsed(uppercase(s@), s@, r),
    {
        let upper = to_uppercase(s);
        Self::from_upper(upper.as_str(), s)
    }

    /// The policy named by the upper-case text `upper` of `s`; an unknown
    /// name is an error that quotes `s`.
    pub fn from_upper(upper: &str, s: &str) -> (r: DmnResult<Self>)
        ensures
            policy_parsed(upper@, s@, r),
    {
        if str_eq(upper, "UNIQUE") || str_eq(upper, "U") {
            Ok(HitPolicy::Unique)
        } else if str_eq(upper, "FIRST") || str_eq(upper, "F") {
            Ok(HitPolicy::First)
        } else if str_eq(upper, "PRIORITY") || str_eq(upper, "P") {
            Ok(HitPolicy::Priority)
        } else if str_eq(upper, "ANY") || str_eq(upper, "A") {
            Ok(HitPolicy::Any)
        } else if str_eq(upper, "COLLECT") || str_eq(upper, "C") {
            Ok(HitPolicy::Collect)
        } else if str_eq(upper, "RULE ORDER") || str_eq(upper, "RULEORDER") || str_eq(upper, "R") {
            Ok(HitPolicy::RuleOrder)
        } else if str_eq(upper, "OUTPUT ORDER") || str_eq(upper, "OUTPUTORDER") || str_eq(upper, "O") {
            Ok(HitPolicy::OutputOrder)
        } else {
            Err(DmnError::InvalidDecisionTable(concat2("Unknown hit policy: ", s)))
        }
    }
}

/// One rule of a decision table: a condition per input (none matches
/// anything) and a value per output.
#[derive(Debug, Clone)]
pub struct RuleEntry {
    pub input_entries: Vec<Option<String>>,
    pub output_entries: Vec<String>,
    pub annotation: Option<String>,
}

impl RuleEntry {
    /// A rule with `num_inputs` empty conditions and `num_outputs` empty outputs.
    pub fn new(num_inputs: usize, num_outputs: usize) -> (r: Self)
        ensures
            r.input_entries@.len() == num_inputs,
            forall|i: int| 0 <= i < num_inputs ==> #[trigger] r.input_entries@[i] is None,
            r.output_entries@.len() == num_outputs,
            forall|i: int| 0 <= i < num_outputs ==> (#[trigger] r.output_entries@[i])@.len() == 0,
            r.annotation is None,
    {
        let mut input_entries: Vec<Option<String>> = Vec::new();
        let mut i: usize = 0;
        while i < num_inputs
            invariant
                i <= num_inputs,
                input_entries@.len() == i,
                forall|k: int| 0 <= k < i ==> #[trigger] input_entries@[k] is None,
            decreases num_inputs - i,
        {
            input_entries.push(None);
            i = i + 1;
        }
        let mut output_entries: Vec<String> = Vec::new();
        let mut j: usize = 0;
        while j < num_outputs
            invariant
                j <= num_outputs,
                output_entries@.len() == j,
                forall|k: int| 0 <= k < j ==> (#[trigger] output_entries@[k])@.len() == 0,
            decreases num_outputs - j,
        {
            output_entries.push(String::new());
            j = j + 1;
        }
        RuleEntry { input_entries, output_entries, annotation: None }
    }

    /// Set the condition of input `index`; an index past the inputs is an error.
    pub fn set_input(&mut self, index: usize, value: Option<String>) -> (r: DmnResult<()>)
        ensures
            index >= old(self).input_entries@.len() ==> (r matches Err(DmnError::InvalidDecisionTable(m)) && m@
                == "Input index "@ + decimal(index as nat) + " out of range"@ && *final(self) == *old(self)),
            index < old(self).input_entries@.len() ==> (r is Ok && final(self).input_entries@
                == old(self).input_entries@.update(index as int, value) && final(self).output_entries
                == old(self).output_entries && final(self).annotation == old(self).annotation),
    {
        if index >= self.input_entries.len() {
            let n = usize_to_decimal(index);
            return Err(DmnError::InvalidDecisionTable(concat3("Input index ", n.as_str(), " out of range")));
        }
        self.input_entries.set(index, value);
        Ok(())
    }

    /// Set the value of output `index`; an index past the outputs is an error.
    pub fn set_output(&mut self, index: usize, value: String) -> (r: DmnResult<()>)
        ensures
            index >= old(self).output_entries@.len() ==> (r matches Err(DmnError::InvalidDecisionTable(m)) && m@
                == "Output index "@ + decimal(index as nat) + " out of range"@ && *final(self) == *old(self)),
            index < old(self).output_entries@.len() ==> (r is Ok && final(self).output_entries@
                == old(self).output_entries@.update(index as int, value) && final(self).input_entries
                == old(self).input_entries && final(self).annotation == old(self).annotation),
    {
        if index >= self.output_entries.len() {
            let n = usize_to_decimal(index);
            return Err(DmnError::InvalidDecisionTable(concat3("Output index ", n.as_str(), " out of range")));
        }
        self.output_entries.set(index, value);
        Ok(())
    }
}

/// The message `Rule has {found} {what}, expected {expected}`.
pub open spec fn count_message(prefix: Seq<char>, found: nat, middle: Seq<char>, expected: nat) -> Seq<char> {
    prefix + decimal(found) + middle + decimal(expected)
}

fn count_text(prefix: &str, found: usize, middle: &str, expected: usize) -> (r: String)
    ensures
        r@ == count_message(prefix@, found as nat, middle@, expected as nat),
{
    let f = usize_to_decimal(found);
    let e = usize_to_decimal(expected);
    let mut r = concat3(prefix, f.as_str(), middle);
    r.append(e.as_str());
    r
}

/// Whether a rule may join a table with `num_inputs` inputs and `num_outputs`
/// outputs: its condition count must equal the inputs, then its value count
/// the outputs.
pub fn check_rule_shape(rule: &RuleEntry, num_inputs: usize, num_outputs: usize) -> (r: DmnResult<()>)
    ensures
        rule.input_entries@.len() != num_inputs ==> (r matches Err(DmnError::InvalidDecisionTable(m)) && m@
            == count_message("Rule has "@, rule.input_entries@.len(), " inputs, expected "@, num_inputs as nat)),
        rule.input_entries@.len() == num_inputs && rule.output_entries@.len() != num_outputs ==> (r matches Err(
            DmnError::InvalidDecisionTable(m),
        ) && m@ == count_message(
            "Rule has "@,
            rule.output_entries@.len(),
            " outputs, expected "@,
            num_outputs as nat,
        )),
        rule.input_entries@.len() == num_inputs && rule.output_entries@.len() == num_outputs ==> r is Ok,
{
    if rule.input_entries.len() != num_inputs {
        return Err(
            DmnError::InvalidDecisionTable(count_text("Rule has ", rule.input_entries.len(), " inputs, expected ", num_inputs)),
        );
    }
    if rule.output_entries.len() != num_outputs {
        return Err(
            DmnError::InvalidDecisionTable(
                count_text("Rule has ", rule.output_entries.len(), " outputs, expected ", num_outputs),
            ),
        );
    }
    Ok(())
}

/// Every rule of `rules` has `ni` conditions and `no` values.
pub open spec fn rules_fit(rules: Seq<RuleEntry>, ni: nat, no: nat) -> bool {
    forall|k: int| 0 <= k < rules.len() ==> (#[trigger] rules[k]).input_entries@.len() == ni
        && rules[k].output_entries@.len() == no
}

/// The checks of a whole table with `num_inputs` inputs, `num_outputs` outputs
/// and `rules`: at least one input, at least one output, then every rule in
/// turn of the right shape; the first failure is reported.
pub fn check_table_shape(num_inputs: usize, num_outputs: usize, rules: &Vec<RuleEntry>) -> (r: DmnResult<()>)
    ensures
        num_inputs == 0 ==> (r matches Err(DmnError::InvalidDecisionTable(m)) && m@
            == "Decision table must have at least one input"@),
        num_inputs > 0 && num_outputs == 0 ==> (r matches Err(DmnError::InvalidDecisionTable(m)) && m@
            == "Decision table must have at least one output"@),
        num_inputs > 0 && num_outputs > 0 ==> (r is Ok <==> rules_fit(rules@, num_inputs as nat, num_outputs as nat)),
        num_inputs > 0 && num_outputs > 0 && !rules_fit(rules@, num_inputs as nat, num_outputs as nat) ==> exists|
            k: int,
        |
            0 <= k < rules@.len() && rules_fit(rules@.take(k), num_inputs as nat, num_outputs as nat) && !(
            #[trigger] rules@[k].input_entries@.len() == num_inputs && rules@[k].output_entries@.len()
                == num_outputs) && (r matches Err(DmnError::InvalidDecisionTable(m)) && m@ == if rules@[k].input_entries@.len()
                != num_inputs {
                count_message(
                    "Rule has incorrect number of inputs: "@,
                    rules@[k].input_entries@.len(),
                    " vs "@,
                    num_inputs as nat,
                )
            } else {
                count_message(
                    "Rule has incorrect number of outputs: "@,
                    rules@[k].output_entries@.len(),
                    " vs "@,
                    num_outputs as nat,
                )
            }),
{
    if num_inputs == 0 {
        return Err(DmnError::InvalidDecisionTable(owned("Decision table must have at least one input")));
    }
    if num_outputs == 0 {
        return Err(DmnError::InvalidDecisionTable(owned("Decision table must have at least one output")));
    }
    let mut k: usize = 0;
    while k < rules.len()
        invariant
            k <= rules.len(),
            num_inputs > 0,
            num_outputs > 0,
            rules_fit(rules@.take(k as int), num_inputs as nat, num_outputs as nat),
        decreases rules.len() - k,
    {
        let rule = &rules[k];
        if rule.input_entries.len() != num_inputs {
            return Err(
                DmnError::InvalidDecisionTable(
                    count_text("Rule has incorrect number of inputs: ", rule.input_entries.len(), " vs ", num_inputs),
                ),
            );
        }
        if rule.output_entries.len() != num_outputs {
            return Err(
                DmnError::InvalidDecisionTable(
                    count_text("Rule has incorrect number of outputs: ", rule.output_entries.len(), " vs ", num_outputs),
                ),
            );
        }
        assert(rules@.take(k + 1) =~= rules@.take(k as int).push(rules@[k as int]));
        k = k + 1;
    }
    assert(rules@.take(rules.len() as int) =~= rules@);
    Ok(())
}


/// The matching rules (by index, in order) that `policy` takes: Unique the
/// one match, refused unless there is exactly one; First and Priority the
/// first match, if any; Any, Collect, Rule order and Output order every
/// match. Reading the chosen rules' outputs is left to the caller.
pub fn select_rules(policy: HitPolicy, matching: Vec<usize>) -> (r: DmnResult<Vec<usize>>)
    ensures
        policy == HitPolicy::Unique && matching@.len() == 1 ==> (r matches Ok(v) && v@ == matching@),
        policy == HitPolicy::Unique && matching@.len() != 1 ==> (r matches Err(DmnError::AmbiguousRules(m)) && m@
            == "UNIQUE policy requires exactly one match, got "@ + crate::text::decimal(matching@.len())),
        (policy == HitPolicy::First || policy == HitPolicy::Priority) ==> (r matches Ok(v) && v@ == matching@.take(
            if matching@.len() == 0 { 0int } else { 1int },
        )),
        (policy == HitPolicy::Any || policy == HitPolicy::Collect || policy == HitPolicy::RuleOrder || policy
            == HitPolicy::OutputOrder) ==> (r matches Ok(v) && v@ == matching@),
{
    match policy {
        HitPolicy::Unique => {
            if matching.len() != 1 {
                let n = crate::text::usize_to_decimal(matching.len());
                return Err(DmnError::AmbiguousRules(crate::text::concat2(
                    "UNIQUE policy requires exactly one match, got ",
                    n.as_str(),
                )));
            }
            Ok(matching)
        },
        HitPolicy::First | HitPolicy::Priority => {
            let mut v: Vec<usize> = Vec::new();
            if matching.len() > 0 {
                v.push(matching[0]);
            }
            assert(v@ =~= matching@.take(if matching@.len() == 0 { 0int } else { 1int }));
            Ok(v)
        },
        _ => Ok(matching),
    }
}

} // verus!
