//! The bookkeeping of the development activity log: numbering activities and
//! flows, recording flows, and summing up what was logged. Reading and
//! writing the log file is done by the caller.
use vstd::prelude::*;
use crate::text::{decimal, signed_decimal};

verus! {

/// The kind of a logged activity, after the BPMN task kinds.
#[derive(Debug, Clone, Copy, PartialEq, Eq, Structural)]
pub enum ActivityType {
    UserTask,
    ServiceTask,
    ScriptTask,
    SendTask,
    ReceiveTask,
    ManualTask,
}

/// A flow from one logged activity to another.
#[derive(Debug, Clone)]
pub struct ProcessFlow {
    pub id: String,
    pub source_activity_id: String,
    pub target_activity_id: String,
    pub condition: Option<String>,
    pub name: Option<String>,
}

/// The versions of the standards the log follows.
#[derive(Debug, Clone)]
pub struct Standards {
    pub bpmn_version: String,
    pub dodaf_version: String,
}

/// What the statistics read of a logged activity: its kind and whether it
/// succeeded, if that is known.
#[derive(Debug, Clone, Copy)]
pub struct ActivityOutcome {
    pub activity_type: ActivityType,
    pub success: Option<bool>,
}

/// Numbers the activities and flows of a development log kept at `log_path`.
pub struct DevLogger {
    pub log_path: String,
    pub current_activity_id: usize,
    pub current_flow_id: usize,
}

/// Counts of a log: activities, those that succeeded and failed, flows, and
/// activities of each kind (by the kind's name, each name once).
#[derive(Debug, Clone)]
pub struct LogStats {
    pub total_activities: usize,
    pub successful: usize,
    pub failed: usize,
    pub total_flows: usize,
    pub activity_types: Vec<(String, usize)>,
}

/// What the log records of one activity besides its times and its JSON
/// inputs, outputs and details: the activity's id, name, kind, performer,
/// description, success and error, and the kind and text of the short entry
/// kept beside it.
#[derive(Debug, Clone)]
pub struct ActivityRecord {
    pub id: String,
    pub name: String,
    pub activity_type: ActivityType,
    pub performer: String,
    pub description: String,
    pub success: bool,
    pub error: Option<String>,
    pub entry_kind: String,
    pub entry_description: String,
}

/// The name of a kind of activity, as `Debug` writes it.
pub open spec fn kind_name(t: ActivityType) -> Seq<char> {
    match t {
        ActivityType::UserTask => "UserTask"@,
        ActivityType::ServiceTask => "ServiceTask"@,
        ActivityType::ScriptTask => "ScriptTask"@,
        ActivityType::SendTask => "SendTask"@,
        ActivityType::ReceiveTask => "ReceiveTask"@,
        ActivityType::ManualTask => "ManualTask"@,
    }
}

/// How many of `s` have outcome `o`.
pub open spec fn count_success(s: Seq<ActivityOutcome>, o: Option<bool>) -> nat
    decreases s.len(),
{
    if s.len() == 0 {
        0
    } else {
        count_success(s.drop_last(), o) + (if s.last().success == o { 1nat } else { 0nat })
    }
}

/// How many of `s` are of kind `t`.
pub open spec fn count_type(s: Seq<ActivityOutcome>, t: ActivityType) -> nat
    decreases s.len(),
{
    if s.len() == 0 {
        0
    } else {
        count_type(s.drop_last(), t) + (if s.last().activity_type == t { 1nat } else { 0nat })
    }
}

/// The entry of kind `t` in the statistics of `s`: its name and count, if it occurs.
pub open spec fn kind_entry(s: Seq<ActivityOutcome>, t: ActivityType) -> Seq<(Seq<char>, nat)> {
    if count_type(s, t) > 0 {
        seq![(kind_name(t), count_type(s, t))]
    } else {
        Seq::empty()
    }
}

/// The kinds that occur in `s` with their counts, in the order the kinds are declared.
pub open spec fn kind_counts(s: Seq<ActivityOutcome>) -> Seq<(Seq<char>, nat)> {
    kind_entry(s, ActivityType::UserTask) + kind_entry(s, ActivityType::ServiceTask)
        + kind_entry(s, ActivityType::ScriptTask) + kind_entry(s, ActivityType::SendTask)
        + kind_entry(s, ActivityType::ReceiveTask) + kind_entry(s, ActivityType::ManualTask)
}

/// The views of the kind counts of statistics.
pub open spec fn counts_view(es: Seq<(String, usize)>) -> Seq<(Seq<char>, nat)> {
    es.map_values(|e: (String, usize)| (e.0@, e.1 as nat))
}

proof fn lemma_count_le(s: Seq<ActivityOutcome>, t: ActivityType, o: Option<bool>)
    ensures
        count_type(s, t) <= s.len(),
        count_success(s, o) <= s.len(),
    decreases s.len(),
{
    if s.len() > 0 {
        lemma_count_le(s.drop_last(), t, o);
    }
}

fn kind_name_text(t: ActivityType) -> (r: String)
    ensures
        r@ == kind_name(t),
{
    match t {
        ActivityType::UserTask => crate::text::owned("UserTask"),
        ActivityType::ServiceTask => crate::text::owned("ServiceTask"),
        ActivityType::ScriptTask => crate::text::owned("ScriptTask"),
        ActivityType::SendTask => crate::text::owned("SendTask"),
        ActivityType::ReceiveTask => crate::text::owned("ReceiveTask"),
        ActivityType::ManualTask => crate::text::owned("ManualTask"),
    }
}

impl DevLogger {
    /// A logger for the log at `log_path`, numbering from 1.
    pub fn new(log_path: &str) -> (r: Self)
        ensures
            r.log_path@ == log_path@,
            r.current_activity_id == 1,
            r.current_flow_id == 1,
    {
        DevLogger { log_path: crate::text::owned(log_path), current_activity_id: 1, current_flow_id: 1 }
    }

    /// The id `activity_N` for the next activity, N being the current
    /// number, which then moves on by one.
    pub fn next_activity_id(&mut self) -> (r: String)
        requires
            old(self).current_activity_id < usize::MAX,
        ensures
            r@ == "activity_"@ + decimal(old(self).current_activity_id as nat),
            final(self).current_activity_id == old(self).current_activity_id + 1,
            final(self).current_flow_id == old(self).current_flow_id,
            final(self).log_path == old(self).log_path,
    {
        let n = crate::text::usize_to_decimal(self.current_activity_id);
        self.current_activity_id = self.current_activity_id + 1;
        crate::text::concat2("activity_", n.as_str())
    }

    /// The record of a use of the tool `tool_name`, numbered as the next
    /// activity: a service task performed by `Tool::<name>`.
    pub fn record_tool_use(&mut self, tool_name: &str, success: bool) -> (r: ActivityRecord)
        requires
            old(self).current_activity_id < usize::MAX,
        ensures
            r.id@ == "activity_"@ + decimal(old(self).current_activity_id as nat),
            final(self).current_activity_id == old(self).current_activity_id + 1,
            final(self).current_flow_id == old(self).current_flow_id,
            numbering_step(*old(self), *final(self), false),
            final(self).log_path == old(self).log_path,
            r.name@ == "Execute "@ + tool_name@,
            r.activity_type == ActivityType::ServiceTask,
            r.performer@ == "Tool::"@ + tool_name@,
            r.description@ == "Execute "@ + tool_name@ + " tool"@,
            r.success == success,
            r.error is None,
            r.entry_kind@ == "tool_use"@,
            r.entry_description@ == "Used tool: "@ + tool_name@,
    {
        let id = self.next_activity_id();
        ActivityRecord {
            id,
            name: crate::text::concat2("Execute ", tool_name),
            activity_type: ActivityType::ServiceTask,
            performer: crate::text::concat2("Tool::", tool_name),
            description: crate::text::concat3("Execute ", tool_name, " tool"),
            success,
            error: None,
            entry_kind: crate::text::owned("tool_use"),
            entry_description: crate::text::concat2("Used tool: ", tool_name),
        }
    }

    /// The record of the shell command `command` that ended with
    /// `exit_code`, numbered as the next activity: a script task performed by
    /// `System::Shell`, successful exactly when the code is 0, with the code
    /// in its error otherwise.
    pub fn record_command(&mut self, command: &str, exit_code: i32) -> (r: ActivityRecord)
        requires
            old(self).current_activity_id < usize::MAX,
        ensures
            r.id@ == "activity_"@ + decimal(old(self).current_activity_id as nat),
            final(self).current_activity_id == old(self).current_activity_id + 1,
            final(self).current_flow_id == old(self).current_flow_id,
            numbering_step(*old(self), *final(self), false),
            final(self).log_path == old(self).log_path,
            r.name@ == "Execute command"@,
            r.activity_type == ActivityType::ScriptTask,
            r.performer@ == "System::Shell"@,
            r.description@ == "Execute shell command: "@ + command@,
            r.success == (exit_code == 0),
            exit_code == 0 ==> r.error is None,
            exit_code != 0 ==> (r.error matches Some(e) && e@ == "Command failed with exit code "@
                + signed_decimal(exit_code as int)),
            r.entry_kind@ == "command"@,
            r.entry_description@ == "Executed: "@ + command@,
    {
        let id = self.next_activity_id();
        let error = if exit_code != 0 {
            let code = crate::text::i128_to_decimal(exit_code as i128);
            Some(crate::text::concat2("Command failed with exit code ", code.as_str()))
        } else {
            None
        };
        ActivityRecord {
            id,
            name: crate::text::owned("Execute command"),
            activity_type: ActivityType::ScriptTask,
            performer: crate::text::owned("System::Shell"),
            description: crate::text::concat2("Execute shell command: ", command),
            success: exit_code == 0,
            error,
            entry_kind: crate::text::owned("command"),
            entry_description: crate::text::concat2("Executed: ", command),
        }
    }

    /// The record of a generated response, numbered as the next activity: a
    /// send task performed by `AI::Assistant`, always successful.
    pub fn record_response(&mut self) -> (r: ActivityRecord)
        requires
            old(self).current_activity_id < usize::MAX,
        ensures
            r.id@ == "activity_"@ + decimal(old(self).current_activity_id as nat),
            final(self).current_activity_id == old(self).current_activity_id + 1,
            final(self).current_flow_id == old(self).current_flow_id,
            numbering_step(*old(self), *final(self), false),
            final(self).log_path == old(self).log_path,
            r.name@ == "Generate AI Response"@,
            r.activity_type == ActivityType::SendTask,
            r.performer@ == "AI::Assistant"@,
            r.description@ == "Generate response to user query"@,
            r.success,
            r.error is None,
            r.entry_kind@ == "response"@,
            r.entry_description@ == "Generated AI response"@,
    {
        let id = self.next_activity_id();
        ActivityRecord {
            id,
            name: crate::text::owned("Generate AI Response"),
            activity_type: ActivityType::SendTask,
            performer: crate::text::owned("AI::Assistant"),
            description: crate::text::owned("Generate response to user query"),
            success: true,
            error: None,
            entry_kind: crate::text::owned("response"),
            entry_description: crate::text::owned("Generated AI response"),
        }
    }

    /// Record in `flows` a flow `flow_N` (N the current flow number, which
    /// then moves on by one) from `source_id` to `target_id`, and give its id.
    pub fn log_flow(
        &mut self,
        flows: &mut Vec<ProcessFlow>,
        source_id: &str,
        target_id: &str,
        condition: Option<String>,
        name: Option<String>,
    ) -> (r: String)
        requires
            old(self).current_flow_id < usize::MAX,
        ensures
            r@ == "flow_"@ + decimal(old(self).current_flow_id as nat),
            final(self).current_flow_id == old(self).current_flow_id + 1,
            final(self).current_activity_id == old(self).current_activity_id,
            numbering_step(*old(self), *final(self), true),
            final(self).log_path == old(self).log_path,
            final(flows)@.len() == old(flows)@.len() + 1,
            final(flows)@.take(old(flows)@.len() as int) == old(flows)@,
            final(flows)@.last().id@ == r@,
            final(flows)@.last().source_activity_id@ == source_id@,
            final(flows)@.last().target_activity_id@ == target_id@,
            final(flows)@.last().condition == condition,
            final(flows)@.last().name == name,
    {
        let n = crate::text::usize_to_decimal(self.current_flow_id);
        self.current_flow_id = self.current_flow_id + 1;
        let id = crate::text::concat2("flow_", n.as_str());
        let flow = ProcessFlow {
            id: crate::text::owned(id.as_str()),
            source_activity_id: crate::text::owned(source_id),
            target_activity_id: crate::text::owned(target_id),
            condition,
            name,
        };
        flows.push(flow);
        assert(flows@.take(flows@.len() - 1) =~= old(flows)@);
        id
    }

    /// The statistics of a log whose activities had `activities` as outcomes
    /// and which holds `total_flows` flows.
    pub fn get_stats(&self, activities: &Vec<ActivityOutcome>, total_flows: usize) -> (r: LogStats)
        ensures
            r.total_activities == activities@.len(),
            r.successful == count_success(activities@, Some(true)),
            r.failed == count_success(activities@, Some(false)),
            r.total_flows == total_flows,
            counts_view(r.activity_types@) == kind_counts(activities@),
    {
        let mut types: Vec<(String, usize)> = Vec::new();
        push_kind(&mut types, activities, ActivityType::UserTask);
        push_kind(&mut types, activities, ActivityType::ServiceTask);
        push_kind(&mut types, activities, ActivityType::ScriptTask);
        push_kind(&mut types, activities, ActivityType::SendTask);
        push_kind(&mut types, activities, ActivityType::ReceiveTask);
        push_kind(&mut types, activities, ActivityType::ManualTask);
        assert(counts_view(types@) =~= kind_counts(activities@));
        LogStats {
            total_activities: activities.len(),
            successful: count_outcome(activities, Some(true)),
            failed: count_outcome(activities, Some(false)),
            total_flows,
            activity_types: types,
        }
    }
}

fn count_outcome(activities: &Vec<ActivityOutcome>, o: Option<bool>) -> (c: usize)
    ensures
        c == count_success(activities@, o),
{
    let mut c: usize = 0;
    let mut i: usize = 0;
    while i < activities.len()
        invariant
            i <= activities.len(),
            c == count_success(activities@.take(i as int), o),
        decreases activities.len() - i,
    {
        assert(activities@.take(i + 1).drop_last() =~= activities@.take(i as int));
        proof { lemma_count_le(activities@.take(i as int), ActivityType::UserTask, o); }
        if activities[i].success == o {
            c = c + 1;
        }
        i = i + 1;
    }
    assert(activities@.take(activities.len() as int) =~= activities@);
    c
}

fn count_kind(activities: &Vec<ActivityOutcome>, t: ActivityType) -> (c: usize)
    ensures
        c == count_type(activities@, t),
{
    let mut c: usize = 0;
    let mut i: usize = 0;
    while i < activities.len()
        invariant
            i <= activities.len(),
            c == count_type(activities@.take(i as int), t),
        decreases activities.len() - i,
    {
        assert(activities@.take(i + 1).drop_last() =~= activities@.take(i as int));
        proof { lemma_count_le(activities@.take(i as int), t, None); }
        if activities[i].activity_type == t {
            c = c + 1;
        }
        i = i + 1;
    }
    assert(activities@.take(activities.len() as int) =~= activities@);
    c
}

fn push_kind(types: &mut Vec<(String, usize)>, activities: &Vec<ActivityOutcome>, t: ActivityType)
    ensures
        counts_view(final(types)@) == counts_view(old(types)@) + kind_entry(activities@, t),
{
    let c = count_kind(activities, t);
    if c > 0 {
        types.push((kind_name_text(t), c));
    }
    assert(counts_view(types@) =~= counts_view(old(types)@) + kind_entry(activities@, t));
}


/// One numbering step of a logger: recording a flow moves the flow number on
/// by one, recording an activity moves the activity number on by one; the
/// other number stays.
pub open spec fn numbering_step(a: DevLogger, b: DevLogger, is_flow: bool) -> bool {
    if is_flow {
        b.current_flow_id == a.current_flow_id + 1 && b.current_activity_id == a.current_activity_id
    } else {
        b.current_activity_id == a.current_activity_id + 1 && b.current_flow_id == a.current_flow_id
    }
}

/// How many of the first `k` steps are of the kind `is_flow`.
pub open spec fn steps_of_kind(kinds: Seq<bool>, k: int, is_flow: bool) -> nat
    decreases k,
{
    if k <= 0 {
        0
    } else {
        steps_of_kind(kinds, k - 1, is_flow) + if kinds[k - 1] == is_flow {
            1nat
        } else {
            0nat
        }
    }
}

/// Numbering from a new logger: after any run of recordings, the activity
/// number is one more than the activities recorded and the flow number one
/// more than the flows recorded, each counted on its own. So the first
/// activity is `activity_1`, the first flow `flow_1`, and each later one the
/// next number of its kind.
pub proof fn lemma_numbering_from_new(states: Seq<DevLogger>, kinds: Seq<bool>)
    requires
        states.len() == kinds.len() + 1,
        states[0].current_activity_id == 1,
        states[0].current_flow_id == 1,
        forall|i: int| 0 <= i < kinds.len() ==> numbering_step(#[trigger] states[i], states[i + 1], kinds[i]),
    ensures
        forall|k: int|
            0 <= k <= kinds.len() ==> (#[trigger] states[k]).current_activity_id == 1 + steps_of_kind(kinds, k, false)
                && states[k].current_flow_id == 1 + steps_of_kind(kinds, k, true),
    decreases kinds.len(),
{
    if kinds.len() > 0 {
        let n = kinds.len() - 1;
        lemma_numbering_from_new(states.drop_last(), kinds.drop_last());
        assert forall|k: int| 0 <= k <= kinds.len() implies (#[trigger] states[k]).current_activity_id == 1
            + steps_of_kind(kinds, k, false) && states[k].current_flow_id == 1 + steps_of_kind(kinds, k, true) by {
            lemma_steps_prefix(kinds, k, false);
            lemma_steps_prefix(kinds, k, true);
            if k <= n {
                assert(states.drop_last()[k] == states[k]);
            } else {
                assert(states.drop_last()[n] == states[n]);
                assert(numbering_step(states[n], states[n + 1], kinds[n]));
                lemma_steps_prefix(kinds, n, false);
                lemma_steps_prefix(kinds, n, true);
            }
        }
    }
}

proof fn lemma_steps_prefix(kinds: Seq<bool>, k: int, is_flow: bool)
    requires
        0 <= k <= kinds.len(),
    ensures
        k < kinds.len() ==> steps_of_kind(kinds.drop_last(), k, is_flow) == steps_of_kind(kinds, k, is_flow),
    decreases k,
{
    if k > 0 {
        lemma_steps_prefix(kinds, k - 1, is_flow);
    }
}

} // verus!
