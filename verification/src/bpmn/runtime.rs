//! The decisions of the debugging runtime: token and execution states,
//! task performance, breakpoints, run control and the bounded audit trail.
use vstd::prelude::*;
use std::collections::VecDeque;
use super::ProcessState;
use crate::error::AbcdodafError;
use crate::outside::now_rfc3339;
use crate::text::owned;

verus! {

/// The state of an execution token.
#[derive(Debug, Clone, Copy, PartialEq, Eq, Structural)]
pub enum TokenState {
    /// Active and moving.
    Active,
    /// Waiting at a node.
    Waiting,
    /// Consumed.
    Consumed,
    /// Blocked at a breakpoint.
    Blocked,
}

/// How a process instance is run.
#[derive(Debug, Clone, Copy, PartialEq, Eq, Structural)]
pub enum ExecutionMode {
    /// Without stopping.
    Continuous,
    /// Pausing after each step.
    StepByStep,
    /// Waiting to be resumed.
    Paused,
}

/// Timing figures of one task over its executions.
#[derive(Debug, Clone)]
pub struct TaskPerformance {
    pub task_id: String,
    pub execution_count: u64,
    pub total_duration_ms: u64,
    /// Mean duration, rounded down.
    pub avg_duration_ms: u64,
    /// Shortest duration; `u64::MAX` before the first execution.
    pub min_duration_ms: u64,
    pub max_duration_ms: u64,
    /// When the task last ran, as RFC 3339 text.
    pub last_execution: String,
}

impl TaskPerformance {
    /// Figures for a task that has not run yet.
    pub fn new(task_id: String) -> (r: Self)
        ensures
            r.task_id == task_id,
            r.execution_count == 0,
            r.total_duration_ms == 0,
            r.avg_duration_ms == 0,
            r.min_duration_ms == u64::MAX,
            r.max_duration_ms == 0,
    {
        TaskPerformance {
            task_id,
            execution_count: 0,
            total_duration_ms: 0,
            avg_duration_ms: 0,
            min_duration_ms: u64::MAX,
            max_duration_ms: 0,
            last_execution: now_rfc3339(),
        }
    }

    /// Count one more execution that took `duration_ms`.
    pub fn record_execution(&mut self, duration_ms: u64)
        requires
            old(self).execution_count < u64::MAX,
            old(self).total_duration_ms + duration_ms <= u64::MAX,
        ensures
            final(self).task_id == old(self).task_id,
            final(self).execution_count == old(self).execution_count + 1,
            final(self).total_duration_ms == old(self).total_duration_ms + duration_ms,
            final(self).avg_duration_ms == final(self).total_duration_ms / final(self).execution_count,
            final(self).min_duration_ms == if duration_ms < old(self).min_duration_ms {
                duration_ms
            } else {
                old(self).min_duration_ms
            },
            final(self).max_duration_ms == if duration_ms > old(self).max_duration_ms {
                duration_ms
            } else {
                old(self).max_duration_ms
            },
    {
        self.execution_count = self.execution_count + 1;
        self.total_duration_ms = self.total_duration_ms + duration_ms;
        self.avg_duration_ms = self.total_duration_ms / self.execution_count;
        if duration_ms < self.min_duration_ms {
            self.min_duration_ms = duration_ms;
        }
        if duration_ms > self.max_duration_ms {
            self.max_duration_ms = duration_ms;
        }
        self.last_execution = now_rfc3339();
    }
}

/// A breakpoint for debugging.
#[derive(Debug, Clone)]
pub struct Breakpoint {
    pub element_id: String,
    pub enabled: bool,
    /// A condition; without one the breakpoint always stops.
    pub condition: Option<String>,
    pub hit_count: u64,
}

impl Breakpoint {
    /// An enabled, unconditional breakpoint at `element_id`.
    pub fn new(element_id: String) -> (r: Self)
        ensures
            r == (Breakpoint { element_id, enabled: true, condition: None, hit_count: 0 }),
    {
        Breakpoint { element_id, enabled: true, condition: None, hit_count: 0 }
    }

    /// An enabled breakpoint at `element_id` with a condition.
    pub fn with_condition(element_id: String, condition: String) -> (r: Self)
        ensures
            r == (Breakpoint { element_id, enabled: true, condition: Some(condition), hit_count: 0 }),
    {
        Breakpoint { element_id, enabled: true, condition: Some(condition), hit_count: 0 }
    }

    /// Whether execution stops here: an enabled breakpoint stops, whatever
    /// its condition, and counts the hit; a disabled one does neither.
    pub fn register_hit(&mut self) -> (r: bool)
        requires
            old(self).enabled ==> old(self).hit_count < u64::MAX,
        ensures
            r == old(self).enabled,
            *final(self) == (Breakpoint {
                hit_count: if old(self).enabled { (old(self).hit_count + 1) as u64 } else { old(self).hit_count },
                ..*old(self)
            }),
    {
        if self.enabled {
            self.hit_count = self.hit_count + 1;
            return true;
        }
        false
    }
}

/// What a run does before its next task.
#[derive(Debug, Clone)]
pub enum RunControl {
    /// Stop the run with this error.
    Stop(AbcdodafError),
    /// Wait and look again.
    Wait,
    /// Run the next task.
    Proceed,
}

/// Before each task: a cancelled instance stops with an error, a paused one
/// waits, any other runs the task.
pub fn run_control(mode: ExecutionMode, state: ProcessState) -> (r: RunControl)
    ensures
        state == ProcessState::Cancelled ==> (r matches RunControl::Stop(AbcdodafError::WorkflowError(m)) && m@
            == "Execution cancelled"@),
        state != ProcessState::Cancelled && mode == ExecutionMode::Paused ==> r is Wait,
        state != ProcessState::Cancelled && mode != ExecutionMode::Paused ==> r is Proceed,
{
    if state == ProcessState::Cancelled {
        return RunControl::Stop(AbcdodafError::WorkflowError(owned("Execution cancelled")));
    }
    if mode == ExecutionMode::Paused {
        return RunControl::Wait;
    }
    RunControl::Proceed
}

/// The last `max` items of `s`, or all of them if there are fewer.
pub open spec fn keep_last<T>(s: Seq<T>, max: nat) -> Seq<T> {
    if s.len() > max {
        s.subrange(s.len() - max, s.len() as int)
    } else {
        s
    }
}

/// Append `event` to the trail, then drop the oldest events until at most
/// `max` remain.
pub fn record_bounded<T>(trail: &mut VecDeque<T>, event: T, max: usize)
    ensures
        final(trail)@ == keep_last(old(trail)@.push(event), max as nat),
{
    let ghost s = old(trail)@.push(event);
    trail.push_back(event);
    while trail.len() > max
        invariant
            trail@ == s.subrange(s.len() - trail@.len(), s.len() as int),
            trail@.len() <= s.len(),
            trail@.len() >= max || trail@.len() == s.len(),
        decreases trail@.len(),
    {
        let ghost before = trail@;
        let _ = trail.pop_front();
        assert(trail@ =~= s.subrange(s.len() - trail@.len(), s.len() as int));
    }
    assert(s.subrange(0, s.len() as int) =~= s);
}

/// No task comes after one with a lower mean duration: the slowest first.
pub open spec fn slowest_first(s: Seq<(String, TaskPerformance)>) -> bool {
    forall|i: int, j: int| 0 <= i < j < s.len() ==> #[trigger] s[j].1.avg_duration_ms <= #[trigger] s[i].1.avg_duration_ms
}

/// The tasks of a bottleneck analysis: the same entries, ranked by mean
/// duration, slowest first.
pub fn rank_bottlenecks(tasks: Vec<(String, TaskPerformance)>) -> (r: Vec<(String, TaskPerformance)>)
    ensures
        r@.to_multiset() == tasks@.to_multiset(),
        slowest_first(r@),
{
    let ghost all = tasks@;
    let mut rest = tasks;
    let mut r: Vec<(String, TaskPerformance)> = Vec::new();
    proof {
        vstd::seq_lib::to_multiset_len(r@);
        vstd::multiset::lemma_multiset_empty_len(r@.to_multiset());
        assert(r@.to_multiset().add(rest@.to_multiset()) =~= all.to_multiset());
    }
    while rest.len() > 0
        invariant
            r@.to_multiset().add(rest@.to_multiset()) == all.to_multiset(),
            slowest_first(r@),
        decreases rest@.len(),
    {
        let ghost rest0 = rest@;
        let item = rest.remove(0);
        proof {
            vstd::seq_lib::to_multiset_remove(rest0, 0);
            vstd::seq_lib::to_multiset_contains(rest0, rest0[0]);
        }
        let avg = item.1.avg_duration_ms;
        let mut pos: usize = 0;
        while pos < r.len() && r[pos].1.avg_duration_ms >= avg
            invariant
                pos <= r@.len(),
                forall|k: int| 0 <= k < pos ==> (#[trigger] r@[k]).1.avg_duration_ms >= avg,
            decreases r@.len() - pos,
        {
            pos = pos + 1;
        }
        let ghost r0 = r@;
        r.insert(pos, item);
        proof {
            assert(r@ == r0.insert(pos as int, item));
            vstd::seq_lib::to_multiset_insert(r0, pos as int, item);
            assert forall|i: int, j: int| 0 <= i < j < r@.len() implies
                #[trigger] r@[j].1.avg_duration_ms <= #[trigger] r@[i].1.avg_duration_ms by {
                if pos < r0.len() {
                    assert(r0[pos as int].1.avg_duration_ms < avg);
                }
                if j < pos {
                    assert(r@[i] == r0[i] && r@[j] == r0[j]);
                } else if j == pos {
                    assert(r@[i] == r0[i]);
                } else if i < pos {
                    assert(r@[i] == r0[i] && r@[j] == r0[j - 1]);
                } else if i == pos {
                    assert(r@[j] == r0[j - 1]);
                    assert(r0[j - 1].1.avg_duration_ms <= r0[pos as int].1.avg_duration_ms);
                } else {
                    assert(r@[i] == r0[i - 1] && r@[j] == r0[j - 1]);
                }
            }
            assert(r@.to_multiset().add(rest@.to_multiset()) =~= all.to_multiset());
        }
    }
    proof {
        vstd::seq_lib::to_multiset_len(rest@);
        vstd::multiset::lemma_multiset_empty_len(rest@.to_multiset());
        assert(r@.to_multiset() =~= all.to_multiset());
    }
    r
}

} // verus!
