//! The state that a running script shares with its coordinator: whether it was interrupted, and
//! how many operations it started and had answered.

use vstd::prelude::*;

use crate::error::{error_text, script_error, verdict, MongoScriptErrorKind};
use crate::text::{decimal, decimal_text, join_three};

verus! {

/// Why a run was interrupted, if it was.
#[derive(Clone, Copy, Debug, PartialEq, Eq, Structural)]
pub enum InterruptReason {
    Running,
    Cancelled,
    TimedOut,
}

/// Where a run stands.
#[derive(Debug)]
pub struct ExecutionState {
    pub interrupt_reason: InterruptReason,
    pub operation_count: usize,
    pub succeeded_operation_count: usize,
}

/// The report of an interrupted run.
pub open spec fn interrupt_text(reason: InterruptReason) -> Seq<char> {
    match reason {
        InterruptReason::Cancelled => error_text(
            MongoScriptErrorKind::Cancelled,
            "MongoDB shell execution cancelled"@,
        ),
        InterruptReason::TimedOut => error_text(
            MongoScriptErrorKind::Timeout,
            "MongoDB shell execution timed out"@,
        ),
        InterruptReason::Running => error_text(
            MongoScriptErrorKind::Runtime,
            "MongoDB shell execution interrupted"@,
        ),
    }
}

/// The report of a script that asks for more operations than it may.
pub open spec fn operation_limit_text(limit: usize) -> Seq<char> {
    error_text(
        MongoScriptErrorKind::ResourceLimit,
        "MongoDB shell operation limit of "@ + decimal_text(limit as nat) + " exceeded"@,
    )
}

impl ExecutionState {
    /// A run that has just begun.
    pub open spec fn fresh() -> Self {
        ExecutionState {
            interrupt_reason: InterruptReason::Running,
            operation_count: 0,
            succeeded_operation_count: 0,
        }
    }

    /// The state after an interruption: only the first one counts.
    pub open spec fn interrupted(self, reason: InterruptReason) -> Self {
        if self.interrupt_reason == InterruptReason::Running {
            ExecutionState { interrupt_reason: reason, ..self }
        } else {
            self
        }
    }

    /// The state after an attempt to start an operation, of which there may be `limit`.
    pub open spec fn attempted(self, limit: usize) -> Self {
        if self.operation_count < limit {
            ExecutionState { operation_count: (self.operation_count + 1) as usize, ..self }
        } else {
            self
        }
    }

    /// The state after one more operation succeeded. The counter wraps around.
    pub open spec fn succeeded(self) -> Self {
        ExecutionState {
            succeeded_operation_count: if self.succeeded_operation_count == usize::MAX {
                0
            } else {
                (self.succeeded_operation_count + 1) as usize
            },
            ..self
        }
    }

    /// No more operations were started than `limit`, and no more succeeded, with those that are
    /// not answered yet, than were started.
    pub open spec fn within_budget(self, limit: usize, unanswered: nat) -> bool {
        self.succeeded_operation_count + unanswered <= self.operation_count <= limit
    }

    /// The state of a run that has just begun.
    pub fn new() -> (state: Self)
        ensures
            state == Self::fresh(),
    {
        Self {
            interrupt_reason: InterruptReason::Running,
            operation_count: 0,
            succeeded_operation_count: 0,
        }
    }

    /// Interrupts the run, unless it was interrupted before.
    pub fn interrupt(&mut self, reason: InterruptReason)
        ensures
            *final(self) == old(self).interrupted(reason),
    {
        if self.interrupt_reason == InterruptReason::Running {
            self.interrupt_reason = reason;
        }
    }

    /// Why the run was interrupted, if it was.
    pub fn reason(&self) -> (reason: InterruptReason)
        ensures
            reason == self.interrupt_reason,
    {
        self.interrupt_reason
    }

    /// Counts one more operation, unless `limit` operations were started already.
    pub fn try_start_operation(&mut self, limit: usize) -> (outcome: Result<(), String>)
        ensures
            *final(self) == old(self).attempted(limit),
            outcome is Ok <==> old(self).operation_count < limit,
            outcome is Ok ==> final(self).operation_count == old(self).operation_count + 1,
            outcome is Err ==> *final(self) == *old(self),
            verdict(outcome) == (if old(self).operation_count < limit {
                Ok(())
            } else {
                Err(operation_limit_text(limit))
            }),
    {
        if self.operation_count < limit {
            self.operation_count = self.operation_count + 1;
            Ok(())
        } else {
            Err(
                script_error(
                    MongoScriptErrorKind::ResourceLimit,
                    join_three(
                        "MongoDB shell operation limit of ",
                        decimal(limit).as_str(),
                        " exceeded",
                    ).as_str(),
                ),
            )
        }
    }

    /// Counts one more operation that succeeded.
    pub fn record_success(&mut self)
        ensures
            *final(self) == old(self).succeeded(),
    {
        self.succeeded_operation_count = self.succeeded_operation_count.wrapping_add(1);
    }
}

/// The error of an interrupted run.
pub fn interrupt_error(reason: InterruptReason) -> (error: String)
    ensures
        error@ == interrupt_text(reason),
{
    match reason {
        InterruptReason::Cancelled => script_error(
            MongoScriptErrorKind::Cancelled,
            "MongoDB shell execution cancelled",
        ),
        InterruptReason::TimedOut => script_error(
            MongoScriptErrorKind::Timeout,
            "MongoDB shell execution timed out",
        ),
        InterruptReason::Running => script_error(
            MongoScriptErrorKind::Runtime,
            "MongoDB shell execution interrupted",
        ),
    }
}

/// The first interruption wins: once a run is interrupted, no later one changes the reason.
pub proof fn lemma_first_interruption_wins(
    state: ExecutionState,
    first: InterruptReason,
    later: InterruptReason,
)
    requires
        first != InterruptReason::Running,
    ensures
        state.interrupted(first).interrupted(later) == state.interrupted(first),
        state.interrupted(first).interrupt_reason != InterruptReason::Running,
        state.interrupt_reason == InterruptReason::Running ==> state.interrupted(
            first,
        ).interrupt_reason == first,
{
}

/// Counting operations does not touch the reason, and interrupting does not touch the counts.
pub proof fn lemma_counts_and_reason_are_independent(
    state: ExecutionState,
    reason: InterruptReason,
    limit: usize,
)
    ensures
        state.attempted(limit).interrupt_reason == state.interrupt_reason,
        state.succeeded().interrupt_reason == state.interrupt_reason,
        state.interrupted(reason).operation_count == state.operation_count,
        state.interrupted(reason).succeeded_operation_count == state.succeeded_operation_count,
{
}

/// The state after `times` attempts to start an operation.
pub open spec fn after_attempts(state: ExecutionState, limit: usize, times: nat) -> ExecutionState
    decreases times,
{
    if times == 0 {
        state
    } else {
        after_attempts(state, limit, (times - 1) as nat).attempted(limit)
    }
}

/// Of any number of attempts from the start on, as many are counted as the limit allows.
pub proof fn lemma_operation_budget(limit: usize, times: nat)
    ensures
        after_attempts(ExecutionState::fresh(), limit, times).operation_count == (if times < limit {
            times
        } else {
            limit as nat
        }),
    decreases times,
{
    if times > 0 {
        lemma_operation_budget(limit, (times - 1) as nat);
    }
}

/// Every step of a run keeps to the budget: a fresh run does; starting an operation does, and
/// leaves one more unanswered exactly if it was counted; an operation that succeeds is one fewer
/// to answer, as is one that fails; an interruption changes nothing.
pub proof fn lemma_budget_is_kept(
    state: ExecutionState,
    limit: usize,
    unanswered: nat,
    reason: InterruptReason,
)
    ensures
        ExecutionState::fresh().within_budget(limit, 0),
        state.within_budget(limit, unanswered) ==> {
            &&& state.attempted(limit).within_budget(
                limit,
                if state.operation_count < limit {
                    unanswered + 1
                } else {
                    unanswered
                },
            )
            &&& unanswered > 0 ==> state.succeeded().within_budget(limit, (unanswered - 1) as nat)
            &&& unanswered > 0 ==> state.within_budget(limit, (unanswered - 1) as nat)
            &&& state.interrupted(reason).within_budget(limit, unanswered)
        },
{
}

/// An interrupted run is reported as cancelled or timed out, after its reason.
pub proof fn lemma_interrupt_kind(reason: InterruptReason)
    ensures
        crate::error::kind_of(interrupt_text(reason)) == Some(
            match reason {
                InterruptReason::Cancelled => MongoScriptErrorKind::Cancelled,
                InterruptReason::TimedOut => MongoScriptErrorKind::Timeout,
                InterruptReason::Running => MongoScriptErrorKind::Runtime,
            },
        ),
{
    crate::error::lemma_error_round_trip(
        MongoScriptErrorKind::Cancelled,
        "MongoDB shell execution cancelled"@,
    );
    crate::error::lemma_error_round_trip(
        MongoScriptErrorKind::Timeout,
        "MongoDB shell execution timed out"@,
    );
    crate::error::lemma_error_round_trip(
        MongoScriptErrorKind::Runtime,
        "MongoDB shell execution interrupted"@,
    );
}

/// An attempt counts exactly one operation if fewer than the limit were counted, and none
/// otherwise; a success counts one more success, and the counter starts again at 0 behind its
/// largest value; neither touches anything else.
pub proof fn lemma_steps_count_by_one(state: ExecutionState, limit: usize)
    ensures
        state.attempted(limit).operation_count == (if state.operation_count < limit {
            state.operation_count + 1
        } else {
            state.operation_count as int
        }),
        state.attempted(limit).succeeded_operation_count == state.succeeded_operation_count,
        state.attempted(limit).interrupt_reason == state.interrupt_reason,
        state.succeeded_operation_count < usize::MAX
            ==> state.succeeded().succeeded_operation_count == state.succeeded_operation_count + 1,
        state.succeeded_operation_count == usize::MAX
            ==> state.succeeded().succeeded_operation_count == 0,
        state.succeeded().operation_count == state.operation_count,
        state.succeeded().interrupt_reason == state.interrupt_reason,
{
}

/// An interruption sets the reason of a run that was not interrupted, and nothing else; it leaves
/// an interrupted run as it is.
pub proof fn lemma_interruption_sets_only_the_reason(
    state: ExecutionState,
    reason: InterruptReason,
)
    ensures
        state.interrupt_reason == InterruptReason::Running ==> state.interrupted(
            reason,
        ).interrupt_reason == reason,
        state.interrupt_reason != InterruptReason::Running ==> state.interrupted(reason) == state,
        state.interrupted(reason).operation_count == state.operation_count,
        state.interrupted(reason).succeeded_operation_count == state.succeeded_operation_count,
{
}

/// What the errors of interrupted runs and of too many operations read as.
pub proof fn lemma_execution_texts(limit: usize)
    ensures
        interrupt_text(InterruptReason::Cancelled)
            == "[mongo_script.cancelled] MongoDB shell execution cancelled"@,
        interrupt_text(InterruptReason::TimedOut)
            == "[mongo_script.timeout] MongoDB shell execution timed out"@,
        interrupt_text(InterruptReason::Running)
            == "[mongo_script.runtime] MongoDB shell execution interrupted"@,
        operation_limit_text(limit)
            == "[mongo_script.resource_limit] MongoDB shell operation limit of "@ + decimal_text(
            limit as nat,
        ) + " exceeded"@,
{
    reveal_strlit("[mongo_script.");
    reveal_strlit("cancelled");
    reveal_strlit("runtime");
    reveal_strlit("MongoDB shell execution interrupted");
    reveal_strlit("[mongo_script.runtime] MongoDB shell execution interrupted");
    reveal_strlit("timeout");
    reveal_strlit("resource_limit");
    reveal_strlit("]");
    reveal_strlit(" ");
    reveal_strlit("MongoDB shell execution cancelled");
    reveal_strlit("MongoDB shell execution timed out");
    reveal_strlit("MongoDB shell operation limit of ");
    reveal_strlit("[mongo_script.cancelled] MongoDB shell execution cancelled");
    reveal_strlit("[mongo_script.timeout] MongoDB shell execution timed out");
    reveal_strlit("[mongo_script.resource_limit] MongoDB shell operation limit of ");
    assert(interrupt_text(InterruptReason::Cancelled)
        =~= "[mongo_script.cancelled] MongoDB shell execution cancelled"@);
    assert(interrupt_text(InterruptReason::TimedOut)
        =~= "[mongo_script.timeout] MongoDB shell execution timed out"@);
    assert(interrupt_text(InterruptReason::Running)
        =~= "[mongo_script.runtime] MongoDB shell execution interrupted"@);
    assert(operation_limit_text(limit)
        =~= "[mongo_script.resource_limit] MongoDB shell operation limit of "@ + decimal_text(
        limit as nat,
    ) + " exceeded"@);
}

/// Whatever `try_start_operation` does: an operation starts exactly if fewer than the limit were
/// started, and is counted if it does; otherwise nothing changes, and the error names the limit.
pub proof fn lemma_operations_start_below_the_limit(
    state: &mut ExecutionState,
    limit: usize,
    outcome: Result<(), String>,
)
    requires
        call_ensures(ExecutionState::try_start_operation, (state, limit), outcome),
    ensures
        outcome is Ok <==> old(state).operation_count < limit,
        outcome is Ok ==> final(state).operation_count == old(state).operation_count + 1,
        final(state).succeeded_operation_count == old(state).succeeded_operation_count,
        final(state).interrupt_reason == old(state).interrupt_reason,
        outcome is Err ==> {
            &&& *final(state) == *old(state)
            &&& outcome->Err_0@
                == "[mongo_script.resource_limit] MongoDB shell operation limit of "@
                + decimal_text(limit as nat) + " exceeded"@
        },
{
    lemma_execution_texts(limit);
}

/// Whatever `interrupt` and `interrupt_error` do: the first interruption sets the reason and nothing
/// else, a later one nothing; and the error says why a run was interrupted.
pub proof fn lemma_interruptions_are_kept_and_told(
    state: &mut ExecutionState,
    reason: InterruptReason,
    error: String,
)
    requires
        call_ensures(ExecutionState::interrupt, (state, reason), ()),
        call_ensures(interrupt_error, (reason,), error),
    ensures
        old(state).interrupt_reason == InterruptReason::Running ==> final(state).interrupt_reason
            == reason,
        old(state).interrupt_reason != InterruptReason::Running ==> final(state).interrupt_reason
            == old(state).interrupt_reason,
        final(state).operation_count == old(state).operation_count,
        final(state).succeeded_operation_count == old(state).succeeded_operation_count,
        reason == InterruptReason::Cancelled ==> error@
            == "[mongo_script.cancelled] MongoDB shell execution cancelled"@,
        reason == InterruptReason::TimedOut ==> error@
            == "[mongo_script.timeout] MongoDB shell execution timed out"@,
        reason == InterruptReason::Running ==> error@
            == "[mongo_script.runtime] MongoDB shell execution interrupted"@,
{
    lemma_execution_texts(0);
}

/// Whatever `record_success` does: one more success is counted, and nothing else changes.
pub proof fn lemma_successes_count_by_one(state: &mut ExecutionState)
    requires
        call_ensures(ExecutionState::record_success, (state,), ()),
    ensures
        old(state).succeeded_operation_count < usize::MAX ==> final(state).succeeded_operation_count
            == old(state).succeeded_operation_count + 1,
        old(state).succeeded_operation_count == usize::MAX
            ==> final(state).succeeded_operation_count == 0,
        final(state).operation_count == old(state).operation_count,
        final(state).interrupt_reason == old(state).interrupt_reason,
{
}

} // verus!
