//! The limits that a script run is held to.

use core::time::Duration;
use vstd::prelude::*;

use crate::error::{error_text, script_error, verdict, MongoScriptErrorKind};
use crate::text::join;

verus! {

/// The time that `duration` spans, in nanoseconds.
pub uninterp spec fn duration_nanos(duration: Duration) -> u128;

/// `Duration::as_nanos`: the total number of nanoseconds that the duration spans.
pub assume_specification[ Duration::as_nanos ](duration: &Duration) -> (nanos: u128)
    ensures
        nanos == duration_nanos(*duration),
;

/// `Duration::from_secs`: a duration of that many whole seconds.
pub assume_specification[ Duration::from_secs ](secs: u64) -> (duration: Duration)
    ensures
        duration_nanos(duration) == secs * 1_000_000_000,
;

pub const DEFAULT_MEMORY_LIMIT_BYTES: usize = 64 * 1024 * 1024;

pub const DEFAULT_STACK_LIMIT_BYTES: usize = 512 * 1024;

pub const DEFAULT_MAX_OPERATIONS: usize = 10_000;

pub const DEFAULT_MAX_OUTPUT_ITEMS: usize = 1_000;

pub const DEFAULT_MAX_OUTPUT_BYTES: usize = 1024 * 1024;

pub const DEFAULT_MAX_VALUE_DEPTH: usize = 64;

pub const DEFAULT_MAX_VALUE_NODES: usize = 100_000;

pub const DEFAULT_MAX_VALUE_BYTES: usize = 4 * 1024 * 1024;

pub const DEFAULT_SAFETY_TIMEOUT_SECS: u64 = 30;

/// What a script run may use and produce.
#[derive(Debug)]
pub struct MongoScriptLimits {
    pub memory_limit_bytes: usize,
    pub stack_limit_bytes: usize,
    pub max_operations: usize,
    pub max_output_items: usize,
    pub max_output_bytes: usize,
    pub max_value_depth: usize,
    pub max_value_nodes: usize,
    pub max_value_bytes: usize,
    pub safety_timeout: Duration,
}

/// The first limit, in declaration order, that is zero.
pub open spec fn first_zero_limit(limits: MongoScriptLimits) -> Option<Seq<char>> {
    if limits.memory_limit_bytes == 0 {
        Some("memory_limit_bytes"@)
    } else if limits.stack_limit_bytes == 0 {
        Some("stack_limit_bytes"@)
    } else if limits.max_operations == 0 {
        Some("max_operations"@)
    } else if limits.max_output_items == 0 {
        Some("max_output_items"@)
    } else if limits.max_output_bytes == 0 {
        Some("max_output_bytes"@)
    } else if limits.max_value_depth == 0 {
        Some("max_value_depth"@)
    } else if limits.max_value_nodes == 0 {
        Some("max_value_nodes"@)
    } else if limits.max_value_bytes == 0 {
        Some("max_value_bytes"@)
    } else if duration_nanos(limits.safety_timeout) == 0 {
        Some("safety_timeout"@)
    } else {
        None
    }
}

/// The verdict on `limits`: the first zero among them is an invalid request.
pub open spec fn limits_verdict(limits: MongoScriptLimits) -> Result<(), Seq<char>> {
    match first_zero_limit(limits) {
        Some(name) => Err(
            error_text(MongoScriptErrorKind::InvalidRequest, name + " must be greater than zero"@),
        ),
        None => Ok(()),
    }
}

impl Clone for MongoScriptLimits {
    fn clone(&self) -> (copy: Self)
        ensures
            copy == *self,
    {
        Self {
            memory_limit_bytes: self.memory_limit_bytes,
            stack_limit_bytes: self.stack_limit_bytes,
            max_operations: self.max_operations,
            max_output_items: self.max_output_items,
            max_output_bytes: self.max_output_bytes,
            max_value_depth: self.max_value_depth,
            max_value_nodes: self.max_value_nodes,
            max_value_bytes: self.max_value_bytes,
            safety_timeout: self.safety_timeout,
        }
    }
}

impl Default for MongoScriptLimits {
    fn default() -> (limits: Self)
        ensures
            limits.memory_limit_bytes == DEFAULT_MEMORY_LIMIT_BYTES,
            limits.stack_limit_bytes == DEFAULT_STACK_LIMIT_BYTES,
            limits.max_operations == DEFAULT_MAX_OPERATIONS,
            limits.max_output_items == DEFAULT_MAX_OUTPUT_ITEMS,
            limits.max_output_bytes == DEFAULT_MAX_OUTPUT_BYTES,
            limits.max_value_depth == DEFAULT_MAX_VALUE_DEPTH,
            limits.max_value_nodes == DEFAULT_MAX_VALUE_NODES,
            limits.max_value_bytes == DEFAULT_MAX_VALUE_BYTES,
            duration_nanos(limits.safety_timeout) == DEFAULT_SAFETY_TIMEOUT_SECS * 1_000_000_000,
            limits_verdict(limits) is Ok,
            limits.memory_limit_bytes == 67_108_864,
            limits.stack_limit_bytes == 524_288,
            limits.max_operations == 10_000,
            limits.max_output_items == 1_000,
            limits.max_output_bytes == 1_048_576,
            limits.max_value_depth == 64,
            limits.max_value_nodes == 100_000,
            limits.max_value_bytes == 4_194_304,
            duration_nanos(limits.safety_timeout) == 30_000_000_000,
    {
        Self {
            memory_limit_bytes: DEFAULT_MEMORY_LIMIT_BYTES,
            stack_limit_bytes: DEFAULT_STACK_LIMIT_BYTES,
            max_operations: DEFAULT_MAX_OPERATIONS,
            max_output_items: DEFAULT_MAX_OUTPUT_ITEMS,
            max_output_bytes: DEFAULT_MAX_OUTPUT_BYTES,
            max_value_depth: DEFAULT_MAX_VALUE_DEPTH,
            max_value_nodes: DEFAULT_MAX_VALUE_NODES,
            max_value_bytes: DEFAULT_MAX_VALUE_BYTES,
            safety_timeout: Duration::from_secs(DEFAULT_SAFETY_TIMEOUT_SECS),
        }
    }
}

fn must_be_positive(name: &str) -> (error: String)
    ensures
        error@ == error_text(
            MongoScriptErrorKind::InvalidRequest,
            name@ + " must be greater than zero"@,
        ),
{
    script_error(
        MongoScriptErrorKind::InvalidRequest,
        join(name, " must be greater than zero").as_str(),
    )
}

impl MongoScriptLimits {
    /// Accepts limits of which none is zero; otherwise names the first that is.
    pub fn validate(&self) -> (outcome: Result<(), String>)
        ensures
            verdict(outcome) == limits_verdict(*self),
    {
        if self.memory_limit_bytes == 0 {
            return Err(must_be_positive("memory_limit_bytes"));
        }
        if self.stack_limit_bytes == 0 {
            return Err(must_be_positive("stack_limit_bytes"));
        }
        if self.max_operations == 0 {
            return Err(must_be_positive("max_operations"));
        }
        if self.max_output_items == 0 {
            return Err(must_be_positive("max_output_items"));
        }
        if self.max_output_bytes == 0 {
            return Err(must_be_positive("max_output_bytes"));
        }
        if self.max_value_depth == 0 {
            return Err(must_be_positive("max_value_depth"));
        }
        if self.max_value_nodes == 0 {
            return Err(must_be_positive("max_value_nodes"));
        }
        if self.max_value_bytes == 0 {
            return Err(must_be_positive("max_value_bytes"));
        }
        if self.safety_timeout.as_nanos() == 0 {
            return Err(must_be_positive("safety_timeout"));
        }
        Ok(())
    }
}

/// The limits by name, in the order in which they are looked at.
pub open spec fn limits_by_name(limits: MongoScriptLimits) -> Seq<(Seq<char>, int)> {
    seq![
        ("memory_limit_bytes"@, limits.memory_limit_bytes as int),
        ("stack_limit_bytes"@, limits.stack_limit_bytes as int),
        ("max_operations"@, limits.max_operations as int),
        ("max_output_items"@, limits.max_output_items as int),
        ("max_output_bytes"@, limits.max_output_bytes as int),
        ("max_value_depth"@, limits.max_value_depth as int),
        ("max_value_nodes"@, limits.max_value_nodes as int),
        ("max_value_bytes"@, limits.max_value_bytes as int),
        ("safety_timeout"@, duration_nanos(limits.safety_timeout) as int),
    ]
}

/// Limits are accepted exactly if none of them is zero, however large they are.
pub proof fn lemma_positive_limits_are_accepted(limits: MongoScriptLimits)
    ensures
        limits_verdict(limits) is Ok <==> {
            &&& limits.memory_limit_bytes > 0
            &&& limits.stack_limit_bytes > 0
            &&& limits.max_operations > 0
            &&& limits.max_output_items > 0
            &&& limits.max_output_bytes > 0
            &&& limits.max_value_depth > 0
            &&& limits.max_value_nodes > 0
            &&& limits.max_value_bytes > 0
            &&& duration_nanos(limits.safety_timeout) > 0
        },
{
}

/// The limit that is named in a refusal is zero, and none before it is.
pub proof fn lemma_first_zero_limit_is_named(limits: MongoScriptLimits, at: int)
    requires
        0 <= at < limits_by_name(limits).len(),
        limits_by_name(limits)[at].1 == 0,
        forall|earlier: int|
            0 <= earlier < at ==> (#[trigger] limits_by_name(limits)[earlier]).1 > 0,
    ensures
        limits_verdict(limits) == Err::<(), Seq<char>>(
            "[mongo_script.invalid_request] "@ + limits_by_name(limits)[at].0
                + " must be greater than zero"@,
        ),
{
    let named = limits_by_name(limits);
    assert(at > 0 ==> named[0].1 > 0);
    assert(at > 1 ==> named[1].1 > 0);
    assert(at > 2 ==> named[2].1 > 0);
    assert(at > 3 ==> named[3].1 > 0);
    assert(at > 4 ==> named[4].1 > 0);
    assert(at > 5 ==> named[5].1 > 0);
    assert(at > 6 ==> named[6].1 > 0);
    assert(at > 7 ==> named[7].1 > 0);
    lemma_invalid_request_text(named[at].0 + " must be greater than zero"@);
    assert("[mongo_script.invalid_request] "@ + named[at].0 + " must be greater than zero"@
        =~= "[mongo_script.invalid_request] "@ + (named[at].0 + " must be greater than zero"@));
}

/// What an invalid request's error reads as.
pub proof fn lemma_invalid_request_text(message: Seq<char>)
    ensures
        error_text(MongoScriptErrorKind::InvalidRequest, message)
            == "[mongo_script.invalid_request] "@ + message,
{
    reveal_strlit("[mongo_script.");
    reveal_strlit("invalid_request");
    reveal_strlit("]");
    reveal_strlit(" ");
    reveal_strlit("[mongo_script.invalid_request] ");
    assert(error_text(MongoScriptErrorKind::InvalidRequest, message)
        =~= "[mongo_script.invalid_request] "@ + message);
}

/// Whatever `validate` returns: it accepts limits exactly if none of them is zero, however large
/// they are, and names the first that is.
pub proof fn lemma_validation_names_the_first_zero(
    limits: MongoScriptLimits,
    outcome: Result<(), String>,
    at: int,
)
    requires
        call_ensures(MongoScriptLimits::validate, (&limits,), outcome),
    ensures
        outcome is Ok <==> {
            &&& limits.memory_limit_bytes > 0
            &&& limits.stack_limit_bytes > 0
            &&& limits.max_operations > 0
            &&& limits.max_output_items > 0
            &&& limits.max_output_bytes > 0
            &&& limits.max_value_depth > 0
            &&& limits.max_value_nodes > 0
            &&& limits.max_value_bytes > 0
            &&& duration_nanos(limits.safety_timeout) > 0
        },
        0 <= at < limits_by_name(limits).len() && limits_by_name(limits)[at].1 == 0 && (forall|
            earlier: int,
        |
            0 <= earlier < at ==> (#[trigger] limits_by_name(limits)[earlier]).1 > 0)
            ==> outcome is Err && outcome->Err_0@ == "[mongo_script.invalid_request] "@
            + limits_by_name(limits)[at].0 + " must be greater than zero"@,
{
    lemma_positive_limits_are_accepted(limits);
    if 0 <= at < limits_by_name(limits).len() && limits_by_name(limits)[at].1 == 0 && (forall|
        earlier: int,
    |
        0 <= earlier < at ==> (#[trigger] limits_by_name(limits)[earlier]).1 > 0) {
        lemma_first_zero_limit_is_named(limits, at);
    }
}

} // verus!
