//! Requests to run a script, and how long such a run may take.

use core::time::Duration;
use vstd::prelude::*;

use crate::error::{error_text, script_error, verdict, MongoScriptErrorKind};
use crate::limits::{duration_nanos, limits_verdict, MongoScriptLimits};
use crate::text::{blank, is_blank};

verus! {

/// A request to run a script.
#[derive(Clone, Debug)]
pub struct MongoScriptRequest {
    pub connection_id: String,
    pub database: String,
    pub source: String,
    pub execution_id: Option<String>,
    pub max_rows: usize,
    pub timeout_secs: Option<u64>,
}

/// The verdict on a request: the limits come first, then the request's own fields in order.
pub open spec fn request_verdict(
    request: MongoScriptRequest,
    limits: MongoScriptLimits,
) -> Result<(), Seq<char>> {
    if limits_verdict(limits) is Err {
        limits_verdict(limits)
    } else if is_blank(request.connection_id@) {
        Err(error_text(MongoScriptErrorKind::InvalidRequest, "connection_id must not be empty"@))
    } else if is_blank(request.database@) {
        Err(error_text(MongoScriptErrorKind::InvalidRequest, "database must not be empty"@))
    } else if is_blank(request.source@) {
        Err(error_text(MongoScriptErrorKind::InvalidRequest, "source must not be empty"@))
    } else if request.max_rows == 0 {
        Err(error_text(MongoScriptErrorKind::InvalidRequest, "max_rows must be greater than zero"@))
    } else {
        Ok(())
    }
}

/// The nanoseconds that a run may take: what was asked for, if anything, but never more than the
/// safety timeout.
pub open spec fn allowed_nanos(timeout_secs: Option<u64>, safety_nanos: u128) -> int {
    match timeout_secs {
        Some(secs) if 0 < secs && secs * 1_000_000_000 < safety_nanos => secs * 1_000_000_000,
        _ => safety_nanos as int,
    }
}

/// Accepts a request with valid limits, no blank field and room for at least one row.
pub fn validate_request(request: &MongoScriptRequest, limits: &MongoScriptLimits) -> (outcome:
    Result<(), String>)
    ensures
        verdict(outcome) == request_verdict(*request, *limits),
{
    match limits.validate() {
        Ok(()) => {},
        Err(error) => {
            return Err(error);
        },
    }
    if blank(request.connection_id.as_str()) {
        return Err(
            script_error(MongoScriptErrorKind::InvalidRequest, "connection_id must not be empty"),
        );
    }
    if blank(request.database.as_str()) {
        return Err(
            script_error(MongoScriptErrorKind::InvalidRequest, "database must not be empty"),
        );
    }
    if blank(request.source.as_str()) {
        return Err(script_error(MongoScriptErrorKind::InvalidRequest, "source must not be empty"));
    }
    if request.max_rows == 0 {
        return Err(
            script_error(
                MongoScriptErrorKind::InvalidRequest,
                "max_rows must be greater than zero",
            ),
        );
    }
    Ok(())
}

/// How long the run of `request` may take.
pub fn run_timeout(request: &MongoScriptRequest, limits: &MongoScriptLimits) -> (timeout: Duration)
    ensures
        duration_nanos(timeout) == allowed_nanos(
            request.timeout_secs,
            duration_nanos(limits.safety_timeout),
        ),
{
    if let Some(secs) = request.timeout_secs {
        if secs > 0 {
            let requested = Duration::from_secs(secs);
            if requested.as_nanos() < limits.safety_timeout.as_nanos() {
                return requested;
            }
        }
    }
    limits.safety_timeout
}

/// A run never takes longer than the safety timeout, and of a valid request never no time at all.
pub proof fn lemma_timeout_is_bounded(request: MongoScriptRequest, limits: MongoScriptLimits)
    ensures
        allowed_nanos(request.timeout_secs, duration_nanos(limits.safety_timeout))
            <= duration_nanos(limits.safety_timeout),
        request_verdict(request, limits) is Ok ==> 0 < allowed_nanos(
            request.timeout_secs,
            duration_nanos(limits.safety_timeout),
        ),
{
}

/// Whatever a request is refused for is reported as an invalid request.
pub proof fn lemma_refusals_are_invalid_requests(
    request: MongoScriptRequest,
    limits: MongoScriptLimits,
)
    ensures
        request_verdict(request, limits) matches Err(error) ==> crate::error::kind_of(error)
            == Some(MongoScriptErrorKind::InvalidRequest),
{
    if let Err(error) = request_verdict(request, limits) {
        assert(exists|message: Seq<char>|
            error == error_text(MongoScriptErrorKind::InvalidRequest, message));
        let message = choose|message: Seq<char>|
            error == error_text(MongoScriptErrorKind::InvalidRequest, message);
        crate::error::lemma_error_round_trip(MongoScriptErrorKind::InvalidRequest, message);
    }
}

/// A request is accepted exactly if no limit is zero, its connection, database and source each
/// hold a character that is no white space, and it asks for at least one row.
pub proof fn lemma_accepted_requests(request: MongoScriptRequest, limits: MongoScriptLimits)
    ensures
        request_verdict(request, limits) is Ok <==> {
            &&& limits.memory_limit_bytes > 0
            &&& limits.stack_limit_bytes > 0
            &&& limits.max_operations > 0
            &&& limits.max_output_items > 0
            &&& limits.max_output_bytes > 0
            &&& limits.max_value_depth > 0
            &&& limits.max_value_nodes > 0
            &&& limits.max_value_bytes > 0
            &&& duration_nanos(limits.safety_timeout) > 0
            &&& exists|i: int|
                0 <= i < request.connection_id@.len() && !crate::text::is_white_space(
                    #[trigger] request.connection_id@[i],
                )
            &&& exists|i: int|
                0 <= i < request.database@.len() && !crate::text::is_white_space(
                    #[trigger] request.database@[i],
                )
            &&& exists|i: int|
                0 <= i < request.source@.len() && !crate::text::is_white_space(
                    #[trigger] request.source@[i],
                )
            &&& request.max_rows > 0
        },
{
    crate::limits::lemma_positive_limits_are_accepted(limits);
}

/// A request with valid limits is refused for its first field that is blank, and for asking for
/// no rows only if none is; a request with invalid limits is refused as its limits are.
pub proof fn lemma_first_bad_field_is_named(request: MongoScriptRequest, limits: MongoScriptLimits)
    ensures
        limits_verdict(limits) is Err ==> request_verdict(request, limits) == limits_verdict(limits),
        limits_verdict(limits) is Ok && is_blank(request.connection_id@) ==> request_verdict(
            request,
            limits,
        ) == Err::<(), Seq<char>>(
            "[mongo_script.invalid_request] "@ + "connection_id must not be empty"@,
        ),
        limits_verdict(limits) is Ok && !is_blank(request.connection_id@) && is_blank(
            request.database@,
        ) ==> request_verdict(request, limits) == Err::<(), Seq<char>>(
            "[mongo_script.invalid_request] "@ + "database must not be empty"@,
        ),
        limits_verdict(limits) is Ok && !is_blank(request.connection_id@) && !is_blank(
            request.database@,
        ) && is_blank(request.source@) ==> request_verdict(request, limits) == Err::<
            (),
            Seq<char>,
        >("[mongo_script.invalid_request] "@ + "source must not be empty"@),
        limits_verdict(limits) is Ok && !is_blank(request.connection_id@) && !is_blank(
            request.database@,
        ) && !is_blank(request.source@) && request.max_rows == 0 ==> request_verdict(
            request,
            limits,
        ) == Err::<(), Seq<char>>(
            "[mongo_script.invalid_request] "@ + "max_rows must be greater than zero"@,
        ),
{
    crate::limits::lemma_invalid_request_text("connection_id must not be empty"@);
    crate::limits::lemma_invalid_request_text("database must not be empty"@);
    crate::limits::lemma_invalid_request_text("source must not be empty"@);
    crate::limits::lemma_invalid_request_text("max_rows must be greater than zero"@);
}

/// A run may take what was asked for or the safety timeout, whichever is shorter; and the safety
/// timeout where nothing, or no time at all, was asked for.
pub proof fn lemma_timeout_is_the_shorter(secs: u64, safety_nanos: u128)
    ensures
        allowed_nanos(None, safety_nanos) == safety_nanos,
        allowed_nanos(Some(0), safety_nanos) == safety_nanos,
        secs > 0 ==> {
            &&& allowed_nanos(Some(secs), safety_nanos) <= secs * 1_000_000_000
            &&& allowed_nanos(Some(secs), safety_nanos) <= safety_nanos
            &&& {
                ||| allowed_nanos(Some(secs), safety_nanos) == secs * 1_000_000_000
                ||| allowed_nanos(Some(secs), safety_nanos) == safety_nanos
            }
        },
{
}

/// Whatever `validate_request` returns: it accepts a request exactly if no limit is zero, the
/// request's connection, database and source each hold a character that is no white space, and it
/// asks for at least one row.
pub proof fn lemma_validation_accepts_complete_requests(
    request: MongoScriptRequest,
    limits: MongoScriptLimits,
    outcome: Result<(), String>,
)
    requires
        call_ensures(validate_request, (&request, &limits), outcome),
    ensures
        outcome is Ok <==> {
            &&& limits.memory_limit_bytes > 0
            &&& limits.stack_limit_bytes > 0
            &&& limits.max_operations > 0
            &&& limits.max_output_items > 0
            &&& limits.max_output_bytes > 0
            &&& limits.max_value_depth > 0
            &&& limits.max_value_nodes > 0
            &&& limits.max_value_bytes > 0
            &&& duration_nanos(limits.safety_timeout) > 0
            &&& exists|i: int|
                0 <= i < request.connection_id@.len() && !crate::text::is_white_space(
                    #[trigger] request.connection_id@[i],
                )
            &&& exists|i: int|
                0 <= i < request.database@.len() && !crate::text::is_white_space(
                    #[trigger] request.database@[i],
                )
            &&& exists|i: int|
                0 <= i < request.source@.len() && !crate::text::is_white_space(
                    #[trigger] request.source@[i],
                )
            &&& request.max_rows > 0
        },
        outcome is Err ==> crate::error::kind_of(outcome->Err_0@) == Some(
            MongoScriptErrorKind::InvalidRequest,
        ),
{
    lemma_accepted_requests(request, limits);
    lemma_refusals_are_invalid_requests(request, limits);
}

/// Whatever `run_timeout` returns: it is the safety timeout where no time was asked for, and
/// otherwise the shorter of the two.
pub proof fn lemma_run_takes_the_shorter_timeout(
    request: MongoScriptRequest,
    limits: MongoScriptLimits,
    timeout: Duration,
)
    requires
        call_ensures(run_timeout, (&request, &limits), timeout),
    ensures
        request.timeout_secs is None || request.timeout_secs == Some(0u64) ==> duration_nanos(
            timeout,
        ) == duration_nanos(limits.safety_timeout),
        request.timeout_secs matches Some(secs) ==> secs > 0 ==> duration_nanos(timeout)
            == vstd::math::min(
            secs * 1_000_000_000,
            duration_nanos(limits.safety_timeout) as int,
        ),
{
    if let Some(secs) = request.timeout_secs {
        lemma_timeout_is_the_shorter(secs, duration_nanos(limits.safety_timeout));
    }
}

} // verus!
