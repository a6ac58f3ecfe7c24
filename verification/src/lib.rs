//! The rules of a MongoDB shell script run: which requests and limits are accepted, which values
//! and outputs are let through, how errors are labelled and classified, and how a run reacts to
//! host replies, cancellation, deadlines and the end of the JavaScript worker.

pub mod coordinator;
pub mod error;
pub mod execution;
pub mod host_call;
pub mod json;
pub mod limits;
pub mod operation;
pub mod output;
pub mod request;
pub mod shape;
pub mod text;
pub mod worker;

pub use coordinator::{Coordinator, HostOutcome, HostSettlement, RunAction, RunEvent};
pub use error::{
    mongo_script_error_kind, script_error, script_error_from_js, MongoScriptErrorKind,
};
pub use execution::{interrupt_error, ExecutionState, InterruptReason};
pub use host_call::{
    begin_host_call, finish_host_call, print_output, print_without_output, ExceptionClass,
    HostAnswer, ScriptException,
};
pub use json::{validate_json_shape, validate_json_value};
pub use limits::MongoScriptLimits;
pub use operation::MongoScriptOperation;
pub use output::{MongoScriptOutput, OutputState};
pub use request::{run_timeout, validate_request, MongoScriptRequest};
pub use worker::{
    conclude_runtime, finish_worker, MongoScriptResult, RuntimeOutcome, WorkerResult,
};
