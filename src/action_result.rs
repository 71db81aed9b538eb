//! Uniform result envelope for actions: a kind, a message and optional data.
use vstd::prelude::*;

verus! {

#[derive(Debug, Clone, Copy, PartialEq, Eq, Structural)]
pub enum ActionResultType {
    Success,
    Error,
    Info,
}

#[derive(Debug, Clone, PartialEq, Eq)]
pub struct ActionExecutionResult<T> {
    pub result_type: ActionResultType,
    pub message: String,
    pub data: Option<T>,
    pub fallback_used: bool,
}

/// A successful result carrying `data`.
pub fn action_success<T>(message: &str, data: Option<T>) -> (r: ActionExecutionResult<T>)
    ensures
        r.result_type == ActionResultType::Success,
        r.message@ == message@,
        r.data == data,
        !r.fallback_used,
{
    ActionExecutionResult {
        result_type: ActionResultType::Success,
        message: String::from_str(message),
        data,
        fallback_used: false,
    }
}

/// An informational result carrying `data`.
pub fn action_info<T>(message: &str, data: Option<T>) -> (r: ActionExecutionResult<T>)
    ensures
        r.result_type == ActionResultType::Info,
        r.message@ == message@,
        r.data == data,
        !r.fallback_used,
{
    ActionExecutionResult {
        result_type: ActionResultType::Info,
        message: String::from_str(message),
        data,
        fallback_used: false,
    }
}

/// A failed result: no data, only the message.
pub fn action_error<T>(message: &str) -> (r: ActionExecutionResult<T>)
    ensures
        r.result_type == ActionResultType::Error,
        r.message@ == message@,
        r.data is None,
        !r.fallback_used,
{
    ActionExecutionResult {
        result_type: ActionResultType::Error,
        message: String::from_str(message),
        data: None,
        fallback_used: false,
    }
}

} // verus!
