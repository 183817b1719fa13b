//! The uniform outcome of a mutating operation.

use vstd::prelude::*;

verus! {

/// Whether an operation succeeded, and one sentence saying so.
#[derive(Debug, Clone)]
pub struct DriverOperationResult {
    pub success: bool,
    pub message: String,
}

/// The outcome `success` with message `head + detail`.
pub fn operation_result(success: bool, head: &str, detail: &str) -> (r: DriverOperationResult)
    ensures
        r.success == success,
        r.message@ == head@ + detail@,
{
    DriverOperationResult { success, message: head.to_string().concat(detail) }
}

} // verus!
